//! Which captures of a corpus share a battle id, and the battle-id order of a corpus.

use vstd::prelude::*;

verus! {

/// Whether `ids[i]` occurs at another position too.
pub open spec fn occurs_elsewhere(ids: Seq<u64>, i: int) -> bool {
    exists|j: int| 0 <= j < ids.len() && j != i && ids[j] == ids[i]
}

/// For each capture's battle id, whether another capture has the same one: such captures
/// are all refused, none of them preferred.
pub fn duplicated_battle_ids(ids: &Vec<u64>) -> (r: Vec<bool>)
    ensures
        r@.len() == ids@.len(),
        forall|i: int| 0 <= i < ids@.len() ==> r@[i] == occurs_elsewhere(ids@, i),
{
    let mut out: Vec<bool> = Vec::new();
    let mut i: usize = 0;
    while i < ids.len()
        invariant
            i <= ids@.len(),
            out@.len() == i,
            forall|k: int| 0 <= k < i ==> out@[k] == occurs_elsewhere(ids@, k),
        decreases ids@.len() - i,
    {
        let mut found = false;
        let mut j: usize = 0;
        while j < ids.len()
            invariant
                i < ids@.len(),
                j <= ids@.len(),
                found <==> exists|m: int| 0 <= m < j && m != i && ids@[m] == ids@[i as int],
            decreases ids@.len() - j,
        {
            if j != i && ids[j] == ids[i] {
                found = true;
            }
            j += 1;
        }
        out.push(found);
        i += 1;
    }
    out
}

/// Whether index `a` comes before index `b` in battle-id order: by id, then by position.
pub open spec fn id_before(ids: Seq<u64>, a: int, b: int) -> bool {
    ids[a] < ids[b] || (ids[a] == ids[b] && a < b)
}

/// The positions of `ids` in battle-id order: every position once, ids non-decreasing, and
/// equal ids in their original order.
pub fn battle_id_order(ids: &Vec<u64>) -> (order: Vec<usize>)
    ensures
        order@.len() == ids@.len(),
        forall|i: int| 0 <= i < order@.len() ==> order@[i] < ids@.len(),
        forall|i: int, j: int|
            0 <= i < j < order@.len() ==> id_before(ids@, order@[i] as int, order@[j] as int),
{
    let mut out: Vec<usize> = Vec::new();
    let mut k: usize = 0;
    while k < ids.len()
        invariant
            k <= ids@.len(),
            out@.len() == k,
            forall|i: int| 0 <= i < out@.len() ==> out@[i] < k,
            forall|i: int, j: int|
                0 <= i < j < out@.len() ==> id_before(ids@, out@[i] as int, out@[j] as int),
        decreases ids@.len() - k,
    {
        let mut p: usize = 0;
        while p < out.len() && ids[out[p]] <= ids[k]
            invariant
                k < ids@.len(),
                p <= out@.len(),
                out@.len() == k,
                forall|i: int| 0 <= i < out@.len() ==> out@[i] < k,
                forall|i: int| 0 <= i < p ==> ids@[out@[i] as int] <= ids@[k as int],
            decreases out@.len() - p,
        {
            p += 1;
        }
        proof {
            assert forall|i: int| p <= i < out@.len() implies ids@[out@[i] as int] > ids@[k as int] by {
                if i > p {
                    assert(id_before(ids@, out@[p as int] as int, out@[i] as int));
                }
            }
        }
        let ghost before = out@;
        out.insert(p, k);
        proof {
            assert forall|i: int, j: int| 0 <= i < j < out@.len() implies id_before(
                ids@,
                out@[i] as int,
                out@[j] as int,
            ) by {
                if j < p {
                    assert(out@[i] == before[i] && out@[j] == before[j]);
                } else if j == p {
                    assert(out@[i] == before[i]);
                } else if i < p {
                    assert(out@[i] == before[i] && out@[j] == before[j - 1]);
                } else if i == p {
                    assert(out@[j] == before[j - 1]);
                } else {
                    assert(out@[i] == before[i - 1] && out@[j] == before[j - 1]);
                }
            }
        }
        k += 1;
    }
    out
}

} // verus!
