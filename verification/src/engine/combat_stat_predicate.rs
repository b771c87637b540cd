//! Clan sets and the predicates a source plan fires under.

use super::combat_stat_types::{
    ClanConjunctV1, ClanSetV1, CombatStatEffectV1, CombatStatPredicateV1, CombatStatSourcePlanV1,
};
use super::{HandSlot, PlayerId};
use vstd::prelude::*;

verus! {

broadcast use super::group_hand_slot;

impl ClanConjunctV1 {
    /// The plain predicate this conjunct is.
    pub open spec fn as_predicate(self) -> CombatStatPredicateV1 {
        match self {
            ClanConjunctV1::OwnerMovesFirst => CombatStatPredicateV1::OwnerMovesFirst,
            ClanConjunctV1::OwnerMovesSecond => CombatStatPredicateV1::OwnerMovesSecond,
            ClanConjunctV1::SelectedHandSlotsDiffer => CombatStatPredicateV1::SelectedHandSlotsDiffer,
        }
    }

    /// The plain predicate this conjunct is.
    pub fn predicate(self) -> (r: CombatStatPredicateV1)
        ensures
            r == self.as_predicate(),
    {
        match self {
            ClanConjunctV1::OwnerMovesFirst => CombatStatPredicateV1::OwnerMovesFirst,
            ClanConjunctV1::OwnerMovesSecond => CombatStatPredicateV1::OwnerMovesSecond,
            ClanConjunctV1::SelectedHandSlotsDiffer => CombatStatPredicateV1::SelectedHandSlotsDiffer,
        }
    }
}

/// Whether the ids of `ids` make a clan set: at least one, each below 64.
pub open spec fn clan_ids_admissible(ids: Seq<u32>) -> bool {
    ids.len() > 0 && forall|i: int| 0 <= i < ids.len() ==> ids[i] < 64
}

proof fn lemma_mask_insert(mask: u64, id: u64, c: u64)
    requires
        id < 64,
        c < 64,
    ensures
        ((mask | (1u64 << id)) & (1u64 << c) != 0) == ((mask & (1u64 << c) != 0) || c == id),
{
    assert(((mask | (1u64 << id)) & (1u64 << c) != 0) == ((mask & (1u64 << c) != 0) || c == id))
        by (bit_vector)
        requires
            id < 64,
            c < 64,
    ;
}

proof fn lemma_mask_empty(c: u64)
    requires
        c < 64,
    ensures
        (0u64 & (1u64 << c)) == 0,
{
    assert((0u64 & (1u64 << c)) == 0) by (bit_vector);
}

impl ClanSetV1 {
    /// Whether `clan_id` is in the set.
    pub open spec fn has(self, clan_id: u32) -> bool {
        clan_id < 64 && self.0 & (1u64 << (clan_id as u64)) != 0
    }

    /// The set of the given ids; `None` for no ids or an id of 64 or more.
    pub fn from_ids(ids: &[u32]) -> (r: Option<Self>)
        ensures
            r is Some <==> clan_ids_admissible(ids@),
            r matches Some(set) ==> forall|c: u32| #[trigger] set.has(c) <==> ids@.contains(c),
    {
        if ids.len() == 0 {
            return None;
        }
        let mut mask: u64 = 0;
        let mut i: usize = 0;
        proof {
            assert forall|c: u64| c < 64 implies (mask & (1u64 << c)) == 0 by {
                lemma_mask_empty(c);
            }
        }
        while i < ids.len()
            invariant
                i <= ids@.len(),
                forall|j: int| 0 <= j < i ==> ids@[j] < 64,
                forall|c: u64|
                    c < 64 ==> ((mask & (1u64 << c) != 0) <==> exists|j: int|
                        0 <= j < i && ids@[j] == c),
            decreases ids@.len() - i,
        {
            let id = ids[i];
            if id >= 64 {
                return None;
            }
            let ghost before = mask;
            mask = mask | (1u64 << (id as u64));
            proof {
                assert forall|c: u64| c < 64 implies ((mask & (1u64 << c) != 0) <==> exists|j: int|
                    0 <= j < i + 1 && ids@[j] == c) by {
                    lemma_mask_insert(before, id as u64, c);
                    if c == id {
                        assert(ids@[i as int] == c);
                    }
                    if exists|j: int| 0 <= j < i + 1 && ids@[j] == c {
                        let j = choose|j: int| 0 <= j < i + 1 && ids@[j] == c;
                        if j < i {
                        }
                    }
                }
            }
            i += 1;
        }
        let set = ClanSetV1(mask);
        proof {
            assert forall|c: u32| #[trigger] set.has(c) <==> ids@.contains(c) by {
                if c < 64 {
                    assert((mask & (1u64 << (c as u64)) != 0) <==> exists|j: int|
                        0 <= j < ids@.len() && ids@[j] == c as u64);
                    if ids@.contains(c) {
                        let j = choose|j: int| 0 <= j < ids@.len() && ids@[j] == c;
                        assert(ids@[j] == c as u64);
                    }
                } else if ids@.contains(c) {
                    let j = choose|j: int| 0 <= j < ids@.len() && ids@[j] == c;
                    assert(ids@[j] < 64);
                }
            }
        }
        Some(set)
    }

    /// Whether `clan_id` is in the set.
    pub fn contains(self, clan_id: u32) -> (r: bool)
        ensures
            r == self.has(clan_id),
    {
        clan_id < 64 && self.0 & (1u64 << (clan_id as u64)) != 0
    }
}

/// Per-owner clan context for the clan-gated predicates.
#[derive(Clone, Copy, Debug, PartialEq, Eq)]
pub struct ClanContext {
    pub owner_effective_clan: u32,
    /// The canonical clan of the card the owner played in the previous round.
    pub owner_previous_clan: Option<u32>,
    /// The canonical clans below 64 of the opposing hand, as a bit mask.
    pub opponent_hand_clans: u64,
    /// The owner's paid Pillz plus the free pill: what the `Bet` gates compare.
    pub owner_pillz_used: u16,
}

/// Everything a predicate reads about one owner's round.
#[derive(Clone, Copy, Debug, PartialEq, Eq)]
pub struct PredicateContext {
    pub owner: PlayerId,
    pub first_mover: PlayerId,
    pub owner_slot: HandSlot,
    pub opponent_slot: HandSlot,
    pub previous_round_winner: Option<PlayerId>,
    pub night: bool,
    /// Every card of the owner's hand shares the selected card's effective clan.
    pub owner_unison: bool,
    pub clan: ClanContext,
}

/// Whether a predicate other than the clan compound holds.
pub open spec fn plain_predicate_holds(predicate: CombatStatPredicateV1, ctx: PredicateContext) -> bool {
    match predicate {
        CombatStatPredicateV1::Always => true,
        CombatStatPredicateV1::OwnerMovesFirst => ctx.owner == ctx.first_mover,
        CombatStatPredicateV1::OwnerMovesSecond => ctx.owner != ctx.first_mover,
        CombatStatPredicateV1::OwnerWonPreviousRound => ctx.previous_round_winner == Some(ctx.owner),
        CombatStatPredicateV1::OwnerLostPreviousRound => ctx.previous_round_winner == Some(
            ctx.owner.opp(),
        ),
        CombatStatPredicateV1::SelectedHandSlotsMatch => ctx.owner_slot == ctx.opponent_slot,
        CombatStatPredicateV1::SelectedHandSlotsDiffer => ctx.owner_slot != ctx.opponent_slot,
        CombatStatPredicateV1::MatchIsNight => ctx.night,
        CombatStatPredicateV1::MatchIsDay => !ctx.night,
        CombatStatPredicateV1::OwnerHandUnison => ctx.owner_unison,
        CombatStatPredicateV1::OwnerAbilityStopped => false,
        CombatStatPredicateV1::OwnerClanIn(set) => set.has(ctx.clan.owner_effective_clan),
        CombatStatPredicateV1::OwnerPreviousCardClanIn(set) => match ctx.clan.owner_previous_clan {
            Some(id) => set.has(id),
            None => false,
        },
        CombatStatPredicateV1::OpponentHandHasClan(set) => set.0 & ctx.clan.opponent_hand_clans
            != 0,
        CombatStatPredicateV1::OwnerPillzUsedAbove(n) => ctx.clan.owner_pillz_used > n,
        CombatStatPredicateV1::OwnerPillzUsedBelow(n) => ctx.clan.owner_pillz_used < n,
        CombatStatPredicateV1::OwnerWonPreviousRoundAtNight => ctx.night
            && ctx.previous_round_winner == Some(ctx.owner),
        CombatStatPredicateV1::OwnerClanInAnd(..) => false,
    }
}

/// Whether `predicate` holds for the owner's round. `Stop:` never does: construction refuses
/// every match in which something could stop the owner's ability.
pub open spec fn predicate_holds(predicate: CombatStatPredicateV1, ctx: PredicateContext) -> bool {
    match predicate {
        CombatStatPredicateV1::OwnerClanInAnd(set, conjunct) => set.has(
            ctx.clan.owner_effective_clan,
        ) && plain_predicate_holds(conjunct.as_predicate(), ctx),
        _ => plain_predicate_holds(predicate, ctx),
    }
}

/// The effect a source fires this round, if any. A Copy never reaches a round: construction
/// refuses it.
pub open spec fn active_effect(plan: CombatStatSourcePlanV1, ctx: PredicateContext) -> Option<
    CombatStatEffectV1,
> {
    match plan {
        CombatStatSourcePlanV1::Execute { predicate, effect, .. } => if predicate_holds(
            predicate,
            ctx,
        ) {
            Some(effect)
        } else {
            None
        },
        _ => None,
    }
}

fn plain_predicate_matches(predicate: CombatStatPredicateV1, ctx: &PredicateContext) -> (r: bool)
    ensures
        r == plain_predicate_holds(predicate, *ctx),
{
    match predicate {
        CombatStatPredicateV1::Always => true,
        CombatStatPredicateV1::OwnerMovesFirst => ctx.owner == ctx.first_mover,
        CombatStatPredicateV1::OwnerMovesSecond => ctx.owner != ctx.first_mover,
        CombatStatPredicateV1::OwnerWonPreviousRound => ctx.previous_round_winner == Some(ctx.owner),
        CombatStatPredicateV1::OwnerLostPreviousRound => ctx.previous_round_winner == Some(
            ctx.owner.other(),
        ),
        CombatStatPredicateV1::SelectedHandSlotsMatch => ctx.owner_slot.get()
            == ctx.opponent_slot.get(),
        CombatStatPredicateV1::SelectedHandSlotsDiffer => ctx.owner_slot.get()
            != ctx.opponent_slot.get(),
        CombatStatPredicateV1::MatchIsNight => ctx.night,
        CombatStatPredicateV1::MatchIsDay => !ctx.night,
        CombatStatPredicateV1::OwnerHandUnison => ctx.owner_unison,
        CombatStatPredicateV1::OwnerAbilityStopped => false,
        CombatStatPredicateV1::OwnerClanIn(set) => set.contains(ctx.clan.owner_effective_clan),
        CombatStatPredicateV1::OwnerPreviousCardClanIn(set) => match ctx.clan.owner_previous_clan {
            Some(id) => set.contains(id),
            None => false,
        },
        CombatStatPredicateV1::OpponentHandHasClan(set) => set.0 & ctx.clan.opponent_hand_clans
            != 0,
        CombatStatPredicateV1::OwnerPillzUsedAbove(n) => ctx.clan.owner_pillz_used > n as u16,
        CombatStatPredicateV1::OwnerPillzUsedBelow(n) => ctx.clan.owner_pillz_used < n as u16,
        CombatStatPredicateV1::OwnerWonPreviousRoundAtNight => ctx.night
            && ctx.previous_round_winner == Some(ctx.owner),
        CombatStatPredicateV1::OwnerClanInAnd(..) => false,
    }
}

/// Whether `predicate` holds for the owner's round.
pub fn predicate_matches(predicate: CombatStatPredicateV1, ctx: &PredicateContext) -> (r: bool)
    ensures
        r == predicate_holds(predicate, *ctx),
{
    match predicate {
        CombatStatPredicateV1::OwnerClanInAnd(set, conjunct) => set.contains(
            ctx.clan.owner_effective_clan,
        ) && plain_predicate_matches(conjunct.predicate(), ctx),
        _ => plain_predicate_matches(predicate, ctx),
    }
}

/// The effect a source fires this round, if any.
pub fn source_active_effect(plan: CombatStatSourcePlanV1, ctx: &PredicateContext) -> (r: Option<
    CombatStatEffectV1,
>)
    ensures
        r == active_effect(plan, *ctx),
{
    match plan {
        CombatStatSourcePlanV1::Execute { predicate, effect, .. } => if predicate_matches(
            predicate,
            ctx,
        ) {
            Some(effect)
        } else {
            None
        },
        _ => None,
    }
}

} // verus!
