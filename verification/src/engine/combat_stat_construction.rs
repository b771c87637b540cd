//! Whether a combat-stat match spec is admitted, and the first reason it is not.

use super::combat_stat_admission::{
    lemma_admitted_plan_ratio_ok, plan_ratio_ok, plan_refusal, source_plan_refusal,
};
use super::combat_stat_context::{
    context_refusal, hand_any, hand_has, source_context_refusal, PlanTest,
};
use super::combat_stat_types::{
    CombatStatAttributeV1, CombatStatCardPlanV1, CombatStatDiagnosticMatchSpecV1,
    CombatStatEffectSourceV1,
    CombatStatEffectV1, CombatStatMagnitudeV1, CombatStatPlanErrorV1, CombatStatPlanMismatchV1,
    CombatStatPredicateV1, CombatStatSourcePlanV1, CopiedSourceKindV1,
    InvalidCombatStatPlanReasonV1,
};
use super::{BaseRulesMatchSpec, ByPlayer, HandSlot, PlayerId};
use vstd::prelude::*;

verus! {

broadcast use {vstd::array::group_array_axioms, super::group_hand_slot};

/// The canonical clan of the Oculus, which infiltrate other clans.
pub const OCULUS_CLAN_ID: u32 = 56;

/// The player of the `k`-th card checked, P1's four first.
pub open spec fn player_of(k: int) -> PlayerId {
    if k < 4 {
        PlayerId::P1
    } else {
        PlayerId::P2
    }
}

/// The hand slot of the `k`-th card checked.
pub open spec fn slot_of(k: int) -> int {
    if k < 4 {
        k
    } else {
        k - 4
    }
}

/// The card-identity mismatch of the `k`-th card, if its plan names another card.
pub open spec fn mismatch_at(spec: CombatStatDiagnosticMatchSpecV1, k: int) -> Option<CombatStatPlanMismatchV1> {
    let player = player_of(k);
    let s = slot_of(k);
    let expected = spec.base_rules.players.at(player).hand@[s].key;
    let actual = spec.cards.at(player)@[s].key;
    if actual != expected {
        Some(
            CombatStatPlanMismatchV1 {
                player,
                hand_slot: HandSlot::spec_slot(s as u8),
                expected,
                actual,
            },
        )
    } else {
        None
    }
}

/// The first mismatch from the `k`-th card on.
pub open spec fn first_mismatch_from(spec: CombatStatDiagnosticMatchSpecV1, k: int) -> Option<
    CombatStatPlanMismatchV1,
>
    decreases 8 - k,
{
    if k < 0 || k >= 8 {
        None
    } else {
        match mismatch_at(spec, k) {
            Some(m) => Some(m),
            None => first_mismatch_from(spec, k + 1),
        }
    }
}

/// The reported id of a source: its own, or zero for one without.
pub open spec fn id_or_zero(plan: CombatStatSourcePlanV1) -> u32 {
    match source_id_of(plan) {
        Some(id) => id,
        None => 0,
    }
}

pub open spec fn source_id_of(plan: CombatStatSourcePlanV1) -> Option<u32> {
    match plan {
        CombatStatSourcePlanV1::Absent => None,
        CombatStatSourcePlanV1::Execute { source_id, .. } => Some(source_id),
        CombatStatSourcePlanV1::CopyOpponentSource { source_id, .. } => Some(source_id),
        CombatStatSourcePlanV1::Disabled { source_id } => Some(source_id),
        CombatStatSourcePlanV1::RejectIfSelected { source_id } => Some(source_id),
    }
}

/// The effects whose magnitude is their owner's Support count.
pub open spec fn reads_support_count(effect: CombatStatEffectV1) -> bool {
    ||| effect matches CombatStatEffectV1::ModifyCombatStat { multiplier, .. } && multiplier
        == CombatStatMagnitudeV1::SourceBonusSupport
    ||| effect is ReduceOpponentLifeOnVictoryPerSupport
    ||| effect is GainLifeOnVictoryPerSupport
    ||| effect is GainPillzOnVictoryPerSupport
}

/// The distinct character ids among the first `n` cards whose effective clan is `clan`, in
/// hand order.
pub open spec fn clan_character_ids(cards: [CombatStatCardPlanV1; 4], clan: u32, n: int) -> Seq<u32>
    decreases n,
{
    if n <= 0 {
        Seq::empty()
    } else {
        let seen = clan_character_ids(cards, clan, n - 1);
        let card = cards@[n - 1];
        if card.effective_clan_id == clan && !seen.contains(card.key.id) {
            seen.push(card.key.id)
        } else {
            seen
        }
    }
}

/// The distinct characters of the hand that share the effective clan of the card in `slot`.
pub open spec fn clan_character_count(cards: [CombatStatCardPlanV1; 4], slot: int) -> int {
    clan_character_ids(cards, cards@[slot].effective_clan_id, 4).len() as int
}

proof fn lemma_clan_character_ids_len(cards: [CombatStatCardPlanV1; 4], clan: u32, n: int)
    ensures
        clan_character_ids(cards, clan, n).len() <= if n < 0 {
            0
        } else {
            n
        },
    decreases n,
{
    if n > 0 {
        lemma_clan_character_ids_len(cards, clan, n - 1);
    }
}

/// The Support count a bonus carries: the clan count wherever there is a bonus.
pub open spec fn expected_bonus_support(cards: [CombatStatCardPlanV1; 4], slot: int) -> int {
    if cards@[slot].bonus is Absent {
        0
    } else {
        clan_character_count(cards, slot)
    }
}

/// The Support count an ability carries: the clan count for a Copy, which cannot know what it
/// adopts, and for an effect scaled by Support; otherwise zero.
pub open spec fn expected_ability_support(cards: [CombatStatCardPlanV1; 4], slot: int) -> int {
    let plan = cards@[slot].ability;
    if plan is CopyOpponentSource || (plan matches CombatStatSourcePlanV1::Execute { effect, .. }
        && reads_support_count(effect)) {
        clan_character_count(cards, slot)
    } else {
        0
    }
}

pub open spec fn copied_kind(source: CombatStatEffectSourceV1) -> CopiedSourceKindV1 {
    match source {
        CombatStatEffectSourceV1::Ability => CopiedSourceKindV1::Ability,
        CombatStatEffectSourceV1::Bonus => CopiedSourceKindV1::Bonus,
    }
}

/// An infiltrating Oculus whose canonical and effective clans fall on opposite sides of `set`.
pub open spec fn oculus_splits(set: super::combat_stat_types::ClanSetV1, canonical: u32, effective: u32) -> bool {
    canonical == OCULUS_CLAN_ID && effective != OCULUS_CLAN_ID && set.has(OCULUS_CLAN_ID) != set.has(
        effective,
    )
}

/// Whether `side`'s hand holds such an Oculus.
pub open spec fn infiltrated(
    set: super::combat_stat_types::ClanSetV1,
    side: PlayerId,
    base_rules: BaseRulesMatchSpec,
    cards: ByPlayer<[CombatStatCardPlanV1; 4]>,
) -> bool {
    exists|i: int|
        0 <= i < 4 && #[trigger] oculus_splits(
            set,
            base_rules.players.at(side).hand@[i].clan_id,
            cards.at(side)@[i].effective_clan_id,
        )
}

/// Whether a `Versus` or `After` gate on a plan in `owner`'s `source` slot could read an
/// infiltrating Oculus whose two clans fall on opposite sides of its list: in the hand the
/// gate reads, or, where an opposing Copy of that slot kind could adopt the plan, in either.
pub open spec fn clan_gate_ambiguous(
    owner: PlayerId,
    source: CombatStatEffectSourceV1,
    predicate: CombatStatPredicateV1,
    base_rules: BaseRulesMatchSpec,
    cards: ByPlayer<[CombatStatCardPlanV1; 4]>,
) -> bool {
    let adoptable = hand_any(cards.at(owner.opp()), PlanTest::CopiesKind(copied_kind(source)));
    match predicate {
        CombatStatPredicateV1::OpponentHandHasClan(set) => infiltrated(
            set,
            owner.opp(),
            base_rules,
            cards,
        ) || (adoptable && infiltrated(set, owner, base_rules, cards)),
        CombatStatPredicateV1::OwnerPreviousCardClanIn(set) => infiltrated(
            set,
            owner,
            base_rules,
            cards,
        ) || (adoptable && infiltrated(set, owner.opp(), base_rules, cards)),
        _ => false,
    }
}

pub open spec fn plan_gate_ambiguous(
    owner: PlayerId,
    source: CombatStatEffectSourceV1,
    plan: CombatStatSourcePlanV1,
    spec: CombatStatDiagnosticMatchSpecV1,
) -> bool {
    plan matches CombatStatSourcePlanV1::Execute { predicate, .. } && clan_gate_ambiguous(
        owner,
        source,
        predicate,
        spec.base_rules,
        spec.cards,
    )
}

pub open spec fn invalid_execute(
    player: PlayerId,
    s: int,
    source: CombatStatEffectSourceV1,
    plan: CombatStatSourcePlanV1,
    reason: InvalidCombatStatPlanReasonV1,
) -> Option<CombatStatPlanErrorV1> {
    Some(
        CombatStatPlanErrorV1::InvalidExecute {
            player,
            hand_slot: HandSlot::spec_slot(s as u8),
            source,
            source_id: id_or_zero(plan),
            reason,
        },
    )
}

/// Why the `k`-th card refuses the match, first reason first: its ability plan, its bonus
/// plan, its two Support counts, the context of its ability and then its bonus, and the clan
/// gates of each.
pub open spec fn slot_refusal(spec: CombatStatDiagnosticMatchSpecV1, k: int) -> Option<
    CombatStatPlanErrorV1,
> {
    let player = player_of(k);
    let s = slot_of(k);
    let own = spec.cards.at(player);
    let opponent = spec.cards.at(player.opp());
    let card = own@[s];
    let ability = CombatStatEffectSourceV1::Ability;
    let bonus = CombatStatEffectSourceV1::Bonus;
    match plan_refusal(ability, card.key, card.effective_clan_id, card.ability) {
        Some(reason) => invalid_execute(player, s, ability, card.ability, reason),
        None => match plan_refusal(bonus, card.key, card.effective_clan_id, card.bonus) {
            Some(reason) => invalid_execute(player, s, bonus, card.bonus, reason),
            None => if card.source_bonus_support_count != expected_bonus_support(own, s) {
                Some(
                    CombatStatPlanErrorV1::InvalidSourceBonusContext {
                        player,
                        hand_slot: HandSlot::spec_slot(s as u8),
                        source_id: source_id_of(card.bonus),
                        expected: expected_bonus_support(own, s) as u16,
                        actual: card.source_bonus_support_count,
                    },
                )
            } else if card.source_ability_support_count != expected_ability_support(own, s) {
                Some(
                    CombatStatPlanErrorV1::InvalidAbilitySupportContext {
                        player,
                        hand_slot: HandSlot::spec_slot(s as u8),
                        source_id: source_id_of(card.ability),
                        expected: expected_ability_support(own, s) as u16,
                        actual: card.source_ability_support_count,
                    },
                )
            } else {
                match context_refusal(card.ability, own, opponent) {
                    Some(reason) => invalid_execute(player, s, ability, card.ability, reason),
                    None => match context_refusal(card.bonus, own, opponent) {
                        Some(reason) => invalid_execute(player, s, bonus, card.bonus, reason),
                        None => if plan_gate_ambiguous(player, ability, card.ability, spec) {
                            invalid_execute(
                                player,
                                s,
                                ability,
                                card.ability,
                                InvalidCombatStatPlanReasonV1::AmbiguousOculusClanGate,
                            )
                        } else if plan_gate_ambiguous(player, bonus, card.bonus, spec) {
                            invalid_execute(
                                player,
                                s,
                                bonus,
                                card.bonus,
                                InvalidCombatStatPlanReasonV1::AmbiguousOculusClanGate,
                            )
                        } else {
                            None
                        },
                    },
                }
            },
        },
    }
}

/// The first refusal from the `k`-th card on.
pub open spec fn first_refusal_from(spec: CombatStatDiagnosticMatchSpecV1, k: int) -> Option<
    CombatStatPlanErrorV1,
>
    decreases 8 - k,
{
    if k < 0 || k >= 8 {
        None
    } else {
        match slot_refusal(spec, k) {
            Some(e) => Some(e),
            None => first_refusal_from(spec, k + 1),
        }
    }
}

/// Why a match spec is refused: any card mismatch first, then the cards in order.
pub open spec fn construction_error(spec: CombatStatDiagnosticMatchSpecV1) -> Option<CombatStatPlanErrorV1> {
    match first_mismatch_from(spec, 0) {
        Some(m) => Some(CombatStatPlanErrorV1::CardMismatch(m)),
        None => first_refusal_from(spec, 0),
    }
}

/// Every plan of an admitted spec is admitted on its own.
pub open spec fn plans_admitted(spec: CombatStatDiagnosticMatchSpecV1) -> bool {
    forall|p: PlayerId, s: int|
        0 <= s < 4 ==> {
            let card = #[trigger] spec.cards.at(p)@[s];
            &&& plan_refusal(
                CombatStatEffectSourceV1::Ability,
                card.key,
                card.effective_clan_id,
                card.ability,
            ) is None
            &&& plan_refusal(
                CombatStatEffectSourceV1::Bonus,
                card.key,
                card.effective_clan_id,
                card.bonus,
            ) is None
        }
}

proof fn lemma_refusal_free_from(spec: CombatStatDiagnosticMatchSpecV1, k: int, j: int)
    requires
        0 <= k <= j < 8,
        first_refusal_from(spec, k) is None,
    ensures
        slot_refusal(spec, j) is None,
    decreases j - k,
{
    if k < j {
        lemma_refusal_free_from(spec, k + 1, j);
    }
}

/// An admitted spec admits each of its plans, so each carries a usable recovery ratio.
pub proof fn lemma_admitted_spec_plans(spec: CombatStatDiagnosticMatchSpecV1)
    requires
        construction_error(spec) is None,
    ensures
        plans_admitted(spec),
        forall|p: PlayerId, s: int|
            0 <= s < 4 ==> plan_ratio_ok(#[trigger] spec.cards.at(p)@[s].ability) && plan_ratio_ok(
                spec.cards.at(p)@[s].bonus,
            ),
{
    assert forall|p: PlayerId, s: int| 0 <= s < 4 implies {
        let card = #[trigger] spec.cards.at(p)@[s];
        &&& plan_refusal(
            CombatStatEffectSourceV1::Ability,
            card.key,
            card.effective_clan_id,
            card.ability,
        ) is None
        &&& plan_refusal(
            CombatStatEffectSourceV1::Bonus,
            card.key,
            card.effective_clan_id,
            card.bonus,
        ) is None
    } by {
        let k = if p == PlayerId::P1 {
            s
        } else {
            s + 4
        };
        lemma_refusal_free_from(spec, 0, k);
        assert(player_of(k) == p);
        assert(slot_of(k) == s);
    }
    assert forall|p: PlayerId, s: int| 0 <= s < 4 implies plan_ratio_ok(
        #[trigger] spec.cards.at(p)@[s].ability,
    ) && plan_ratio_ok(spec.cards.at(p)@[s].bonus) by {
        let k = if p == PlayerId::P1 {
            s
        } else {
            s + 4
        };
        lemma_refusal_free_from(spec, 0, k);
        assert(player_of(k) == p);
        assert(slot_of(k) == s);
        let card = spec.cards.at(p)@[s];
        lemma_admitted_plan_ratio_ok(
            CombatStatEffectSourceV1::Ability,
            card.key,
            card.effective_clan_id,
            card.ability,
        );
        lemma_admitted_plan_ratio_ok(
            CombatStatEffectSourceV1::Bonus,
            card.key,
            card.effective_clan_id,
            card.bonus,
        );
    }
}

// ---------------------------------------------------------------------------------------
// Executable checks.

fn plan_source_id(plan: CombatStatSourcePlanV1) -> (r: Option<u32>)
    ensures
        r == source_id_of(plan),
{
    match plan {
        CombatStatSourcePlanV1::Absent => None,
        CombatStatSourcePlanV1::Execute { source_id, .. } => Some(source_id),
        CombatStatSourcePlanV1::CopyOpponentSource { source_id, .. } => Some(source_id),
        CombatStatSourcePlanV1::Disabled { source_id } => Some(source_id),
        CombatStatSourcePlanV1::RejectIfSelected { source_id } => Some(source_id),
    }
}

/// Whether an effect's magnitude is its owner's Support count.
pub fn effect_reads_support_count(effect: CombatStatEffectV1) -> (r: bool)
    ensures
        r == reads_support_count(effect),
{
    match effect {
        CombatStatEffectV1::ModifyCombatStat { multiplier, .. } => multiplier
            == CombatStatMagnitudeV1::SourceBonusSupport,
        CombatStatEffectV1::ReduceOpponentLifeOnVictoryPerSupport { .. }
        | CombatStatEffectV1::GainLifeOnVictoryPerSupport { .. }
        | CombatStatEffectV1::GainPillzOnVictoryPerSupport { .. } => true,
        _ => false,
    }
}

/// The distinct characters of the hand that share the effective clan of the card in `slot`.
pub fn effective_clan_character_count(slot: usize, cards: &[CombatStatCardPlanV1; 4]) -> (r: u16)
    requires
        slot < 4,
    ensures
        r == clan_character_count(*cards, slot as int),
{
    let clan = cards[slot].effective_clan_id;
    let mut ids: Vec<u32> = Vec::new();
    let mut i: usize = 0;
    while i < 4
        invariant
            i <= 4,
            clan == cards@[slot as int].effective_clan_id,
            ids@ == clan_character_ids(*cards, clan, i as int),
        decreases 4 - i,
    {
        let card = cards[i];
        let mut seen = false;
        let mut j: usize = 0;
        while j < ids.len()
            invariant
                j <= ids@.len(),
                seen <==> exists|m: int| 0 <= m < j && ids@[m] == card.key.id,
            decreases ids@.len() - j,
        {
            if ids[j] == card.key.id {
                seen = true;
            }
            j += 1;
        }
        assert(seen <==> ids@.contains(card.key.id));
        assert(card == cards@[i as int]);
        if card.effective_clan_id == clan && !seen {
            ids.push(card.key.id);
        }
        i += 1;
    }
    proof {
        lemma_clan_character_ids_len(*cards, clan, 4);
    }
    ids.len() as u16
}

fn kind_of(source: CombatStatEffectSourceV1) -> (r: CopiedSourceKindV1)
    ensures
        r == copied_kind(source),
{
    match source {
        CombatStatEffectSourceV1::Ability => CopiedSourceKindV1::Ability,
        CombatStatEffectSourceV1::Bonus => CopiedSourceKindV1::Bonus,
    }
}

fn hand_infiltrated(
    set: super::combat_stat_types::ClanSetV1,
    side: PlayerId,
    base_rules: &BaseRulesMatchSpec,
    cards: &ByPlayer<[CombatStatCardPlanV1; 4]>,
) -> (r: bool)
    ensures
        r == infiltrated(set, side, *base_rules, *cards),
{
    let hand = base_rules.players.get(side).hand;
    let plans = cards.get(side);
    let mut i: usize = 0;
    while i < 4
        invariant
            i <= 4,
            hand == base_rules.players.at(side).hand,
            *plans == cards.at(side),
            forall|j: int|
                0 <= j < i ==> !#[trigger] oculus_splits(
                    set,
                    hand@[j].clan_id,
                    plans@[j].effective_clan_id,
                ),
        decreases 4 - i,
    {
        let canonical = hand[i].clan_id;
        let effective = plans[i].effective_clan_id;
        if canonical == OCULUS_CLAN_ID && effective != OCULUS_CLAN_ID && set.contains(OCULUS_CLAN_ID)
            != set.contains(effective) {
            assert(oculus_splits(set, hand@[i as int].clan_id, plans@[i as int].effective_clan_id));
            return true;
        }
        i += 1;
    }
    false
}

/// Whether a `Versus` or `After` gate on a plan in `owner`'s `source` slot could read an
/// infiltrating Oculus whose canonical and effective clans fall on opposite sides of the
/// gate's list. Every other predicate answers false.
pub fn clan_gate_is_ambiguous(
    owner: PlayerId,
    source: CombatStatEffectSourceV1,
    predicate: CombatStatPredicateV1,
    base_rules: &BaseRulesMatchSpec,
    cards: &ByPlayer<[CombatStatCardPlanV1; 4]>,
) -> (r: bool)
    ensures
        r == clan_gate_ambiguous(owner, source, predicate, *base_rules, *cards),
{
    let (set, read) = match predicate {
        CombatStatPredicateV1::OpponentHandHasClan(set) => (set, owner.other()),
        CombatStatPredicateV1::OwnerPreviousCardClanIn(set) => (set, owner),
        _ => return false,
    };
    let adoptable = hand_has(cards.get(owner.other()), PlanTest::CopiesKind(kind_of(source)));
    hand_infiltrated(set, read, base_rules, cards) || (adoptable && hand_infiltrated(
        set,
        read.other(),
        base_rules,
        cards,
    ))
}

fn plan_gate_is_ambiguous(
    owner: PlayerId,
    source: CombatStatEffectSourceV1,
    plan: CombatStatSourcePlanV1,
    spec: &CombatStatDiagnosticMatchSpecV1,
) -> (r: bool)
    ensures
        r == plan_gate_ambiguous(owner, source, plan, *spec),
{
    match plan {
        CombatStatSourcePlanV1::Execute { predicate, .. } => clan_gate_is_ambiguous(
            owner,
            source,
            predicate,
            &spec.base_rules,
            &spec.cards,
        ),
        _ => false,
    }
}

fn invalid(
    player: PlayerId,
    s: usize,
    source: CombatStatEffectSourceV1,
    plan: CombatStatSourcePlanV1,
    reason: InvalidCombatStatPlanReasonV1,
) -> (r: Option<CombatStatPlanErrorV1>)
    requires
        s < 4,
    ensures
        r == invalid_execute(player, s as int, source, plan, reason),
{
    let hand_slot = match HandSlot::try_from_index(s as u8) {
        Ok(slot) => slot,
        Err(_) => return None,
    };
    let source_id = match plan_source_id(plan) {
        Some(id) => id,
        None => 0,
    };
    Some(CombatStatPlanErrorV1::InvalidExecute { player, hand_slot, source, source_id, reason })
}

/// The card-identity mismatch of the `k`-th card, if any.
pub fn card_mismatch(spec: &CombatStatDiagnosticMatchSpecV1, k: usize) -> (r: Option<
    CombatStatPlanMismatchV1,
>)
    requires
        k < 8,
    ensures
        r == mismatch_at(*spec, k as int),
{
    let player = if k < 4 {
        PlayerId::P1
    } else {
        PlayerId::P2
    };
    let s = if k < 4 {
        k
    } else {
        k - 4
    };
    let expected = spec.base_rules.players.get(player).hand[s].key;
    let actual = spec.cards.get(player)[s].key;
    if actual != expected {
        let hand_slot = match HandSlot::try_from_index(s as u8) {
            Ok(slot) => slot,
            Err(_) => return None,
        };
        Some(CombatStatPlanMismatchV1 { player, hand_slot, expected, actual })
    } else {
        None
    }
}

/// Why the `k`-th card refuses the match, if it does.
pub fn card_refusal(spec: &CombatStatDiagnosticMatchSpecV1, k: usize) -> (r: Option<
    CombatStatPlanErrorV1,
>)
    requires
        k < 8,
    ensures
        r == slot_refusal(*spec, k as int),
{
    let player = if k < 4 {
        PlayerId::P1
    } else {
        PlayerId::P2
    };
    let s = if k < 4 {
        k
    } else {
        k - 4
    };
    let own = spec.cards.get(player);
    let opponent = spec.cards.get(player.other());
    let card = own[s];
    let ability = CombatStatEffectSourceV1::Ability;
    let bonus = CombatStatEffectSourceV1::Bonus;
    if let Some(reason) = source_plan_refusal(ability, card.key, card.effective_clan_id, card.ability) {
        return invalid(player, s, ability, card.ability, reason);
    }
    if let Some(reason) = source_plan_refusal(bonus, card.key, card.effective_clan_id, card.bonus) {
        return invalid(player, s, bonus, card.bonus, reason);
    }
    let hand_slot = match HandSlot::try_from_index(s as u8) {
        Ok(slot) => slot,
        Err(_) => return None,
    };
    let count = effective_clan_character_count(s, own);
    let bonus_expected: u16 = match card.bonus {
        CombatStatSourcePlanV1::Absent => 0,
        _ => count,
    };
    if card.source_bonus_support_count != bonus_expected {
        return Some(
            CombatStatPlanErrorV1::InvalidSourceBonusContext {
                player,
                hand_slot,
                source_id: plan_source_id(card.bonus),
                expected: bonus_expected,
                actual: card.source_bonus_support_count,
            },
        );
    }
    let ability_expected: u16 = match card.ability {
        CombatStatSourcePlanV1::CopyOpponentSource { .. } => count,
        CombatStatSourcePlanV1::Execute { effect, .. } => if effect_reads_support_count(effect) {
            count
        } else {
            0
        },
        _ => 0,
    };
    if card.source_ability_support_count != ability_expected {
        return Some(
            CombatStatPlanErrorV1::InvalidAbilitySupportContext {
                player,
                hand_slot,
                source_id: plan_source_id(card.ability),
                expected: ability_expected,
                actual: card.source_ability_support_count,
            },
        );
    }
    if let Some(reason) = source_context_refusal(card.ability, own, opponent) {
        return invalid(player, s, ability, card.ability, reason);
    }
    if let Some(reason) = source_context_refusal(card.bonus, own, opponent) {
        return invalid(player, s, bonus, card.bonus, reason);
    }
    if plan_gate_is_ambiguous(player, ability, card.ability, spec) {
        return invalid(
            player,
            s,
            ability,
            card.ability,
            InvalidCombatStatPlanReasonV1::AmbiguousOculusClanGate,
        );
    }
    if plan_gate_is_ambiguous(player, bonus, card.bonus, spec) {
        return invalid(
            player,
            s,
            bonus,
            card.bonus,
            InvalidCombatStatPlanReasonV1::AmbiguousOculusClanGate,
        );
    }
    None
}

/// Why a match spec is refused, if it is: any card mismatch first, then the cards in order.
pub fn validate_match_spec(spec: &CombatStatDiagnosticMatchSpecV1) -> (r: Option<CombatStatPlanErrorV1>)
    ensures
        r == construction_error(*spec),
{
    let mut k: usize = 0;
    while k < 8
        invariant
            k <= 8,
            first_mismatch_from(*spec, 0) == first_mismatch_from(*spec, k as int),
        decreases 8 - k,
    {
        if let Some(m) = card_mismatch(spec, k) {
            return Some(CombatStatPlanErrorV1::CardMismatch(m));
        }
        k += 1;
    }
    let mut k: usize = 0;
    while k < 8
        invariant
            k <= 8,
            first_mismatch_from(*spec, 0) is None,
            first_refusal_from(*spec, 0) == first_refusal_from(*spec, k as int),
        decreases 8 - k,
    {
        if let Some(e) = card_refusal(spec, k) {
            return Some(e);
        }
        k += 1;
    }
    None
}

} // verus!
