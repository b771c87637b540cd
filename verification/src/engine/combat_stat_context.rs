//! The contexts in which an admitted source plan is still refused: what the rest of the
//! two hands could do beside it that no captured round has pinned.

use super::combat_stat_types::{
    CombatStatAffectedSideV1, CombatStatAttributeV1, CombatStatCardPlanV1, CombatStatEffectV1,
    CombatStatOperationV1, CombatStatPredicateV1, CombatStatSourcePlanV1, CopiedSourceKindV1,
    InvalidCombatStatPlanReasonV1,
};
use vstd::prelude::*;

verus! {

/// A question asked of every source plan of a hand.
#[derive(Clone, Copy, Debug, PartialEq, Eq)]
pub enum PlanTest {
    /// A Copy of either slot kind.
    IsCopy,
    /// A Copy of the given slot kind.
    CopiesKind(CopiedSourceKindV1),
    /// End-of-round work that floors the opposing player's Pillz.
    FloorsOpposingPillz,
    /// End-of-round work that floors the opposing player's Life.
    FloorsOpposingLife,
    /// End-of-round work that writes anyone's Pillz.
    WritesPillz,
    /// End-of-round work that writes anyone's Life.
    WritesLife,
    /// A change to, or a read of, a stat that a single-stat Protection of the given stat has
    /// never been seen meeting.
    MeetsProtection(CombatStatAttributeV1),
    /// `Tune Out`.
    SimplifiesAttack,
    /// A Min 0 cut that can take the opposing Attack to 0.
    ZeroesOpposingAttack,
    /// A `Cards` Min 0 cut, which can take both Attacks to 0.
    ZeroesBothAttacks,
    /// A Poison or Toxin permanent.
    PoisonOrToxinLatch,
    /// A source that reads or could undo the Attacks `Tune Out` replaces: a Killshot, or a
    /// cancel of Power or Attack modifiers.
    ReadsSimplifiedAttack,
    /// A Power cut whose floor is 0, from either side's opposing phase.
    ReducesPowerToZero,
    /// A cancel of the opposing modifiers of the given stat.
    CancelsModifiersOf(CombatStatAttributeV1),
}

pub open spec fn floors_opposing_pillz(effect: CombatStatEffectV1) -> bool {
    ||| effect is ReduceOpponentPillzOnVictory
    ||| effect is ReduceOpponentPillzOnDefeat
    ||| effect is ReduceOpponentPillzOnVictoryPerAntiSupport
    ||| effect is ReduceOpponentPillzOnVictoryPerRound
    ||| effect is ConsumeOpponentPillzOnVictory
    ||| effect is CombustOpponentLifeAndPillzOnVictory
    ||| effect is ReduceOpponentPillzAndLifeOnVictory
}

pub open spec fn floors_opposing_life(effect: CombatStatEffectV1) -> bool {
    ||| effect is ReduceOpponentLifeOnVictoryOrDefeat
    ||| effect is ReduceOpponentLifeOnVictoryPerOpponentStars
    ||| effect is ReduceOpponentLifeOnVictoryPerAntiSupport
    ||| effect is ReduceOpponentLifeOnVictoryPerSupport
    ||| effect is ReduceOpponentLifeOnVictoryPerRound
    ||| effect is ReduceOpponentLifeOnVictory
    ||| effect is ReduceOpponentLifeOnDefeat
    ||| effect is ReduceOpponentLifeOnKillshot
    ||| effect is ToxinOpponentLifeOnKillshot
    ||| effect is ReduceBothPlayersLife
    ||| effect is PoisonOpponentLifeOnVictory
    ||| effect is PoisonOpponentLifeOnDefeat
    ||| effect is ToxinOpponentLifeOnVictory
    ||| effect is CombustOpponentLifeAndPillzOnVictory
    ||| effect is ReduceOpponentPillzAndLifeOnVictory
}

/// End-of-round work that raises anyone's Pillz.
pub open spec fn gains_pillz(effect: CombatStatEffectV1) -> bool {
    ||| effect is RecoverPaidPillzOnDefeat
    ||| effect is RecoverPaidPillzOnVictory
    ||| effect is GainOnePillzOnVictoryOrDefeat
    ||| effect is GainOnePillzAndLifeOnVictory
    ||| effect is GainTwoPillzOnDefeatMaxEleven
    ||| effect is GainPillzOnVictory
    ||| effect is GainPillzOnVictoryMax
    ||| effect is GainPillzEqualToFinalDamageOnVictory
    ||| effect is GainPillzOnVictoryPerAntiSupport
    ||| effect is GainPillzOnVictoryPerSupport
    ||| effect is GainPillzOnVictoryPerOpponentStars
    ||| effect is GainPillzAndLifeOnKillshot
    ||| effect is GainPillzOnKillshot
    ||| effect is GainPillzOnDefeat
    ||| effect is GainPillzAndLifeOnDefeat
    ||| effect is GainPillzOnVictoryPerRound
    ||| effect is GainBothPlayersPillzOnVictoryOrDefeat
    ||| effect is DopePillzOnVictory
    ||| effect is DopePillzOnDefeat
    ||| effect is GainPillzAndLifeOnVictory
    ||| effect is GainPillzOnVictoryOrDefeat
    ||| effect is GainOpponentPillzOnDefeat
}

/// End-of-round work that raises, or floors its owner's own, Life.
pub open spec fn gains_life(effect: CombatStatEffectV1) -> bool {
    ||| effect is GainOnePillzAndLifeOnVictory
    ||| effect is GainLifeEqualToFinalDamageOnCourageVictory
    ||| effect is GainLifeOnVictory
    ||| effect is GainLifePerFinalDamageOnVictory
    ||| effect is GainLifePerOpponentFinalDamageOnVictory
    ||| effect is GainLifeOnDefeat
    ||| effect is ReanimateLife
    ||| effect is GainLifeOnVictoryOrDefeat
    ||| effect is GainLifeOnVictoryPerSupport
    ||| effect is GainLifeOnVictoryPerOpponentStars
    ||| effect is GainPillzAndLifeOnKillshot
    ||| effect is GainLifeOnKillshot
    ||| effect is GainPillzAndLifeOnDefeat
    ||| effect is GainLifeOnVictoryPerRound
    ||| effect is GainBothPlayersLifeOnVictoryOrDefeat
    ||| effect is HealLifeOnVictory
    ||| effect is RegenLifeOnVictory
    ||| effect is GainPillzAndLifeOnVictory
    ||| effect is GainLifePerFinalDamageOnVictoryOrDefeat
    ||| effect is ReduceOwnLifeOnVictory
    ||| effect is ReduceOwnLife
    ||| effect is GainLifeOnDefeatMax
}

/// The end-of-round effects that read both final Attacks.
pub open spec fn is_killshot(effect: CombatStatEffectV1) -> bool {
    ||| effect is ReduceOpponentLifeOnKillshot
    ||| effect is GainPillzAndLifeOnKillshot
    ||| effect is GainPillzOnKillshot
    ||| effect is GainLifeOnKillshot
    ||| effect is ToxinOpponentLifeOnKillshot
}

pub open spec fn reduces_attack_to_zero(effect: CombatStatEffectV1, both_only: bool) -> bool {
    match effect {
        CombatStatEffectV1::ModifyCombatStat { side, stat, operation, minimum, .. } => {
            &&& (side == CombatStatAffectedSideV1::Both || (!both_only && side
                == CombatStatAffectedSideV1::Opponent))
            &&& stat != CombatStatAttributeV1::Damage
            &&& operation == CombatStatOperationV1::Decrease
            &&& minimum == Some(0u16)
        },
        _ => false,
    }
}

/// Whether a stat an opposing effect names meets a single-stat Protection of `protected`:
/// Attack for `Protection: Attack`, Power or Damage for the other two.
pub open spec fn unpinned_against(stat: CombatStatAttributeV1, protected: CombatStatAttributeV1) -> bool {
    (stat == CombatStatAttributeV1::Attack) == (protected == CombatStatAttributeV1::Attack)
}

pub open spec fn meets_protection(effect: CombatStatEffectV1, protected: CombatStatAttributeV1) -> bool {
    match effect {
        CombatStatEffectV1::ModifyCombatStat { side, stat, .. } => side
            != CombatStatAffectedSideV1::Player && unpinned_against(stat, protected),
        CombatStatEffectV1::CancelOpponentCombatStatModifiers { stat } => unpinned_against(
            stat,
            protected,
        ),
        CombatStatEffectV1::CopyOpponentPrintedCombatStat { stat } => unpinned_against(
            stat,
            protected,
        ),
        CombatStatEffectV1::ExchangePrintedCombatStat { stat } => unpinned_against(stat, protected),
        CombatStatEffectV1::ImposePrintedCombatStat { stat } => unpinned_against(stat, protected),
        CombatStatEffectV1::SimplifyAttackToPillz => true,
        _ => false,
    }
}

/// Whether a cancel of `cancelled` modifiers meets a modifier of `stat`.
pub open spec fn cancels_modifiers_of(effect: CombatStatEffectV1, stat: CombatStatAttributeV1) -> bool {
    match effect {
        CombatStatEffectV1::CancelOpponentCombatStatModifiers { stat: cancelled } => cancelled
            == stat || (cancelled == CombatStatAttributeV1::PowerAndDamage && (stat
            == CombatStatAttributeV1::Power || stat == CombatStatAttributeV1::Damage)),
        _ => false,
    }
}

pub open spec fn reads_simplified_attack(effect: CombatStatEffectV1) -> bool {
    is_killshot(effect) || (effect matches CombatStatEffectV1::CancelOpponentCombatStatModifiers {
        stat,
    } && stat != CombatStatAttributeV1::Damage)
}

pub open spec fn reduces_power_to_zero(effect: CombatStatEffectV1) -> bool {
    match effect {
        CombatStatEffectV1::ModifyCombatStat { side, stat, operation, minimum, .. } => {
            &&& side != CombatStatAffectedSideV1::Player
            &&& (stat == CombatStatAttributeV1::Power || stat
                == CombatStatAttributeV1::PowerAndDamage)
            &&& operation == CombatStatOperationV1::Decrease
            &&& minimum == Some(0u16)
        },
        _ => false,
    }
}

pub open spec fn is_poison_or_toxin_latch(effect: CombatStatEffectV1) -> bool {
    ||| effect is PoisonOpponentLifeOnVictory
    ||| effect is PoisonOpponentLifeOnDefeat
    ||| effect is ToxinOpponentLifeOnVictory
    ||| effect is ToxinOpponentLifeOnKillshot
}

/// A permanent: latched by its owner and paid every later round.
pub open spec fn is_latch(effect: CombatStatEffectV1) -> bool {
    ||| is_poison_or_toxin_latch(effect)
    ||| effect is HealLifeOnVictory
    ||| effect is RegenLifeOnVictory
    ||| effect is ConsumeOpponentPillzOnVictory
    ||| effect is CombustOpponentLifeAndPillzOnVictory
    ||| effect is DopePillzOnVictory
    ||| effect is DopePillzOnDefeat
}

/// What `test` answers for one source plan.
pub open spec fn plan_test(test: PlanTest, plan: CombatStatSourcePlanV1) -> bool {
    match plan {
        CombatStatSourcePlanV1::CopyOpponentSource { copied, .. } => match test {
            PlanTest::IsCopy => true,
            PlanTest::CopiesKind(kind) => copied == kind,
            _ => false,
        },
        CombatStatSourcePlanV1::Execute { effect, .. } => match test {
            PlanTest::FloorsOpposingPillz => floors_opposing_pillz(effect),
            PlanTest::FloorsOpposingLife => floors_opposing_life(effect),
            PlanTest::WritesPillz => floors_opposing_pillz(effect) || gains_pillz(effect),
            PlanTest::WritesLife => floors_opposing_life(effect) || gains_life(effect),
            PlanTest::MeetsProtection(stat) => meets_protection(effect, stat),
            PlanTest::SimplifiesAttack => effect == CombatStatEffectV1::SimplifyAttackToPillz,
            PlanTest::ZeroesOpposingAttack => reduces_attack_to_zero(effect, false),
            PlanTest::ZeroesBothAttacks => reduces_attack_to_zero(effect, true),
            PlanTest::PoisonOrToxinLatch => is_poison_or_toxin_latch(effect),
            PlanTest::ReadsSimplifiedAttack => reads_simplified_attack(effect),
            PlanTest::ReducesPowerToZero => reduces_power_to_zero(effect),
            PlanTest::CancelsModifiersOf(stat) => cancels_modifiers_of(effect, stat),
            _ => false,
        },
        _ => false,
    }
}

/// Whether some source plan of `hand` answers `test`.
pub open spec fn hand_any(hand: [CombatStatCardPlanV1; 4], test: PlanTest) -> bool {
    exists|i: int|
        0 <= i < 4 && (#[trigger] plan_test(test, hand@[i].ability) || plan_test(
            test,
            hand@[i].bonus,
        ))
}

/// Whether an opposing Copy of the slot kind a card of `own` carries `plan` in could take it.
pub open spec fn opposing_copy_can_take(
    plan: CombatStatSourcePlanV1,
    own: [CombatStatCardPlanV1; 4],
    opponent: [CombatStatCardPlanV1; 4],
) -> bool {
    exists|i: int|
        0 <= i < 4 && ((#[trigger] own@[i].ability == plan && hand_any(
            opponent,
            PlanTest::CopiesKind(CopiedSourceKindV1::Ability),
        )) || (own@[i].bonus == plan && hand_any(
            opponent,
            PlanTest::CopiesKind(CopiedSourceKindV1::Bonus),
        )))
}

/// Whether some opposing card's Bonus slot copies the given slot kind.
pub open spec fn bonus_copies(opponent: [CombatStatCardPlanV1; 4], kind: CopiedSourceKindV1) -> bool {
    exists|i: int| 0 <= i < 4 && #[trigger] plan_test(PlanTest::CopiesKind(kind), opponent@[i].bonus)
}

/// Whether an opposing Bonus-slot Copy could take `plan` and run it from its Bonus slot.
pub open spec fn opposing_bonus_copy_can_take(
    plan: CombatStatSourcePlanV1,
    own: [CombatStatCardPlanV1; 4],
    opponent: [CombatStatCardPlanV1; 4],
) -> bool {
    exists|i: int|
        0 <= i < 4 && ((#[trigger] own@[i].ability == plan && bonus_copies(
            opponent,
            CopiedSourceKindV1::Ability,
        )) || (own@[i].bonus == plan && bonus_copies(opponent, CopiedSourceKindV1::Bonus)))
}

pub open spec fn is_copy(plan: CombatStatSourcePlanV1) -> bool {
    plan is CopyOpponentSource
}

pub open spec fn latch_answers(plan: CombatStatSourcePlanV1, test: PlanTest) -> bool {
    plan matches CombatStatSourcePlanV1::Execute { effect, .. } && is_latch(effect) && plan_test(
        test,
        plan,
    )
}

/// Whether an own effect that can land in `plan`'s round answers `test`: the other slot of a
/// card carrying `plan` (a Copy there could import anything), or an own permanent.
pub open spec fn same_owner_meets(
    plan: CombatStatSourcePlanV1,
    own: [CombatStatCardPlanV1; 4],
    test: PlanTest,
) -> bool {
    exists|i: int|
        0 <= i < 4 && ((#[trigger] own@[i].ability == plan && (is_copy(own@[i].bonus)
            || plan_test(test, own@[i].bonus))) || (own@[i].bonus == plan && (is_copy(
            own@[i].ability,
        ) || plan_test(test, own@[i].ability))) || latch_answers(own@[i].ability, test)
            || latch_answers(own@[i].bonus, test))
}

pub open spec fn family_count(plan: CombatStatSourcePlanV1) -> int {
    if plan_test(PlanTest::PoisonOrToxinLatch, plan) {
        1
    } else {
        0
    }
}

/// How many Poison or Toxin permanents a hand carries.
pub open spec fn poison_or_toxin_count(hand: [CombatStatCardPlanV1; 4]) -> int {
    family_count(hand[0].ability) + family_count(hand[0].bonus) + family_count(hand[1].ability)
        + family_count(hand[1].bonus) + family_count(hand[2].ability) + family_count(hand[2].bonus)
        + family_count(hand[3].ability) + family_count(hand[3].bonus)
}

/// Revision 8's `Defeat: Recover 2 Pillz Out Of 3`, whose contexts stay as they were.
pub open spec fn is_first_recovery(effect: CombatStatEffectV1) -> bool {
    effect == CombatStatEffectV1::RecoverPaidPillzOnDefeat { numerator: 2, denominator: 3 }
}

/// Whether a clan-gated (`OwnerClanIn`) end-of-round effect meets an opposing write to what
/// it writes, or an opposing Copy.
pub open spec fn clan_gated_meets(effect: CombatStatEffectV1, opponent: [CombatStatCardPlanV1; 4]) -> bool {
    if effect is ReduceOpponentLifeOnVictory || effect is ToxinOpponentLifeOnVictory
        || effect is GainLifeOnVictoryPerOpponentStars {
        hand_any(opponent, PlanTest::WritesLife) || hand_any(opponent, PlanTest::IsCopy)
    } else if effect is ReduceOpponentPillzOnVictory || effect is GainPillzOnVictoryPerOpponentStars {
        hand_any(opponent, PlanTest::WritesPillz) || hand_any(opponent, PlanTest::IsCopy)
    } else {
        false
    }
}

/// Whether a `Versus` or `After` end-of-round effect meets another write to what it writes,
/// or an opposing Copy.
pub open spec fn hand_clan_gated_meets(
    plan: CombatStatSourcePlanV1,
    effect: CombatStatEffectV1,
    own: [CombatStatCardPlanV1; 4],
    opponent: [CombatStatCardPlanV1; 4],
) -> bool {
    if effect is ReduceOpponentLifeOnVictory {
        hand_any(opponent, PlanTest::WritesLife) || hand_any(opponent, PlanTest::IsCopy)
    } else if effect is GainLifeOnVictory || effect is GainLifePerFinalDamageOnVictory {
        hand_any(opponent, PlanTest::WritesLife) || same_owner_meets(plan, own, PlanTest::WritesLife)
            || hand_any(opponent, PlanTest::IsCopy)
    } else if effect is GainPillzOnVictory {
        hand_any(opponent, PlanTest::WritesPillz) || same_owner_meets(
            plan,
            own,
            PlanTest::WritesPillz,
        ) || hand_any(opponent, PlanTest::IsCopy)
    } else {
        false
    }
}

/// Why an admitted plan is refused in the match around it, if it is.
pub open spec fn context_refusal(
    plan: CombatStatSourcePlanV1,
    own: [CombatStatCardPlanV1; 4],
    opponent: [CombatStatCardPlanV1; 4],
) -> Option<InvalidCombatStatPlanReasonV1> {
    match plan {
        CombatStatSourcePlanV1::Execute { source_id, predicate, effect } => {
            let stop = effect == CombatStatEffectV1::StopOpponentAbility || effect
                == CombatStatEffectV1::StopOpponentBonus;
            let unison = predicate == CombatStatPredicateV1::OwnerHandUnison;
            if opposing_bonus_copy_can_take(plan, own, opponent) && (source_id == 274 || (stop
                && predicate != CombatStatPredicateV1::Always)) {
                Some(InvalidCombatStatPlanReasonV1::BonusSlotCopyOfUnpinnedSource)
            } else if effect == CombatStatEffectV1::SimplifyAttackToPillz && (hand_any(
                opponent,
                PlanTest::ReadsSimplifiedAttack,
            ) || hand_any(own, PlanTest::ReducesPowerToZero) || hand_any(
                opponent,
                PlanTest::ReducesPowerToZero,
            ) || hand_any(opponent, PlanTest::IsCopy)) {
                Some(InvalidCombatStatPlanReasonV1::AttackSimplificationAgainstUnpinnedEffect)
            } else if effect is ImposePrintedCombatStat && (hand_any(opponent, PlanTest::IsCopy)
                || hand_any(opponent, PlanTest::CancelsModifiersOf(CombatStatAttributeV1::Damage))) {
                Some(InvalidCombatStatPlanReasonV1::UnmodelledImposeContext)
            } else if (effect is RecoverPaidPillzOnDefeat || effect is RecoverPaidPillzOnVictory)
                && !is_first_recovery(effect) && (opposing_copy_can_take(plan, own, opponent)
                || hand_any(opponent, PlanTest::FloorsOpposingPillz)) {
                Some(InvalidCombatStatPlanReasonV1::RecoveryAgainstUnpinnedEffect)
            } else if effect is GainPillzOnVictoryMax && (hand_any(opponent, PlanTest::IsCopy)
                || hand_any(opponent, PlanTest::WritesPillz)) {
                Some(InvalidCombatStatPlanReasonV1::CappedVictoryPillzAgainstUnpinnedEffect)
            } else if predicate is OwnerClanIn && clan_gated_meets(effect, opponent) {
                Some(InvalidCombatStatPlanReasonV1::ClanGatedPostRoundAgainstUnpinnedEffect)
            } else if (predicate is OpponentHandHasClan || predicate is OwnerPreviousCardClanIn)
                && hand_clan_gated_meets(plan, effect, own, opponent) {
                Some(InvalidCombatStatPlanReasonV1::HandClanGatedPostRoundAgainstUnpinnedEffect)
            } else if unison && effect is ToxinOpponentLifeOnVictory && (opposing_copy_can_take(
                plan,
                own,
                opponent,
            ) || poison_or_toxin_count(own) > 1 || (hand_any(own, PlanTest::IsCopy) && hand_any(
                opponent,
                PlanTest::PoisonOrToxinLatch,
            ))) {
                Some(InvalidCombatStatPlanReasonV1::UnisonLatchAgainstSameFamilyLatch)
            } else if unison && effect is GainLifeOnDefeat && (opposing_copy_can_take(
                plan,
                own,
                opponent,
            ) || hand_any(opponent, PlanTest::FloorsOpposingLife) || same_owner_meets(
                plan,
                own,
                PlanTest::WritesLife,
            )) {
                Some(InvalidCombatStatPlanReasonV1::UnisonGainAgainstUnpinnedEffect)
            } else if effect matches CombatStatEffectV1::ProtectOwnCombatStat { stat } && stat
                != CombatStatAttributeV1::PowerAndDamage && (hand_any(opponent, PlanTest::IsCopy)
                || hand_any(opponent, PlanTest::MeetsProtection(stat))) {
                Some(InvalidCombatStatPlanReasonV1::SingleStatProtectionAgainstUnpinnedEffect)
            } else if (effect matches CombatStatEffectV1::ModifyCombatStat { side, stat, .. } && side
                == CombatStatAffectedSideV1::Both && (hand_any(opponent, PlanTest::IsCopy) || hand_any(
                opponent,
                PlanTest::CancelsModifiersOf(stat),
            ))) {
                Some(InvalidCombatStatPlanReasonV1::BothCardsModifierAgainstUnpinnedEffect)
            } else if is_killshot(effect) && (hand_any(own, PlanTest::SimplifiesAttack) || hand_any(
                opponent,
                PlanTest::SimplifiesAttack,
            )) {
                Some(InvalidCombatStatPlanReasonV1::AttackSimplificationAgainstUnpinnedEffect)
            } else if is_killshot(effect) && ((hand_any(own, PlanTest::ZeroesOpposingAttack)
                && hand_any(opponent, PlanTest::ZeroesOpposingAttack)) || hand_any(
                own,
                PlanTest::ZeroesBothAttacks,
            ) || hand_any(opponent, PlanTest::ZeroesBothAttacks)) {
                Some(InvalidCombatStatPlanReasonV1::KillshotAgainstZeroAttacks)
            } else {
                None
            }
        },
        _ => None,
    }
}


fn effect_floors_opposing_pillz(effect: CombatStatEffectV1) -> (r: bool)
    ensures
        r == floors_opposing_pillz(effect),
{
    match effect {
        CombatStatEffectV1::ReduceOpponentPillzOnVictory { .. }
        | CombatStatEffectV1::ReduceOpponentPillzOnDefeat { .. }
        | CombatStatEffectV1::ReduceOpponentPillzOnVictoryPerAntiSupport { .. }
        | CombatStatEffectV1::ReduceOpponentPillzOnVictoryPerRound { .. }
        | CombatStatEffectV1::ConsumeOpponentPillzOnVictory { .. }
        | CombatStatEffectV1::CombustOpponentLifeAndPillzOnVictory { .. }
        | CombatStatEffectV1::ReduceOpponentPillzAndLifeOnVictory { .. } => true,
        _ => false,
    }
}

fn effect_floors_opposing_life(effect: CombatStatEffectV1) -> (r: bool)
    ensures
        r == floors_opposing_life(effect),
{
    match effect {
        CombatStatEffectV1::ReduceOpponentLifeOnVictoryOrDefeat { .. }
        | CombatStatEffectV1::ReduceOpponentLifeOnVictoryPerOpponentStars { .. }
        | CombatStatEffectV1::ReduceOpponentLifeOnVictoryPerAntiSupport { .. }
        | CombatStatEffectV1::ReduceOpponentLifeOnVictoryPerSupport { .. }
        | CombatStatEffectV1::ReduceOpponentLifeOnVictoryPerRound { .. }
        | CombatStatEffectV1::ReduceOpponentLifeOnVictory { .. }
        | CombatStatEffectV1::ReduceOpponentLifeOnDefeat { .. }
        | CombatStatEffectV1::ReduceOpponentLifeOnKillshot { .. }
        | CombatStatEffectV1::ToxinOpponentLifeOnKillshot { .. }
        | CombatStatEffectV1::ReduceBothPlayersLife { .. }
        | CombatStatEffectV1::PoisonOpponentLifeOnVictory { .. }
        | CombatStatEffectV1::PoisonOpponentLifeOnDefeat { .. }
        | CombatStatEffectV1::ToxinOpponentLifeOnVictory { .. }
        | CombatStatEffectV1::CombustOpponentLifeAndPillzOnVictory { .. }
        | CombatStatEffectV1::ReduceOpponentPillzAndLifeOnVictory { .. } => true,
        _ => false,
    }
}

fn effect_gains_pillz(effect: CombatStatEffectV1) -> (r: bool)
    ensures
        r == gains_pillz(effect),
{
    match effect {
        CombatStatEffectV1::RecoverPaidPillzOnDefeat { .. }
        | CombatStatEffectV1::RecoverPaidPillzOnVictory { .. }
        | CombatStatEffectV1::GainOnePillzOnVictoryOrDefeat { .. }
        | CombatStatEffectV1::GainOnePillzAndLifeOnVictory { .. }
        | CombatStatEffectV1::GainTwoPillzOnDefeatMaxEleven { .. }
        | CombatStatEffectV1::GainPillzOnVictory { .. }
        | CombatStatEffectV1::GainPillzOnVictoryMax { .. }
        | CombatStatEffectV1::GainPillzEqualToFinalDamageOnVictory { .. }
        | CombatStatEffectV1::GainPillzOnVictoryPerAntiSupport { .. }
        | CombatStatEffectV1::GainPillzOnVictoryPerSupport { .. }
        | CombatStatEffectV1::GainPillzOnVictoryPerOpponentStars { .. }
        | CombatStatEffectV1::GainPillzAndLifeOnKillshot { .. }
        | CombatStatEffectV1::GainPillzOnKillshot { .. }
        | CombatStatEffectV1::GainPillzOnDefeat { .. }
        | CombatStatEffectV1::GainPillzAndLifeOnDefeat { .. }
        | CombatStatEffectV1::GainPillzOnVictoryPerRound { .. }
        | CombatStatEffectV1::GainBothPlayersPillzOnVictoryOrDefeat { .. }
        | CombatStatEffectV1::DopePillzOnVictory { .. }
        | CombatStatEffectV1::DopePillzOnDefeat { .. }
        | CombatStatEffectV1::GainPillzAndLifeOnVictory { .. }
        | CombatStatEffectV1::GainPillzOnVictoryOrDefeat { .. }
        | CombatStatEffectV1::GainOpponentPillzOnDefeat { .. } => true,
        _ => false,
    }
}

fn effect_gains_life(effect: CombatStatEffectV1) -> (r: bool)
    ensures
        r == gains_life(effect),
{
    match effect {
        CombatStatEffectV1::GainOnePillzAndLifeOnVictory { .. }
        | CombatStatEffectV1::GainLifeEqualToFinalDamageOnCourageVictory { .. }
        | CombatStatEffectV1::GainLifeOnVictory { .. }
        | CombatStatEffectV1::GainLifePerFinalDamageOnVictory { .. }
        | CombatStatEffectV1::GainLifePerOpponentFinalDamageOnVictory { .. }
        | CombatStatEffectV1::GainLifeOnDefeat { .. }
        | CombatStatEffectV1::ReanimateLife { .. }
        | CombatStatEffectV1::GainLifeOnVictoryOrDefeat { .. }
        | CombatStatEffectV1::GainLifeOnVictoryPerSupport { .. }
        | CombatStatEffectV1::GainLifeOnVictoryPerOpponentStars { .. }
        | CombatStatEffectV1::GainPillzAndLifeOnKillshot { .. }
        | CombatStatEffectV1::GainLifeOnKillshot { .. }
        | CombatStatEffectV1::GainPillzAndLifeOnDefeat { .. }
        | CombatStatEffectV1::GainLifeOnVictoryPerRound { .. }
        | CombatStatEffectV1::GainBothPlayersLifeOnVictoryOrDefeat { .. }
        | CombatStatEffectV1::HealLifeOnVictory { .. }
        | CombatStatEffectV1::RegenLifeOnVictory { .. }
        | CombatStatEffectV1::GainPillzAndLifeOnVictory { .. }
        | CombatStatEffectV1::GainLifePerFinalDamageOnVictoryOrDefeat { .. }
        | CombatStatEffectV1::ReduceOwnLifeOnVictory { .. }
        | CombatStatEffectV1::ReduceOwnLife { .. }
        | CombatStatEffectV1::GainLifeOnDefeatMax { .. } => true,
        _ => false,
    }
}

fn effect_is_killshot(effect: CombatStatEffectV1) -> (r: bool)
    ensures
        r == is_killshot(effect),
{
    match effect {
        CombatStatEffectV1::ReduceOpponentLifeOnKillshot { .. }
        | CombatStatEffectV1::GainPillzAndLifeOnKillshot { .. }
        | CombatStatEffectV1::GainPillzOnKillshot { .. }
        | CombatStatEffectV1::GainLifeOnKillshot { .. }
        | CombatStatEffectV1::ToxinOpponentLifeOnKillshot { .. } => true,
        _ => false,
    }
}

fn effect_is_poison_or_toxin_latch(effect: CombatStatEffectV1) -> (r: bool)
    ensures
        r == is_poison_or_toxin_latch(effect),
{
    match effect {
        CombatStatEffectV1::PoisonOpponentLifeOnVictory { .. }
        | CombatStatEffectV1::PoisonOpponentLifeOnDefeat { .. }
        | CombatStatEffectV1::ToxinOpponentLifeOnVictory { .. }
        | CombatStatEffectV1::ToxinOpponentLifeOnKillshot { .. } => true,
        _ => false,
    }
}

fn effect_is_latch(effect: CombatStatEffectV1) -> (r: bool)
    ensures
        r == is_latch(effect),
{
    match effect {
        CombatStatEffectV1::PoisonOpponentLifeOnVictory { .. }
        | CombatStatEffectV1::PoisonOpponentLifeOnDefeat { .. }
        | CombatStatEffectV1::ToxinOpponentLifeOnVictory { .. }
        | CombatStatEffectV1::ToxinOpponentLifeOnKillshot { .. }
        | CombatStatEffectV1::HealLifeOnVictory { .. }
        | CombatStatEffectV1::RegenLifeOnVictory { .. }
        | CombatStatEffectV1::ConsumeOpponentPillzOnVictory { .. }
        | CombatStatEffectV1::CombustOpponentLifeAndPillzOnVictory { .. }
        | CombatStatEffectV1::DopePillzOnVictory { .. }
        | CombatStatEffectV1::DopePillzOnDefeat { .. } => true,
        _ => false,
    }
}

fn effect_reduces_attack_to_zero(effect: CombatStatEffectV1, both_only: bool) -> (r: bool)
    ensures
        r == reduces_attack_to_zero(effect, both_only),
{
    match effect {
        CombatStatEffectV1::ModifyCombatStat { side, stat, operation, minimum, .. } => {
            let side_ok = match side {
                CombatStatAffectedSideV1::Both => true,
                CombatStatAffectedSideV1::Opponent => !both_only,
                CombatStatAffectedSideV1::Player => false,
            };
            let stat_ok = match stat {
                CombatStatAttributeV1::Damage => false,
                _ => true,
            };
            let decrease = match operation {
                CombatStatOperationV1::Decrease => true,
                CombatStatOperationV1::Increase => false,
            };
            let floor_zero = match minimum {
                Some(m) => m == 0,
                None => false,
            };
            side_ok && stat_ok && decrease && floor_zero
        },
        _ => false,
    }
}

fn stat_unpinned_against(stat: CombatStatAttributeV1, protected: CombatStatAttributeV1) -> (r: bool)
    ensures
        r == unpinned_against(stat, protected),
{
    (stat == CombatStatAttributeV1::Attack) == (protected == CombatStatAttributeV1::Attack)
}

fn effect_meets_protection(effect: CombatStatEffectV1, protected: CombatStatAttributeV1) -> (r: bool)
    ensures
        r == meets_protection(effect, protected),
{
    match effect {
        CombatStatEffectV1::ModifyCombatStat { side, stat, .. } => {
            let opposing = match side {
                CombatStatAffectedSideV1::Player => false,
                _ => true,
            };
            opposing && stat_unpinned_against(stat, protected)
        },
        CombatStatEffectV1::CancelOpponentCombatStatModifiers { stat } => stat_unpinned_against(
            stat,
            protected,
        ),
        CombatStatEffectV1::CopyOpponentPrintedCombatStat { stat } => stat_unpinned_against(
            stat,
            protected,
        ),
        CombatStatEffectV1::ExchangePrintedCombatStat { stat } => stat_unpinned_against(
            stat,
            protected,
        ),
        CombatStatEffectV1::ImposePrintedCombatStat { stat } => stat_unpinned_against(
            stat,
            protected,
        ),
        CombatStatEffectV1::SimplifyAttackToPillz => true,
        _ => false,
    }
}

fn effect_cancels_modifiers_of(effect: CombatStatEffectV1, stat: CombatStatAttributeV1) -> (r: bool)
    ensures
        r == cancels_modifiers_of(effect, stat),
{
    match effect {
        CombatStatEffectV1::CancelOpponentCombatStatModifiers { stat: cancelled } => cancelled
            == stat || (cancelled == CombatStatAttributeV1::PowerAndDamage && (stat
            == CombatStatAttributeV1::Power || stat == CombatStatAttributeV1::Damage)),
        _ => false,
    }
}

fn effect_reads_simplified_attack(effect: CombatStatEffectV1) -> (r: bool)
    ensures
        r == reads_simplified_attack(effect),
{
    let cancel = match effect {
        CombatStatEffectV1::CancelOpponentCombatStatModifiers { stat } => stat
            != CombatStatAttributeV1::Damage,
        _ => false,
    };
    effect_is_killshot(effect) || cancel
}

fn effect_reduces_power_to_zero(effect: CombatStatEffectV1) -> (r: bool)
    ensures
        r == reduces_power_to_zero(effect),
{
    match effect {
        CombatStatEffectV1::ModifyCombatStat { side, stat, operation, minimum, .. } => {
            let opposing = match side {
                CombatStatAffectedSideV1::Player => false,
                _ => true,
            };
            let power = match stat {
                CombatStatAttributeV1::Power | CombatStatAttributeV1::PowerAndDamage => true,
                _ => false,
            };
            let decrease = match operation {
                CombatStatOperationV1::Decrease => true,
                CombatStatOperationV1::Increase => false,
            };
            let floor_zero = match minimum {
                Some(m) => m == 0,
                None => false,
            };
            opposing && power && decrease && floor_zero
        },
        _ => false,
    }
}

/// Answer `test` for one source plan.
pub fn test_plan(test: PlanTest, plan: CombatStatSourcePlanV1) -> (r: bool)
    ensures
        r == plan_test(test, plan),
{
    match plan {
        CombatStatSourcePlanV1::CopyOpponentSource { copied, .. } => match test {
            PlanTest::IsCopy => true,
            PlanTest::CopiesKind(kind) => copied == kind,
            _ => false,
        },
        CombatStatSourcePlanV1::Execute { effect, .. } => match test {
            PlanTest::FloorsOpposingPillz => effect_floors_opposing_pillz(effect),
            PlanTest::FloorsOpposingLife => effect_floors_opposing_life(effect),
            PlanTest::WritesPillz => effect_floors_opposing_pillz(effect) || effect_gains_pillz(
                effect,
            ),
            PlanTest::WritesLife => effect_floors_opposing_life(effect) || effect_gains_life(effect),
            PlanTest::MeetsProtection(stat) => effect_meets_protection(effect, stat),
            PlanTest::SimplifiesAttack => effect == CombatStatEffectV1::SimplifyAttackToPillz,
            PlanTest::ZeroesOpposingAttack => effect_reduces_attack_to_zero(effect, false),
            PlanTest::ZeroesBothAttacks => effect_reduces_attack_to_zero(effect, true),
            PlanTest::PoisonOrToxinLatch => effect_is_poison_or_toxin_latch(effect),
            PlanTest::ReadsSimplifiedAttack => effect_reads_simplified_attack(effect),
            PlanTest::ReducesPowerToZero => effect_reduces_power_to_zero(effect),
            PlanTest::CancelsModifiersOf(stat) => effect_cancels_modifiers_of(effect, stat),
            _ => false,
        },
        _ => false,
    }
}

/// Whether some source plan of `hand` answers `test`.
pub fn hand_has(hand: &[CombatStatCardPlanV1; 4], test: PlanTest) -> (r: bool)
    ensures
        r == hand_any(*hand, test),
{
    let mut i: usize = 0;
    while i < 4
        invariant
            i <= 4,
            forall|j: int|
                0 <= j < i ==> !(#[trigger] plan_test(test, hand@[j].ability) || plan_test(
                    test,
                    hand@[j].bonus,
                )),
        decreases 4 - i,
    {
        let card = hand[i];
        if test_plan(test, card.ability) || test_plan(test, card.bonus) {
            assert(plan_test(test, hand@[i as int].ability) || plan_test(test, hand@[i as int].bonus));
            return true;
        }
        i += 1;
    }
    false
}

fn copy_can_take(
    plan: CombatStatSourcePlanV1,
    own: &[CombatStatCardPlanV1; 4],
    opponent: &[CombatStatCardPlanV1; 4],
) -> (r: bool)
    ensures
        r == opposing_copy_can_take(plan, *own, *opponent),
{
    let ability_copies = hand_has(opponent, PlanTest::CopiesKind(CopiedSourceKindV1::Ability));
    let bonus_copies = hand_has(opponent, PlanTest::CopiesKind(CopiedSourceKindV1::Bonus));
    let mut i: usize = 0;
    while i < 4
        invariant
            i <= 4,
            ability_copies == hand_any(*opponent, PlanTest::CopiesKind(CopiedSourceKindV1::Ability)),
            bonus_copies == hand_any(*opponent, PlanTest::CopiesKind(CopiedSourceKindV1::Bonus)),
            forall|j: int|
                0 <= j < i ==> !((#[trigger] own@[j].ability == plan && ability_copies) || (
                own@[j].bonus == plan && bonus_copies)),
        decreases 4 - i,
    {
        let card = own[i];
        if (card.ability == plan && ability_copies) || (card.bonus == plan && bonus_copies) {
            assert(own@[i as int].ability == plan || own@[i as int].bonus == plan);
            return true;
        }
        i += 1;
    }
    false
}

fn bonus_copies_kind(opponent: &[CombatStatCardPlanV1; 4], kind: CopiedSourceKindV1) -> (r: bool)
    ensures
        r == bonus_copies(*opponent, kind),
{
    let mut i: usize = 0;
    while i < 4
        invariant
            i <= 4,
            forall|j: int|
                0 <= j < i ==> !#[trigger] plan_test(PlanTest::CopiesKind(kind), opponent@[j].bonus),
        decreases 4 - i,
    {
        if test_plan(PlanTest::CopiesKind(kind), opponent[i].bonus) {
            assert(plan_test(PlanTest::CopiesKind(kind), opponent@[i as int].bonus));
            return true;
        }
        i += 1;
    }
    false
}

fn bonus_copy_can_take(
    plan: CombatStatSourcePlanV1,
    own: &[CombatStatCardPlanV1; 4],
    opponent: &[CombatStatCardPlanV1; 4],
) -> (r: bool)
    ensures
        r == opposing_bonus_copy_can_take(plan, *own, *opponent),
{
    let ability_copies = bonus_copies_kind(opponent, CopiedSourceKindV1::Ability);
    let bonus_copied = bonus_copies_kind(opponent, CopiedSourceKindV1::Bonus);
    let mut i: usize = 0;
    while i < 4
        invariant
            i <= 4,
            ability_copies == bonus_copies(*opponent, CopiedSourceKindV1::Ability),
            bonus_copied == bonus_copies(*opponent, CopiedSourceKindV1::Bonus),
            forall|j: int|
                0 <= j < i ==> !((#[trigger] own@[j].ability == plan && ability_copies) || (
                own@[j].bonus == plan && bonus_copied)),
        decreases 4 - i,
    {
        let card = own[i];
        if (card.ability == plan && ability_copies) || (card.bonus == plan && bonus_copied) {
            assert(own@[i as int].ability == plan || own@[i as int].bonus == plan);
            return true;
        }
        i += 1;
    }
    false
}

fn plan_is_copy(plan: CombatStatSourcePlanV1) -> (r: bool)
    ensures
        r == is_copy(plan),
{
    match plan {
        CombatStatSourcePlanV1::CopyOpponentSource { .. } => true,
        _ => false,
    }
}

fn plan_latch_answers(plan: CombatStatSourcePlanV1, test: PlanTest) -> (r: bool)
    ensures
        r == latch_answers(plan, test),
{
    match plan {
        CombatStatSourcePlanV1::Execute { effect, .. } => effect_is_latch(effect) && test_plan(
            test,
            plan,
        ),
        _ => false,
    }
}

fn owner_meets(plan: CombatStatSourcePlanV1, own: &[CombatStatCardPlanV1; 4], test: PlanTest) -> (r: bool)
    ensures
        r == same_owner_meets(plan, *own, test),
{
    let mut i: usize = 0;
    while i < 4
        invariant
            i <= 4,
            forall|j: int|
                0 <= j < i ==> !((#[trigger] own@[j].ability == plan && (is_copy(own@[j].bonus)
                    || plan_test(test, own@[j].bonus))) || (own@[j].bonus == plan && (is_copy(
                    own@[j].ability,
                ) || plan_test(test, own@[j].ability))) || latch_answers(own@[j].ability, test)
                    || latch_answers(own@[j].bonus, test)),
        decreases 4 - i,
    {
        let card = own[i];
        if (card.ability == plan && (plan_is_copy(card.bonus) || test_plan(test, card.bonus))) || (
        card.bonus == plan && (plan_is_copy(card.ability) || test_plan(test, card.ability)))
            || plan_latch_answers(card.ability, test) || plan_latch_answers(card.bonus, test) {
            assert(own@[i as int].ability == card.ability);
            return true;
        }
        i += 1;
    }
    false
}

fn family_of(plan: CombatStatSourcePlanV1) -> (r: u8)
    ensures
        r == family_count(plan),
{
    if test_plan(PlanTest::PoisonOrToxinLatch, plan) {
        1
    } else {
        0
    }
}

fn count_poison_or_toxin(hand: &[CombatStatCardPlanV1; 4]) -> (r: u8)
    ensures
        r == poison_or_toxin_count(*hand),
{
    family_of(hand[0].ability) + family_of(hand[0].bonus) + family_of(hand[1].ability) + family_of(
        hand[1].bonus,
    ) + family_of(hand[2].ability) + family_of(hand[2].bonus) + family_of(hand[3].ability)
        + family_of(hand[3].bonus)
}

fn clan_gated_meets_exec(effect: CombatStatEffectV1, opponent: &[CombatStatCardPlanV1; 4]) -> (r: bool)
    ensures
        r == clan_gated_meets(effect, *opponent),
{
    match effect {
        CombatStatEffectV1::ReduceOpponentLifeOnVictory { .. }
        | CombatStatEffectV1::ToxinOpponentLifeOnVictory { .. }
        | CombatStatEffectV1::GainLifeOnVictoryPerOpponentStars { .. } => hand_has(
            opponent,
            PlanTest::WritesLife,
        ) || hand_has(opponent, PlanTest::IsCopy),
        CombatStatEffectV1::ReduceOpponentPillzOnVictory { .. }
        | CombatStatEffectV1::GainPillzOnVictoryPerOpponentStars { .. } => hand_has(
            opponent,
            PlanTest::WritesPillz,
        ) || hand_has(opponent, PlanTest::IsCopy),
        _ => false,
    }
}

fn hand_clan_gated_meets_exec(
    plan: CombatStatSourcePlanV1,
    effect: CombatStatEffectV1,
    own: &[CombatStatCardPlanV1; 4],
    opponent: &[CombatStatCardPlanV1; 4],
) -> (r: bool)
    ensures
        r == hand_clan_gated_meets(plan, effect, *own, *opponent),
{
    match effect {
        CombatStatEffectV1::ReduceOpponentLifeOnVictory { .. } => hand_has(
            opponent,
            PlanTest::WritesLife,
        ) || hand_has(opponent, PlanTest::IsCopy),
        CombatStatEffectV1::GainLifeOnVictory { .. }
        | CombatStatEffectV1::GainLifePerFinalDamageOnVictory { .. } => hand_has(
            opponent,
            PlanTest::WritesLife,
        ) || owner_meets(plan, own, PlanTest::WritesLife) || hand_has(opponent, PlanTest::IsCopy),
        CombatStatEffectV1::GainPillzOnVictory { .. } => hand_has(opponent, PlanTest::WritesPillz)
            || owner_meets(plan, own, PlanTest::WritesPillz) || hand_has(opponent, PlanTest::IsCopy),
        _ => false,
    }
}

/// Why an admitted plan is refused in the match around it, if it is.
pub fn source_context_refusal(
    plan: CombatStatSourcePlanV1,
    own: &[CombatStatCardPlanV1; 4],
    opponent: &[CombatStatCardPlanV1; 4],
) -> (r: Option<InvalidCombatStatPlanReasonV1>)
    ensures
        r == context_refusal(plan, *own, *opponent),
{
    let (source_id, predicate, effect) = match plan {
        CombatStatSourcePlanV1::Execute { source_id, predicate, effect } => (
            source_id,
            predicate,
            effect,
        ),
        _ => return None,
    };
    let stop = effect == CombatStatEffectV1::StopOpponentAbility || effect
        == CombatStatEffectV1::StopOpponentBonus;
    let unison = predicate == CombatStatPredicateV1::OwnerHandUnison;
    let always = predicate == CombatStatPredicateV1::Always;
    let recovery = match effect {
        CombatStatEffectV1::RecoverPaidPillzOnDefeat { .. }
        | CombatStatEffectV1::RecoverPaidPillzOnVictory { .. } => true,
        _ => false,
    };
    let first_recovery = effect == CombatStatEffectV1::RecoverPaidPillzOnDefeat {
        numerator: 2,
        denominator: 3,
    };
    let capped_victory_pillz = match effect {
        CombatStatEffectV1::GainPillzOnVictoryMax { .. } => true,
        _ => false,
    };
    let owner_clan_gate = match predicate {
        CombatStatPredicateV1::OwnerClanIn(_) => true,
        _ => false,
    };
    let hand_clan_gate = match predicate {
        CombatStatPredicateV1::OpponentHandHasClan(_)
        | CombatStatPredicateV1::OwnerPreviousCardClanIn(_) => true,
        _ => false,
    };
    let unison_toxin = match effect {
        CombatStatEffectV1::ToxinOpponentLifeOnVictory { .. } => unison,
        _ => false,
    };
    let unison_defeat_life = match effect {
        CombatStatEffectV1::GainLifeOnDefeat { .. } => unison,
        _ => false,
    };
    let protected = match effect {
        CombatStatEffectV1::ProtectOwnCombatStat { stat } => match stat {
            CombatStatAttributeV1::PowerAndDamage => None,
            _ => Some(stat),
        },
        _ => None,
    };
    let killshot = effect_is_killshot(effect);
    let impose = match effect {
        CombatStatEffectV1::ImposePrintedCombatStat { .. } => true,
        _ => false,
    };
    let both_cards = match effect {
        CombatStatEffectV1::ModifyCombatStat { side, stat, .. } => match side {
            CombatStatAffectedSideV1::Both => Some(stat),
            _ => None,
        },
        _ => None,
    };
    if (source_id == 274 || (stop && !always)) && bonus_copy_can_take(plan, own, opponent) {
        Some(InvalidCombatStatPlanReasonV1::BonusSlotCopyOfUnpinnedSource)
    } else if effect == CombatStatEffectV1::SimplifyAttackToPillz && (hand_has(
        opponent,
        PlanTest::ReadsSimplifiedAttack,
    ) || hand_has(own, PlanTest::ReducesPowerToZero) || hand_has(
        opponent,
        PlanTest::ReducesPowerToZero,
    ) || hand_has(opponent, PlanTest::IsCopy)) {
        Some(InvalidCombatStatPlanReasonV1::AttackSimplificationAgainstUnpinnedEffect)
    } else if impose && (hand_has(opponent, PlanTest::IsCopy) || hand_has(
        opponent,
        PlanTest::CancelsModifiersOf(CombatStatAttributeV1::Damage),
    )) {
        Some(InvalidCombatStatPlanReasonV1::UnmodelledImposeContext)
    } else if recovery && !first_recovery && (copy_can_take(plan, own, opponent) || hand_has(
        opponent,
        PlanTest::FloorsOpposingPillz,
    )) {
        Some(InvalidCombatStatPlanReasonV1::RecoveryAgainstUnpinnedEffect)
    } else if capped_victory_pillz && (hand_has(opponent, PlanTest::IsCopy) || hand_has(
        opponent,
        PlanTest::WritesPillz,
    )) {
        Some(InvalidCombatStatPlanReasonV1::CappedVictoryPillzAgainstUnpinnedEffect)
    } else if owner_clan_gate && clan_gated_meets_exec(effect, opponent) {
        Some(InvalidCombatStatPlanReasonV1::ClanGatedPostRoundAgainstUnpinnedEffect)
    } else if hand_clan_gate && hand_clan_gated_meets_exec(plan, effect, own, opponent) {
        Some(InvalidCombatStatPlanReasonV1::HandClanGatedPostRoundAgainstUnpinnedEffect)
    } else if unison_toxin && (copy_can_take(plan, own, opponent) || count_poison_or_toxin(own) > 1
        || (hand_has(own, PlanTest::IsCopy) && hand_has(opponent, PlanTest::PoisonOrToxinLatch))) {
        Some(InvalidCombatStatPlanReasonV1::UnisonLatchAgainstSameFamilyLatch)
    } else if unison_defeat_life && (copy_can_take(plan, own, opponent) || hand_has(
        opponent,
        PlanTest::FloorsOpposingLife,
    ) || owner_meets(plan, own, PlanTest::WritesLife)) {
        Some(InvalidCombatStatPlanReasonV1::UnisonGainAgainstUnpinnedEffect)
    } else if match protected {
        Some(stat) => hand_has(opponent, PlanTest::IsCopy) || hand_has(
            opponent,
            PlanTest::MeetsProtection(stat),
        ),
        None => false,
    } {
        Some(InvalidCombatStatPlanReasonV1::SingleStatProtectionAgainstUnpinnedEffect)
    } else if match both_cards {
        Some(stat) => hand_has(opponent, PlanTest::IsCopy) || hand_has(
            opponent,
            PlanTest::CancelsModifiersOf(stat),
        ),
        None => false,
    } {
        Some(InvalidCombatStatPlanReasonV1::BothCardsModifierAgainstUnpinnedEffect)
    } else if killshot && (hand_has(own, PlanTest::SimplifiesAttack) || hand_has(
        opponent,
        PlanTest::SimplifiesAttack,
    )) {
        Some(InvalidCombatStatPlanReasonV1::AttackSimplificationAgainstUnpinnedEffect)
    } else if killshot && ((hand_has(own, PlanTest::ZeroesOpposingAttack) && hand_has(
        opponent,
        PlanTest::ZeroesOpposingAttack,
    )) || hand_has(own, PlanTest::ZeroesBothAttacks) || hand_has(
        opponent,
        PlanTest::ZeroesBothAttacks,
    )) {
        Some(InvalidCombatStatPlanReasonV1::KillshotAgainstZeroAttacks)
    } else {
        None
    }
}

} // verus!
