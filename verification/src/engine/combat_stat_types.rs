//! The public vocabulary of the combat-stat diagnostic projection: effect sources, stats,
//! predicates, effects, per-source plans and the reasons a plan or a round is refused.

use super::{BaseRulesError, BaseRulesMatchSpec, ByPlayer, HandSlot, PlayerId};
use crate::card::CardKey;
use vstd::prelude::*;

verus! {

/// Which end-of-round resources a resource cancellation drops.
#[derive(Clone, Copy, Debug, PartialEq, Eq, Structural, Hash)]
pub enum ResourceCancellationV1 {
    Life,
    Pillz,
    PillzAndLife,
}

/// The source slot of a projected effect: the card's ability or its clan bonus.
#[derive(Clone, Copy, Debug, PartialEq, Eq, Structural, Hash, PartialOrd, Ord)]
pub enum CombatStatEffectSourceV1 {
    Ability,
    Bonus,
}

/// The combat stat an effect reads or writes.
#[derive(Clone, Copy, Debug, PartialEq, Eq, Structural, Hash, PartialOrd, Ord)]
pub enum CombatStatAttributeV1 {
    Attack,
    Damage,
    Power,
    PowerAndDamage,
}

/// Whose selected card a stat change lands on; `Both` lands on both, each clamped alone.
#[derive(Clone, Copy, Debug, PartialEq, Eq, Structural, Hash, PartialOrd, Ord)]
pub enum CombatStatAffectedSideV1 {
    Opponent,
    Player,
    Both,
}

/// Whether a stat change raises or lowers.
#[derive(Clone, Copy, Debug, PartialEq, Eq, Structural, Hash, PartialOrd, Ord)]
pub enum CombatStatOperationV1 {
    Decrease,
    Increase,
}

/// What a stat change's printed value is multiplied by.
#[derive(Clone, Copy, Debug, PartialEq, Eq, Structural, Hash, PartialOrd, Ord)]
pub enum CombatStatMagnitudeV1 {
    Fixed,
    SourceBonusSupport,
    Growth,
    Degrowth,
    OpponentStars,
    OpponentDamage,
    OpponentPower,
    AntiSupport,
    OwnerLife,
    OwnerPillz,
    OwnerPillzLost,
    OwnerLifeLost,
}

/// The condition under which a source acts in a round.
#[derive(Clone, Copy, Debug, PartialEq, Eq, Structural, Hash, PartialOrd, Ord)]
pub enum CombatStatPredicateV1 {
    Always,
    OwnerMovesFirst,
    OwnerMovesSecond,
    OwnerWonPreviousRound,
    OwnerLostPreviousRound,
    SelectedHandSlotsMatch,
    SelectedHandSlotsDiffer,
    MatchIsNight,
    MatchIsDay,
    OwnerHandUnison,
    OwnerAbilityStopped,
    OwnerClanIn(ClanSetV1),
    OwnerPreviousCardClanIn(ClanSetV1),
    OpponentHandHasClan(ClanSetV1),
    OwnerPillzUsedAbove(u8),
    OwnerPillzUsedBelow(u8),
    OwnerWonPreviousRoundAtNight,
    OwnerClanInAnd(ClanSetV1, ClanConjunctV1),
}

/// The second condition of `OwnerClanInAnd`: one plain predicate.
#[derive(Clone, Copy, Debug, PartialEq, Eq, Structural, Hash, PartialOrd, Ord)]
pub enum ClanConjunctV1 {
    OwnerMovesFirst,
    OwnerMovesSecond,
    SelectedHandSlotsDiffer,
}

/// How a round-scaled effect grows: `Growth` by round + 1, `Degrowth` by 4 - round.
#[derive(Clone, Copy, Debug, PartialEq, Eq, Structural, Hash, PartialOrd, Ord)]
pub enum RoundScaleV1 {
    Growth,
    Degrowth,
}

/// Public description of an admitted end-of-round effect.
#[derive(Clone, Copy, Debug, PartialEq, Eq, Structural, Hash, PartialOrd, Ord)]
pub enum CombatStatPostRoundEffectV1 {
    RecoverPaidPillzOnDefeat {
        numerator: u16,
        denominator: u16,
    },
    RecoverPaidPillzOnVictory {
        numerator: u16,
        denominator: u16,
    },
    GainOnePillzOnVictoryOrDefeat,
    GainOnePillzAndLifeOnVictory,
    GainTwoPillzOnDefeatMaxEleven,
    GainLifeEqualToFinalDamageOnCourageVictory,
    GainLifeOnVictory {
        life: u16,
    },
    GainPillzOnVictory {
        pillz: u16,
    },
    GainPillzOnVictoryMax {
        pillz: u16,
        maximum: u16,
    },
    ReduceOpponentPillzOnVictory {
        pillz: u16,
        minimum: u16,
    },
    ReduceOpponentPillzOnDefeat {
        pillz: u16,
        minimum: u16,
    },
    GainPillzEqualToFinalDamageOnVictory,
    GainLifePerFinalDamageOnVictory {
        life_per_damage: u16,
        maximum: u16,
    },
    GainLifePerOpponentFinalDamageOnVictory {
        life_per_damage: u16,
    },
    GainLifeOnDefeat {
        life: u16,
    },
    ReanimateLife {
        life: u16,
    },
    GainLifeOnVictoryOrDefeat {
        life: u16,
    },
    ReduceOpponentLifeOnVictoryOrDefeat {
        life: u16,
        minimum: u16,
    },
    ReduceOpponentLifeOnVictoryPerOpponentStars {
        per_star: u16,
        minimum: u16,
    },
    ReduceOpponentLifeOnVictoryPerAntiSupport {
        per_count: u16,
        minimum: u16,
    },
    ReduceOpponentPillzOnVictoryPerAntiSupport {
        per_count: u16,
        minimum: u16,
    },
    GainPillzOnVictoryPerAntiSupport {
        per_count: u16,
        maximum: u16,
    },
    ReduceOpponentLifeOnVictoryPerSupport {
        per_count: u16,
        minimum: u16,
    },
    GainLifeOnVictoryPerSupport {
        per_count: u16,
    },
    GainPillzOnVictoryPerSupport {
        per_count: u16,
    },
    GainLifeOnVictoryPerOpponentStars {
        per_star: u16,
    },
    GainPillzOnVictoryPerOpponentStars {
        per_star: u16,
    },
    GainPillzAndLifeOnKillshot {
        amount: u16,
    },
    GainPillzOnKillshot {
        pillz: u16,
    },
    GainLifeOnKillshot {
        life: u16,
        maximum: u16,
    },
    ToxinOpponentLifeOnKillshot {
        life: u16,
        minimum: u16,
    },
    GainPillzOnDefeat {
        pillz: u16,
    },
    GainPillzAndLifeOnDefeat {
        amount: u16,
    },
    ReduceOpponentLifeOnVictoryPerRound {
        per_round: u16,
        minimum: u16,
        scale: RoundScaleV1,
    },
    ReduceOpponentPillzOnVictoryPerRound {
        per_round: u16,
        minimum: u16,
        scale: RoundScaleV1,
    },
    GainLifeOnVictoryPerRound {
        per_round: u16,
        scale: RoundScaleV1,
    },
    GainPillzOnVictoryPerRound {
        per_round: u16,
        scale: RoundScaleV1,
    },
    ReduceOpponentLifeOnVictory {
        life: u16,
        minimum: u16,
    },
    ReduceOpponentLifeOnDefeat {
        life: u16,
        minimum: u16,
    },
    ReduceOpponentLifeOnKillshot {
        life: u16,
        minimum: u16,
    },
    ReduceBothPlayersLife {
        life: u16,
        minimum: u16,
    },
    GainBothPlayersLifeOnVictoryOrDefeat {
        life: u16,
    },
    GainBothPlayersPillzOnVictoryOrDefeat {
        pillz: u16,
    },
    HealLifeOnVictory {
        life: u16,
        maximum: u16,
    },
    RegenLifeOnVictory {
        life: u16,
        maximum: u16,
    },
    PoisonOpponentLifeOnVictory {
        life: u16,
        minimum: u16,
    },
    PoisonOpponentLifeOnDefeat {
        life: u16,
        minimum: u16,
    },
    ToxinOpponentLifeOnVictory {
        life: u16,
        minimum: u16,
    },
    ConsumeOpponentPillzOnVictory {
        pillz: u16,
        minimum: u16,
    },
    CombustOpponentLifeAndPillzOnVictory {
        amount: u16,
        minimum: u16,
    },
    DopePillzOnVictory {
        pillz: u16,
        maximum: u16,
    },
    GainPillzAndLifeOnVictory {
        amount: u16,
    },
    GainPillzOnVictoryOrDefeat {
        pillz: u16,
    },
    GainLifePerFinalDamageOnVictoryOrDefeat {
        life_per_damage: u16,
    },
    ReduceOpponentPillzAndLifeOnVictory {
        amount: u16,
        minimum: u16,
    },
    DopePillzOnDefeat {
        pillz: u16,
        maximum: u16,
    },
    ReduceOwnLifeOnVictory {
        life: u16,
        minimum: u16,
    },
    ReduceOwnLife {
        life: u16,
        minimum: u16,
    },
    GainLifeOnDefeatMax {
        life: u16,
        maximum: u16,
    },
    GainOpponentPillzOnDefeat {
        pillz: u16,
    },
}

/// String-free execution primitives a plan can carry.
#[derive(Clone, Copy, Debug, PartialEq, Eq, Structural, Hash)]
pub enum CombatStatEffectV1 {
    ModifyCombatStat {
        side: CombatStatAffectedSideV1,
        stat: CombatStatAttributeV1,
        operation: CombatStatOperationV1,
        value: u16,
        minimum: Option<u16>,
        maximum: Option<u16>,
        multiplier: CombatStatMagnitudeV1,
    },
    StopOpponentAbility,
    StopOpponentBonus,
    CancelOpponentCombatStatModifiers {
        stat: CombatStatAttributeV1,
    },
    ProtectOwnCombatStat {
        stat: CombatStatAttributeV1,
    },
    ProtectOwnAbility,
    ProtectOwnBonus,
    CopyOpponentPrintedCombatStat {
        stat: CombatStatAttributeV1,
    },
    ExchangePrintedCombatStat {
        stat: CombatStatAttributeV1,
    },
    ImposePrintedCombatStat {
        stat: CombatStatAttributeV1,
    },
    CancelOpponentResourceModifiers {
        resources: ResourceCancellationV1,
    },
    SimplifyAttackToPillz,
    RecoverPaidPillzOnDefeat {
        numerator: u16,
        denominator: u16,
    },
    RecoverPaidPillzOnVictory {
        numerator: u16,
        denominator: u16,
    },
    GainOnePillzOnVictoryOrDefeat,
    GainOnePillzAndLifeOnVictory,
    GainTwoPillzOnDefeatMaxEleven,
    GainLifeEqualToFinalDamageOnCourageVictory,
    GainLifeOnVictory {
        life: u16,
    },
    GainPillzOnVictory {
        pillz: u16,
    },
    GainPillzOnVictoryMax {
        pillz: u16,
        maximum: u16,
    },
    ReduceOpponentPillzOnVictory {
        pillz: u16,
        minimum: u16,
    },
    ReduceOpponentPillzOnDefeat {
        pillz: u16,
        minimum: u16,
    },
    GainPillzEqualToFinalDamageOnVictory,
    GainLifePerFinalDamageOnVictory {
        life_per_damage: u16,
        maximum: u16,
    },
    GainLifePerOpponentFinalDamageOnVictory {
        life_per_damage: u16,
    },
    GainLifeOnDefeat {
        life: u16,
    },
    ReanimateLife {
        life: u16,
    },
    GainLifeOnVictoryOrDefeat {
        life: u16,
    },
    ReduceOpponentLifeOnVictoryOrDefeat {
        life: u16,
        minimum: u16,
    },
    ReduceOpponentLifeOnVictoryPerOpponentStars {
        per_star: u16,
        minimum: u16,
    },
    ReduceOpponentLifeOnVictoryPerAntiSupport {
        per_count: u16,
        minimum: u16,
    },
    ReduceOpponentPillzOnVictoryPerAntiSupport {
        per_count: u16,
        minimum: u16,
    },
    GainPillzOnVictoryPerAntiSupport {
        per_count: u16,
        maximum: u16,
    },
    ReduceOpponentLifeOnVictoryPerSupport {
        per_count: u16,
        minimum: u16,
    },
    GainLifeOnVictoryPerSupport {
        per_count: u16,
    },
    GainPillzOnVictoryPerSupport {
        per_count: u16,
    },
    GainLifeOnVictoryPerOpponentStars {
        per_star: u16,
    },
    GainPillzOnVictoryPerOpponentStars {
        per_star: u16,
    },
    GainPillzAndLifeOnKillshot {
        amount: u16,
    },
    GainPillzOnKillshot {
        pillz: u16,
    },
    GainLifeOnKillshot {
        life: u16,
        maximum: u16,
    },
    ToxinOpponentLifeOnKillshot {
        life: u16,
        minimum: u16,
    },
    GainPillzOnDefeat {
        pillz: u16,
    },
    GainPillzAndLifeOnDefeat {
        amount: u16,
    },
    ReduceOpponentLifeOnVictoryPerRound {
        per_round: u16,
        minimum: u16,
        scale: RoundScaleV1,
    },
    ReduceOpponentPillzOnVictoryPerRound {
        per_round: u16,
        minimum: u16,
        scale: RoundScaleV1,
    },
    GainLifeOnVictoryPerRound {
        per_round: u16,
        scale: RoundScaleV1,
    },
    GainPillzOnVictoryPerRound {
        per_round: u16,
        scale: RoundScaleV1,
    },
    ReduceOpponentLifeOnVictory {
        life: u16,
        minimum: u16,
    },
    ReduceOpponentLifeOnDefeat {
        life: u16,
        minimum: u16,
    },
    ReduceOpponentLifeOnKillshot {
        life: u16,
        minimum: u16,
    },
    ReduceBothPlayersLife {
        life: u16,
        minimum: u16,
    },
    GainBothPlayersLifeOnVictoryOrDefeat {
        life: u16,
    },
    GainBothPlayersPillzOnVictoryOrDefeat {
        pillz: u16,
    },
    HealLifeOnVictory {
        life: u16,
        maximum: u16,
    },
    RegenLifeOnVictory {
        life: u16,
        maximum: u16,
    },
    PoisonOpponentLifeOnVictory {
        life: u16,
        minimum: u16,
    },
    PoisonOpponentLifeOnDefeat {
        life: u16,
        minimum: u16,
    },
    ToxinOpponentLifeOnVictory {
        life: u16,
        minimum: u16,
    },
    ConsumeOpponentPillzOnVictory {
        pillz: u16,
        minimum: u16,
    },
    CombustOpponentLifeAndPillzOnVictory {
        amount: u16,
        minimum: u16,
    },
    DopePillzOnVictory {
        pillz: u16,
        maximum: u16,
    },
    GainPillzAndLifeOnVictory {
        amount: u16,
    },
    GainPillzOnVictoryOrDefeat {
        pillz: u16,
    },
    GainLifePerFinalDamageOnVictoryOrDefeat {
        life_per_damage: u16,
    },
    ReduceOpponentPillzAndLifeOnVictory {
        amount: u16,
        minimum: u16,
    },
    DopePillzOnDefeat {
        pillz: u16,
        maximum: u16,
    },
    ReduceOwnLifeOnVictory {
        life: u16,
        minimum: u16,
    },
    ReduceOwnLife {
        life: u16,
        minimum: u16,
    },
    GainLifeOnDefeatMax {
        life: u16,
        maximum: u16,
    },
    GainOpponentPillzOnDefeat {
        pillz: u16,
    },
}

/// Compact per-source disposition: absent, an effect under a predicate, a Copy of the
/// opposing source, a disabled source, or a source that refuses the round if selected.
#[derive(Clone, Copy, Debug, PartialEq, Eq, Structural, Hash)]
pub enum CombatStatSourcePlanV1 {
    Absent,
    Execute {
        source_id: u32,
        predicate: CombatStatPredicateV1,
        effect: CombatStatEffectV1,
    },
    CopyOpponentSource {
        source_id: u32,
        copied: CopiedSourceKindV1,
        predicate: CombatStatPredicateV1,
    },
    Disabled {
        source_id: u32,
    },
    RejectIfSelected {
        source_id: u32,
    },
}

/// Which of the opposing selected card's two sources a Copy adopts.
#[derive(Clone, Copy, Debug, PartialEq, Eq, Structural, Hash)]
pub enum CopiedSourceKindV1 {
    Ability,
    Bonus,
}

/// Why construction refuses a source plan.
#[derive(Clone, Copy, Debug, PartialEq, Eq, Structural)]
pub enum InvalidCombatStatPlanReasonV1 {
    AmbiguousOculusClanGate,
    UnmodelledImposeContext,
    CappedIncrease,
    CompoundPredicateAndMagnitude,
    ConditionalBonus,
    ConditionalControl,
    IncompatibleBounds,
    InvalidModifierDirection,
    RecoveryRatio,
    RecoveryPredicate,
    RecoverySource,
    VictoryOrDefeatIdentity,
    VictoryOrDefeatPredicate,
    KombokaVictoryPillzAndLifeClan,
    KombokaVictoryPillzAndLifeEffect,
    KombokaVictoryPillzAndLifeIdentity,
    KombokaVictoryPillzAndLifePredicate,
    ArgosDefeatCappedPillzIdentity,
    ArgosDefeatCappedPillzPredicate,
    AnitaCourageDamageToLifeCard,
    AnitaCourageDamageToLifeEffect,
    AnitaCourageDamageToLifeIdentity,
    AnitaCourageDamageToLifePredicate,
    HealLifeSource,
    HealLifeMagnitude,
    HealLifePredicate,
    PermanentLifeSource,
    PermanentLifeMagnitude,
    PermanentLifePredicate,
    CopyOpponentSourceIdentity,
    CopyOpponentSourceTarget,
    VictoryOpponentLifeIdentity,
    VictoryOpponentLifeMagnitude,
    VictoryOpponentLifePredicate,
    VictoryLifeMagnitude,
    VictoryLifePredicate,
    VictoryPillzSource,
    VictoryPillzMagnitude,
    VictoryPillzPredicate,
    VictoryPillzMaxSource,
    VictoryPillzMaxMagnitude,
    VictoryPillzMaxPredicate,
    CappedVictoryPillzAgainstUnpinnedEffect,
    ClanGatedPostRoundAgainstUnpinnedEffect,
    HandClanGatedPostRoundAgainstUnpinnedEffect,
    UnisonLatchAgainstSameFamilyLatch,
    VictoryOpponentPillzSource,
    VictoryOpponentPillzMagnitude,
    VictoryOpponentPillzPredicate,
    DefeatOpponentPillzSource,
    DefeatOpponentPillzMagnitude,
    DefeatOpponentPillzPredicate,
    VictoryPillzPerDamageSource,
    VictoryPillzPerDamagePredicate,
    VictoryLifePerDamageSource,
    VictoryLifePerDamageMagnitude,
    VictoryLifePerDamagePredicate,
    DefeatLifeSource,
    DefeatLifeMagnitude,
    DefeatLifePredicate,
    BacklashLifeSource,
    BacklashLifeMagnitude,
    BacklashLifePredicate,
    BacklashLifeAgainstUnpinnedEffect,
    CorruptLifeSource,
    CorruptLifeMagnitude,
    CorruptLifePredicate,
    CorruptLifeAgainstUnpinnedEffect,
    CappedDefeatLifeAgainstUnpinnedEffect,
    DefeatOpponentPillzGiftAgainstUnpinnedEffect,
    ReanimateLifeSource,
    ReanimateLifeMagnitude,
    ReanimateLifePredicate,
    VictoryOrDefeatLifeIdentity,
    VictoryOrDefeatLifeEffect,
    VictoryOrDefeatLifePredicate,
    EqualizerOpponentLifeIdentity,
    EqualizerOpponentLifeEffect,
    EqualizerOpponentLifePredicate,
    BrawlPostRoundSource,
    BrawlPostRoundMagnitude,
    BrawlPostRoundPredicate,
    SupportPostRoundSource,
    SupportPostRoundMagnitude,
    SupportPostRoundPredicate,
    EqualizerPostRoundSource,
    EqualizerPostRoundMagnitude,
    EqualizerPostRoundPredicate,
    StopTriggeredAgainstStopAbility,
    BothCardsModifierShape,
    AttackSimplificationSource,
    AttackSimplificationAgainstUnpinnedEffect,
    BothCardsModifierAgainstUnpinnedEffect,
    KillshotAgainstZeroAttacks,
    PillzPermanentAgainstOpposingResourceEffect,
    SingleStatProtectionAgainstUnpinnedEffect,
    RecoveryAgainstUnpinnedEffect,
    DopeAgainstUnpinnedEffect,
    UnisonPillzAndLifeSource,
    UnisonPillzAndLifeMagnitude,
    UnisonPillzAndLifePredicate,
    UnisonGainAgainstUnpinnedEffect,
    VictoryOrDefeatGainSource,
    VictoryOrDefeatGainMagnitude,
    VictoryOrDefeatGainPredicate,
    VictoryOpponentPillzAndLifeSource,
    VictoryOpponentPillzAndLifeMagnitude,
    VictoryOpponentPillzAndLifePredicate,
    VictoryOrDefeatGainAgainstUnpinnedEffect,
    OpponentPillzAndLifeAgainstUnpinnedEffect,
    BonusSlotCopyOfUnpinnedSource,
    KillshotPillzAndLifeSource,
    DefeatPillzSource,
    BothPlayersGainSource,
    BothPlayersGainMagnitude,
    BothPlayersGainPredicate,
    BothPlayersLifeGainAgainstKnockout,
    DefeatPillzMagnitude,
    DefeatPillzPredicate,
    RoundScaledPostRoundSource,
    RoundScaledPostRoundMagnitude,
    RoundScaledPostRoundPredicate,
    KillshotPillzAndLifeMagnitude,
    KillshotPillzAndLifePredicate,
    KillshotPostRoundSource,
    KillshotPostRoundMagnitude,
    KillshotPostRoundPredicate,
    ResourceCancellationSource,
    ResourceCancellationAgainstUnpinnedEffect,
    LifeLostOwnerLifeCanRise,
    ReprisalStopOpponentAbilityCard,
    ReprisalStopOpponentAbilityEffect,
    ReprisalStopOpponentAbilityIdentity,
    ReprisalStopOpponentAbilityPredicate,
    SupportAbility,
    ZeroMagnitude,
}

/// Why construction refuses a match.
#[derive(Clone, Copy, Debug, PartialEq, Eq, Structural)]
pub enum CombatStatPlanErrorV1 {
    CardMismatch(CombatStatPlanMismatchV1),
    InvalidSourceBonusContext {
        player: PlayerId,
        hand_slot: HandSlot,
        source_id: Option<u32>,
        expected: u16,
        actual: u16,
    },
    InvalidAbilitySupportContext {
        player: PlayerId,
        hand_slot: HandSlot,
        source_id: Option<u32>,
        expected: u16,
        actual: u16,
    },
    InvalidExecute {
        player: PlayerId,
        hand_slot: HandSlot,
        source: CombatStatEffectSourceV1,
        source_id: u32,
        reason: InvalidCombatStatPlanReasonV1,
    },
}

/// The combat stage whose arithmetic overflowed.
#[derive(Clone, Copy, Debug, PartialEq, Eq, Structural)]
pub enum CombatStatArithmeticStageV1 {
    EffectMagnitude,
    Power,
    Damage,
    Attack,
}

/// Why a round is refused.
#[derive(Clone, Copy, Debug, PartialEq, Eq, Structural)]
pub enum CombatStatDiagnosticErrorV1 {
    BaseRules(BaseRulesError),
    UnsupportedSelectedHazard {
        player: PlayerId,
        hand_slot: HandSlot,
        source: CombatStatEffectSourceV1,
        source_id: u32,
    },
    ArithmeticOverflow {
        player: PlayerId,
        stage: CombatStatArithmeticStageV1,
    },
}

impl From<BaseRulesError> for CombatStatDiagnosticErrorV1 {
    fn from(source: BaseRulesError) -> (r: Self) {
        CombatStatDiagnosticErrorV1::BaseRules(source)
    }
}

impl vstd::std_specs::convert::FromSpecImpl<BaseRulesError> for CombatStatDiagnosticErrorV1 {
    open spec fn obeys_from_spec() -> bool {
        true
    }

    open spec fn from_spec(v: BaseRulesError) -> Self {
        CombatStatDiagnosticErrorV1::BaseRules(v)
    }
}

/// A set of clan ids below 64, as a bit mask.
#[derive(Clone, Copy, Debug, PartialEq, Eq, Structural, Hash, PartialOrd, Ord)]
pub struct ClanSetV1(pub u64);

#[derive(Clone, Copy, Debug, PartialEq, Eq, Structural, Hash)]
pub struct CombatStatCardPlanV1 {
    pub key: CardKey,
    /// Clan identity after whole-draw rules such as Oculus infiltration; distinct from the
    /// canonical clan the base rules keep.
    pub effective_clan_id: u32,
    pub ability: CombatStatSourcePlanV1,
    pub bonus: CombatStatSourcePlanV1,
    /// Distinct character ids sharing this card's effective clan across the hand when its
    /// bonus is present; otherwise zero.
    pub source_bonus_support_count: u16,
    /// The same count when its ability reads a Support magnitude; otherwise zero.
    pub source_ability_support_count: u16,
}

#[derive(Clone, Copy, Debug, PartialEq, Eq, Hash)]
pub struct CombatStatDiagnosticMatchSpecV1 {
    pub base_rules: BaseRulesMatchSpec,
    pub cards: ByPlayer<[CombatStatCardPlanV1; 4]>,
}

#[derive(Clone, Copy, Debug, PartialEq, Eq, Structural)]
pub struct CombatStatPlanMismatchV1 {
    pub player: PlayerId,
    pub hand_slot: HandSlot,
    pub expected: CardKey,
    pub actual: CardKey,
}

} // verus!
