//! Which source plans the combat-stat projection admits, and why it refuses the others.

use super::combat_stat_types::{
    ClanConjunctV1, ClanSetV1, CombatStatAffectedSideV1, CombatStatAttributeV1,
    CombatStatEffectSourceV1, CombatStatEffectV1, CombatStatMagnitudeV1, CombatStatOperationV1,
    CombatStatPredicateV1, CombatStatSourcePlanV1, InvalidCombatStatPlanReasonV1,
};
use super::post_round::PostRoundEffect;
use super::LatchedEffectV1;
use crate::card::CardKey;
use vstd::prelude::*;

verus! {

/// The one card whose ability converts Damage to Life under Courage.
pub open spec fn anita_card() -> CardKey {
    CardKey { id: 448, level: 3 }
}

/// The effective clan a Komboka bonus needs.
pub const KOMBOKA_EFFECTIVE_CLAN_ID: u32 = 54;

/// The reviewed Victory Or Defeat Life identities.
pub open spec fn victory_or_defeat_life_id_is_reserved(source_id: u32) -> bool {
    source_id == 1396 || source_id == 1628 || source_id == 2944 || source_id == 2992 || source_id
        == 5799 || source_id == 5802 || source_id == 5835
}

pub open spec fn equalizer_opponent_life_id_is_reserved(source_id: u32) -> bool {
    source_id == 1415 || source_id == 4458
}

/// The identity-locked Victory opponent-Life ids.
pub open spec fn victory_opponent_life_id_is_reserved(source_id: u32) -> bool {
    source_id == 680 || source_id == 3016 || source_id == 3314 || source_id == 4301 || source_id
        == 4531 || source_id == 4532 || source_id == 4533 || source_id == 4708
}

/// The magnitudes each identity-locked Victory opponent-Life id carries.
pub open spec fn victory_opponent_life_effect_matches(source_id: u32, effect: CombatStatEffectV1) -> bool {
    ||| source_id == 680 && effect == CombatStatEffectV1::ReduceOpponentLifeOnVictory {
        life: 2,
        minimum: 2,
    }
    ||| source_id == 4708 && effect == CombatStatEffectV1::ReduceOpponentLifeOnVictory {
        life: 4,
        minimum: 0,
    }
    ||| (source_id == 3016 || source_id == 4301 || source_id == 4533) && effect
        == CombatStatEffectV1::ReduceOpponentLifeOnVictory { life: 3, minimum: 0 }
    ||| source_id == 3314 && effect == CombatStatEffectV1::ReduceOpponentLifeOnVictory {
        life: 1,
        minimum: 0,
    }
    ||| (source_id == 4531 || source_id == 4532) && effect
        == CombatStatEffectV1::ReduceOpponentLifeOnVictory { life: 3, minimum: 1 }
}

/// The magnitude the identity-locked Equalizer opponent-Life ids carry.
pub open spec fn equalizer_opponent_life_effect_matches(source_id: u32, effect: CombatStatEffectV1) -> bool {
    (source_id == 1415 || source_id == 4458) && effect
        == CombatStatEffectV1::ReduceOpponentLifeOnVictoryPerOpponentStars { per_star: 1, minimum: 2 }
}

/// A round-scaled id that may not ride the plain fixed Victory opponent-Life grammar.
pub open spec fn victory_opponent_life_id_is_deferred(source_id: u32) -> bool {
    source_id == 1730
}

pub open spec fn victory_or_defeat_life_effect_matches(source_id: u32, effect: CombatStatEffectV1) -> bool {
    ((source_id == 1396 || source_id == 2992 || source_id == 5799 || source_id == 5835) && effect
        == CombatStatEffectV1::GainLifeOnVictoryOrDefeat { life: 1 }) || ((source_id == 2944
        || source_id == 5802) && effect == CombatStatEffectV1::GainLifeOnVictoryOrDefeat { life: 2 })
        || (source_id == 1628 && effect == CombatStatEffectV1::ReduceOpponentLifeOnVictoryOrDefeat {
        life: 1,
        minimum: 1,
    })
}

/// The Reprisal Stop identities, each locked to one card.
pub open spec fn reprisal_id_is_reserved(source_id: u32) -> bool {
    source_id == 1310 || source_id == 2073
}

pub open spec fn reprisal_card_matches(source_id: u32, key: CardKey) -> bool {
    (source_id == 1310 && key == CardKey { id: 1498, level: 4 }) || (source_id == 2073 && key
        == CardKey { id: 2042, level: 3 })
}

pub open spec fn komboka_id_is_reserved(source_id: u32) -> bool {
    source_id == 1714
}

/// The reviewed sources of the flat Victory Or Defeat Pillz gain.
pub open spec fn victory_or_defeat_pillz_identity_matches(source: CombatStatEffectSourceV1, source_id: u32) -> bool {
    (source == CombatStatEffectSourceV1::Bonus && source_id == 1034) || (source
        == CombatStatEffectSourceV1::Ability && (source_id == 1034 || source_id == 1375 || source_id
        == 4111 || source_id == 5085 || source_id == 5520))
}

/// Komboka's composite gain is its clan bonus.
pub open spec fn komboka_identity_matches(source: CombatStatEffectSourceV1, source_id: u32) -> bool {
    source == CombatStatEffectSourceV1::Bonus && source_id == 1714
}

/// Argos' capped Defeat Pillz is its printed ability.
pub open spec fn argos_identity_matches(source: CombatStatEffectSourceV1, source_id: u32) -> bool {
    source == CombatStatEffectSourceV1::Ability && source_id == 1158
}

/// Anita's conversion is her printed ability.
pub open spec fn anita_identity_matches(source: CombatStatEffectSourceV1, source_id: u32) -> bool {
    source == CombatStatEffectSourceV1::Ability && source_id == 274
}

/// The end-of-round work an effect hands to the commit, if it is end-of-round work this
/// engine carries.
pub open spec fn post_round_of(effect: CombatStatEffectV1) -> Option<PostRoundEffect> {
    match effect {
        CombatStatEffectV1::RecoverPaidPillzOnDefeat { numerator, denominator } => Some(
            PostRoundEffect::RecoverPaidPillzOnDefeat { numerator, denominator },
        ),
        CombatStatEffectV1::RecoverPaidPillzOnVictory { numerator, denominator } => Some(
            PostRoundEffect::RecoverPaidPillzOnVictory { numerator, denominator },
        ),
        CombatStatEffectV1::GainOnePillzOnVictoryOrDefeat => Some(
            PostRoundEffect::GainOnePillzOnVictoryOrDefeat,
        ),
        CombatStatEffectV1::GainOnePillzAndLifeOnVictory => Some(
            PostRoundEffect::GainOnePillzAndLifeOnVictory,
        ),
        CombatStatEffectV1::GainTwoPillzOnDefeatMaxEleven => Some(
            PostRoundEffect::GainTwoPillzOnDefeatMaxEleven,
        ),
        CombatStatEffectV1::GainLifeEqualToFinalDamageOnCourageVictory => Some(
            PostRoundEffect::GainLifeEqualToFinalDamageOnCourageVictory,
        ),
        CombatStatEffectV1::GainLifeOnVictory { life } => Some(PostRoundEffect::GainLifeOnVictory(life)),
        CombatStatEffectV1::GainPillzOnVictory { pillz } => Some(
            PostRoundEffect::GainPillzOnVictory(pillz),
        ),
        CombatStatEffectV1::GainPillzOnVictoryMax { pillz, maximum } => Some(
            PostRoundEffect::GainPillzOnVictoryMax { pillz, maximum },
        ),
        CombatStatEffectV1::ReduceOpponentPillzOnVictory { pillz, minimum } => Some(
            PostRoundEffect::ReduceOpponentPillzOnVictory { pillz, minimum },
        ),
        CombatStatEffectV1::ReduceOpponentPillzOnDefeat { pillz, minimum } => Some(
            PostRoundEffect::ReduceOpponentPillzOnDefeat { pillz, minimum },
        ),
        CombatStatEffectV1::GainPillzEqualToFinalDamageOnVictory => Some(
            PostRoundEffect::GainPillzEqualToFinalDamageOnVictory,
        ),
        CombatStatEffectV1::GainLifePerFinalDamageOnVictory { life_per_damage, maximum } => Some(
            PostRoundEffect::GainLifePerFinalDamageOnVictory { life_per_damage, maximum },
        ),
        CombatStatEffectV1::GainLifePerOpponentFinalDamageOnVictory { life_per_damage } => Some(
            PostRoundEffect::GainLifePerOpponentFinalDamageOnVictory { life_per_damage },
        ),
        CombatStatEffectV1::GainLifeOnDefeat { life } => Some(PostRoundEffect::GainLifeOnDefeat(life)),
        CombatStatEffectV1::ReanimateLife { life } => Some(PostRoundEffect::ReanimateLife(life)),
        CombatStatEffectV1::GainLifeOnVictoryOrDefeat { life } => Some(
            PostRoundEffect::GainLifeOnVictoryOrDefeat { life },
        ),
        CombatStatEffectV1::ReduceOpponentLifeOnVictoryOrDefeat { life, minimum } => Some(
            PostRoundEffect::ReduceOpponentLifeOnVictoryOrDefeat { life, minimum },
        ),
        CombatStatEffectV1::ReduceOpponentLifeOnVictory { life, minimum } => Some(
            PostRoundEffect::ReduceOpponentLifeOnVictory { life, minimum },
        ),
        CombatStatEffectV1::ReduceOpponentLifeOnDefeat { life, minimum } => Some(
            PostRoundEffect::ReduceOpponentLifeOnDefeat { life, minimum },
        ),
        CombatStatEffectV1::ReduceOpponentLifeOnKillshot { life, minimum } => Some(
            PostRoundEffect::ReduceOpponentLifeOnKillshot { life, minimum },
        ),
        CombatStatEffectV1::ReduceBothPlayersLife { life, minimum } => Some(
            PostRoundEffect::ReduceBothPlayersLife { life, minimum },
        ),
        CombatStatEffectV1::GainPillzAndLifeOnKillshot { amount } => Some(
            PostRoundEffect::GainPillzAndLifeOnKillshot { amount },
        ),
        CombatStatEffectV1::GainPillzOnKillshot { pillz } => Some(
            PostRoundEffect::GainPillzOnKillshot(pillz),
        ),
        CombatStatEffectV1::GainLifeOnKillshot { life, maximum } => Some(
            PostRoundEffect::GainLifeOnKillshot { life, maximum },
        ),
        CombatStatEffectV1::ToxinOpponentLifeOnKillshot { life, minimum } => Some(
            PostRoundEffect::LatchOnKillshot(LatchedEffectV1::ToxinOpponentLife { life, minimum }),
        ),
        CombatStatEffectV1::GainPillzOnDefeat { pillz } => Some(PostRoundEffect::GainPillzOnDefeat(pillz)),
        CombatStatEffectV1::GainPillzAndLifeOnDefeat { amount } => Some(
            PostRoundEffect::GainPillzAndLifeOnDefeat(amount),
        ),
        CombatStatEffectV1::HealLifeOnVictory { life, maximum } => Some(
            PostRoundEffect::LatchOnVictory(LatchedEffectV1::HealLife { life, maximum }),
        ),
        CombatStatEffectV1::RegenLifeOnVictory { life, maximum } => Some(
            PostRoundEffect::LatchOnVictory(LatchedEffectV1::RegenLife { life, maximum }),
        ),
        CombatStatEffectV1::PoisonOpponentLifeOnVictory { life, minimum } => Some(
            PostRoundEffect::LatchOnVictory(LatchedEffectV1::PoisonOpponentLife { life, minimum }),
        ),
        CombatStatEffectV1::PoisonOpponentLifeOnDefeat { life, minimum } => Some(
            PostRoundEffect::LatchOnDefeat(LatchedEffectV1::PoisonOpponentLife { life, minimum }),
        ),
        CombatStatEffectV1::ToxinOpponentLifeOnVictory { life, minimum } => Some(
            PostRoundEffect::LatchOnVictory(LatchedEffectV1::ToxinOpponentLife { life, minimum }),
        ),
        CombatStatEffectV1::ConsumeOpponentPillzOnVictory { pillz, minimum } => Some(
            PostRoundEffect::LatchOnVictory(LatchedEffectV1::ConsumeOpponentPillz { pillz, minimum }),
        ),
        CombatStatEffectV1::CombustOpponentLifeAndPillzOnVictory { amount, minimum } => Some(
            PostRoundEffect::LatchOnVictory(
                LatchedEffectV1::CombustOpponentLifeAndPillz { amount, minimum },
            ),
        ),
        CombatStatEffectV1::DopePillzOnVictory { pillz, maximum } => Some(
            PostRoundEffect::LatchOnVictory(LatchedEffectV1::DopePillz { pillz, maximum }),
        ),
        CombatStatEffectV1::DopePillzOnDefeat { pillz, maximum } => Some(
            PostRoundEffect::LatchOnDefeat(LatchedEffectV1::DopePillz { pillz, maximum }),
        ),
        CombatStatEffectV1::GainPillzAndLifeOnVictory { amount } => Some(
            PostRoundEffect::GainPillzAndLifeOnVictory(amount),
        ),
        CombatStatEffectV1::GainPillzOnVictoryOrDefeat { pillz } => Some(
            PostRoundEffect::GainPillzOnVictoryOrDefeat(pillz),
        ),
        CombatStatEffectV1::GainLifePerFinalDamageOnVictoryOrDefeat { life_per_damage } => Some(
            PostRoundEffect::GainLifePerFinalDamageOnVictoryOrDefeat { life_per_damage },
        ),
        CombatStatEffectV1::ReduceOpponentPillzAndLifeOnVictory { amount, minimum } => Some(
            PostRoundEffect::ReduceOpponentPillzAndLifeOnVictory { amount, minimum },
        ),
        CombatStatEffectV1::GainBothPlayersLifeOnVictoryOrDefeat { life } => Some(
            PostRoundEffect::GainBothPlayersLifeOnVictoryOrDefeat(life),
        ),
        CombatStatEffectV1::GainBothPlayersPillzOnVictoryOrDefeat { pillz } => Some(
            PostRoundEffect::GainBothPlayersPillzOnVictoryOrDefeat(pillz),
        ),
        CombatStatEffectV1::ReduceOwnLifeOnVictory { life, minimum } => Some(
            PostRoundEffect::ReduceOwnLifeOnVictory { life, minimum },
        ),
        CombatStatEffectV1::ReduceOwnLife { life, minimum } => Some(
            PostRoundEffect::ReduceOwnLife { life, minimum },
        ),
        CombatStatEffectV1::GainLifeOnDefeatMax { life, maximum } => Some(
            PostRoundEffect::GainLifeOnDefeatMax { life, maximum },
        ),
        CombatStatEffectV1::GainOpponentPillzOnDefeat { pillz } => Some(
            PostRoundEffect::GainOpponentPillzOnDefeat(pillz),
        ),
        _ => None,
    }
}

/// Source, magnitude and predicate checked in that order.
pub open spec fn three_checks(
    source_ok: bool,
    source_reason: InvalidCombatStatPlanReasonV1,
    magnitude_ok: bool,
    magnitude_reason: InvalidCombatStatPlanReasonV1,
    predicate_ok: bool,
    predicate_reason: InvalidCombatStatPlanReasonV1,
) -> Option<InvalidCombatStatPlanReasonV1> {
    if !source_ok {
        Some(source_reason)
    } else if !magnitude_ok {
        Some(magnitude_reason)
    } else if !predicate_ok {
        Some(predicate_reason)
    } else {
        None
    }
}

pub open spec fn is_ability(source: CombatStatEffectSourceV1) -> bool {
    source == CombatStatEffectSourceV1::Ability
}

/// Why an `Execute` plan is refused, first reason first.
pub open spec fn execute_refusal(
    source: CombatStatEffectSourceV1,
    card_key: CardKey,
    effective_clan_id: u32,
    source_id: u32,
    predicate: CombatStatPredicateV1,
    effect: CombatStatEffectV1,
) -> Option<InvalidCombatStatPlanReasonV1> {
    let always = predicate == CombatStatPredicateV1::Always;
    if source_id == 274 {
        if !anita_identity_matches(source, source_id) {
            Some(InvalidCombatStatPlanReasonV1::AnitaCourageDamageToLifeIdentity)
        } else if card_key != anita_card() {
            Some(InvalidCombatStatPlanReasonV1::AnitaCourageDamageToLifeCard)
        } else if effect != CombatStatEffectV1::GainLifeEqualToFinalDamageOnCourageVictory {
            Some(InvalidCombatStatPlanReasonV1::AnitaCourageDamageToLifeEffect)
        } else if predicate != CombatStatPredicateV1::OwnerMovesFirst {
            Some(InvalidCombatStatPlanReasonV1::AnitaCourageDamageToLifePredicate)
        } else {
            None
        }
    } else if effect == CombatStatEffectV1::GainLifeEqualToFinalDamageOnCourageVictory {
        Some(InvalidCombatStatPlanReasonV1::AnitaCourageDamageToLifeIdentity)
    } else if let CombatStatEffectV1::GainPillzOnVictoryOrDefeat { pillz } = effect {
        three_checks(
                is_ability(source),
                InvalidCombatStatPlanReasonV1::VictoryOrDefeatGainSource,
                pillz >= 2,
                InvalidCombatStatPlanReasonV1::VictoryOrDefeatGainMagnitude,
                always,
                InvalidCombatStatPlanReasonV1::VictoryOrDefeatGainPredicate,
            )
    } else if let CombatStatEffectV1::GainLifePerFinalDamageOnVictoryOrDefeat { life_per_damage } = effect {
        three_checks(
                is_ability(source),
                InvalidCombatStatPlanReasonV1::VictoryOrDefeatGainSource,
                life_per_damage >= 1,
                InvalidCombatStatPlanReasonV1::VictoryOrDefeatGainMagnitude,
                always,
                InvalidCombatStatPlanReasonV1::VictoryOrDefeatGainPredicate,
            )
    } else if let CombatStatEffectV1::ReduceOpponentPillzAndLifeOnVictory { amount, .. } = effect {
        three_checks(
                is_ability(source),
                InvalidCombatStatPlanReasonV1::VictoryOpponentPillzAndLifeSource,
                amount != 0,
                InvalidCombatStatPlanReasonV1::VictoryOpponentPillzAndLifeMagnitude,
                always,
                InvalidCombatStatPlanReasonV1::VictoryOpponentPillzAndLifePredicate,
            )
    } else if let CombatStatEffectV1::GainPillzAndLifeOnVictory { amount } = effect {
        three_checks(
                is_ability(source),
                InvalidCombatStatPlanReasonV1::UnisonPillzAndLifeSource,
                amount != 0,
                InvalidCombatStatPlanReasonV1::UnisonPillzAndLifeMagnitude,
                predicate == CombatStatPredicateV1::OwnerHandUnison,
                InvalidCombatStatPlanReasonV1::UnisonPillzAndLifePredicate,
            )
    } else if let CombatStatEffectV1::DopePillzOnVictory { pillz, maximum } = effect {
        three_checks(
                is_ability(source),
                InvalidCombatStatPlanReasonV1::PermanentLifeSource,
                pillz != 0 && maximum > pillz,
                InvalidCombatStatPlanReasonV1::PermanentLifeMagnitude,
                always,
                InvalidCombatStatPlanReasonV1::PermanentLifePredicate,
            )
    } else if let CombatStatEffectV1::DopePillzOnDefeat { pillz, maximum } = effect {
        three_checks(
                is_ability(source),
                InvalidCombatStatPlanReasonV1::PermanentLifeSource,
                pillz != 0 && maximum > pillz,
                InvalidCombatStatPlanReasonV1::PermanentLifeMagnitude,
                always,
                InvalidCombatStatPlanReasonV1::PermanentLifePredicate,
            )
    } else if let CombatStatEffectV1::RegenLifeOnVictory { life, maximum } = effect {
        three_checks(
            is_ability(source),
            InvalidCombatStatPlanReasonV1::PermanentLifeSource,
            life != 0 && maximum > life,
            InvalidCombatStatPlanReasonV1::PermanentLifeMagnitude,
            always,
            InvalidCombatStatPlanReasonV1::PermanentLifePredicate,
        )
    } else if effect is PoisonOpponentLifeOnVictory || effect is PoisonOpponentLifeOnDefeat
        || effect is ToxinOpponentLifeOnVictory || effect is ConsumeOpponentPillzOnVictory
        || effect is CombustOpponentLifeAndPillzOnVictory {
        let amount = permanent_amount(effect);
        let clan_gated = (effect is ToxinOpponentLifeOnVictory && (predicate is OwnerClanIn
            || predicate == CombatStatPredicateV1::OwnerHandUnison)) || (
        effect is ConsumeOpponentPillzOnVictory && (predicate == CombatStatPredicateV1::OwnerHandUnison
            || (predicate matches CombatStatPredicateV1::OwnerClanInAnd(_, c)
            && c == ClanConjunctV1::OwnerMovesSecond)));
        three_checks(
                is_ability(source) || effect is PoisonOpponentLifeOnVictory,
                InvalidCombatStatPlanReasonV1::PermanentLifeSource,
                amount != 0,
                InvalidCombatStatPlanReasonV1::PermanentLifeMagnitude,
                always || clan_gated,
                InvalidCombatStatPlanReasonV1::PermanentLifePredicate,
            )
    } else if let CombatStatEffectV1::HealLifeOnVictory { life, maximum } = effect {
        three_checks(
            is_ability(source),
            InvalidCombatStatPlanReasonV1::HealLifeSource,
            life != 0 && maximum > life,
            InvalidCombatStatPlanReasonV1::HealLifeMagnitude,
            always,
            InvalidCombatStatPlanReasonV1::HealLifePredicate,
        )
    } else if victory_opponent_life_id_is_reserved(source_id) {
        if victory_opponent_life_effect_matches(source_id, effect) {
            None
        } else {
            Some(InvalidCombatStatPlanReasonV1::VictoryOpponentLifeMagnitude)
        }
    } else if let CombatStatEffectV1::ReduceOpponentLifeOnVictory { life, .. } = effect {
        three_checks(
            is_ability(source) && !victory_opponent_life_id_is_deferred(source_id),
            InvalidCombatStatPlanReasonV1::VictoryOpponentLifeIdentity,
            life != 0,
            InvalidCombatStatPlanReasonV1::VictoryOpponentLifeMagnitude,
            always || predicate is OwnerPillzUsedAbove || predicate == CombatStatPredicateV1::MatchIsNight
                || predicate is OwnerClanIn || predicate is OpponentHandHasClan
                || predicate is OwnerPreviousCardClanIn,
            InvalidCombatStatPlanReasonV1::VictoryOpponentLifePredicate,
        )
    } else if victory_or_defeat_life_id_is_reserved(source_id) {
        if !victory_or_defeat_life_effect_matches(source_id, effect) {
            Some(InvalidCombatStatPlanReasonV1::VictoryOrDefeatLifeEffect)
        } else if !always {
            Some(InvalidCombatStatPlanReasonV1::VictoryOrDefeatLifePredicate)
        } else {
            None
        }
    } else if equalizer_opponent_life_id_is_reserved(source_id) {
        if !equalizer_opponent_life_effect_matches(source_id, effect) {
            Some(InvalidCombatStatPlanReasonV1::EqualizerOpponentLifeEffect)
        } else if !always {
            Some(InvalidCombatStatPlanReasonV1::EqualizerOpponentLifePredicate)
        } else {
            None
        }
    } else if effect is ReduceOpponentLifeOnVictoryPerOpponentStars
        || effect is GainLifeOnVictoryPerOpponentStars || effect is GainPillzOnVictoryPerOpponentStars {
        let clan_gated_gain = predicate is OwnerClanIn && (effect is GainLifeOnVictoryPerOpponentStars
            || effect is GainPillzOnVictoryPerOpponentStars);
        three_checks(
                is_ability(source),
                InvalidCombatStatPlanReasonV1::EqualizerPostRoundSource,
                per_star_of(effect) != 0,
                InvalidCombatStatPlanReasonV1::EqualizerPostRoundMagnitude,
                always || clan_gated_gain,
                InvalidCombatStatPlanReasonV1::EqualizerPostRoundPredicate,
            )
    } else if let CombatStatEffectV1::ReduceOpponentLifeOnVictoryOrDefeat { life, .. } = effect {
        three_checks(
            is_ability(source),
            InvalidCombatStatPlanReasonV1::VictoryOrDefeatLifeIdentity,
            life != 0,
            InvalidCombatStatPlanReasonV1::VictoryOrDefeatLifeEffect,
            always,
            InvalidCombatStatPlanReasonV1::VictoryOrDefeatLifePredicate,
        )
    } else if effect is GainLifeOnVictoryOrDefeat {
        Some(InvalidCombatStatPlanReasonV1::VictoryOrDefeatLifeIdentity)
    } else if reprisal_id_is_reserved(source_id) {
        if !is_ability(source) {
            Some(InvalidCombatStatPlanReasonV1::ReprisalStopOpponentAbilityIdentity)
        } else if !reprisal_card_matches(source_id, card_key) {
            Some(InvalidCombatStatPlanReasonV1::ReprisalStopOpponentAbilityCard)
        } else if effect != CombatStatEffectV1::StopOpponentAbility {
            Some(InvalidCombatStatPlanReasonV1::ReprisalStopOpponentAbilityEffect)
        } else if predicate != CombatStatPredicateV1::OwnerMovesSecond {
            Some(InvalidCombatStatPlanReasonV1::ReprisalStopOpponentAbilityPredicate)
        } else {
            None
        }
    } else if komboka_id_is_reserved(source_id) {
        if source != CombatStatEffectSourceV1::Bonus {
            Some(InvalidCombatStatPlanReasonV1::KombokaVictoryPillzAndLifeIdentity)
        } else if effect != CombatStatEffectV1::GainOnePillzAndLifeOnVictory {
            Some(InvalidCombatStatPlanReasonV1::KombokaVictoryPillzAndLifeEffect)
        } else if !always {
            Some(InvalidCombatStatPlanReasonV1::KombokaVictoryPillzAndLifePredicate)
        } else if effective_clan_id != KOMBOKA_EFFECTIVE_CLAN_ID {
            Some(InvalidCombatStatPlanReasonV1::KombokaVictoryPillzAndLifeClan)
        } else {
            None
        }
    } else if effect == CombatStatEffectV1::StopOpponentAbility && predicate
        == CombatStatPredicateV1::OwnerMovesSecond {
        Some(InvalidCombatStatPlanReasonV1::ReprisalStopOpponentAbilityIdentity)
    } else if effect is RecoverPaidPillzOnDefeat || effect is RecoverPaidPillzOnVictory {
        let (numerator, denominator) = ratio_of(effect);
        let on_victory = effect is RecoverPaidPillzOnVictory;
        if numerator == 0 || numerator >= denominator {
            Some(InvalidCombatStatPlanReasonV1::RecoveryRatio)
        } else if on_victory && !is_ability(source) {
            Some(InvalidCombatStatPlanReasonV1::RecoverySource)
        } else if !(always || (on_victory && predicate == CombatStatPredicateV1::OwnerHandUnison)) {
            Some(InvalidCombatStatPlanReasonV1::RecoveryPredicate)
        } else {
            None
        }
    } else if effect == CombatStatEffectV1::GainOnePillzOnVictoryOrDefeat {
        if !victory_or_defeat_pillz_identity_matches(source, source_id) {
            Some(InvalidCombatStatPlanReasonV1::VictoryOrDefeatIdentity)
        } else if !always {
            Some(InvalidCombatStatPlanReasonV1::VictoryOrDefeatPredicate)
        } else {
            None
        }
    } else if effect == CombatStatEffectV1::GainOnePillzAndLifeOnVictory {
        if !komboka_identity_matches(source, source_id) {
            Some(InvalidCombatStatPlanReasonV1::KombokaVictoryPillzAndLifeIdentity)
        } else if !always {
            Some(InvalidCombatStatPlanReasonV1::KombokaVictoryPillzAndLifePredicate)
        } else {
            None
        }
    } else if effect == CombatStatEffectV1::GainTwoPillzOnDefeatMaxEleven {
        if !argos_identity_matches(source, source_id) {
            Some(InvalidCombatStatPlanReasonV1::ArgosDefeatCappedPillzIdentity)
        } else if !always {
            Some(InvalidCombatStatPlanReasonV1::ArgosDefeatCappedPillzPredicate)
        } else {
            None
        }
    } else if let CombatStatEffectV1::GainLifeOnVictory { life } = effect {
        let bet_gate = predicate is OwnerPillzUsedAbove;
        if life == 0 {
            Some(InvalidCombatStatPlanReasonV1::VictoryLifeMagnitude)
        } else if !(bet_gate || always || predicate == CombatStatPredicateV1::OwnerWonPreviousRound
            || predicate == CombatStatPredicateV1::SelectedHandSlotsDiffer || predicate
            == CombatStatPredicateV1::OwnerMovesFirst || predicate is OpponentHandHasClan
            || predicate is OwnerPreviousCardClanIn) || (!always && !bet_gate && !is_ability(source)) {
            Some(InvalidCombatStatPlanReasonV1::VictoryLifePredicate)
        } else {
            None
        }
    } else if let CombatStatEffectV1::GainPillzOnVictory { pillz } = effect {
        three_checks(
            is_ability(source),
            InvalidCombatStatPlanReasonV1::VictoryPillzSource,
            pillz != 0,
            InvalidCombatStatPlanReasonV1::VictoryPillzMagnitude,
            always || predicate == CombatStatPredicateV1::OwnerWonPreviousRound || predicate
                == CombatStatPredicateV1::OwnerMovesFirst || predicate is OwnerPreviousCardClanIn,
            InvalidCombatStatPlanReasonV1::VictoryPillzPredicate,
        )
    } else if let CombatStatEffectV1::GainPillzOnVictoryMax { pillz, maximum } = effect {
        three_checks(
            is_ability(source),
            InvalidCombatStatPlanReasonV1::VictoryPillzMaxSource,
            pillz != 0 && maximum != 0,
            InvalidCombatStatPlanReasonV1::VictoryPillzMaxMagnitude,
            always || predicate == CombatStatPredicateV1::MatchIsNight,
            InvalidCombatStatPlanReasonV1::VictoryPillzMaxPredicate,
        )
    } else if let CombatStatEffectV1::ReduceOpponentPillzOnVictory { pillz, .. } = effect {
        three_checks(
            is_ability(source),
            InvalidCombatStatPlanReasonV1::VictoryOpponentPillzSource,
            pillz != 0,
            InvalidCombatStatPlanReasonV1::VictoryOpponentPillzMagnitude,
            always || predicate is OwnerPillzUsedAbove || predicate is OwnerClanIn,
            InvalidCombatStatPlanReasonV1::VictoryOpponentPillzPredicate,
        )
    } else if effect is ReduceOpponentLifeOnVictoryPerRound
        || effect is ReduceOpponentPillzOnVictoryPerRound || effect is GainLifeOnVictoryPerRound
        || effect is GainPillzOnVictoryPerRound {
        three_checks(
                is_ability(source),
                InvalidCombatStatPlanReasonV1::RoundScaledPostRoundSource,
                per_round_of(effect) != 0,
                InvalidCombatStatPlanReasonV1::RoundScaledPostRoundMagnitude,
                always,
                InvalidCombatStatPlanReasonV1::RoundScaledPostRoundPredicate,
            )
    } else if effect is GainBothPlayersLifeOnVictoryOrDefeat {
        Some(InvalidCombatStatPlanReasonV1::BothPlayersLifeGainAgainstKnockout)
    } else if let CombatStatEffectV1::GainBothPlayersPillzOnVictoryOrDefeat { pillz } = effect {
        three_checks(
                is_ability(source),
                InvalidCombatStatPlanReasonV1::BothPlayersGainSource,
                pillz != 0,
                InvalidCombatStatPlanReasonV1::BothPlayersGainMagnitude,
                always,
                InvalidCombatStatPlanReasonV1::BothPlayersGainPredicate,
            )
    } else if effect is GainPillzOnDefeat || effect is GainPillzAndLifeOnDefeat {
        three_checks(
            is_ability(source),
            InvalidCombatStatPlanReasonV1::DefeatPillzSource,
            defeat_amount_of(effect) != 0,
            InvalidCombatStatPlanReasonV1::DefeatPillzMagnitude,
            always,
            InvalidCombatStatPlanReasonV1::DefeatPillzPredicate,
        )
    } else if let CombatStatEffectV1::GainPillzAndLifeOnKillshot { amount } = effect {
        three_checks(
            is_ability(source),
            InvalidCombatStatPlanReasonV1::KillshotPillzAndLifeSource,
            amount != 0,
            InvalidCombatStatPlanReasonV1::KillshotPillzAndLifeMagnitude,
            always,
            InvalidCombatStatPlanReasonV1::KillshotPillzAndLifePredicate,
        )
    } else if effect is GainPillzOnKillshot || effect is GainLifeOnKillshot
        || effect is ToxinOpponentLifeOnKillshot {
        let unison_life = (effect matches CombatStatEffectV1::GainLifeOnKillshot { maximum, .. }
            && maximum == 0) && predicate == CombatStatPredicateV1::OwnerHandUnison;
        three_checks(
            is_ability(source),
            InvalidCombatStatPlanReasonV1::KillshotPostRoundSource,
            killshot_amount_of(effect) != 0,
            InvalidCombatStatPlanReasonV1::KillshotPostRoundMagnitude,
            always || unison_life,
            InvalidCombatStatPlanReasonV1::KillshotPostRoundPredicate,
        )
    } else if effect is CancelOpponentResourceModifiers && !is_ability(source) {
        Some(InvalidCombatStatPlanReasonV1::ResourceCancellationSource)
    } else if effect is ReduceOpponentLifeOnVictoryPerAntiSupport
        || effect is ReduceOpponentPillzOnVictoryPerAntiSupport
        || effect is GainPillzOnVictoryPerAntiSupport {
        three_checks(
                is_ability(source),
                InvalidCombatStatPlanReasonV1::BrawlPostRoundSource,
                per_count_of(effect) != 0,
                InvalidCombatStatPlanReasonV1::BrawlPostRoundMagnitude,
                always,
                InvalidCombatStatPlanReasonV1::BrawlPostRoundPredicate,
            )
    } else if effect is ReduceOpponentLifeOnVictoryPerSupport || effect is GainLifeOnVictoryPerSupport
        || effect is GainPillzOnVictoryPerSupport {
        three_checks(
                is_ability(source),
                InvalidCombatStatPlanReasonV1::SupportPostRoundSource,
                per_count_of(effect) != 0,
                InvalidCombatStatPlanReasonV1::SupportPostRoundMagnitude,
                always,
                InvalidCombatStatPlanReasonV1::SupportPostRoundPredicate,
            )
    } else if let CombatStatEffectV1::ReduceOwnLifeOnVictory { life, minimum } = effect {
        three_checks(
            is_ability(source),
            InvalidCombatStatPlanReasonV1::BacklashLifeSource,
            life != 0 && minimum != 0,
            InvalidCombatStatPlanReasonV1::BacklashLifeMagnitude,
            always,
            InvalidCombatStatPlanReasonV1::BacklashLifePredicate,
        )
    } else if let CombatStatEffectV1::ReduceOwnLife { life, minimum } = effect {
        three_checks(
            is_ability(source),
            InvalidCombatStatPlanReasonV1::CorruptLifeSource,
            life != 0 && minimum != 0,
            InvalidCombatStatPlanReasonV1::CorruptLifeMagnitude,
            always,
            InvalidCombatStatPlanReasonV1::CorruptLifePredicate,
        )
    } else if let CombatStatEffectV1::GainLifeOnDefeatMax { life, maximum } = effect {
        three_checks(
            is_ability(source),
            InvalidCombatStatPlanReasonV1::DefeatLifeSource,
            life != 0 && maximum > life,
            InvalidCombatStatPlanReasonV1::DefeatLifeMagnitude,
            always,
            InvalidCombatStatPlanReasonV1::DefeatLifePredicate,
        )
    } else if let CombatStatEffectV1::GainOpponentPillzOnDefeat { pillz } = effect {
        three_checks(
            is_ability(source),
            InvalidCombatStatPlanReasonV1::DefeatOpponentPillzSource,
            pillz != 0,
            InvalidCombatStatPlanReasonV1::DefeatOpponentPillzMagnitude,
            always,
            InvalidCombatStatPlanReasonV1::DefeatOpponentPillzPredicate,
        )
    } else if let CombatStatEffectV1::ReduceOpponentPillzOnDefeat { pillz, .. } = effect {
        three_checks(
            is_ability(source),
            InvalidCombatStatPlanReasonV1::DefeatOpponentPillzSource,
            pillz != 0,
            InvalidCombatStatPlanReasonV1::DefeatOpponentPillzMagnitude,
            always,
            InvalidCombatStatPlanReasonV1::DefeatOpponentPillzPredicate,
        )
    } else if effect == CombatStatEffectV1::GainPillzEqualToFinalDamageOnVictory {
        if !is_ability(source) {
            Some(InvalidCombatStatPlanReasonV1::VictoryPillzPerDamageSource)
        } else if !(always || predicate == CombatStatPredicateV1::SelectedHandSlotsMatch) {
            Some(InvalidCombatStatPlanReasonV1::VictoryPillzPerDamagePredicate)
        } else {
            None
        }
    } else if let CombatStatEffectV1::GainLifePerFinalDamageOnVictory { life_per_damage, maximum } = effect {
        three_checks(
            is_ability(source),
            InvalidCombatStatPlanReasonV1::VictoryLifePerDamageSource,
            life_per_damage != 0,
            InvalidCombatStatPlanReasonV1::VictoryLifePerDamageMagnitude,
            (always || predicate == CombatStatPredicateV1::OwnerLostPreviousRound || predicate
                == CombatStatPredicateV1::OwnerWonPreviousRound || predicate is OpponentHandHasClan)
                && !(maximum > 0 && !always),
            InvalidCombatStatPlanReasonV1::VictoryLifePerDamagePredicate,
        )
    } else if let CombatStatEffectV1::GainLifePerOpponentFinalDamageOnVictory { life_per_damage } = effect {
        if !is_ability(source) || life_per_damage == 0 || !always {
            Some(InvalidCombatStatPlanReasonV1::VictoryLifePerDamageSource)
        } else {
            None
        }
    } else if let CombatStatEffectV1::GainLifeOnDefeat { life } = effect {
        three_checks(
            is_ability(source),
            InvalidCombatStatPlanReasonV1::DefeatLifeSource,
            life != 0,
            InvalidCombatStatPlanReasonV1::DefeatLifeMagnitude,
            always || predicate == CombatStatPredicateV1::OwnerHandUnison,
            InvalidCombatStatPlanReasonV1::DefeatLifePredicate,
        )
    } else if let CombatStatEffectV1::ReanimateLife { life } = effect {
        three_checks(
            is_ability(source),
            InvalidCombatStatPlanReasonV1::ReanimateLifeSource,
            life != 0,
            InvalidCombatStatPlanReasonV1::ReanimateLifeMagnitude,
            always,
            InvalidCombatStatPlanReasonV1::ReanimateLifePredicate,
        )
    } else if effect == CombatStatEffectV1::SimplifyAttackToPillz && source
        != CombatStatEffectSourceV1::Bonus {
        Some(InvalidCombatStatPlanReasonV1::AttackSimplificationSource)
    } else if let CombatStatEffectV1::ImposePrintedCombatStat { stat } = effect {
        if !is_ability(source) || stat != CombatStatAttributeV1::Damage || !always {
            Some(InvalidCombatStatPlanReasonV1::ConditionalControl)
        } else {
            None
        }
    } else if let CombatStatEffectV1::ModifyCombatStat {
        side,
        stat,
        operation,
        value,
        minimum,
        maximum,
        multiplier,
    } = effect {
        modifier_refusal(source, predicate, side, stat, operation, value, minimum, maximum, multiplier)
    } else if !always && !conditional_control_admitted(source, predicate, effect) {
        Some(InvalidCombatStatPlanReasonV1::ConditionalControl)
    } else {
        None
    }
}

/// A control that may carry a predicate: a Stop from the Ability slot, and a printed-stat
/// Copy or Exchange from the Ability slot under one of the conditions its grammar prints
/// (a Copy also under `Versus`).
pub open spec fn conditional_control_admitted(
    source: CombatStatEffectSourceV1,
    predicate: CombatStatPredicateV1,
    effect: CombatStatEffectV1,
) -> bool {
    let stop = effect == CombatStatEffectV1::StopOpponentAbility || effect
        == CombatStatEffectV1::StopOpponentBonus;
    let stat_copy_condition = predicate == CombatStatPredicateV1::OwnerMovesFirst || predicate
        == CombatStatPredicateV1::OwnerMovesSecond || predicate
        == CombatStatPredicateV1::OwnerWonPreviousRound || predicate
        == CombatStatPredicateV1::OwnerLostPreviousRound || predicate
        == CombatStatPredicateV1::SelectedHandSlotsMatch || predicate
        == CombatStatPredicateV1::SelectedHandSlotsDiffer || predicate
        == CombatStatPredicateV1::OwnerHandUnison;
    is_ability(source) && (stop || ((effect is CopyOpponentPrintedCombatStat
        || effect is ExchangePrintedCombatStat) && stat_copy_condition) || (
    effect is CopyOpponentPrintedCombatStat && predicate is OpponentHandHasClan))
}

/// A magnitude that reads something of the round beyond a fixed number.
pub open spec fn scaled_magnitude(multiplier: CombatStatMagnitudeV1) -> bool {
    multiplier == CombatStatMagnitudeV1::Growth || multiplier == CombatStatMagnitudeV1::Degrowth
        || multiplier == CombatStatMagnitudeV1::OpponentStars || multiplier
        == CombatStatMagnitudeV1::AntiSupport || multiplier == CombatStatMagnitudeV1::OwnerLife
        || multiplier == CombatStatMagnitudeV1::OwnerPillz || multiplier
        == CombatStatMagnitudeV1::OwnerPillzLost || multiplier
        == CombatStatMagnitudeV1::OwnerLifeLost
}

/// A predicate a clan bonus may not carry on a combat-stat modifier, whatever its magnitude.
pub open spec fn bonus_refuses_predicate(predicate: CombatStatPredicateV1) -> bool {
    predicate == CombatStatPredicateV1::OwnerMovesFirst || predicate
        == CombatStatPredicateV1::OwnerMovesSecond || predicate
        == CombatStatPredicateV1::OwnerHandUnison || predicate
        == CombatStatPredicateV1::OwnerAbilityStopped || predicate is OwnerClanIn
        || predicate is OpponentHandHasClan || predicate is OwnerPillzUsedAbove
        || predicate is OwnerPillzUsedBelow || predicate
        == CombatStatPredicateV1::OwnerWonPreviousRoundAtNight || predicate is OwnerClanInAnd
}

/// Why a combat-stat modifier plan is refused: the `Cards` shape for both sides, then the
/// Support, compound-magnitude and clan-bonus rules, caps, a zero magnitude, the direction
/// (an own increase or an opposing decrease) and bounds that fit the direction.
pub open spec fn modifier_refusal(
    source: CombatStatEffectSourceV1,
    predicate: CombatStatPredicateV1,
    side: CombatStatAffectedSideV1,
    stat: CombatStatAttributeV1,
    operation: CombatStatOperationV1,
    value: u16,
    minimum: Option<u16>,
    maximum: Option<u16>,
    multiplier: CombatStatMagnitudeV1,
) -> Option<InvalidCombatStatPlanReasonV1> {
    let ability = is_ability(source);
    let always = predicate == CombatStatPredicateV1::Always;
    if side == CombatStatAffectedSideV1::Both {
        if ability && always && multiplier == CombatStatMagnitudeV1::Fixed && (stat
            == CombatStatAttributeV1::Damage || stat == CombatStatAttributeV1::Attack) && value > 0
            && maximum is None && ((minimum is Some) == (operation
            == CombatStatOperationV1::Decrease)) {
            None
        } else {
            Some(InvalidCombatStatPlanReasonV1::BothCardsModifierShape)
        }
    } else if ability && multiplier == CombatStatMagnitudeV1::SourceBonusSupport && (!always
        || stat == CombatStatAttributeV1::PowerAndDamage) {
        Some(InvalidCombatStatPlanReasonV1::SupportAbility)
    } else if scaled_magnitude(multiplier) && !always && !(multiplier
        == CombatStatMagnitudeV1::OwnerPillz && predicate == CombatStatPredicateV1::OwnerHandUnison
        && ability) && !(predicate is OwnerClanIn && ability && (multiplier
        == CombatStatMagnitudeV1::Growth || multiplier == CombatStatMagnitudeV1::Degrowth
        || multiplier == CombatStatMagnitudeV1::OpponentStars || multiplier
        == CombatStatMagnitudeV1::AntiSupport || multiplier
        == CombatStatMagnitudeV1::OwnerLifeLost)) {
        Some(InvalidCombatStatPlanReasonV1::CompoundPredicateAndMagnitude)
    } else if source == CombatStatEffectSourceV1::Bonus && (bonus_refuses_predicate(predicate) || ((
    predicate == CombatStatPredicateV1::SelectedHandSlotsMatch || predicate
        == CombatStatPredicateV1::SelectedHandSlotsDiffer || predicate
        == CombatStatPredicateV1::OwnerWonPreviousRound || predicate
        == CombatStatPredicateV1::OwnerLostPreviousRound) && multiplier
        != CombatStatMagnitudeV1::Fixed)) {
        Some(InvalidCombatStatPlanReasonV1::ConditionalBonus)
    } else if operation == CombatStatOperationV1::Increase && maximum is Some && !((multiplier
        == CombatStatMagnitudeV1::OwnerLife || multiplier == CombatStatMagnitudeV1::OwnerLifeLost)
        && (stat == CombatStatAttributeV1::Power || stat == CombatStatAttributeV1::Damage)) {
        Some(InvalidCombatStatPlanReasonV1::CappedIncrease)
    } else if value == 0 {
        Some(InvalidCombatStatPlanReasonV1::ZeroMagnitude)
    } else if !((side == CombatStatAffectedSideV1::Player && operation
        == CombatStatOperationV1::Increase) || (side == CombatStatAffectedSideV1::Opponent
        && operation == CombatStatOperationV1::Decrease)) {
        Some(InvalidCombatStatPlanReasonV1::InvalidModifierDirection)
    } else if (operation == CombatStatOperationV1::Increase && minimum is Some) || (operation
        == CombatStatOperationV1::Decrease && maximum is Some) {
        Some(InvalidCombatStatPlanReasonV1::IncompatibleBounds)
    } else {
        None
    }
}

pub open spec fn permanent_amount(effect: CombatStatEffectV1) -> u16 {
    match effect {
        CombatStatEffectV1::PoisonOpponentLifeOnVictory { life, .. } => life,
        CombatStatEffectV1::PoisonOpponentLifeOnDefeat { life, .. } => life,
        CombatStatEffectV1::ToxinOpponentLifeOnVictory { life, .. } => life,
        CombatStatEffectV1::ConsumeOpponentPillzOnVictory { pillz, .. } => pillz,
        CombatStatEffectV1::CombustOpponentLifeAndPillzOnVictory { amount, .. } => amount,
        _ => 0,
    }
}

pub open spec fn per_star_of(effect: CombatStatEffectV1) -> u16 {
    match effect {
        CombatStatEffectV1::ReduceOpponentLifeOnVictoryPerOpponentStars { per_star, .. } => per_star,
        CombatStatEffectV1::GainLifeOnVictoryPerOpponentStars { per_star } => per_star,
        CombatStatEffectV1::GainPillzOnVictoryPerOpponentStars { per_star } => per_star,
        _ => 0,
    }
}

pub open spec fn per_round_of(effect: CombatStatEffectV1) -> u16 {
    match effect {
        CombatStatEffectV1::ReduceOpponentLifeOnVictoryPerRound { per_round, .. } => per_round,
        CombatStatEffectV1::ReduceOpponentPillzOnVictoryPerRound { per_round, .. } => per_round,
        CombatStatEffectV1::GainLifeOnVictoryPerRound { per_round, .. } => per_round,
        CombatStatEffectV1::GainPillzOnVictoryPerRound { per_round, .. } => per_round,
        _ => 0,
    }
}

pub open spec fn per_count_of(effect: CombatStatEffectV1) -> u16 {
    match effect {
        CombatStatEffectV1::ReduceOpponentLifeOnVictoryPerAntiSupport { per_count, .. } => per_count,
        CombatStatEffectV1::ReduceOpponentPillzOnVictoryPerAntiSupport { per_count, .. } => per_count,
        CombatStatEffectV1::GainPillzOnVictoryPerAntiSupport { per_count, .. } => per_count,
        CombatStatEffectV1::ReduceOpponentLifeOnVictoryPerSupport { per_count, .. } => per_count,
        CombatStatEffectV1::GainLifeOnVictoryPerSupport { per_count } => per_count,
        CombatStatEffectV1::GainPillzOnVictoryPerSupport { per_count } => per_count,
        _ => 0,
    }
}

pub open spec fn defeat_amount_of(effect: CombatStatEffectV1) -> u16 {
    match effect {
        CombatStatEffectV1::GainPillzOnDefeat { pillz } => pillz,
        CombatStatEffectV1::GainPillzAndLifeOnDefeat { amount } => amount,
        _ => 0,
    }
}

pub open spec fn killshot_amount_of(effect: CombatStatEffectV1) -> u16 {
    match effect {
        CombatStatEffectV1::GainPillzOnKillshot { pillz } => pillz,
        CombatStatEffectV1::GainLifeOnKillshot { life, .. } => life,
        CombatStatEffectV1::ToxinOpponentLifeOnKillshot { life, .. } => life,
        _ => 0,
    }
}

pub open spec fn ratio_of(effect: CombatStatEffectV1) -> (u16, u16) {
    match effect {
        CombatStatEffectV1::RecoverPaidPillzOnDefeat { numerator, denominator } => (
            numerator,
            denominator,
        ),
        CombatStatEffectV1::RecoverPaidPillzOnVictory { numerator, denominator } => (
            numerator,
            denominator,
        ),
        _ => (0, 0),
    }
}

/// Why a source plan is refused on its own, before its context is read.
pub open spec fn plan_refusal(
    source: CombatStatEffectSourceV1,
    card_key: CardKey,
    effective_clan_id: u32,
    plan: CombatStatSourcePlanV1,
) -> Option<InvalidCombatStatPlanReasonV1> {
    match plan {
        CombatStatSourcePlanV1::CopyOpponentSource { source_id, predicate, .. } => if source_id
            == 0 {
            Some(InvalidCombatStatPlanReasonV1::CopyOpponentSourceIdentity)
        } else if source == CombatStatEffectSourceV1::Bonus && (predicate is OwnerClanIn
            || predicate is OwnerClanInAnd) {
            Some(InvalidCombatStatPlanReasonV1::ConditionalBonus)
        } else {
            None
        },
        CombatStatSourcePlanV1::Execute { source_id, predicate, effect } => execute_refusal(
            source,
            card_key,
            effective_clan_id,
            source_id,
            predicate,
            effect,
        ),
        _ => None,
    }
}

/// Every admitted plan carries a usable recovery ratio.
pub open spec fn plan_ratio_ok(plan: CombatStatSourcePlanV1) -> bool {
    plan matches CombatStatSourcePlanV1::Execute { effect, .. } ==> match post_round_of(effect) {
        Some(e) => e.well_formed(),
        None => true,
    }
}

pub proof fn lemma_admitted_plan_ratio_ok(
    source: CombatStatEffectSourceV1,
    card_key: CardKey,
    effective_clan_id: u32,
    plan: CombatStatSourcePlanV1,
)
    requires
        plan_refusal(source, card_key, effective_clan_id, plan) is None,
    ensures
        plan_ratio_ok(plan),
{
}

fn three_checks_exec(
    source_ok: bool,
    source_reason: InvalidCombatStatPlanReasonV1,
    magnitude_ok: bool,
    magnitude_reason: InvalidCombatStatPlanReasonV1,
    predicate_ok: bool,
    predicate_reason: InvalidCombatStatPlanReasonV1,
) -> (r: Option<InvalidCombatStatPlanReasonV1>)
    ensures
        r == three_checks(
            source_ok,
            source_reason,
            magnitude_ok,
            magnitude_reason,
            predicate_ok,
            predicate_reason,
        ),
{
    if !source_ok {
        Some(source_reason)
    } else if !magnitude_ok {
        Some(magnitude_reason)
    } else if !predicate_ok {
        Some(predicate_reason)
    } else {
        None
    }
}

fn owner_clan_in(predicate: CombatStatPredicateV1) -> (r: bool)
    ensures
        r == predicate is OwnerClanIn,
{
    match predicate {
        CombatStatPredicateV1::OwnerClanIn(_) => true,
        _ => false,
    }
}

fn owner_clan_in_and(predicate: CombatStatPredicateV1) -> (r: bool)
    ensures
        r == predicate is OwnerClanInAnd,
{
    match predicate {
        CombatStatPredicateV1::OwnerClanInAnd(..) => true,
        _ => false,
    }
}

fn opponent_hand_has_clan(predicate: CombatStatPredicateV1) -> (r: bool)
    ensures
        r == predicate is OpponentHandHasClan,
{
    match predicate {
        CombatStatPredicateV1::OpponentHandHasClan(_) => true,
        _ => false,
    }
}

fn owner_previous_card_clan_in(predicate: CombatStatPredicateV1) -> (r: bool)
    ensures
        r == predicate is OwnerPreviousCardClanIn,
{
    match predicate {
        CombatStatPredicateV1::OwnerPreviousCardClanIn(_) => true,
        _ => false,
    }
}

fn pillz_used_above(predicate: CombatStatPredicateV1) -> (r: bool)
    ensures
        r == predicate is OwnerPillzUsedAbove,
{
    match predicate {
        CombatStatPredicateV1::OwnerPillzUsedAbove(_) => true,
        _ => false,
    }
}

/// The end-of-round work an effect hands to the commit, if it is end-of-round work this
/// engine carries.
pub fn post_round_effect_of(effect: CombatStatEffectV1) -> (r: Option<PostRoundEffect>)
    ensures
        r == post_round_of(effect),
{
    match effect {
        CombatStatEffectV1::RecoverPaidPillzOnDefeat { numerator, denominator } => Some(
            PostRoundEffect::RecoverPaidPillzOnDefeat { numerator, denominator },
        ),
        CombatStatEffectV1::RecoverPaidPillzOnVictory { numerator, denominator } => Some(
            PostRoundEffect::RecoverPaidPillzOnVictory { numerator, denominator },
        ),
        CombatStatEffectV1::GainOnePillzOnVictoryOrDefeat => Some(
            PostRoundEffect::GainOnePillzOnVictoryOrDefeat,
        ),
        CombatStatEffectV1::GainOnePillzAndLifeOnVictory => Some(
            PostRoundEffect::GainOnePillzAndLifeOnVictory,
        ),
        CombatStatEffectV1::GainTwoPillzOnDefeatMaxEleven => Some(
            PostRoundEffect::GainTwoPillzOnDefeatMaxEleven,
        ),
        CombatStatEffectV1::GainLifeEqualToFinalDamageOnCourageVictory => Some(
            PostRoundEffect::GainLifeEqualToFinalDamageOnCourageVictory,
        ),
        CombatStatEffectV1::GainLifeOnVictory { life } => Some(PostRoundEffect::GainLifeOnVictory(life)),
        CombatStatEffectV1::GainPillzOnVictory { pillz } => Some(
            PostRoundEffect::GainPillzOnVictory(pillz),
        ),
        CombatStatEffectV1::GainPillzOnVictoryMax { pillz, maximum } => Some(
            PostRoundEffect::GainPillzOnVictoryMax { pillz, maximum },
        ),
        CombatStatEffectV1::ReduceOpponentPillzOnVictory { pillz, minimum } => Some(
            PostRoundEffect::ReduceOpponentPillzOnVictory { pillz, minimum },
        ),
        CombatStatEffectV1::ReduceOpponentPillzOnDefeat { pillz, minimum } => Some(
            PostRoundEffect::ReduceOpponentPillzOnDefeat { pillz, minimum },
        ),
        CombatStatEffectV1::GainPillzEqualToFinalDamageOnVictory => Some(
            PostRoundEffect::GainPillzEqualToFinalDamageOnVictory,
        ),
        CombatStatEffectV1::GainLifePerFinalDamageOnVictory { life_per_damage, maximum } => Some(
            PostRoundEffect::GainLifePerFinalDamageOnVictory { life_per_damage, maximum },
        ),
        CombatStatEffectV1::GainLifePerOpponentFinalDamageOnVictory { life_per_damage } => Some(
            PostRoundEffect::GainLifePerOpponentFinalDamageOnVictory { life_per_damage },
        ),
        CombatStatEffectV1::GainLifeOnDefeat { life } => Some(PostRoundEffect::GainLifeOnDefeat(life)),
        CombatStatEffectV1::ReanimateLife { life } => Some(PostRoundEffect::ReanimateLife(life)),
        CombatStatEffectV1::GainLifeOnVictoryOrDefeat { life } => Some(
            PostRoundEffect::GainLifeOnVictoryOrDefeat { life },
        ),
        CombatStatEffectV1::ReduceOpponentLifeOnVictoryOrDefeat { life, minimum } => Some(
            PostRoundEffect::ReduceOpponentLifeOnVictoryOrDefeat { life, minimum },
        ),
        CombatStatEffectV1::ReduceOpponentLifeOnVictory { life, minimum } => Some(
            PostRoundEffect::ReduceOpponentLifeOnVictory { life, minimum },
        ),
        CombatStatEffectV1::ReduceOpponentLifeOnDefeat { life, minimum } => Some(
            PostRoundEffect::ReduceOpponentLifeOnDefeat { life, minimum },
        ),
        CombatStatEffectV1::ReduceOpponentLifeOnKillshot { life, minimum } => Some(
            PostRoundEffect::ReduceOpponentLifeOnKillshot { life, minimum },
        ),
        CombatStatEffectV1::ReduceBothPlayersLife { life, minimum } => Some(
            PostRoundEffect::ReduceBothPlayersLife { life, minimum },
        ),
        CombatStatEffectV1::GainPillzAndLifeOnKillshot { amount } => Some(
            PostRoundEffect::GainPillzAndLifeOnKillshot { amount },
        ),
        CombatStatEffectV1::GainPillzOnKillshot { pillz } => Some(
            PostRoundEffect::GainPillzOnKillshot(pillz),
        ),
        CombatStatEffectV1::GainLifeOnKillshot { life, maximum } => Some(
            PostRoundEffect::GainLifeOnKillshot { life, maximum },
        ),
        CombatStatEffectV1::ToxinOpponentLifeOnKillshot { life, minimum } => Some(
            PostRoundEffect::LatchOnKillshot(LatchedEffectV1::ToxinOpponentLife { life, minimum }),
        ),
        CombatStatEffectV1::GainPillzOnDefeat { pillz } => Some(PostRoundEffect::GainPillzOnDefeat(pillz)),
        CombatStatEffectV1::GainPillzAndLifeOnDefeat { amount } => Some(
            PostRoundEffect::GainPillzAndLifeOnDefeat(amount),
        ),
        CombatStatEffectV1::HealLifeOnVictory { life, maximum } => Some(
            PostRoundEffect::LatchOnVictory(LatchedEffectV1::HealLife { life, maximum }),
        ),
        CombatStatEffectV1::RegenLifeOnVictory { life, maximum } => Some(
            PostRoundEffect::LatchOnVictory(LatchedEffectV1::RegenLife { life, maximum }),
        ),
        CombatStatEffectV1::PoisonOpponentLifeOnVictory { life, minimum } => Some(
            PostRoundEffect::LatchOnVictory(LatchedEffectV1::PoisonOpponentLife { life, minimum }),
        ),
        CombatStatEffectV1::PoisonOpponentLifeOnDefeat { life, minimum } => Some(
            PostRoundEffect::LatchOnDefeat(LatchedEffectV1::PoisonOpponentLife { life, minimum }),
        ),
        CombatStatEffectV1::ToxinOpponentLifeOnVictory { life, minimum } => Some(
            PostRoundEffect::LatchOnVictory(LatchedEffectV1::ToxinOpponentLife { life, minimum }),
        ),
        CombatStatEffectV1::ConsumeOpponentPillzOnVictory { pillz, minimum } => Some(
            PostRoundEffect::LatchOnVictory(LatchedEffectV1::ConsumeOpponentPillz { pillz, minimum }),
        ),
        CombatStatEffectV1::CombustOpponentLifeAndPillzOnVictory { amount, minimum } => Some(
            PostRoundEffect::LatchOnVictory(
                LatchedEffectV1::CombustOpponentLifeAndPillz { amount, minimum },
            ),
        ),
        CombatStatEffectV1::DopePillzOnVictory { pillz, maximum } => Some(
            PostRoundEffect::LatchOnVictory(LatchedEffectV1::DopePillz { pillz, maximum }),
        ),
        CombatStatEffectV1::DopePillzOnDefeat { pillz, maximum } => Some(
            PostRoundEffect::LatchOnDefeat(LatchedEffectV1::DopePillz { pillz, maximum }),
        ),
        CombatStatEffectV1::GainPillzAndLifeOnVictory { amount } => Some(
            PostRoundEffect::GainPillzAndLifeOnVictory(amount),
        ),
        CombatStatEffectV1::GainPillzOnVictoryOrDefeat { pillz } => Some(
            PostRoundEffect::GainPillzOnVictoryOrDefeat(pillz),
        ),
        CombatStatEffectV1::GainLifePerFinalDamageOnVictoryOrDefeat { life_per_damage } => Some(
            PostRoundEffect::GainLifePerFinalDamageOnVictoryOrDefeat { life_per_damage },
        ),
        CombatStatEffectV1::ReduceOpponentPillzAndLifeOnVictory { amount, minimum } => Some(
            PostRoundEffect::ReduceOpponentPillzAndLifeOnVictory { amount, minimum },
        ),
        CombatStatEffectV1::GainBothPlayersLifeOnVictoryOrDefeat { life } => Some(
            PostRoundEffect::GainBothPlayersLifeOnVictoryOrDefeat(life),
        ),
        CombatStatEffectV1::GainBothPlayersPillzOnVictoryOrDefeat { pillz } => Some(
            PostRoundEffect::GainBothPlayersPillzOnVictoryOrDefeat(pillz),
        ),
        CombatStatEffectV1::ReduceOwnLifeOnVictory { life, minimum } => Some(
            PostRoundEffect::ReduceOwnLifeOnVictory { life, minimum },
        ),
        CombatStatEffectV1::ReduceOwnLife { life, minimum } => Some(
            PostRoundEffect::ReduceOwnLife { life, minimum },
        ),
        CombatStatEffectV1::GainLifeOnDefeatMax { life, maximum } => Some(
            PostRoundEffect::GainLifeOnDefeatMax { life, maximum },
        ),
        CombatStatEffectV1::GainOpponentPillzOnDefeat { pillz } => Some(
            PostRoundEffect::GainOpponentPillzOnDefeat(pillz),
        ),
        _ => None,
    }
}

/// Whether this engine resolves a source plan.
fn victory_opponent_life_reserved(source_id: u32) -> (r: bool)
    ensures
        r == victory_opponent_life_id_is_reserved(source_id),
{
    source_id == 680 || source_id == 3016 || source_id == 3314 || source_id == 4301 || source_id
        == 4531 || source_id == 4532 || source_id == 4533 || source_id == 4708
}

fn victory_or_defeat_life_reserved(source_id: u32) -> (r: bool)
    ensures
        r == victory_or_defeat_life_id_is_reserved(source_id),
{
    source_id == 1396 || source_id == 1628 || source_id == 2944 || source_id == 2992 || source_id
        == 5799 || source_id == 5802 || source_id == 5835
}

fn victory_or_defeat_life_matches(source_id: u32, effect: CombatStatEffectV1) -> (r: bool)
    ensures
        r == victory_or_defeat_life_effect_matches(source_id, effect),
{
    ((source_id == 1396 || source_id == 2992 || source_id == 5799 || source_id == 5835) && effect
        == CombatStatEffectV1::GainLifeOnVictoryOrDefeat { life: 1 }) || ((source_id == 2944
        || source_id == 5802) && effect == CombatStatEffectV1::GainLifeOnVictoryOrDefeat { life: 2 })
        || (source_id == 1628 && effect == CombatStatEffectV1::ReduceOpponentLifeOnVictoryOrDefeat {
        life: 1,
        minimum: 1,
    })
}

fn victory_or_defeat_pillz_identity(source: CombatStatEffectSourceV1, source_id: u32) -> (r: bool)
    ensures
        r == victory_or_defeat_pillz_identity_matches(source, source_id),
{
    (source == CombatStatEffectSourceV1::Bonus && source_id == 1034) || (source
        == CombatStatEffectSourceV1::Ability && (source_id == 1034 || source_id == 1375 || source_id
        == 4111 || source_id == 5085 || source_id == 5520))
}

fn reprisal_card(source_id: u32, key: CardKey) -> (r: bool)
    ensures
        r == reprisal_card_matches(source_id, key),
{
    (source_id == 1310 && key == CardKey { id: 1498, level: 4 }) || (source_id == 2073 && key
        == CardKey { id: 2042, level: 3 })
}

fn amounts(effect: CombatStatEffectV1) -> (r: (u16, u16, u16, u16, u16, u16, (u16, u16)))
    ensures
        r == (
            permanent_amount(effect),
            per_star_of(effect),
            per_round_of(effect),
            per_count_of(effect),
            defeat_amount_of(effect),
            killshot_amount_of(effect),
            ratio_of(effect),
        ),
{
    match effect {
        CombatStatEffectV1::PoisonOpponentLifeOnVictory { life, .. } => (life, 0, 0, 0, 0, 0, (0, 0)),
        CombatStatEffectV1::PoisonOpponentLifeOnDefeat { life, .. } => (life, 0, 0, 0, 0, 0, (0, 0)),
        CombatStatEffectV1::ToxinOpponentLifeOnVictory { life, .. } => (life, 0, 0, 0, 0, 0, (0, 0)),
        CombatStatEffectV1::ConsumeOpponentPillzOnVictory { pillz, .. } => (
            pillz,
            0,
            0,
            0,
            0,
            0,
            (0, 0),
        ),
        CombatStatEffectV1::CombustOpponentLifeAndPillzOnVictory { amount, .. } => (
            amount,
            0,
            0,
            0,
            0,
            0,
            (0, 0),
        ),
        CombatStatEffectV1::ReduceOpponentLifeOnVictoryPerOpponentStars { per_star, .. } => (
            0,
            per_star,
            0,
            0,
            0,
            0,
            (0, 0),
        ),
        CombatStatEffectV1::GainLifeOnVictoryPerOpponentStars { per_star } => (
            0,
            per_star,
            0,
            0,
            0,
            0,
            (0, 0),
        ),
        CombatStatEffectV1::GainPillzOnVictoryPerOpponentStars { per_star } => (
            0,
            per_star,
            0,
            0,
            0,
            0,
            (0, 0),
        ),
        CombatStatEffectV1::ReduceOpponentLifeOnVictoryPerRound { per_round, .. } => (
            0,
            0,
            per_round,
            0,
            0,
            0,
            (0, 0),
        ),
        CombatStatEffectV1::ReduceOpponentPillzOnVictoryPerRound { per_round, .. } => (
            0,
            0,
            per_round,
            0,
            0,
            0,
            (0, 0),
        ),
        CombatStatEffectV1::GainLifeOnVictoryPerRound { per_round, .. } => (
            0,
            0,
            per_round,
            0,
            0,
            0,
            (0, 0),
        ),
        CombatStatEffectV1::GainPillzOnVictoryPerRound { per_round, .. } => (
            0,
            0,
            per_round,
            0,
            0,
            0,
            (0, 0),
        ),
        CombatStatEffectV1::ReduceOpponentLifeOnVictoryPerAntiSupport { per_count, .. } => (
            0,
            0,
            0,
            per_count,
            0,
            0,
            (0, 0),
        ),
        CombatStatEffectV1::ReduceOpponentPillzOnVictoryPerAntiSupport { per_count, .. } => (
            0,
            0,
            0,
            per_count,
            0,
            0,
            (0, 0),
        ),
        CombatStatEffectV1::GainPillzOnVictoryPerAntiSupport { per_count, .. } => (
            0,
            0,
            0,
            per_count,
            0,
            0,
            (0, 0),
        ),
        CombatStatEffectV1::ReduceOpponentLifeOnVictoryPerSupport { per_count, .. } => (
            0,
            0,
            0,
            per_count,
            0,
            0,
            (0, 0),
        ),
        CombatStatEffectV1::GainLifeOnVictoryPerSupport { per_count } => (
            0,
            0,
            0,
            per_count,
            0,
            0,
            (0, 0),
        ),
        CombatStatEffectV1::GainPillzOnVictoryPerSupport { per_count } => (
            0,
            0,
            0,
            per_count,
            0,
            0,
            (0, 0),
        ),
        CombatStatEffectV1::GainPillzOnDefeat { pillz } => (0, 0, 0, 0, pillz, 0, (0, 0)),
        CombatStatEffectV1::GainPillzAndLifeOnDefeat { amount } => (0, 0, 0, 0, amount, 0, (0, 0)),
        CombatStatEffectV1::GainPillzOnKillshot { pillz } => (0, 0, 0, 0, 0, pillz, (0, 0)),
        CombatStatEffectV1::GainLifeOnKillshot { life, .. } => (0, 0, 0, 0, 0, life, (0, 0)),
        CombatStatEffectV1::ToxinOpponentLifeOnKillshot { life, .. } => (0, 0, 0, 0, 0, life, (0, 0)),
        CombatStatEffectV1::RecoverPaidPillzOnDefeat { numerator, denominator } => (
            0,
            0,
            0,
            0,
            0,
            0,
            (numerator, denominator),
        ),
        CombatStatEffectV1::RecoverPaidPillzOnVictory { numerator, denominator } => (
            0,
            0,
            0,
            0,
            0,
            0,
            (numerator, denominator),
        ),
        _ => (0, 0, 0, 0, 0, 0, (0, 0)),
    }
}

/// Why an `Execute` plan is refused, first reason first.
fn execute_plan_refusal(
    source: CombatStatEffectSourceV1,
    card_key: CardKey,
    effective_clan_id: u32,
    source_id: u32,
    predicate: CombatStatPredicateV1,
    effect: CombatStatEffectV1,
) -> (r: Option<InvalidCombatStatPlanReasonV1>)
    ensures
        r == execute_refusal(source, card_key, effective_clan_id, source_id, predicate, effect),
{
    let always = predicate == CombatStatPredicateV1::Always;
    let ability = source == CombatStatEffectSourceV1::Ability;
    let unison = predicate == CombatStatPredicateV1::OwnerHandUnison;
    let (permanent, per_star, per_round, per_count, defeat_amount, killshot_amount, ratio) =
        amounts(effect);
    if source_id == 274 {
        if !ability {
            return Some(InvalidCombatStatPlanReasonV1::AnitaCourageDamageToLifeIdentity);
        } else if card_key != (CardKey { id: 448, level: 3 }) {
            return Some(InvalidCombatStatPlanReasonV1::AnitaCourageDamageToLifeCard);
        } else if effect != CombatStatEffectV1::GainLifeEqualToFinalDamageOnCourageVictory {
            return Some(InvalidCombatStatPlanReasonV1::AnitaCourageDamageToLifeEffect);
        } else if predicate != CombatStatPredicateV1::OwnerMovesFirst {
            return Some(InvalidCombatStatPlanReasonV1::AnitaCourageDamageToLifePredicate);
        } else {
            return None;
        }
    }
    if effect == CombatStatEffectV1::GainLifeEqualToFinalDamageOnCourageVictory {
        return Some(InvalidCombatStatPlanReasonV1::AnitaCourageDamageToLifeIdentity);
    }
    match effect {
        CombatStatEffectV1::GainPillzOnVictoryOrDefeat { pillz } => {
            return three_checks_exec(
                    ability,
                    InvalidCombatStatPlanReasonV1::VictoryOrDefeatGainSource,
                    pillz >= 2,
                    InvalidCombatStatPlanReasonV1::VictoryOrDefeatGainMagnitude,
                    always,
                    InvalidCombatStatPlanReasonV1::VictoryOrDefeatGainPredicate,
                );
        },
        CombatStatEffectV1::GainLifePerFinalDamageOnVictoryOrDefeat { life_per_damage } => {
            return three_checks_exec(
                    ability,
                    InvalidCombatStatPlanReasonV1::VictoryOrDefeatGainSource,
                    life_per_damage >= 1,
                    InvalidCombatStatPlanReasonV1::VictoryOrDefeatGainMagnitude,
                    always,
                    InvalidCombatStatPlanReasonV1::VictoryOrDefeatGainPredicate,
                );
        },
        CombatStatEffectV1::ReduceOpponentPillzAndLifeOnVictory { amount, .. } => {
            return three_checks_exec(
                    ability,
                    InvalidCombatStatPlanReasonV1::VictoryOpponentPillzAndLifeSource,
                    amount != 0,
                    InvalidCombatStatPlanReasonV1::VictoryOpponentPillzAndLifeMagnitude,
                    always,
                    InvalidCombatStatPlanReasonV1::VictoryOpponentPillzAndLifePredicate,
                );
        },
        CombatStatEffectV1::GainPillzAndLifeOnVictory { amount } => {
            return three_checks_exec(
                    ability,
                    InvalidCombatStatPlanReasonV1::UnisonPillzAndLifeSource,
                    amount != 0,
                    InvalidCombatStatPlanReasonV1::UnisonPillzAndLifeMagnitude,
                    unison,
                    InvalidCombatStatPlanReasonV1::UnisonPillzAndLifePredicate,
                );
        },
        CombatStatEffectV1::DopePillzOnVictory { pillz, maximum }
        | CombatStatEffectV1::DopePillzOnDefeat { pillz, maximum } => {
            return three_checks_exec(
                    ability,
                    InvalidCombatStatPlanReasonV1::PermanentLifeSource,
                    pillz != 0 && maximum > pillz,
                    InvalidCombatStatPlanReasonV1::PermanentLifeMagnitude,
                    always,
                    InvalidCombatStatPlanReasonV1::PermanentLifePredicate,
                );
        },
        CombatStatEffectV1::RegenLifeOnVictory { life, maximum } => {
            return three_checks_exec(
                ability,
                InvalidCombatStatPlanReasonV1::PermanentLifeSource,
                life != 0 && maximum > life,
                InvalidCombatStatPlanReasonV1::PermanentLifeMagnitude,
                always,
                InvalidCombatStatPlanReasonV1::PermanentLifePredicate,
            );
        },
        _ => {},
    }
    let poison_victory = match effect {
        CombatStatEffectV1::PoisonOpponentLifeOnVictory { .. } => true,
        _ => false,
    };
    let toxin_victory = match effect {
        CombatStatEffectV1::ToxinOpponentLifeOnVictory { .. } => true,
        _ => false,
    };
    let consume = match effect {
        CombatStatEffectV1::ConsumeOpponentPillzOnVictory { .. } => true,
        _ => false,
    };
    let combust = match effect {
        CombatStatEffectV1::CombustOpponentLifeAndPillzOnVictory { .. } => true,
        _ => false,
    };
    let poison_defeat = match effect {
        CombatStatEffectV1::PoisonOpponentLifeOnDefeat { .. } => true,
        _ => false,
    };
    if poison_victory || poison_defeat || toxin_victory || consume || combust {
        let second_compound = match predicate {
            CombatStatPredicateV1::OwnerClanInAnd(_, c) => c == ClanConjunctV1::OwnerMovesSecond,
            _ => false,
        };
        let clan_gated = (toxin_victory && (owner_clan_in(predicate) || unison)) || (consume && (
        unison || second_compound));
        return three_checks_exec(
                ability || poison_victory,
                InvalidCombatStatPlanReasonV1::PermanentLifeSource,
                permanent != 0,
                InvalidCombatStatPlanReasonV1::PermanentLifeMagnitude,
                always || clan_gated,
                InvalidCombatStatPlanReasonV1::PermanentLifePredicate,
            );
    }
    if let CombatStatEffectV1::HealLifeOnVictory { life, maximum } = effect {
        return three_checks_exec(
            ability,
            InvalidCombatStatPlanReasonV1::HealLifeSource,
            life != 0 && maximum > life,
            InvalidCombatStatPlanReasonV1::HealLifeMagnitude,
            always,
            InvalidCombatStatPlanReasonV1::HealLifePredicate,
        );
    }
    if victory_opponent_life_reserved(source_id) {
        let matches = match effect {
            CombatStatEffectV1::ReduceOpponentLifeOnVictory { life, minimum } => (source_id == 680
                && life == 2 && minimum == 2) || (source_id == 4708 && life == 4 && minimum == 0)
                || ((source_id == 3016 || source_id == 4301 || source_id == 4533) && life == 3
                && minimum == 0) || (source_id == 3314 && life == 1 && minimum == 0) || ((source_id
                == 4531 || source_id == 4532) && life == 3 && minimum == 1),
            _ => false,
        };
        return if matches {
            None
        } else {
            Some(InvalidCombatStatPlanReasonV1::VictoryOpponentLifeMagnitude)
        };
    }
    if let CombatStatEffectV1::ReduceOpponentLifeOnVictory { life, .. } = effect {
        return three_checks_exec(
            ability && source_id != 1730,
            InvalidCombatStatPlanReasonV1::VictoryOpponentLifeIdentity,
            life != 0,
            InvalidCombatStatPlanReasonV1::VictoryOpponentLifeMagnitude,
            always || pillz_used_above(predicate) || predicate == CombatStatPredicateV1::MatchIsNight
                || owner_clan_in(predicate) || opponent_hand_has_clan(predicate)
                || owner_previous_card_clan_in(predicate),
            InvalidCombatStatPlanReasonV1::VictoryOpponentLifePredicate,
        );
    }
    if victory_or_defeat_life_reserved(source_id) {
        if !victory_or_defeat_life_matches(source_id, effect) {
            return Some(InvalidCombatStatPlanReasonV1::VictoryOrDefeatLifeEffect);
        } else if !always {
            return Some(InvalidCombatStatPlanReasonV1::VictoryOrDefeatLifePredicate);
        } else {
            return None;
        }
    }
    if source_id == 1415 || source_id == 4458 {
        let matches = match effect {
            CombatStatEffectV1::ReduceOpponentLifeOnVictoryPerOpponentStars { per_star, minimum } => per_star
                == 1 && minimum == 2,
            _ => false,
        };
        return if !matches {
            Some(InvalidCombatStatPlanReasonV1::EqualizerOpponentLifeEffect)
        } else if !always {
            Some(InvalidCombatStatPlanReasonV1::EqualizerOpponentLifePredicate)
        } else {
            None
        };
    }
    let star_gain = match effect {
        CombatStatEffectV1::GainLifeOnVictoryPerOpponentStars { .. }
        | CombatStatEffectV1::GainPillzOnVictoryPerOpponentStars { .. } => true,
        _ => false,
    };
    let star = star_gain || match effect {
        CombatStatEffectV1::ReduceOpponentLifeOnVictoryPerOpponentStars { .. } => true,
        _ => false,
    };
    if star {
        return three_checks_exec(
                ability,
                InvalidCombatStatPlanReasonV1::EqualizerPostRoundSource,
                per_star != 0,
                InvalidCombatStatPlanReasonV1::EqualizerPostRoundMagnitude,
                always || (owner_clan_in(predicate) && star_gain),
                InvalidCombatStatPlanReasonV1::EqualizerPostRoundPredicate,
            );
    }
    if let CombatStatEffectV1::ReduceOpponentLifeOnVictoryOrDefeat { life, .. } = effect {
        return three_checks_exec(
            ability,
            InvalidCombatStatPlanReasonV1::VictoryOrDefeatLifeIdentity,
            life != 0,
            InvalidCombatStatPlanReasonV1::VictoryOrDefeatLifeEffect,
            always,
            InvalidCombatStatPlanReasonV1::VictoryOrDefeatLifePredicate,
        );
    }
    if let CombatStatEffectV1::GainLifeOnVictoryOrDefeat { .. } = effect {
        return Some(InvalidCombatStatPlanReasonV1::VictoryOrDefeatLifeIdentity);
    }
    if source_id == 1310 || source_id == 2073 {
        if !ability {
            return Some(InvalidCombatStatPlanReasonV1::ReprisalStopOpponentAbilityIdentity);
        } else if !reprisal_card(source_id, card_key) {
            return Some(InvalidCombatStatPlanReasonV1::ReprisalStopOpponentAbilityCard);
        } else if effect != CombatStatEffectV1::StopOpponentAbility {
            return Some(InvalidCombatStatPlanReasonV1::ReprisalStopOpponentAbilityEffect);
        } else if predicate != CombatStatPredicateV1::OwnerMovesSecond {
            return Some(InvalidCombatStatPlanReasonV1::ReprisalStopOpponentAbilityPredicate);
        } else {
            return None;
        }
    }
    if source_id == 1714 {
        if source != CombatStatEffectSourceV1::Bonus {
            return Some(InvalidCombatStatPlanReasonV1::KombokaVictoryPillzAndLifeIdentity);
        } else if effect != CombatStatEffectV1::GainOnePillzAndLifeOnVictory {
            return Some(InvalidCombatStatPlanReasonV1::KombokaVictoryPillzAndLifeEffect);
        } else if !always {
            return Some(InvalidCombatStatPlanReasonV1::KombokaVictoryPillzAndLifePredicate);
        } else if effective_clan_id != KOMBOKA_EFFECTIVE_CLAN_ID {
            return Some(InvalidCombatStatPlanReasonV1::KombokaVictoryPillzAndLifeClan);
        } else {
            return None;
        }
    }
    if effect == CombatStatEffectV1::StopOpponentAbility && predicate
        == CombatStatPredicateV1::OwnerMovesSecond {
        return Some(InvalidCombatStatPlanReasonV1::ReprisalStopOpponentAbilityIdentity);
    }
    let (numerator, denominator) = ratio;
    match effect {
        CombatStatEffectV1::RecoverPaidPillzOnDefeat { .. }
        | CombatStatEffectV1::RecoverPaidPillzOnVictory { .. } => {
            let on_victory = match effect {
                CombatStatEffectV1::RecoverPaidPillzOnVictory { .. } => true,
                _ => false,
            };
            if numerator == 0 || numerator >= denominator {
                return Some(InvalidCombatStatPlanReasonV1::RecoveryRatio);
            } else if on_victory && !ability {
                return Some(InvalidCombatStatPlanReasonV1::RecoverySource);
            } else if !(always || (on_victory && unison)) {
                return Some(InvalidCombatStatPlanReasonV1::RecoveryPredicate);
            } else {
                return None;
            }
        },
        CombatStatEffectV1::GainOnePillzOnVictoryOrDefeat => {
            if !victory_or_defeat_pillz_identity(source, source_id) {
                return Some(InvalidCombatStatPlanReasonV1::VictoryOrDefeatIdentity);
            } else if !always {
                return Some(InvalidCombatStatPlanReasonV1::VictoryOrDefeatPredicate);
            } else {
                return None;
            }
        },
        CombatStatEffectV1::GainOnePillzAndLifeOnVictory => {
            if !(source == CombatStatEffectSourceV1::Bonus && source_id == 1714) {
                return Some(InvalidCombatStatPlanReasonV1::KombokaVictoryPillzAndLifeIdentity);
            } else if !always {
                return Some(InvalidCombatStatPlanReasonV1::KombokaVictoryPillzAndLifePredicate);
            } else {
                return None;
            }
        },
        CombatStatEffectV1::GainTwoPillzOnDefeatMaxEleven => {
            if !(ability && source_id == 1158) {
                return Some(InvalidCombatStatPlanReasonV1::ArgosDefeatCappedPillzIdentity);
            } else if !always {
                return Some(InvalidCombatStatPlanReasonV1::ArgosDefeatCappedPillzPredicate);
            } else {
                return None;
            }
        },
        CombatStatEffectV1::GainLifeOnVictory { life } => {
            let bet_gate = pillz_used_above(predicate);
            if life == 0 {
                return Some(InvalidCombatStatPlanReasonV1::VictoryLifeMagnitude);
            } else if !(bet_gate || always || predicate == CombatStatPredicateV1::OwnerWonPreviousRound
                || predicate == CombatStatPredicateV1::SelectedHandSlotsDiffer || predicate
                == CombatStatPredicateV1::OwnerMovesFirst || opponent_hand_has_clan(predicate)
                || owner_previous_card_clan_in(predicate)) || (!always && !bet_gate && !ability) {
                return Some(InvalidCombatStatPlanReasonV1::VictoryLifePredicate);
            } else {
                return None;
            }
        },
        CombatStatEffectV1::GainPillzOnVictory { pillz } => {
            return three_checks_exec(
                ability,
                InvalidCombatStatPlanReasonV1::VictoryPillzSource,
                pillz != 0,
                InvalidCombatStatPlanReasonV1::VictoryPillzMagnitude,
                always || predicate == CombatStatPredicateV1::OwnerWonPreviousRound || predicate
                    == CombatStatPredicateV1::OwnerMovesFirst || owner_previous_card_clan_in(predicate),
                InvalidCombatStatPlanReasonV1::VictoryPillzPredicate,
            );
        },
        CombatStatEffectV1::GainPillzOnVictoryMax { pillz, maximum } => {
            return three_checks_exec(
                ability,
                InvalidCombatStatPlanReasonV1::VictoryPillzMaxSource,
                pillz != 0 && maximum != 0,
                InvalidCombatStatPlanReasonV1::VictoryPillzMaxMagnitude,
                always || predicate == CombatStatPredicateV1::MatchIsNight,
                InvalidCombatStatPlanReasonV1::VictoryPillzMaxPredicate,
            );
        },
        CombatStatEffectV1::ReduceOpponentPillzOnVictory { pillz, .. } => {
            return three_checks_exec(
                ability,
                InvalidCombatStatPlanReasonV1::VictoryOpponentPillzSource,
                pillz != 0,
                InvalidCombatStatPlanReasonV1::VictoryOpponentPillzMagnitude,
                always || pillz_used_above(predicate) || owner_clan_in(predicate),
                InvalidCombatStatPlanReasonV1::VictoryOpponentPillzPredicate,
            );
        },
        CombatStatEffectV1::ReduceOpponentLifeOnVictoryPerRound { .. }
        | CombatStatEffectV1::ReduceOpponentPillzOnVictoryPerRound { .. }
        | CombatStatEffectV1::GainLifeOnVictoryPerRound { .. }
        | CombatStatEffectV1::GainPillzOnVictoryPerRound { .. } => {
            return three_checks_exec(
                    ability,
                    InvalidCombatStatPlanReasonV1::RoundScaledPostRoundSource,
                    per_round != 0,
                    InvalidCombatStatPlanReasonV1::RoundScaledPostRoundMagnitude,
                    always,
                    InvalidCombatStatPlanReasonV1::RoundScaledPostRoundPredicate,
                );
        },
        CombatStatEffectV1::GainBothPlayersLifeOnVictoryOrDefeat { .. } => {
            return Some(InvalidCombatStatPlanReasonV1::BothPlayersLifeGainAgainstKnockout);
        },
        CombatStatEffectV1::GainBothPlayersPillzOnVictoryOrDefeat { pillz } => {
            return three_checks_exec(
                    ability,
                    InvalidCombatStatPlanReasonV1::BothPlayersGainSource,
                    pillz != 0,
                    InvalidCombatStatPlanReasonV1::BothPlayersGainMagnitude,
                    always,
                    InvalidCombatStatPlanReasonV1::BothPlayersGainPredicate,
                );
        },
        CombatStatEffectV1::GainPillzOnDefeat { .. }
        | CombatStatEffectV1::GainPillzAndLifeOnDefeat { .. } => {
            return three_checks_exec(
                ability,
                InvalidCombatStatPlanReasonV1::DefeatPillzSource,
                defeat_amount != 0,
                InvalidCombatStatPlanReasonV1::DefeatPillzMagnitude,
                always,
                InvalidCombatStatPlanReasonV1::DefeatPillzPredicate,
            );
        },
        CombatStatEffectV1::GainPillzAndLifeOnKillshot { amount } => {
            return three_checks_exec(
                ability,
                InvalidCombatStatPlanReasonV1::KillshotPillzAndLifeSource,
                amount != 0,
                InvalidCombatStatPlanReasonV1::KillshotPillzAndLifeMagnitude,
                always,
                InvalidCombatStatPlanReasonV1::KillshotPillzAndLifePredicate,
            );
        },
        CombatStatEffectV1::GainPillzOnKillshot { .. }
        | CombatStatEffectV1::GainLifeOnKillshot { .. }
        | CombatStatEffectV1::ToxinOpponentLifeOnKillshot { .. } => {
            let unison_life = match effect {
                CombatStatEffectV1::GainLifeOnKillshot { maximum, .. } => maximum == 0 && unison,
                _ => false,
            };
            return three_checks_exec(
                ability,
                InvalidCombatStatPlanReasonV1::KillshotPostRoundSource,
                killshot_amount != 0,
                InvalidCombatStatPlanReasonV1::KillshotPostRoundMagnitude,
                always || unison_life,
                InvalidCombatStatPlanReasonV1::KillshotPostRoundPredicate,
            );
        },
        _ => {},
    }
    if let CombatStatEffectV1::CancelOpponentResourceModifiers { .. } = effect {
        if !ability {
            return Some(InvalidCombatStatPlanReasonV1::ResourceCancellationSource);
        }
    }
    match effect {
        CombatStatEffectV1::ReduceOpponentLifeOnVictoryPerAntiSupport { .. }
        | CombatStatEffectV1::ReduceOpponentPillzOnVictoryPerAntiSupport { .. }
        | CombatStatEffectV1::GainPillzOnVictoryPerAntiSupport { .. } => {
            return three_checks_exec(
                    ability,
                    InvalidCombatStatPlanReasonV1::BrawlPostRoundSource,
                    per_count != 0,
                    InvalidCombatStatPlanReasonV1::BrawlPostRoundMagnitude,
                    always,
                    InvalidCombatStatPlanReasonV1::BrawlPostRoundPredicate,
                );
        },
        CombatStatEffectV1::ReduceOpponentLifeOnVictoryPerSupport { .. }
        | CombatStatEffectV1::GainLifeOnVictoryPerSupport { .. }
        | CombatStatEffectV1::GainPillzOnVictoryPerSupport { .. } => {
            return three_checks_exec(
                    ability,
                    InvalidCombatStatPlanReasonV1::SupportPostRoundSource,
                    per_count != 0,
                    InvalidCombatStatPlanReasonV1::SupportPostRoundMagnitude,
                    always,
                    InvalidCombatStatPlanReasonV1::SupportPostRoundPredicate,
                );
        },
        CombatStatEffectV1::ReduceOwnLifeOnVictory { life, minimum } => {
            return three_checks_exec(
                ability,
                InvalidCombatStatPlanReasonV1::BacklashLifeSource,
                life != 0 && minimum != 0,
                InvalidCombatStatPlanReasonV1::BacklashLifeMagnitude,
                always,
                InvalidCombatStatPlanReasonV1::BacklashLifePredicate,
            );
        },
        CombatStatEffectV1::ReduceOwnLife { life, minimum } => {
            return three_checks_exec(
                ability,
                InvalidCombatStatPlanReasonV1::CorruptLifeSource,
                life != 0 && minimum != 0,
                InvalidCombatStatPlanReasonV1::CorruptLifeMagnitude,
                always,
                InvalidCombatStatPlanReasonV1::CorruptLifePredicate,
            );
        },
        CombatStatEffectV1::GainLifeOnDefeatMax { life, maximum } => {
            return three_checks_exec(
                ability,
                InvalidCombatStatPlanReasonV1::DefeatLifeSource,
                life != 0 && maximum > life,
                InvalidCombatStatPlanReasonV1::DefeatLifeMagnitude,
                always,
                InvalidCombatStatPlanReasonV1::DefeatLifePredicate,
            );
        },
        CombatStatEffectV1::GainOpponentPillzOnDefeat { pillz } => {
            return three_checks_exec(
                ability,
                InvalidCombatStatPlanReasonV1::DefeatOpponentPillzSource,
                pillz != 0,
                InvalidCombatStatPlanReasonV1::DefeatOpponentPillzMagnitude,
                always,
                InvalidCombatStatPlanReasonV1::DefeatOpponentPillzPredicate,
            );
        },
        CombatStatEffectV1::ReduceOpponentPillzOnDefeat { pillz, .. } => {
            return three_checks_exec(
                ability,
                InvalidCombatStatPlanReasonV1::DefeatOpponentPillzSource,
                pillz != 0,
                InvalidCombatStatPlanReasonV1::DefeatOpponentPillzMagnitude,
                always,
                InvalidCombatStatPlanReasonV1::DefeatOpponentPillzPredicate,
            );
        },
        CombatStatEffectV1::GainPillzEqualToFinalDamageOnVictory => {
            if !ability {
                return Some(InvalidCombatStatPlanReasonV1::VictoryPillzPerDamageSource);
            } else if !(always || predicate == CombatStatPredicateV1::SelectedHandSlotsMatch) {
                return Some(InvalidCombatStatPlanReasonV1::VictoryPillzPerDamagePredicate);
            } else {
                return None;
            }
        },
        CombatStatEffectV1::GainLifePerFinalDamageOnVictory { life_per_damage, maximum } => {
            return three_checks_exec(
                ability,
                InvalidCombatStatPlanReasonV1::VictoryLifePerDamageSource,
                life_per_damage != 0,
                InvalidCombatStatPlanReasonV1::VictoryLifePerDamageMagnitude,
                (always || predicate == CombatStatPredicateV1::OwnerLostPreviousRound || predicate
                    == CombatStatPredicateV1::OwnerWonPreviousRound || opponent_hand_has_clan(
                    predicate,
                )) && !(maximum > 0 && !always),
                InvalidCombatStatPlanReasonV1::VictoryLifePerDamagePredicate,
            );
        },
        CombatStatEffectV1::GainLifePerOpponentFinalDamageOnVictory { life_per_damage } => {
            if !ability || life_per_damage == 0 || !always {
                return Some(InvalidCombatStatPlanReasonV1::VictoryLifePerDamageSource);
            } else {
                return None;
            }
        },
        CombatStatEffectV1::GainLifeOnDefeat { life } => {
            return three_checks_exec(
                ability,
                InvalidCombatStatPlanReasonV1::DefeatLifeSource,
                life != 0,
                InvalidCombatStatPlanReasonV1::DefeatLifeMagnitude,
                always || unison,
                InvalidCombatStatPlanReasonV1::DefeatLifePredicate,
            );
        },
        CombatStatEffectV1::ReanimateLife { life } => {
            return three_checks_exec(
                ability,
                InvalidCombatStatPlanReasonV1::ReanimateLifeSource,
                life != 0,
                InvalidCombatStatPlanReasonV1::ReanimateLifeMagnitude,
                always,
                InvalidCombatStatPlanReasonV1::ReanimateLifePredicate,
            );
        },
        _ => {},
    }
    if effect == CombatStatEffectV1::SimplifyAttackToPillz && source
        != CombatStatEffectSourceV1::Bonus {
        return Some(InvalidCombatStatPlanReasonV1::AttackSimplificationSource);
    }
    if let CombatStatEffectV1::ImposePrintedCombatStat { stat } = effect {
        if !ability || stat != CombatStatAttributeV1::Damage || !always {
            return Some(InvalidCombatStatPlanReasonV1::ConditionalControl);
        } else {
            return None;
        }
    }
    if let CombatStatEffectV1::ModifyCombatStat {
        side,
        stat,
        operation,
        value,
        minimum,
        maximum,
        multiplier,
    } = effect {
        return modifier_refusal_exec(
            source,
            predicate,
            side,
            stat,
            operation,
            value,
            minimum,
            maximum,
            multiplier,
        );
    }
    if !always && !conditional_control_admitted_exec(source, predicate, effect) {
        Some(InvalidCombatStatPlanReasonV1::ConditionalControl)
    } else {
        None
    }
}

fn conditional_control_admitted_exec(
    source: CombatStatEffectSourceV1,
    predicate: CombatStatPredicateV1,
    effect: CombatStatEffectV1,
) -> (r: bool)
    ensures
        r == conditional_control_admitted(source, predicate, effect),
{
    let stop = effect == CombatStatEffectV1::StopOpponentAbility || effect
        == CombatStatEffectV1::StopOpponentBonus;
    let stat_copy_condition = predicate == CombatStatPredicateV1::OwnerMovesFirst || predicate
        == CombatStatPredicateV1::OwnerMovesSecond || predicate
        == CombatStatPredicateV1::OwnerWonPreviousRound || predicate
        == CombatStatPredicateV1::OwnerLostPreviousRound || predicate
        == CombatStatPredicateV1::SelectedHandSlotsMatch || predicate
        == CombatStatPredicateV1::SelectedHandSlotsDiffer || predicate
        == CombatStatPredicateV1::OwnerHandUnison;
    let (copy, exchange) = match effect {
        CombatStatEffectV1::CopyOpponentPrintedCombatStat { .. } => (true, false),
        CombatStatEffectV1::ExchangePrintedCombatStat { .. } => (false, true),
        _ => (false, false),
    };
    source == CombatStatEffectSourceV1::Ability && (stop || ((copy || exchange)
        && stat_copy_condition) || (copy && opponent_hand_has_clan(predicate)))
}

fn scaled_magnitude_exec(multiplier: CombatStatMagnitudeV1) -> (r: bool)
    ensures
        r == scaled_magnitude(multiplier),
{
    multiplier == CombatStatMagnitudeV1::Growth || multiplier == CombatStatMagnitudeV1::Degrowth
        || multiplier == CombatStatMagnitudeV1::OpponentStars || multiplier
        == CombatStatMagnitudeV1::AntiSupport || multiplier == CombatStatMagnitudeV1::OwnerLife
        || multiplier == CombatStatMagnitudeV1::OwnerPillz || multiplier
        == CombatStatMagnitudeV1::OwnerPillzLost || multiplier
        == CombatStatMagnitudeV1::OwnerLifeLost
}

fn bonus_refuses_predicate_exec(predicate: CombatStatPredicateV1) -> (r: bool)
    ensures
        r == bonus_refuses_predicate(predicate),
{
    let gated = match predicate {
        CombatStatPredicateV1::OwnerClanIn(_)
        | CombatStatPredicateV1::OpponentHandHasClan(_)
        | CombatStatPredicateV1::OwnerPillzUsedAbove(_)
        | CombatStatPredicateV1::OwnerPillzUsedBelow(_)
        | CombatStatPredicateV1::OwnerClanInAnd(..) => true,
        _ => false,
    };
    gated || predicate == CombatStatPredicateV1::OwnerMovesFirst || predicate
        == CombatStatPredicateV1::OwnerMovesSecond || predicate
        == CombatStatPredicateV1::OwnerHandUnison || predicate
        == CombatStatPredicateV1::OwnerAbilityStopped || predicate
        == CombatStatPredicateV1::OwnerWonPreviousRoundAtNight
}

fn modifier_refusal_exec(
    source: CombatStatEffectSourceV1,
    predicate: CombatStatPredicateV1,
    side: CombatStatAffectedSideV1,
    stat: CombatStatAttributeV1,
    operation: CombatStatOperationV1,
    value: u16,
    minimum: Option<u16>,
    maximum: Option<u16>,
    multiplier: CombatStatMagnitudeV1,
) -> (r: Option<InvalidCombatStatPlanReasonV1>)
    ensures
        r == modifier_refusal(
            source,
            predicate,
            side,
            stat,
            operation,
            value,
            minimum,
            maximum,
            multiplier,
        ),
{
    let ability = source == CombatStatEffectSourceV1::Ability;
    let always = predicate == CombatStatPredicateV1::Always;
    if side == CombatStatAffectedSideV1::Both {
        if ability && always && multiplier == CombatStatMagnitudeV1::Fixed && (stat
            == CombatStatAttributeV1::Damage || stat == CombatStatAttributeV1::Attack) && value > 0
            && maximum.is_none() && (minimum.is_some() == (operation
            == CombatStatOperationV1::Decrease)) {
            None
        } else {
            Some(InvalidCombatStatPlanReasonV1::BothCardsModifierShape)
        }
    } else if ability && multiplier == CombatStatMagnitudeV1::SourceBonusSupport && (!always
        || stat == CombatStatAttributeV1::PowerAndDamage) {
        Some(InvalidCombatStatPlanReasonV1::SupportAbility)
    } else if scaled_magnitude_exec(multiplier) && !always && !(multiplier
        == CombatStatMagnitudeV1::OwnerPillz && predicate == CombatStatPredicateV1::OwnerHandUnison
        && ability) && !(owner_clan_in(predicate) && ability && (multiplier
        == CombatStatMagnitudeV1::Growth || multiplier == CombatStatMagnitudeV1::Degrowth
        || multiplier == CombatStatMagnitudeV1::OpponentStars || multiplier
        == CombatStatMagnitudeV1::AntiSupport || multiplier
        == CombatStatMagnitudeV1::OwnerLifeLost)) {
        Some(InvalidCombatStatPlanReasonV1::CompoundPredicateAndMagnitude)
    } else if source == CombatStatEffectSourceV1::Bonus && (bonus_refuses_predicate_exec(predicate)
        || ((predicate == CombatStatPredicateV1::SelectedHandSlotsMatch || predicate
        == CombatStatPredicateV1::SelectedHandSlotsDiffer || predicate
        == CombatStatPredicateV1::OwnerWonPreviousRound || predicate
        == CombatStatPredicateV1::OwnerLostPreviousRound) && multiplier
        != CombatStatMagnitudeV1::Fixed)) {
        Some(InvalidCombatStatPlanReasonV1::ConditionalBonus)
    } else if operation == CombatStatOperationV1::Increase && maximum.is_some() && !((multiplier
        == CombatStatMagnitudeV1::OwnerLife || multiplier == CombatStatMagnitudeV1::OwnerLifeLost)
        && (stat == CombatStatAttributeV1::Power || stat == CombatStatAttributeV1::Damage)) {
        Some(InvalidCombatStatPlanReasonV1::CappedIncrease)
    } else if value == 0 {
        Some(InvalidCombatStatPlanReasonV1::ZeroMagnitude)
    } else if !((side == CombatStatAffectedSideV1::Player && operation
        == CombatStatOperationV1::Increase) || (side == CombatStatAffectedSideV1::Opponent
        && operation == CombatStatOperationV1::Decrease)) {
        Some(InvalidCombatStatPlanReasonV1::InvalidModifierDirection)
    } else if (operation == CombatStatOperationV1::Increase && minimum.is_some()) || (operation
        == CombatStatOperationV1::Decrease && maximum.is_some()) {
        Some(InvalidCombatStatPlanReasonV1::IncompatibleBounds)
    } else {
        None
    }
}

/// Why a source plan is refused on its own, before its context is read.
pub fn source_plan_refusal(
    source: CombatStatEffectSourceV1,
    card_key: CardKey,
    effective_clan_id: u32,
    plan: CombatStatSourcePlanV1,
) -> (r: Option<InvalidCombatStatPlanReasonV1>)
    ensures
        r == plan_refusal(source, card_key, effective_clan_id, plan),
{
    match plan {
        CombatStatSourcePlanV1::CopyOpponentSource { source_id, predicate, .. } => if source_id
            == 0 {
            Some(InvalidCombatStatPlanReasonV1::CopyOpponentSourceIdentity)
        } else if source == CombatStatEffectSourceV1::Bonus && (owner_clan_in(predicate)
            || owner_clan_in_and(predicate)) {
            Some(InvalidCombatStatPlanReasonV1::ConditionalBonus)
        } else {
            None
        },
        CombatStatSourcePlanV1::Execute { source_id, predicate, effect } => execute_plan_refusal(
            source,
            card_key,
            effective_clan_id,
            source_id,
            predicate,
            effect,
        ),
        _ => None,
    }
}

} // verus!
