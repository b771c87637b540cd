//! How the selected cards' sources act in a round, before the combat stats resolve: a Copy
//! adopts the opposing plan, Stops (unless a slot Protection holds) decide which sources are
//! live, the printed-stat controls set each card's printed Power and Damage, scaled
//! magnitudes bind to fixed ones, and resource cancels drop opposing end-of-round work.

use super::combat_stat_admission::{post_round_effect_of, post_round_of};
use super::combat_stat_modifiers::{covers, covers_exec, Fired};
use super::combat_stat_predicate::{
    active_effect, predicate_holds, predicate_matches, source_active_effect, PredicateContext,
};
use super::combat_stat_types::{
    CombatStatAttributeV1, CombatStatCardPlanV1, CombatStatEffectV1, CombatStatMagnitudeV1,
    CombatStatSourcePlanV1, CopiedSourceKindV1, ResourceCancellationV1, RoundScaleV1,
};
use super::post_round::{PostRoundEffect, PostRoundPlan};
use super::BaseRulesCardSpec;
use vstd::prelude::*;

verus! {

/// The plan a source acts on for its owner: a Copy whose own condition holds adopts the
/// opposing selected card's plan of the copied kind, which keeps its own predicate; a Copy
/// whose condition fails acts on nothing. Every other plan is itself.
pub open spec fn adopted(
    plan: CombatStatSourcePlanV1,
    opponent: CombatStatCardPlanV1,
    ctx: PredicateContext,
) -> CombatStatSourcePlanV1 {
    match plan {
        CombatStatSourcePlanV1::CopyOpponentSource { copied, predicate, .. } => if predicate_holds(
            predicate,
            ctx,
        ) {
            match copied {
                CopiedSourceKindV1::Ability => opponent.ability,
                CopiedSourceKindV1::Bonus => opponent.bonus,
            }
        } else {
            CombatStatSourcePlanV1::Absent
        },
        _ => plan,
    }
}

/// The effect a source fires for its owner this round, before any Stop.
pub open spec fn acting(
    plan: CombatStatSourcePlanV1,
    opponent: CombatStatCardPlanV1,
    ctx: PredicateContext,
) -> Option<CombatStatEffectV1> {
    active_effect(adopted(plan, opponent, ctx), ctx)
}

pub open spec fn fires(effects: Fired, effect: CombatStatEffectV1) -> bool {
    effects.0 == Some(effect) || effects.1 == Some(effect)
}

/// Whether the owner's ability is stopped: the opposing card fires `Stop Opp. Ability` and no
/// `Protection: Ability` of the owner's that itself escaped the Stops holds. Stops are
/// simultaneous: a stopped Stop still stops.
pub open spec fn ability_stopped(own: Fired, opposing: Fired) -> bool {
    fires(opposing, CombatStatEffectV1::StopOpponentAbility) && !(own.1
        == Some(CombatStatEffectV1::ProtectOwnAbility) && !fires(
        opposing,
        CombatStatEffectV1::StopOpponentBonus,
    ))
}

/// Whether the owner's bonus is stopped, under the same rule with `Protection: Bonus`.
pub open spec fn bonus_stopped(own: Fired, opposing: Fired) -> bool {
    fires(opposing, CombatStatEffectV1::StopOpponentBonus) && !(own.0
        == Some(CombatStatEffectV1::ProtectOwnBonus) && !fires(
        opposing,
        CombatStatEffectV1::StopOpponentAbility,
    ))
}

/// An owner's sources as they act this round: each fired source that is not stopped.
pub open spec fn live(own: Fired, opposing: Fired) -> Fired {
    (
        if ability_stopped(own, opposing) {
            None
        } else {
            own.0
        },
        if bonus_stopped(own, opposing) {
            None
        } else {
            own.1
        },
    )
}

/// Whether `Tune Out` is live on either selected card.
pub open spec fn tuned_out(l1: Fired, l2: Fired) -> bool {
    fires(l1, CombatStatEffectV1::SimplifyAttackToPillz) || fires(
        l2,
        CombatStatEffectV1::SimplifyAttackToPillz,
    )
}

/// Whether a live source of the owner copies the opposing printed `target`.
pub open spec fn copies_printed(own: Fired, target: CombatStatAttributeV1) -> bool {
    ||| own.0 matches Some(CombatStatEffectV1::CopyOpponentPrintedCombatStat { stat }) && covers(stat, target)
    ||| own.1 matches Some(CombatStatEffectV1::CopyOpponentPrintedCombatStat { stat }) && covers(stat, target)
}

/// Whether a live source of the owner exchanges the two printed `target` values.
pub open spec fn exchanges_printed(own: Fired, target: CombatStatAttributeV1) -> bool {
    ||| own.0 matches Some(CombatStatEffectV1::ExchangePrintedCombatStat { stat }) && covers(stat, target)
    ||| own.1 matches Some(CombatStatEffectV1::ExchangePrintedCombatStat { stat }) && covers(stat, target)
}

/// Whether a live source of the owner imposes its printed `target` on the opposing card.
pub open spec fn imposes_printed(own: Fired, target: CombatStatAttributeV1) -> bool {
    ||| own.0 matches Some(CombatStatEffectV1::ImposePrintedCombatStat { stat }) && covers(stat, target)
    ||| own.1 matches Some(CombatStatEffectV1::ImposePrintedCombatStat { stat }) && covers(stat, target)
}

/// Whether a card's `target` takes the opposing printed value in the printed-stat phase: its
/// owner copies it, either side exchanges it, or the opposing side imposes it. Each control
/// reads printed values only, so their order does not matter.
pub open spec fn takes_opposing_printed(own: Fired, opposing: Fired, target: CombatStatAttributeV1) -> bool {
    copies_printed(own, target) || exchanges_printed(own, target) || exchanges_printed(opposing, target)
        || imposes_printed(opposing, target)
}

/// A selected card after the printed-stat phase, before any modifier.
pub open spec fn controlled(
    card: BaseRulesCardSpec,
    opposing_card: BaseRulesCardSpec,
    own: Fired,
    opposing: Fired,
) -> BaseRulesCardSpec {
    BaseRulesCardSpec {
        power: if takes_opposing_printed(own, opposing, CombatStatAttributeV1::Power) {
            opposing_card.power
        } else {
            card.power
        },
        damage: if takes_opposing_printed(own, opposing, CombatStatAttributeV1::Damage) {
            opposing_card.damage
        } else {
            card.damage
        },
        ..card
    }
}

/// What a source's scaled magnitude reads this round, for its owner: the anti-support count
/// (the opposing hand's characters of the opposing selected card's effective clan), the
/// completed rounds, the owner's round-start Life and Pillz, what the owner has lost of its
/// match-start Life and Pillz (never below zero), the opposing selected card's stars (its
/// level), and the opposing card's Power and Damage once the round's other modifiers have
/// landed, which are read only where `opposing_stats` holds.
#[derive(Clone, Copy)]
pub struct Scaling {
    pub anti: u16,
    pub rounds_played: u8,
    pub life: u16,
    pub pillz: u16,
    pub pillz_lost: u16,
    pub life_lost: u16,
    pub stars: u8,
    pub opposing_power: u64,
    pub opposing_damage: u64,
    pub opposing_stats: bool,
}

/// The factor a `Growth:` or `Degrowth:` magnitude scales by in the round after
/// `rounds_played` completed ones: the zero-based round plus one, or four less it.
pub open spec fn round_factor(scale: RoundScaleV1, rounds_played: u8) -> int {
    match scale {
        RoundScaleV1::Growth => rounds_played + 1,
        RoundScaleV1::Degrowth => if rounds_played < 4 {
            4 - rounds_played
        } else {
            0
        },
    }
}

/// The factor a combat-stat modifier's magnitude scales its printed value by; none for a
/// fixed magnitude, and none yet for an opposing-stat magnitude unless `opposing_stats`.
pub open spec fn factor(multiplier: CombatStatMagnitudeV1, support: u16, by: Scaling) -> Option<int> {
    match multiplier {
        CombatStatMagnitudeV1::Fixed => None,
        CombatStatMagnitudeV1::SourceBonusSupport => Some(support as int),
        CombatStatMagnitudeV1::Growth => Some(round_factor(RoundScaleV1::Growth, by.rounds_played)),
        CombatStatMagnitudeV1::Degrowth => Some(round_factor(RoundScaleV1::Degrowth, by.rounds_played)),
        CombatStatMagnitudeV1::AntiSupport => Some(by.anti as int),
        CombatStatMagnitudeV1::OwnerLife => Some(by.life as int),
        CombatStatMagnitudeV1::OwnerPillz => Some(by.pillz as int),
        CombatStatMagnitudeV1::OwnerPillzLost => Some(by.pillz_lost as int),
        CombatStatMagnitudeV1::OwnerLifeLost => Some(by.life_lost as int),
        CombatStatMagnitudeV1::OpponentStars => Some(by.stars as int),
        CombatStatMagnitudeV1::OpponentDamage => if by.opposing_stats {
            Some(by.opposing_damage as int)
        } else {
            None
        },
        CombatStatMagnitudeV1::OpponentPower => if by.opposing_stats {
            Some(by.opposing_power as int)
        } else {
            None
        },
    }
}

pub open spec fn fits(amount: int) -> bool {
    0 <= amount <= u16::MAX
}

/// A live source with its scaled magnitude bound: a scaled combat-stat modifier becomes the
/// fixed modifier of its printed value times its factor, and a `Support:`, `Brawl:`,
/// `Growth:`/`Degrowth:` or `Equalizer:` Victory grammar the plain Victory effect of its
/// printed amount times its count, round factor or the opposing stars. `None` where a bound
/// amount passes `u16`; every other source is itself.
pub open spec fn bind_effect(effect: Option<CombatStatEffectV1>, support: u16, by: Scaling) -> Option<
    Option<CombatStatEffectV1>,
> {
    match effect {
        Some(CombatStatEffectV1::ModifyCombatStat { side, stat, operation, value, minimum, maximum, multiplier }) => {
            match factor(multiplier, support, by) {
                None => Some(effect),
                Some(f) => if fits(value * f) {
                    Some(
                        Some(
                            CombatStatEffectV1::ModifyCombatStat {
                                side,
                                stat,
                                operation,
                                value: (value * f) as u16,
                                minimum,
                                maximum,
                                multiplier: CombatStatMagnitudeV1::Fixed,
                            },
                        ),
                    )
                } else {
                    None
                },
            }
        },
        Some(CombatStatEffectV1::ReduceOpponentLifeOnVictoryPerSupport { per_count, minimum }) => {
            let amount = per_count * (support as int);
            if fits(amount) {
                Some(Some(CombatStatEffectV1::ReduceOpponentLifeOnVictory { life: (amount as u16), minimum }))
            } else {
                None
            }
        },
        Some(CombatStatEffectV1::GainLifeOnVictoryPerSupport { per_count }) => {
            let amount = per_count * (support as int);
            if fits(amount) {
                Some(Some(CombatStatEffectV1::GainLifeOnVictory { life: (amount as u16) }))
            } else {
                None
            }
        },
        Some(CombatStatEffectV1::GainPillzOnVictoryPerSupport { per_count }) => {
            let amount = per_count * (support as int);
            if fits(amount) {
                Some(Some(CombatStatEffectV1::GainPillzOnVictory { pillz: (amount as u16) }))
            } else {
                None
            }
        },
        Some(CombatStatEffectV1::ReduceOpponentLifeOnVictoryPerAntiSupport { per_count, minimum }) => {
            let amount = per_count * (by.anti as int);
            if fits(amount) {
                Some(Some(CombatStatEffectV1::ReduceOpponentLifeOnVictory { life: (amount as u16), minimum }))
            } else {
                None
            }
        },
        Some(CombatStatEffectV1::ReduceOpponentPillzOnVictoryPerAntiSupport { per_count, minimum }) => {
            let amount = per_count * (by.anti as int);
            if fits(amount) {
                Some(Some(CombatStatEffectV1::ReduceOpponentPillzOnVictory { pillz: (amount as u16), minimum }))
            } else {
                None
            }
        },
        Some(CombatStatEffectV1::GainPillzOnVictoryPerAntiSupport { per_count, maximum }) => {
            let amount = per_count * (by.anti as int);
            if fits(amount) {
                Some(Some(if maximum == 0 { CombatStatEffectV1::GainPillzOnVictory { pillz: (amount as u16) } } else { CombatStatEffectV1::GainPillzOnVictoryMax { pillz: (amount as u16), maximum } }))
            } else {
                None
            }
        },
        Some(CombatStatEffectV1::ReduceOpponentLifeOnVictoryPerRound { per_round, minimum, scale }) => {
            let amount = per_round * (round_factor(scale, by.rounds_played));
            if fits(amount) {
                Some(Some(CombatStatEffectV1::ReduceOpponentLifeOnVictory { life: (amount as u16), minimum }))
            } else {
                None
            }
        },
        Some(CombatStatEffectV1::ReduceOpponentPillzOnVictoryPerRound { per_round, minimum, scale }) => {
            let amount = per_round * (round_factor(scale, by.rounds_played));
            if fits(amount) {
                Some(Some(CombatStatEffectV1::ReduceOpponentPillzOnVictory { pillz: (amount as u16), minimum }))
            } else {
                None
            }
        },
        Some(CombatStatEffectV1::GainLifeOnVictoryPerRound { per_round, scale }) => {
            let amount = per_round * (round_factor(scale, by.rounds_played));
            if fits(amount) {
                Some(Some(CombatStatEffectV1::GainLifeOnVictory { life: (amount as u16) }))
            } else {
                None
            }
        },
        Some(CombatStatEffectV1::GainPillzOnVictoryPerRound { per_round, scale }) => {
            let amount = per_round * (round_factor(scale, by.rounds_played));
            if fits(amount) {
                Some(Some(CombatStatEffectV1::GainPillzOnVictory { pillz: (amount as u16) }))
            } else {
                None
            }
        },
        Some(CombatStatEffectV1::ReduceOpponentLifeOnVictoryPerOpponentStars { per_star, minimum }) => {
            let amount = per_star * (by.stars as int);
            if fits(amount) {
                Some(Some(CombatStatEffectV1::ReduceOpponentLifeOnVictory { life: (amount as u16), minimum }))
            } else {
                None
            }
        },
        Some(CombatStatEffectV1::GainLifeOnVictoryPerOpponentStars { per_star }) => {
            let amount = per_star * (by.stars as int);
            if fits(amount) {
                Some(Some(CombatStatEffectV1::GainLifeOnVictory { life: (amount as u16) }))
            } else {
                None
            }
        },
        Some(CombatStatEffectV1::GainPillzOnVictoryPerOpponentStars { per_star }) => {
            let amount = per_star * (by.stars as int);
            if fits(amount) {
                Some(Some(CombatStatEffectV1::GainPillzOnVictory { pillz: (amount as u16) }))
            } else {
                None
            }
        },
        _ => Some(effect),
    }
}

/// A live source bound where its amount fits, and left as it is otherwise.
pub open spec fn kept(effect: Option<CombatStatEffectV1>, support: u16, by: Scaling) -> Option<
    CombatStatEffectV1,
> {
    match bind_effect(effect, support, by) {
        Some(e) => e,
        None => effect,
    }
}

/// An owner's live sources, each bound with its own Support count; `None` where an amount
/// passes `u16`.
pub open spec fn bound_sources(live: Fired, card: CombatStatCardPlanV1, by: Scaling) -> Option<Fired> {
    match bind_effect(live.0, card.source_ability_support_count, by) {
        None => None,
        Some(a) => match bind_effect(live.1, card.source_bonus_support_count, by) {
            None => None,
            Some(b) => Some((a, b)),
        },
    }
}

pub open spec fn kept_sources(live: Fired, card: CombatStatCardPlanV1, by: Scaling) -> Fired {
    (kept(live.0, card.source_ability_support_count, by), kept(live.1, card.source_bonus_support_count, by))
}

/// End-of-round work on Life alone.
pub open spec fn writes_life(w: PostRoundEffect) -> bool {
    w is GainLifeEqualToFinalDamageOnCourageVictory
    || w is GainLifeOnVictory
    || w is GainLifePerFinalDamageOnVictory
    || w is GainLifePerOpponentFinalDamageOnVictory
    || w is GainLifeOnDefeat
    || w is ReanimateLife
    || w is GainLifeOnVictoryOrDefeat
    || w is ReduceOpponentLifeOnVictoryOrDefeat
    || w is ReduceOpponentLifeOnVictory
    || w is ReduceOpponentLifeOnDefeat
    || w is ReduceOpponentLifeOnKillshot
    || w is GainLifeOnKillshot
    || w is GainLifePerFinalDamageOnVictoryOrDefeat
    || w is ReduceOwnLifeOnVictory
    || w is ReduceOwnLife
    || w is GainLifeOnDefeatMax
}

/// End-of-round work on Pillz alone.
pub open spec fn writes_pillz(w: PostRoundEffect) -> bool {
    w is RecoverPaidPillzOnDefeat
    || w is RecoverPaidPillzOnVictory
    || w is GainOnePillzOnVictoryOrDefeat
    || w is GainTwoPillzOnDefeatMaxEleven
    || w is GainPillzOnVictory
    || w is GainPillzOnVictoryMax
    || w is ReduceOpponentPillzOnVictory
    || w is ReduceOpponentPillzOnDefeat
    || w is GainPillzEqualToFinalDamageOnVictory
    || w is GainPillzOnDefeat
    || w is GainPillzOnKillshot
    || w is GainPillzOnVictoryOrDefeat
    || w is GainOpponentPillzOnDefeat
}

/// End-of-round work on both a Pillz and a Life.
pub open spec fn writes_pillz_and_life(w: PostRoundEffect) -> bool {
    w is GainOnePillzAndLifeOnVictory
    || w is GainPillzAndLifeOnKillshot
    || w is GainPillzAndLifeOnDefeat
    || w is GainPillzAndLifeOnVictory
    || w is ReduceOpponentPillzAndLifeOnVictory
}

/// Whether a cancel of `resources` drops `w`: Life and Pillz drop the work on that resource
/// alone, Pillz And Life drops both kinds and the compounds. The both-players and permanent
/// work is never dropped.
pub open spec fn dropped_by(w: PostRoundEffect, resources: ResourceCancellationV1) -> bool {
    match resources {
        ResourceCancellationV1::Life => writes_life(w),
        ResourceCancellationV1::Pillz => writes_pillz(w),
        ResourceCancellationV1::PillzAndLife => writes_life(w) || writes_pillz(w)
            || writes_pillz_and_life(w),
    }
}

/// Whether the opposing card's live sources cancel `w`.
pub open spec fn cancelled(w: PostRoundEffect, opposing: Fired) -> bool {
    ||| opposing.0 matches Some(CombatStatEffectV1::CancelOpponentResourceModifiers { resources })
        && dropped_by(w, resources)
    ||| opposing.1 matches Some(CombatStatEffectV1::CancelOpponentResourceModifiers { resources })
        && dropped_by(w, resources)
}

/// A bound live source's end-of-round work, unless the opposing card cancels it.
pub open spec fn work(effect: Option<CombatStatEffectV1>, opposing: Fired) -> Option<PostRoundEffect> {
    match effect {
        Some(e) => match post_round_of(e) {
            Some(w) => if cancelled(w, opposing) {
                None
            } else {
                Some(w)
            },
            None => None,
        },
        None => None,
    }
}

/// An owner's end-of-round work from its bound live sources.
pub open spec fn round_work(own: Fired, opposing: Fired) -> PostRoundPlan {
    PostRoundPlan { ability: work(own.0, opposing), bonus: work(own.1, opposing) }
}

// ---------------------------------------------------------------------------------------
// Executable pieces.

pub fn acting_effect(
    plan: CombatStatSourcePlanV1,
    opponent: CombatStatCardPlanV1,
    ctx: &PredicateContext,
) -> (r: Option<CombatStatEffectV1>)
    ensures
        r == acting(plan, opponent, *ctx),
{
    let adopted_plan = match plan {
        CombatStatSourcePlanV1::CopyOpponentSource { copied, predicate, .. } => if predicate_matches(
            predicate,
            ctx,
        ) {
            match copied {
                CopiedSourceKindV1::Ability => opponent.ability,
                CopiedSourceKindV1::Bonus => opponent.bonus,
            }
        } else {
            CombatStatSourcePlanV1::Absent
        },
        _ => plan,
    };
    source_active_effect(adopted_plan, ctx)
}

fn is_effect(e: Option<CombatStatEffectV1>, effect: CombatStatEffectV1) -> (r: bool)
    ensures
        r == (e == Some(effect)),
{
    match e {
        Some(x) => x == effect,
        None => false,
    }
}

pub fn fires_exec(effects: Fired, effect: CombatStatEffectV1) -> (r: bool)
    ensures
        r == fires(effects, effect),
{
    is_effect(effects.0, effect) || is_effect(effects.1, effect)
}

pub fn live_exec(own: Fired, opposing: Fired) -> (r: Fired)
    ensures
        r == live(own, opposing),
{
    let stop_ability = fires_exec(opposing, CombatStatEffectV1::StopOpponentAbility);
    let stop_bonus = fires_exec(opposing, CombatStatEffectV1::StopOpponentBonus);
    let ability_out = stop_ability && !(is_effect(own.1, CombatStatEffectV1::ProtectOwnAbility)
        && !stop_bonus);
    let bonus_out = stop_bonus && !(is_effect(own.0, CombatStatEffectV1::ProtectOwnBonus)
        && !stop_ability);
    (
        if ability_out {
            None
        } else {
            own.0
        },
        if bonus_out {
            None
        } else {
            own.1
        },
    )
}

pub fn tuned_out_exec(l1: Fired, l2: Fired) -> (r: bool)
    ensures
        r == tuned_out(l1, l2),
{
    fires_exec(l1, CombatStatEffectV1::SimplifyAttackToPillz) || fires_exec(
        l2,
        CombatStatEffectV1::SimplifyAttackToPillz,
    )
}

fn copies_printed_exec(own: Fired, target: CombatStatAttributeV1) -> (r: bool)
    ensures
        r == copies_printed(own, target),
{
    let a = match own.0 {
        Some(CombatStatEffectV1::CopyOpponentPrintedCombatStat { stat }) => covers_exec(stat, target),
        _ => false,
    };
    let b = match own.1 {
        Some(CombatStatEffectV1::CopyOpponentPrintedCombatStat { stat }) => covers_exec(stat, target),
        _ => false,
    };
    a || b
}

fn exchanges_printed_exec(own: Fired, target: CombatStatAttributeV1) -> (r: bool)
    ensures
        r == exchanges_printed(own, target),
{
    let a = match own.0 {
        Some(CombatStatEffectV1::ExchangePrintedCombatStat { stat }) => covers_exec(stat, target),
        _ => false,
    };
    let b = match own.1 {
        Some(CombatStatEffectV1::ExchangePrintedCombatStat { stat }) => covers_exec(stat, target),
        _ => false,
    };
    a || b
}

fn imposes_printed_exec(own: Fired, target: CombatStatAttributeV1) -> (r: bool)
    ensures
        r == imposes_printed(own, target),
{
    let a = match own.0 {
        Some(CombatStatEffectV1::ImposePrintedCombatStat { stat }) => covers_exec(stat, target),
        _ => false,
    };
    let b = match own.1 {
        Some(CombatStatEffectV1::ImposePrintedCombatStat { stat }) => covers_exec(stat, target),
        _ => false,
    };
    a || b
}

fn takes_exec(own: Fired, opposing: Fired, target: CombatStatAttributeV1) -> (r: bool)
    ensures
        r == takes_opposing_printed(own, opposing, target),
{
    copies_printed_exec(own, target) || exchanges_printed_exec(own, target) || exchanges_printed_exec(
        opposing,
        target,
    ) || imposes_printed_exec(opposing, target)
}

pub fn controlled_exec(
    card: BaseRulesCardSpec,
    opposing_card: BaseRulesCardSpec,
    own: Fired,
    opposing: Fired,
) -> (r: BaseRulesCardSpec)
    ensures
        r == controlled(card, opposing_card, own, opposing),
{
    BaseRulesCardSpec {
        power: if takes_exec(own, opposing, CombatStatAttributeV1::Power) {
            opposing_card.power
        } else {
            card.power
        },
        damage: if takes_exec(own, opposing, CombatStatAttributeV1::Damage) {
            opposing_card.damage
        } else {
            card.damage
        },
        ..card
    }
}

fn round_factor_exec(scale: RoundScaleV1, rounds_played: u8) -> (r: u64)
    ensures
        r == round_factor(scale, rounds_played),
{
    match scale {
        RoundScaleV1::Growth => rounds_played as u64 + 1,
        RoundScaleV1::Degrowth => if rounds_played < 4 {
            4 - rounds_played as u64
        } else {
            0
        },
    }
}

fn factor_exec(multiplier: CombatStatMagnitudeV1, support: u16, by: Scaling) -> (r: Option<u64>)
    ensures
        r matches Some(f) ==> factor(multiplier, support, by) == Some(f as int),
        r is None ==> factor(multiplier, support, by) is None,
{
    match multiplier {
        CombatStatMagnitudeV1::Fixed => None,
        CombatStatMagnitudeV1::SourceBonusSupport => Some(support as u64),
        CombatStatMagnitudeV1::Growth => Some(round_factor_exec(RoundScaleV1::Growth, by.rounds_played)),
        CombatStatMagnitudeV1::Degrowth => Some(
            round_factor_exec(RoundScaleV1::Degrowth, by.rounds_played),
        ),
        CombatStatMagnitudeV1::AntiSupport => Some(by.anti as u64),
        CombatStatMagnitudeV1::OwnerLife => Some(by.life as u64),
        CombatStatMagnitudeV1::OwnerPillz => Some(by.pillz as u64),
        CombatStatMagnitudeV1::OwnerPillzLost => Some(by.pillz_lost as u64),
        CombatStatMagnitudeV1::OwnerLifeLost => Some(by.life_lost as u64),
        CombatStatMagnitudeV1::OpponentStars => Some(by.stars as u64),
        CombatStatMagnitudeV1::OpponentDamage => if by.opposing_stats {
            Some(by.opposing_damage)
        } else {
            None
        },
        CombatStatMagnitudeV1::OpponentPower => if by.opposing_stats {
            Some(by.opposing_power)
        } else {
            None
        },
    }
}

/// `per * f` where it fits a `u16`.
fn scaled_amount(per: u16, f: u64) -> (r: Option<u16>)
    ensures
        r matches Some(a) ==> fits(per * f) && a == per * f,
        r is None ==> !fits(per * f),
{
    if per == 0 {
        return Some(0);
    }
    if f > 0xffff {
        assert(per * f > 0xffff) by (nonlinear_arith)
            requires
                per >= 1,
                f > 0xffff,
        ;
        return None;
    }
    assert(per as u64 * f <= 0xffff * 0xffff) by (nonlinear_arith)
        requires
            per <= 0xffff,
            f <= 0xffff,
    ;
    let product: u64 = per as u64 * f;
    if product <= 0xffff {
        Some(product as u16)
    } else {
        None
    }
}

pub fn bind_effect_exec(effect: Option<CombatStatEffectV1>, support: u16, by: Scaling) -> (r: Option<
    Option<CombatStatEffectV1>,
>)
    ensures
        r == bind_effect(effect, support, by),
{
    match effect {
        Some(CombatStatEffectV1::ModifyCombatStat { side, stat, operation, value, minimum, maximum, multiplier }) => {
            match factor_exec(multiplier, support, by) {
                None => Some(effect),
                Some(f) => match scaled_amount(value, f) {
                    Some(v) => Some(
                        Some(
                            CombatStatEffectV1::ModifyCombatStat {
                                side,
                                stat,
                                operation,
                                value: v,
                                minimum,
                                maximum,
                                multiplier: CombatStatMagnitudeV1::Fixed,
                            },
                        ),
                    ),
                    None => None,
                },
            }
        },
        Some(CombatStatEffectV1::ReduceOpponentLifeOnVictoryPerSupport { per_count, minimum }) => match scaled_amount(per_count, support as u64) {
            Some(a) => Some(Some(CombatStatEffectV1::ReduceOpponentLifeOnVictory { life: a, minimum })),
            None => None,
        },
        Some(CombatStatEffectV1::GainLifeOnVictoryPerSupport { per_count }) => match scaled_amount(per_count, support as u64) {
            Some(a) => Some(Some(CombatStatEffectV1::GainLifeOnVictory { life: a })),
            None => None,
        },
        Some(CombatStatEffectV1::GainPillzOnVictoryPerSupport { per_count }) => match scaled_amount(per_count, support as u64) {
            Some(a) => Some(Some(CombatStatEffectV1::GainPillzOnVictory { pillz: a })),
            None => None,
        },
        Some(CombatStatEffectV1::ReduceOpponentLifeOnVictoryPerAntiSupport { per_count, minimum }) => match scaled_amount(per_count, by.anti as u64) {
            Some(a) => Some(Some(CombatStatEffectV1::ReduceOpponentLifeOnVictory { life: a, minimum })),
            None => None,
        },
        Some(CombatStatEffectV1::ReduceOpponentPillzOnVictoryPerAntiSupport { per_count, minimum }) => match scaled_amount(per_count, by.anti as u64) {
            Some(a) => Some(Some(CombatStatEffectV1::ReduceOpponentPillzOnVictory { pillz: a, minimum })),
            None => None,
        },
        Some(CombatStatEffectV1::GainPillzOnVictoryPerAntiSupport { per_count, maximum }) => match scaled_amount(per_count, by.anti as u64) {
            Some(a) => Some(Some(if maximum == 0 { CombatStatEffectV1::GainPillzOnVictory { pillz: a } } else { CombatStatEffectV1::GainPillzOnVictoryMax { pillz: a, maximum } })),
            None => None,
        },
        Some(CombatStatEffectV1::ReduceOpponentLifeOnVictoryPerRound { per_round, minimum, scale }) => match scaled_amount(per_round, round_factor_exec(scale, by.rounds_played)) {
            Some(a) => Some(Some(CombatStatEffectV1::ReduceOpponentLifeOnVictory { life: a, minimum })),
            None => None,
        },
        Some(CombatStatEffectV1::ReduceOpponentPillzOnVictoryPerRound { per_round, minimum, scale }) => match scaled_amount(per_round, round_factor_exec(scale, by.rounds_played)) {
            Some(a) => Some(Some(CombatStatEffectV1::ReduceOpponentPillzOnVictory { pillz: a, minimum })),
            None => None,
        },
        Some(CombatStatEffectV1::GainLifeOnVictoryPerRound { per_round, scale }) => match scaled_amount(per_round, round_factor_exec(scale, by.rounds_played)) {
            Some(a) => Some(Some(CombatStatEffectV1::GainLifeOnVictory { life: a })),
            None => None,
        },
        Some(CombatStatEffectV1::GainPillzOnVictoryPerRound { per_round, scale }) => match scaled_amount(per_round, round_factor_exec(scale, by.rounds_played)) {
            Some(a) => Some(Some(CombatStatEffectV1::GainPillzOnVictory { pillz: a })),
            None => None,
        },
        Some(CombatStatEffectV1::ReduceOpponentLifeOnVictoryPerOpponentStars { per_star, minimum }) => match scaled_amount(per_star, by.stars as u64) {
            Some(a) => Some(Some(CombatStatEffectV1::ReduceOpponentLifeOnVictory { life: a, minimum })),
            None => None,
        },
        Some(CombatStatEffectV1::GainLifeOnVictoryPerOpponentStars { per_star }) => match scaled_amount(per_star, by.stars as u64) {
            Some(a) => Some(Some(CombatStatEffectV1::GainLifeOnVictory { life: a })),
            None => None,
        },
        Some(CombatStatEffectV1::GainPillzOnVictoryPerOpponentStars { per_star }) => match scaled_amount(per_star, by.stars as u64) {
            Some(a) => Some(Some(CombatStatEffectV1::GainPillzOnVictory { pillz: a })),
            None => None,
        },
        _ => Some(effect),
    }
}

pub fn bound_sources_exec(live: Fired, card: CombatStatCardPlanV1, by: Scaling) -> (r: Option<Fired>)
    ensures
        r == bound_sources(live, card, by),
{
    match bind_effect_exec(live.0, card.source_ability_support_count, by) {
        None => None,
        Some(a) => match bind_effect_exec(live.1, card.source_bonus_support_count, by) {
            None => None,
            Some(b) => Some((a, b)),
        },
    }
}

pub fn kept_sources_exec(live: Fired, card: CombatStatCardPlanV1, by: Scaling) -> (r: Fired)
    ensures
        r == kept_sources(live, card, by),
{
    let a = match bind_effect_exec(live.0, card.source_ability_support_count, by) {
        Some(e) => e,
        None => live.0,
    };
    let b = match bind_effect_exec(live.1, card.source_bonus_support_count, by) {
        Some(e) => e,
        None => live.1,
    };
    (a, b)
}

fn writes_life_exec(w: PostRoundEffect) -> (r: bool)
    ensures
        r == writes_life(w),
{
    match w {
        PostRoundEffect::GainLifeEqualToFinalDamageOnCourageVictory
        | PostRoundEffect::GainLifeOnVictory(_)
        | PostRoundEffect::GainLifePerFinalDamageOnVictory { .. }
        | PostRoundEffect::GainLifePerOpponentFinalDamageOnVictory { .. }
        | PostRoundEffect::GainLifeOnDefeat(_)
        | PostRoundEffect::ReanimateLife(_)
        | PostRoundEffect::GainLifeOnVictoryOrDefeat { .. }
        | PostRoundEffect::ReduceOpponentLifeOnVictoryOrDefeat { .. }
        | PostRoundEffect::ReduceOpponentLifeOnVictory { .. }
        | PostRoundEffect::ReduceOpponentLifeOnDefeat { .. }
        | PostRoundEffect::ReduceOpponentLifeOnKillshot { .. }
        | PostRoundEffect::GainLifeOnKillshot { .. }
        | PostRoundEffect::GainLifePerFinalDamageOnVictoryOrDefeat { .. }
        | PostRoundEffect::ReduceOwnLifeOnVictory { .. }
        | PostRoundEffect::ReduceOwnLife { .. }
        | PostRoundEffect::GainLifeOnDefeatMax { .. } => true,
        _ => false,
    }
}

fn writes_pillz_exec(w: PostRoundEffect) -> (r: bool)
    ensures
        r == writes_pillz(w),
{
    match w {
        PostRoundEffect::RecoverPaidPillzOnDefeat { .. }
        | PostRoundEffect::RecoverPaidPillzOnVictory { .. }
        | PostRoundEffect::GainOnePillzOnVictoryOrDefeat
        | PostRoundEffect::GainTwoPillzOnDefeatMaxEleven
        | PostRoundEffect::GainPillzOnVictory(_)
        | PostRoundEffect::GainPillzOnVictoryMax { .. }
        | PostRoundEffect::ReduceOpponentPillzOnVictory { .. }
        | PostRoundEffect::ReduceOpponentPillzOnDefeat { .. }
        | PostRoundEffect::GainPillzEqualToFinalDamageOnVictory
        | PostRoundEffect::GainPillzOnDefeat(_)
        | PostRoundEffect::GainPillzOnKillshot(_)
        | PostRoundEffect::GainPillzOnVictoryOrDefeat(_)
        | PostRoundEffect::GainOpponentPillzOnDefeat(_) => true,
        _ => false,
    }
}

fn writes_pillz_and_life_exec(w: PostRoundEffect) -> (r: bool)
    ensures
        r == writes_pillz_and_life(w),
{
    match w {
        PostRoundEffect::GainOnePillzAndLifeOnVictory
        | PostRoundEffect::GainPillzAndLifeOnKillshot { .. }
        | PostRoundEffect::GainPillzAndLifeOnDefeat(_)
        | PostRoundEffect::GainPillzAndLifeOnVictory(_)
        | PostRoundEffect::ReduceOpponentPillzAndLifeOnVictory { .. } => true,
        _ => false,
    }
}

fn dropped_by_exec(w: PostRoundEffect, resources: ResourceCancellationV1) -> (r: bool)
    ensures
        r == dropped_by(w, resources),
{
    match resources {
        ResourceCancellationV1::Life => writes_life_exec(w),
        ResourceCancellationV1::Pillz => writes_pillz_exec(w),
        ResourceCancellationV1::PillzAndLife => writes_life_exec(w) || writes_pillz_exec(w)
            || writes_pillz_and_life_exec(w),
    }
}

fn cancelled_exec(w: PostRoundEffect, opposing: Fired) -> (r: bool)
    ensures
        r == cancelled(w, opposing),
{
    let a = match opposing.0 {
        Some(CombatStatEffectV1::CancelOpponentResourceModifiers { resources }) => dropped_by_exec(
            w,
            resources,
        ),
        _ => false,
    };
    let b = match opposing.1 {
        Some(CombatStatEffectV1::CancelOpponentResourceModifiers { resources }) => dropped_by_exec(
            w,
            resources,
        ),
        _ => false,
    };
    a || b
}

fn work_exec(effect: Option<CombatStatEffectV1>, opposing: Fired) -> (r: Option<PostRoundEffect>)
    ensures
        r == work(effect, opposing),
{
    match effect {
        Some(e) => match post_round_effect_of(e) {
            Some(w) => if cancelled_exec(w, opposing) {
                None
            } else {
                Some(w)
            },
            None => None,
        },
        None => None,
    }
}

pub fn round_work_exec(own: Fired, opposing: Fired) -> (r: PostRoundPlan)
    ensures
        r == round_work(own, opposing),
{
    PostRoundPlan { ability: work_exec(own.0, opposing), bonus: work_exec(own.1, opposing) }
}

} // verus!
