//! Fixed combat-stat modifiers on the two selected cards. Each card takes its owner's own
//! modifiers first (a one-side own increase, or the own half of a `Cards` modifier; ability
//! before bonus), then the opposing ones (a one-side opposing cut, or the opposing half of a
//! `Cards` modifier). A cut with a floor leaves a value already at or under the floor alone
//! and takes any other value no lower than the floor; an increase with a cap likewise leaves
//! a value at or over the cap alone and raises any other no higher than the cap. An owner's
//! Protection of a stat refuses the opposing cuts of it, and a live `Cancel Opp. X Modif.`
//! drops every modifier of that stat the opposing card's sources make.

use super::combat_stat_types::{
    CombatStatAffectedSideV1, CombatStatArithmeticStageV1, CombatStatAttributeV1,
    CombatStatDiagnosticErrorV1, CombatStatEffectV1, CombatStatMagnitudeV1, CombatStatOperationV1,
};
use super::round::{prepare_base_rules_selection, prepare_spec, PreparedSelection, ValidatedSelection};
use super::{BaseRulesCardResult, BaseRulesCardSpec, BaseRulesError, PlayerId};
use vstd::prelude::*;

verus! {

/// The effects a selected card's ability and bonus bring to the round.
pub type Fired = (Option<CombatStatEffectV1>, Option<CombatStatEffectV1>);

/// Whether a modifier of `stat` changes `target`.
pub open spec fn covers(stat: CombatStatAttributeV1, target: CombatStatAttributeV1) -> bool {
    stat == target || (stat == CombatStatAttributeV1::PowerAndDamage && (target
        == CombatStatAttributeV1::Power || target == CombatStatAttributeV1::Damage))
}

/// One change a modifier makes: its operation, amount, floor and cap.
pub type Step = (CombatStatOperationV1, u16, Option<u16>, Option<u16>);

/// The change a fixed modifier makes to `target`: on its owner's card, or on the opposing card
/// where `opposing` holds.
pub open spec fn half(
    effect: Option<CombatStatEffectV1>,
    target: CombatStatAttributeV1,
    opposing: bool,
) -> Option<Step> {
    match effect {
        Some(CombatStatEffectV1::ModifyCombatStat { side, stat, operation, value, minimum, maximum, multiplier }) => {
            let lands = side == CombatStatAffectedSideV1::Both || (if opposing {
                side == CombatStatAffectedSideV1::Opponent
            } else {
                side == CombatStatAffectedSideV1::Player
            });
            if multiplier == CombatStatMagnitudeV1::Fixed && covers(stat, target) && lands {
                Some((operation, value, minimum, maximum))
            } else {
                None
            }
        },
        _ => None,
    }
}

/// `value` after one change; a `protected` value refuses cuts.
pub open spec fn changed(value: int, change: Option<Step>, protected: bool) -> int {
    match change {
        None => value,
        Some((operation, amount, minimum, maximum)) => if operation
            == CombatStatOperationV1::Increase {
            match maximum {
                None => value + amount,
                Some(cap) => if value >= cap {
                    value
                } else if value + amount > cap {
                    cap as int
                } else {
                    value + amount
                },
            }
        } else if protected {
            value
        } else {
            let floor: int = match minimum {
                Some(f) => f as int,
                None => 0,
            };
            if value <= floor {
                value
            } else if value - amount < floor {
                floor
            } else {
                value - amount
            }
        },
    }
}

/// Whether a player's live sources cancel the opposing card's modifiers of `target`.
pub open spec fn cancels(own: Fired, target: CombatStatAttributeV1) -> bool {
    ||| own.0 matches Some(CombatStatEffectV1::CancelOpponentCombatStatModifiers { stat })
        && covers(stat, target)
    ||| own.1 matches Some(CombatStatEffectV1::CancelOpponentCombatStatModifiers { stat })
        && covers(stat, target)
}

/// Whether an owner's live sources protect `target` from opposing cuts.
pub open spec fn protects(own: Fired, target: CombatStatAttributeV1) -> bool {
    ||| own.0 matches Some(CombatStatEffectV1::ProtectOwnCombatStat { stat }) && covers(stat, target)
    ||| own.1 matches Some(CombatStatEffectV1::ProtectOwnCombatStat { stat }) && covers(stat, target)
}

/// `target` of a card after the round's fixed modifiers: its owner's, ability then bonus,
/// then the opposing ones, each set dropped where the other side cancels it.
pub open spec fn modified(
    value: int,
    own: Fired,
    opposing: Fired,
    target: CombatStatAttributeV1,
) -> int {
    let p = protects(own, target);
    let after_own = if cancels(opposing, target) {
        value
    } else {
        changed(changed(value, half(own.0, target, false), false), half(own.1, target, false), false)
    };
    if cancels(own, target) {
        after_own
    } else {
        changed(changed(after_own, half(opposing.0, target, true), p), half(opposing.1, target, true), p)
    }
}

pub open spec fn overflow(player: PlayerId, stage: CombatStatArithmeticStageV1) -> CombatStatDiagnosticErrorV1 {
    CombatStatDiagnosticErrorV1::ArithmeticOverflow { player, stage }
}

/// A base-rules resolution failure as the diagnostic reports it.
pub open spec fn resolution_error(e: BaseRulesError) -> CombatStatDiagnosticErrorV1 {
    match e {
        BaseRulesError::AttackOverflow { player } => overflow(player, CombatStatArithmeticStageV1::Attack),
        BaseRulesError::DamageOverflow { player } => overflow(player, CombatStatArithmeticStageV1::Damage),
        other => CombatStatDiagnosticErrorV1::BaseRules(other),
    }
}

/// A selected card resolved under the round's modifiers: Power and Damage modified (Power is
/// 1 under `Tune Out`), Attack as Power times the Pillz placed, then Attack modified unless
/// `Tune Out` holds, which ignores every Attack modifier.
pub open spec fn prepared_spec(
    player: PlayerId,
    selected: ValidatedSelection,
    own: Fired,
    opposing: Fired,
    tune_out: bool,
) -> Result<PreparedSelection, CombatStatDiagnosticErrorV1> {
    let power = if tune_out {
        1
    } else {
        modified(selected.card.power as int, own, opposing, CombatStatAttributeV1::Power)
    };
    let damage = modified(selected.card.damage as int, own, opposing, CombatStatAttributeV1::Damage);
    if power > u16::MAX {
        Err(overflow(player, CombatStatArithmeticStageV1::Power))
    } else if damage > u16::MAX {
        Err(overflow(player, CombatStatArithmeticStageV1::Damage))
    } else {
        let card = BaseRulesCardSpec { power: power as u16, damage: damage as u16, ..selected.card };
        match prepare_spec(player, ValidatedSelection { card, ..selected }) {
            Err(e) => Err(resolution_error(e)),
            Ok(p) => {
                let attack = if tune_out {
                    p.result.attack as int
                } else {
                    modified(p.result.attack as int, own, opposing, CombatStatAttributeV1::Attack)
                };
                if attack > u32::MAX {
                    Err(overflow(player, CombatStatArithmeticStageV1::Attack))
                } else {
                    Ok(
                        PreparedSelection {
                            result: BaseRulesCardResult { attack: attack as u32, ..p.result },
                            ..p
                        },
                    )
                }
            },
        }
    }
}

// ---------------------------------------------------------------------------------------
// Executable pieces.

pub fn covers_exec(stat: CombatStatAttributeV1, target: CombatStatAttributeV1) -> (r: bool)
    ensures
        r == covers(stat, target),
{
    stat == target || (stat == CombatStatAttributeV1::PowerAndDamage && (target
        == CombatStatAttributeV1::Power || target == CombatStatAttributeV1::Damage))
}

fn half_of(effect: Option<CombatStatEffectV1>, target: CombatStatAttributeV1, opposing: bool) -> (r:
    Option<Step>)
    ensures
        r == half(effect, target, opposing),
{
    match effect {
        Some(CombatStatEffectV1::ModifyCombatStat { side, stat, operation, value, minimum, maximum, multiplier }) => {
            let lands = side == CombatStatAffectedSideV1::Both || (if opposing {
                side == CombatStatAffectedSideV1::Opponent
            } else {
                side == CombatStatAffectedSideV1::Player
            });
            if multiplier == CombatStatMagnitudeV1::Fixed && covers_exec(stat, target) && lands {
                Some((operation, value, minimum, maximum))
            } else {
                None
            }
        },
        _ => None,
    }
}

fn change(value: u64, step: Option<Step>, protected: bool) -> (r: u64)
    requires
        value <= 0x1_0000_0000_0000,
    ensures
        r == changed(value as int, step, protected),
        r <= value + 0xffff,
{
    match step {
        None => value,
        Some((operation, amount, minimum, maximum)) => if operation
            == CombatStatOperationV1::Increase {
            match maximum {
                None => value + amount as u64,
                Some(cap) => if value >= cap as u64 {
                    value
                } else if value + amount as u64 > cap as u64 {
                    cap as u64
                } else {
                    value + amount as u64
                },
            }
        } else if protected {
            value
        } else {
            let floor: u64 = match minimum {
                Some(f) => f as u64,
                None => 0,
            };
            if value <= floor {
                value
            } else if value < floor + amount as u64 {
                floor
            } else {
                value - amount as u64
            }
        },
    }
}

fn cancels_exec(own: Fired, target: CombatStatAttributeV1) -> (r: bool)
    ensures
        r == cancels(own, target),
{
    let first = match own.0 {
        Some(CombatStatEffectV1::CancelOpponentCombatStatModifiers { stat }) => covers_exec(stat, target),
        _ => false,
    };
    let second = match own.1 {
        Some(CombatStatEffectV1::CancelOpponentCombatStatModifiers { stat }) => covers_exec(stat, target),
        _ => false,
    };
    first || second
}

fn protects_exec(own: Fired, target: CombatStatAttributeV1) -> (r: bool)
    ensures
        r == protects(own, target),
{
    let first = match own.0 {
        Some(CombatStatEffectV1::ProtectOwnCombatStat { stat }) => covers_exec(stat, target),
        _ => false,
    };
    let second = match own.1 {
        Some(CombatStatEffectV1::ProtectOwnCombatStat { stat }) => covers_exec(stat, target),
        _ => false,
    };
    first || second
}

pub fn modify(value: u64, own: Fired, opposing: Fired, target: CombatStatAttributeV1) -> (r: u64)
    requires
        value <= 0x1_0000_0000,
    ensures
        r == modified(value as int, own, opposing, target),
        r <= value + 0x4_0000,
{
    let p = protects_exec(own, target);
    let b = if cancels_exec(opposing, target) {
        value
    } else {
        let a = change(value, half_of(own.0, target, false), false);
        change(a, half_of(own.1, target, false), false)
    };
    if cancels_exec(own, target) {
        b
    } else {
        let c = change(b, half_of(opposing.0, target, true), p);
        change(c, half_of(opposing.1, target, true), p)
    }
}

fn map_resolution_error(e: BaseRulesError) -> (r: CombatStatDiagnosticErrorV1)
    ensures
        r == resolution_error(e),
{
    match e {
        BaseRulesError::AttackOverflow { player } => CombatStatDiagnosticErrorV1::ArithmeticOverflow {
            player,
            stage: CombatStatArithmeticStageV1::Attack,
        },
        BaseRulesError::DamageOverflow { player } => CombatStatDiagnosticErrorV1::ArithmeticOverflow {
            player,
            stage: CombatStatArithmeticStageV1::Damage,
        },
        other => CombatStatDiagnosticErrorV1::BaseRules(other),
    }
}

/// Resolve a selected card under the round's modifiers.
pub fn prepare_modified(
    player: PlayerId,
    selected: ValidatedSelection,
    own: Fired,
    opposing: Fired,
    tune_out: bool,
) -> (r: Result<PreparedSelection, CombatStatDiagnosticErrorV1>)
    ensures
        r == prepared_spec(player, selected, own, opposing, tune_out),
        r matches Ok(p) ==> p.cost == selected.cost && p.slot == selected.slot,
{
    let power: u64 = if tune_out {
        1
    } else {
        modify(selected.card.power as u64, own, opposing, CombatStatAttributeV1::Power)
    };
    let damage = modify(selected.card.damage as u64, own, opposing, CombatStatAttributeV1::Damage);
    if power > u16::MAX as u64 {
        return Err(
            CombatStatDiagnosticErrorV1::ArithmeticOverflow {
                player,
                stage: CombatStatArithmeticStageV1::Power,
            },
        );
    }
    if damage > u16::MAX as u64 {
        return Err(
            CombatStatDiagnosticErrorV1::ArithmeticOverflow {
                player,
                stage: CombatStatArithmeticStageV1::Damage,
            },
        );
    }
    let card = BaseRulesCardSpec { power: power as u16, damage: damage as u16, ..selected.card };
    let p = match prepare_base_rules_selection(player, ValidatedSelection { card, ..selected }) {
        Ok(p) => p,
        Err(e) => return Err(map_resolution_error(e)),
    };
    let attack: u64 = if tune_out {
        p.result.attack as u64
    } else {
        modify(p.result.attack as u64, own, opposing, CombatStatAttributeV1::Attack)
    };
    if attack > u32::MAX as u64 {
        return Err(
            CombatStatDiagnosticErrorV1::ArithmeticOverflow {
                player,
                stage: CombatStatArithmeticStageV1::Attack,
            },
        );
    }
    Ok(PreparedSelection { result: BaseRulesCardResult { attack: attack as u32, ..p.result }, ..p })
}

} // verus!
