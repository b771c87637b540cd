//! End-of-round work: the typed effects an admitted projection hands to the commit, their
//! arithmetic, and the repeat of latched permanents.

use super::{
    BaseRulesError, BaseRulesPlayerState, BaseRulesPosition, ByPlayer, LatchedEffectV1,
    LatchedEffectsV1, PlayerId,
};
use vstd::prelude::*;

verus! {

/// Typed post-round work produced by an admitted projection, clan bonus first. Ordinary
/// base rules supply none.
#[derive(Clone, Copy, Debug, PartialEq, Eq)]
pub struct PostRoundPlan {
    pub ability: Option<PostRoundEffect>,
    pub bonus: Option<PostRoundEffect>,
}

impl PostRoundPlan {
    pub open spec fn spec_none() -> PostRoundPlan {
        PostRoundPlan { ability: None, bonus: None }
    }

    pub fn none() -> (r: PostRoundPlan)
        ensures
            r == PostRoundPlan::spec_none(),
    {
        PostRoundPlan { ability: None, bonus: None }
    }
}

/// One end-of-round effect with its magnitude already bound.
#[derive(Clone, Copy, Debug, PartialEq, Eq)]
pub enum PostRoundEffect {
    /// The loser recovers `max(1, floor((paid + 1) * N / M))` of the Pillz placed on its
    /// card, `paid` including Fury's three.
    RecoverPaidPillzOnDefeat { numerator: u16, denominator: u16 },
    /// The same recovery for the winner.
    RecoverPaidPillzOnVictory { numerator: u16, denominator: u16 },
    GainOnePillzOnVictoryOrDefeat,
    /// A living winner gains one Pillz and then one Life.
    GainOnePillzAndLifeOnVictory,
    /// A surviving loser below eleven Pillz gains two, never past eleven.
    GainTwoPillzOnDefeatMaxEleven,
    /// A living winner that moved first gains its card's final Damage as Life.
    GainLifeEqualToFinalDamageOnCourageVictory,
    GainLifeOnVictory(u16),
    /// A living winner's own Pillz rise by the amount.
    GainPillzOnVictory(u16),
    /// A living winner's own Pillz rise by `pillz`, never past `maximum`; an owner already
    /// at or above it gains nothing.
    GainPillzOnVictoryMax { pillz: u16, maximum: u16 },
    /// The winner takes `pillz` from the opposing Pillz, never below `minimum`; a target at
    /// or below `minimum` is left alone.
    ReduceOpponentPillzOnVictory { pillz: u16, minimum: u16 },
    /// The loser takes `pillz` from the opposing Pillz under the same clamp.
    ReduceOpponentPillzOnDefeat { pillz: u16, minimum: u16 },
    /// A living winner's Pillz rise by its card's final Damage.
    GainPillzEqualToFinalDamageOnVictory,
    /// A living winner's Life rises by `life_per_damage` per point of its final Damage,
    /// never past `maximum` when that is non-zero.
    GainLifePerFinalDamageOnVictory { life_per_damage: u16, maximum: u16 },
    /// A living winner's Life rises by `life_per_damage` per point of the losing card's
    /// final Damage.
    GainLifePerOpponentFinalDamageOnVictory { life_per_damage: u16 },
    GainLifeOnDefeat(u16),
    /// Revives its losing owner: applied after damage, before status.
    ReanimateLife(u16),
    GainLifeOnVictoryOrDefeat { life: u16 },
    ReduceOpponentLifeOnVictoryOrDefeat { life: u16, minimum: u16 },
    ReduceOpponentLifeOnVictory { life: u16, minimum: u16 },
    ReduceOpponentLifeOnDefeat { life: u16, minimum: u16 },
    /// Paid when the owner's final attack is at least double the opposing one, whoever
    /// won the round.
    ReduceOpponentLifeOnKillshot { life: u16, minimum: u16 },
    /// Both players lose `life`, neither below `minimum`, whatever the outcome.
    ReduceBothPlayersLife { life: u16, minimum: u16 },
    /// Latches a permanent into the winner's position.
    LatchOnVictory(LatchedEffectV1),
    /// Latches a permanent into the loser's position.
    LatchOnDefeat(LatchedEffectV1),
    /// Latches a permanent when the owner's final attack doubles the opposing one.
    LatchOnKillshot(LatchedEffectV1),
    /// On the Killshot ratio, a living owner gains N Pillz and then N Life.
    GainPillzAndLifeOnKillshot { amount: u16 },
    /// On the Killshot ratio, a living owner gains N Pillz.
    GainPillzOnKillshot(u16),
    /// On the Killshot ratio, a living owner gains `life`, never past `maximum` when that
    /// is non-zero; an owner at or past it gains nothing.
    GainLifeOnKillshot { life: u16, maximum: u16 },
    /// A living loser gains N Pillz.
    GainPillzOnDefeat(u16),
    /// A living loser gains N Pillz and then N Life.
    GainPillzAndLifeOnDefeat(u16),
    /// A living winner gains N Pillz and then N Life.
    GainPillzAndLifeOnVictory(u16),
    /// The owner gains N Pillz whatever the outcome, a knocked-out owner included.
    GainPillzOnVictoryOrDefeat(u16),
    /// A living owner gains `life_per_damage` Life per point of its own final Damage,
    /// whatever the outcome.
    GainLifePerFinalDamageOnVictoryOrDefeat { life_per_damage: u16 },
    /// The winner takes `amount` from the opposing Pillz and then from the opposing Life,
    /// each only while above `minimum` and never below it.
    ReduceOpponentPillzAndLifeOnVictory { amount: u16, minimum: u16 },
    /// Each living player, owner first, gains N Life whatever the outcome.
    GainBothPlayersLifeOnVictoryOrDefeat(u16),
    /// Both players, owner first, gain N Pillz whatever the outcome.
    GainBothPlayersPillzOnVictoryOrDefeat(u16),
    /// Backlash: a winning owner's own Life falls by `life` while above `minimum`, never
    /// below it.
    ReduceOwnLifeOnVictory { life: u16, minimum: u16 },
    /// Corrupt: whatever the outcome, the owner's own Life falls by `life` while above
    /// `minimum`, never below it.
    ReduceOwnLife { life: u16, minimum: u16 },
    /// A living loser below `maximum` gains `life`, never past `maximum`.
    GainLifeOnDefeatMax { life: u16, maximum: u16 },
    /// A losing owner gives the opposing player N Pillz, knocked out or not.
    GainOpponentPillzOnDefeat(u16),
}

impl PostRoundEffect {
    /// The recovery ratios are the only effects that divide.
    pub open spec fn well_formed(self) -> bool {
        match self {
            PostRoundEffect::RecoverPaidPillzOnDefeat { denominator, .. }
            | PostRoundEffect::RecoverPaidPillzOnVictory { denominator, .. } => denominator > 0,
            _ => true,
        }
    }
}

/// Whether a plan's effects are all well formed.
pub open spec fn plan_well_formed(plan: PostRoundPlan) -> bool {
    &&& (plan.ability matches Some(e) ==> e.well_formed())
    &&& (plan.bonus matches Some(e) ==> e.well_formed())
}

/// What the resolved round tells the end-of-round work.
#[derive(Clone, Copy, Debug, PartialEq, Eq)]
pub struct PostRoundContext {
    pub winner: PlayerId,
    pub first_mover: PlayerId,
    /// Final resolved Damage of each selected card, Fury included.
    pub damage: ByPlayer<u16>,
    /// Final resolved Attack of each selected card.
    pub attack: ByPlayer<u32>,
    /// Pillz each player paid this round, Fury included.
    pub cost: ByPlayer<u16>,
}

pub open spec fn life_of(pos: BaseRulesPosition, player: PlayerId) -> u16 {
    pos.players.at(player).life
}

pub open spec fn pillz_of(pos: BaseRulesPosition, player: PlayerId) -> u16 {
    pos.players.at(player).pillz
}

pub open spec fn with_life(pos: BaseRulesPosition, player: PlayerId, life: u16) -> BaseRulesPosition {
    BaseRulesPosition {
        players: pos.players.with(
            player,
            BaseRulesPlayerState { life, pillz: pos.players.at(player).pillz },
        ),
        ..pos
    }
}

pub open spec fn with_pillz(pos: BaseRulesPosition, player: PlayerId, pillz: u16) -> BaseRulesPosition {
    BaseRulesPosition {
        players: pos.players.with(
            player,
            BaseRulesPlayerState { life: pos.players.at(player).life, pillz },
        ),
        ..pos
    }
}

/// `a + b` when it fits in a `u16`.
pub open spec fn add16(a: u16, b: int) -> Option<u16> {
    if 0 <= a + b <= u16::MAX {
        Some((a + b) as u16)
    } else {
        None
    }
}

/// `a - b` floored at `minimum`.
pub open spec fn floored_sub(a: u16, b: u16, minimum: u16) -> u16 {
    let reduced: int = if a > b {
        a - b
    } else {
        0
    };
    if reduced > minimum {
        reduced as u16
    } else {
        minimum
    }
}

pub open spec fn min16(a: u16, b: u16) -> u16 {
    if a < b {
        a
    } else {
        b
    }
}

/// Whether `owner`'s final attack is at least double the opposing one.
pub open spec fn is_killshot(ctx: PostRoundContext, owner: PlayerId) -> bool {
    ctx.attack.at(owner) >= 2 * ctx.attack.at(owner.opp())
}

/// `pos` with `player`'s Pillz raised by `amount`, or the overflow error.
pub open spec fn gain_pillz(pos: BaseRulesPosition, player: PlayerId, amount: int) -> Result<
    BaseRulesPosition,
    BaseRulesError,
> {
    match add16(pillz_of(pos, player), amount) {
        Some(v) => Ok(with_pillz(pos, player, v)),
        None => Err(BaseRulesError::PillzIncreaseOverflow { player }),
    }
}

/// `pos` with `player`'s Life raised by `amount`, or the overflow error.
pub open spec fn gain_life(pos: BaseRulesPosition, player: PlayerId, amount: int) -> Result<
    BaseRulesPosition,
    BaseRulesError,
> {
    match add16(life_of(pos, player), amount) {
        Some(v) => Ok(with_life(pos, player, v)),
        None => Err(BaseRulesError::LifeIncreaseOverflow { player }),
    }
}

/// Pillz then Life, each checked.
pub open spec fn gain_pillz_and_life(pos: BaseRulesPosition, player: PlayerId, amount: int) -> Result<
    BaseRulesPosition,
    BaseRulesError,
> {
    match gain_pillz(pos, player, amount) {
        Ok(p) => gain_life(p, player, amount),
        Err(e) => Err(e),
    }
}

/// A Life gain that stops at `maximum` (0 for none) and pays nothing at or past it.
pub open spec fn capped_life_gain(
    pos: BaseRulesPosition,
    player: PlayerId,
    amount: int,
    maximum: u16,
) -> Result<BaseRulesPosition, BaseRulesError> {
    let current = life_of(pos, player);
    if maximum == 0 || current < maximum {
        match add16(current, amount) {
            Some(raised) => Ok(
                with_life(pos, player, if maximum == 0 { raised } else { min16(raised, maximum) }),
            ),
            None => Err(BaseRulesError::LifeIncreaseOverflow { player }),
        }
    } else {
        Ok(pos)
    }
}

/// The Pillz recovered on `paid`: `max(1, floor((paid + 1) * numerator / denominator))`.
pub open spec fn recovered_pillz(paid: u16, numerator: u16, denominator: u16) -> int {
    let share: int = (paid + 1) * numerator / (denominator as int);
    if share < 1 {
        1
    } else {
        share
    }
}

pub open spec fn recover(
    pos: BaseRulesPosition,
    owner: PlayerId,
    ctx: PostRoundContext,
    numerator: u16,
    denominator: u16,
) -> Result<BaseRulesPosition, BaseRulesError> {
    match add16(pillz_of(pos, owner), recovered_pillz(ctx.cost.at(owner), numerator, denominator)) {
        Some(v) => Ok(with_pillz(pos, owner, v)),
        None => Err(BaseRulesError::PillzRecoveryOverflow { player: owner }),
    }
}

pub open spec fn reduce_life_floored(
    pos: BaseRulesPosition,
    target: PlayerId,
    amount: u16,
    minimum: u16,
) -> BaseRulesPosition {
    with_life(pos, target, floored_sub(life_of(pos, target), amount, minimum))
}

pub open spec fn reduce_pillz_floored(
    pos: BaseRulesPosition,
    target: PlayerId,
    amount: u16,
    minimum: u16,
) -> BaseRulesPosition {
    with_pillz(pos, target, floored_sub(pillz_of(pos, target), amount, minimum))
}

pub open spec fn latch(pos: BaseRulesPosition, owner: PlayerId, effect: LatchedEffectV1) -> Result<
    BaseRulesPosition,
    BaseRulesError,
> {
    match pos.latched.at(owner).spec_pushed(effect) {
        Some(list) => Ok(BaseRulesPosition { latched: pos.latched.with(owner, list), ..pos }),
        None => Err(BaseRulesError::LatchedEffectOverflow { player: owner }),
    }
}

/// One effect of `owner`'s, applied to `pos` after the round's costs, winner and damage.
pub open spec fn apply_post_round_effect(
    pos: BaseRulesPosition,
    ctx: PostRoundContext,
    owner: PlayerId,
    effect: PostRoundEffect,
) -> Result<BaseRulesPosition, BaseRulesError> {
    let winner = ctx.winner;
    let loser = winner.opp();
    let target = owner.opp();
    let living = life_of(pos, owner) > 0;
    match effect {
        PostRoundEffect::RecoverPaidPillzOnDefeat { numerator, denominator } => if owner
            == loser {
            recover(pos, owner, ctx, numerator, denominator)
        } else {
            Ok(pos)
        },
        PostRoundEffect::RecoverPaidPillzOnVictory { numerator, denominator } => if owner
            == winner {
            recover(pos, owner, ctx, numerator, denominator)
        } else {
            Ok(pos)
        },
        PostRoundEffect::GainOnePillzOnVictoryOrDefeat => gain_pillz(pos, owner, 1),
        PostRoundEffect::GainOnePillzAndLifeOnVictory => if owner == winner && living {
            gain_pillz_and_life(pos, owner, 1)
        } else {
            Ok(pos)
        },
        PostRoundEffect::GainTwoPillzOnDefeatMaxEleven => if owner == loser && living
            && pillz_of(pos, owner) < 11 {
            match add16(pillz_of(pos, owner), 2) {
                Some(v) => Ok(with_pillz(pos, owner, min16(v, 11))),
                None => Err(BaseRulesError::PillzIncreaseOverflow { player: owner }),
            }
        } else {
            Ok(pos)
        },
        PostRoundEffect::GainLifeEqualToFinalDamageOnCourageVictory => if owner == winner
            && owner == ctx.first_mover && living {
            gain_life(pos, owner, ctx.damage.at(owner) as int)
        } else {
            Ok(pos)
        },
        PostRoundEffect::GainLifeOnVictory(life) => if owner == winner {
            gain_life(pos, owner, life as int)
        } else {
            Ok(pos)
        },
        PostRoundEffect::GainPillzOnVictory(pillz) => if owner == winner && living {
            gain_pillz(pos, owner, pillz as int)
        } else {
            Ok(pos)
        },
        PostRoundEffect::GainPillzOnVictoryMax { pillz, maximum } => if owner == winner
            && living && pillz_of(pos, owner) < maximum {
            match add16(pillz_of(pos, owner), pillz as int) {
                Some(v) => Ok(with_pillz(pos, owner, min16(v, maximum))),
                None => Err(BaseRulesError::PillzIncreaseOverflow { player: owner }),
            }
        } else {
            Ok(pos)
        },
        PostRoundEffect::ReduceOpponentPillzOnVictory { pillz, minimum } => if owner == winner
            && pillz_of(pos, target) > minimum {
            Ok(reduce_pillz_floored(pos, target, pillz, minimum))
        } else {
            Ok(pos)
        },
        PostRoundEffect::ReduceOpponentPillzOnDefeat { pillz, minimum } => if owner == loser
            && pillz_of(pos, target) > minimum {
            Ok(reduce_pillz_floored(pos, target, pillz, minimum))
        } else {
            Ok(pos)
        },
        PostRoundEffect::GainPillzEqualToFinalDamageOnVictory => if owner == winner && living {
            gain_pillz(pos, owner, ctx.damage.at(owner) as int)
        } else {
            Ok(pos)
        },
        PostRoundEffect::GainLifePerFinalDamageOnVictory { life_per_damage, maximum } => if owner
            == winner && living {
            let current = life_of(pos, owner);
            if maximum == 0 || current < maximum {
                let gain: int = ctx.damage.at(owner) * life_per_damage;
                if gain > u16::MAX {
                    Err(BaseRulesError::LifeIncreaseOverflow { player: owner })
                } else {
                    capped_life_gain(pos, owner, gain, maximum)
                }
            } else {
                Ok(pos)
            }
        } else {
            Ok(pos)
        },
        PostRoundEffect::GainLifePerOpponentFinalDamageOnVictory { life_per_damage } => if owner
            == winner && living {
            let gain: int = ctx.damage.at(target) * life_per_damage;
            if gain > u16::MAX {
                Err(BaseRulesError::LifeIncreaseOverflow { player: owner })
            } else {
                gain_life(pos, owner, gain)
            }
        } else {
            Ok(pos)
        },
        PostRoundEffect::GainLifeOnDefeat(life) => if owner == loser && living {
            gain_life(pos, owner, life as int)
        } else {
            Ok(pos)
        },
        PostRoundEffect::ReanimateLife(life) => if owner == loser {
            gain_life(pos, owner, life as int)
        } else {
            Ok(pos)
        },
        PostRoundEffect::GainLifeOnVictoryOrDefeat { life } => if living {
            gain_life(pos, owner, life as int)
        } else {
            Ok(pos)
        },
        PostRoundEffect::ReduceOpponentLifeOnVictoryOrDefeat { life, minimum } => if life_of(
            pos,
            target,
        ) > 0 {
            Ok(reduce_life_floored(pos, target, life, minimum))
        } else {
            Ok(pos)
        },
        PostRoundEffect::ReduceOpponentLifeOnVictory { life, minimum } => if owner == winner
            && life_of(pos, target) > minimum {
            Ok(reduce_life_floored(pos, target, life, minimum))
        } else {
            Ok(pos)
        },
        PostRoundEffect::ReduceOpponentLifeOnDefeat { life, minimum } => if owner == loser
            && life_of(pos, target) > minimum {
            Ok(reduce_life_floored(pos, target, life, minimum))
        } else {
            Ok(pos)
        },
        PostRoundEffect::ReduceOpponentLifeOnKillshot { life, minimum } => if is_killshot(
            ctx,
            owner,
        ) && life_of(pos, target) > minimum {
            Ok(reduce_life_floored(pos, target, life, minimum))
        } else {
            Ok(pos)
        },
        PostRoundEffect::ReduceBothPlayersLife { life, minimum } => {
            let first = if life_of(pos, owner) > minimum {
                reduce_life_floored(pos, owner, life, minimum)
            } else {
                pos
            };
            if life_of(first, target) > minimum {
                Ok(reduce_life_floored(first, target, life, minimum))
            } else {
                Ok(first)
            }
        },
        PostRoundEffect::LatchOnVictory(latched) => if owner == winner {
            latch(pos, owner, latched)
        } else {
            Ok(pos)
        },
        PostRoundEffect::LatchOnDefeat(latched) => if owner == loser {
            latch(pos, owner, latched)
        } else {
            Ok(pos)
        },
        PostRoundEffect::LatchOnKillshot(latched) => if is_killshot(ctx, owner) {
            latch(pos, owner, latched)
        } else {
            Ok(pos)
        },
        PostRoundEffect::GainPillzAndLifeOnKillshot { amount } => if is_killshot(ctx, owner)
            && living {
            gain_pillz_and_life(pos, owner, amount as int)
        } else {
            Ok(pos)
        },
        PostRoundEffect::GainPillzOnKillshot(pillz) => if is_killshot(ctx, owner) && living {
            gain_pillz(pos, owner, pillz as int)
        } else {
            Ok(pos)
        },
        PostRoundEffect::GainLifeOnKillshot { life, maximum } => if is_killshot(ctx, owner)
            && living {
            capped_life_gain(pos, owner, life as int, maximum)
        } else {
            Ok(pos)
        },
        PostRoundEffect::GainPillzOnDefeat(pillz) => if owner == loser && living {
            gain_pillz(pos, owner, pillz as int)
        } else {
            Ok(pos)
        },
        PostRoundEffect::GainPillzAndLifeOnDefeat(amount) => if owner == loser && living {
            gain_pillz_and_life(pos, owner, amount as int)
        } else {
            Ok(pos)
        },
        PostRoundEffect::GainPillzAndLifeOnVictory(amount) => if owner == winner && living {
            gain_pillz_and_life(pos, owner, amount as int)
        } else {
            Ok(pos)
        },
        PostRoundEffect::GainPillzOnVictoryOrDefeat(pillz) => gain_pillz(pos, owner, pillz as int),
        PostRoundEffect::GainLifePerFinalDamageOnVictoryOrDefeat { life_per_damage } => if living {
            let gain: int = ctx.damage.at(owner) * life_per_damage;
            if gain > u16::MAX {
                Err(BaseRulesError::LifeIncreaseOverflow { player: owner })
            } else {
                gain_life(pos, owner, gain)
            }
        } else {
            Ok(pos)
        },
        PostRoundEffect::ReduceOpponentPillzAndLifeOnVictory { amount, minimum } => if owner
            == winner {
            let first = if pillz_of(pos, target) > minimum {
                reduce_pillz_floored(pos, target, amount, minimum)
            } else {
                pos
            };
            if life_of(first, target) > minimum {
                Ok(reduce_life_floored(first, target, amount, minimum))
            } else {
                Ok(first)
            }
        } else {
            Ok(pos)
        },
        PostRoundEffect::GainBothPlayersLifeOnVictoryOrDefeat(life) => {
            let first = if living {
                gain_life(pos, owner, life as int)
            } else {
                Ok(pos)
            };
            match first {
                Err(e) => Err(e),
                Ok(p) => if life_of(p, target) > 0 {
                    gain_life(p, target, life as int)
                } else {
                    Ok(p)
                },
            }
        },
        PostRoundEffect::GainBothPlayersPillzOnVictoryOrDefeat(pillz) => match gain_pillz(
            pos,
            owner,
            pillz as int,
        ) {
            Err(e) => Err(e),
            Ok(p) => gain_pillz(p, target, pillz as int),
        },
        PostRoundEffect::ReduceOwnLifeOnVictory { life, minimum } => if owner == winner
            && life_of(pos, owner) > minimum {
            Ok(reduce_life_floored(pos, owner, life, minimum))
        } else {
            Ok(pos)
        },
        PostRoundEffect::ReduceOwnLife { life, minimum } => if life_of(pos, owner) > minimum {
            Ok(reduce_life_floored(pos, owner, life, minimum))
        } else {
            Ok(pos)
        },
        PostRoundEffect::GainLifeOnDefeatMax { life, maximum } => if owner == loser && living
            && life_of(pos, owner) < maximum {
            match add16(life_of(pos, owner), life as int) {
                Some(v) => Ok(with_life(pos, owner, min16(v, maximum))),
                None => Err(BaseRulesError::LifeIncreaseOverflow { player: owner }),
            }
        } else {
            Ok(pos)
        },
        PostRoundEffect::GainOpponentPillzOnDefeat(pillz) => if owner == loser {
            gain_pillz(pos, target, pillz as int)
        } else {
            Ok(pos)
        },
    }
}

/// An optional effect: none leaves the position alone.
pub open spec fn apply_optional_effect(
    pos: BaseRulesPosition,
    ctx: PostRoundContext,
    owner: PlayerId,
    effect: Option<PostRoundEffect>,
) -> Result<BaseRulesPosition, BaseRulesError> {
    match effect {
        Some(e) => apply_post_round_effect(pos, ctx, owner, e),
        None => Ok(pos),
    }
}

/// One repeat of a latched permanent owned by `owner`.
pub open spec fn apply_latched_effect(
    pos: BaseRulesPosition,
    owner: PlayerId,
    effect: LatchedEffectV1,
) -> Result<BaseRulesPosition, BaseRulesError> {
    match effect {
        LatchedEffectV1::HealLife { life, maximum } | LatchedEffectV1::RegenLife {
            life,
            maximum,
        } => {
            let current = life_of(pos, owner);
            if current > 0 && current < maximum {
                match add16(current, life as int) {
                    Some(v) => Ok(with_life(pos, owner, min16(v, maximum))),
                    None => Err(BaseRulesError::LifeIncreaseOverflow { player: owner }),
                }
            } else {
                Ok(pos)
            }
        },
        LatchedEffectV1::PoisonOpponentLife { life, minimum }
        | LatchedEffectV1::ToxinOpponentLife { life, minimum } => {
            let target = owner.opp();
            if life_of(pos, target) > minimum {
                Ok(reduce_life_floored(pos, target, life, minimum))
            } else {
                Ok(pos)
            }
        },
        LatchedEffectV1::ConsumeOpponentPillz { pillz, minimum } => {
            let target = owner.opp();
            if pillz_of(pos, target) > minimum {
                Ok(reduce_pillz_floored(pos, target, pillz, minimum))
            } else {
                Ok(pos)
            }
        },
        LatchedEffectV1::CombustOpponentLifeAndPillz { amount, minimum } => {
            let target = owner.opp();
            let first = if life_of(pos, target) > minimum {
                reduce_life_floored(pos, target, amount, minimum)
            } else {
                pos
            };
            if pillz_of(first, target) > minimum {
                Ok(reduce_pillz_floored(first, target, amount, minimum))
            } else {
                Ok(first)
            }
        },
        LatchedEffectV1::DopePillz { pillz, maximum } => if pillz_of(pos, owner) < maximum {
            match add16(pillz_of(pos, owner), pillz as int) {
                Some(v) => Ok(with_pillz(pos, owner, min16(v, maximum))),
                None => Err(BaseRulesError::PillzIncreaseOverflow { player: owner }),
            }
        } else {
            Ok(pos)
        },
    }
}

/// The repeat of `owner`'s permanents from index `i` on. A permanent at or past
/// `before_len` was latched this round and pays now only if its kind does.
pub open spec fn repeat_latched(
    pos: BaseRulesPosition,
    owner: PlayerId,
    items: Seq<LatchedEffectV1>,
    before_len: nat,
    i: nat,
) -> Result<BaseRulesPosition, BaseRulesError>
    decreases items.len() - i,
{
    if i >= items.len() {
        Ok(pos)
    } else if i >= before_len && !items[i as int].pays_at_once() {
        repeat_latched(pos, owner, items, before_len, i + 1)
    } else {
        match apply_latched_effect(pos, owner, items[i as int]) {
            Ok(next) => repeat_latched(next, owner, items, before_len, i + 1),
            Err(e) => Err(e),
        }
    }
}

/// All of `owner`'s end-of-round work: bonus, ability, then the latched repeat.
pub open spec fn apply_owner_post_round(
    pos: BaseRulesPosition,
    ctx: PostRoundContext,
    owner: PlayerId,
    plan: PostRoundPlan,
    before_len: nat,
) -> Result<BaseRulesPosition, BaseRulesError> {
    match apply_optional_effect(pos, ctx, owner, plan.bonus) {
        Err(e) => Err(e),
        Ok(p1) => match apply_optional_effect(p1, ctx, owner, plan.ability) {
            Err(e) => Err(e),
            Ok(p2) => repeat_latched(p2, owner, p2.latched.at(owner).items(), before_len, 0),
        },
    }
}

fn set_life(pos: BaseRulesPosition, player: PlayerId, life: u16) -> (r: BaseRulesPosition)
    ensures
        r == with_life(pos, player, life),
{
    let mut next = pos;
    let current = *pos.players.get(player);
    next.players.set(player, BaseRulesPlayerState { life, pillz: current.pillz });
    next
}

fn set_pillz(pos: BaseRulesPosition, player: PlayerId, pillz: u16) -> (r: BaseRulesPosition)
    ensures
        r == with_pillz(pos, player, pillz),
{
    let mut next = pos;
    let current = *pos.players.get(player);
    next.players.set(player, BaseRulesPlayerState { life: current.life, pillz });
    next
}

fn life(pos: &BaseRulesPosition, player: PlayerId) -> (r: u16)
    ensures
        r == life_of(*pos, player),
{
    pos.players.get(player).life
}

fn pillz(pos: &BaseRulesPosition, player: PlayerId) -> (r: u16)
    ensures
        r == pillz_of(*pos, player),
{
    pos.players.get(player).pillz
}

fn add_pillz(pos: BaseRulesPosition, player: PlayerId, amount: u16) -> (r: Result<
    BaseRulesPosition,
    BaseRulesError,
>)
    ensures
        r == gain_pillz(pos, player, amount as int),
{
    match pillz(&pos, player).checked_add(amount) {
        Some(v) => Ok(set_pillz(pos, player, v)),
        None => Err(BaseRulesError::PillzIncreaseOverflow { player }),
    }
}

fn add_life(pos: BaseRulesPosition, player: PlayerId, amount: u16) -> (r: Result<
    BaseRulesPosition,
    BaseRulesError,
>)
    ensures
        r == gain_life(pos, player, amount as int),
{
    match life(&pos, player).checked_add(amount) {
        Some(v) => Ok(set_life(pos, player, v)),
        None => Err(BaseRulesError::LifeIncreaseOverflow { player }),
    }
}

fn add_pillz_and_life(pos: BaseRulesPosition, player: PlayerId, amount: u16) -> (r: Result<
    BaseRulesPosition,
    BaseRulesError,
>)
    ensures
        r == gain_pillz_and_life(pos, player, amount as int),
{
    match add_pillz(pos, player, amount) {
        Ok(p) => add_life(p, player, amount),
        Err(e) => Err(e),
    }
}

fn add_life_capped(pos: BaseRulesPosition, player: PlayerId, amount: u16, maximum: u16) -> (r:
    Result<BaseRulesPosition, BaseRulesError>)
    ensures
        r == capped_life_gain(pos, player, amount as int, maximum),
{
    let current = life(&pos, player);
    if maximum == 0 || current < maximum {
        match current.checked_add(amount) {
            Some(raised) => {
                let next = if maximum == 0 {
                    raised
                } else if raised < maximum {
                    raised
                } else {
                    maximum
                };
                Ok(set_life(pos, player, next))
            },
            None => Err(BaseRulesError::LifeIncreaseOverflow { player }),
        }
    } else {
        Ok(pos)
    }
}

fn floor_sub(a: u16, b: u16, minimum: u16) -> (r: u16)
    ensures
        r == floored_sub(a, b, minimum),
{
    let reduced: u16 = if a > b {
        a - b
    } else {
        0
    };
    if reduced > minimum {
        reduced
    } else {
        minimum
    }
}

fn reduce_life(pos: BaseRulesPosition, target: PlayerId, amount: u16, minimum: u16) -> (r:
    BaseRulesPosition)
    ensures
        r == reduce_life_floored(pos, target, amount, minimum),
{
    let current = life(&pos, target);
    set_life(pos, target, floor_sub(current, amount, minimum))
}

fn reduce_pillz(pos: BaseRulesPosition, target: PlayerId, amount: u16, minimum: u16) -> (r:
    BaseRulesPosition)
    ensures
        r == reduce_pillz_floored(pos, target, amount, minimum),
{
    let current = pillz(&pos, target);
    set_pillz(pos, target, floor_sub(current, amount, minimum))
}

fn recover_pillz(
    pos: BaseRulesPosition,
    owner: PlayerId,
    ctx: PostRoundContext,
    numerator: u16,
    denominator: u16,
) -> (r: Result<BaseRulesPosition, BaseRulesError>)
    requires
        denominator > 0,
    ensures
        r == recover(pos, owner, ctx, numerator, denominator),
{
    let paid = *ctx.cost.get(owner) as u64;
    assert((paid + 1) * (numerator as u64) <= 65536 * 65535) by (nonlinear_arith)
        requires
            paid <= 65535,
            numerator <= 65535,
    ;
    let share: u64 = (paid + 1) * (numerator as u64) / (denominator as u64);
    let recovered: u64 = if share < 1 {
        1
    } else {
        share
    };
    let current = pillz(&pos, owner) as u64;
    if current + recovered <= 65535 {
        Ok(set_pillz(pos, owner, (current + recovered) as u16))
    } else {
        Err(BaseRulesError::PillzRecoveryOverflow { player: owner })
    }
}

fn latch_effect(pos: BaseRulesPosition, owner: PlayerId, effect: LatchedEffectV1) -> (r: Result<
    BaseRulesPosition,
    BaseRulesError,
>)
    ensures
        r == latch(pos, owner, effect),
{
    let mut list = *pos.latched.get(owner);
    match list.push(effect) {
        Ok(()) => {
            let mut next = pos;
            next.latched.set(owner, list);
            Ok(next)
        },
        Err(_) => Err(BaseRulesError::LatchedEffectOverflow { player: owner }),
    }
}

fn killshot(ctx: &PostRoundContext, owner: PlayerId) -> (r: bool)
    ensures
        r == is_killshot(*ctx, owner),
{
    let own = *ctx.attack.get(owner) as u64;
    let opposing = *ctx.attack.get(owner.other()) as u64;
    own >= 2 * opposing
}

/// One effect of `owner`'s, applied after the round's costs, winner and damage.
pub fn post_round_effect(
    pos: BaseRulesPosition,
    ctx: PostRoundContext,
    owner: PlayerId,
    effect: PostRoundEffect,
) -> (r: Result<BaseRulesPosition, BaseRulesError>)
    requires
        effect.well_formed(),
    ensures
        r == apply_post_round_effect(pos, ctx, owner, effect),
{
    let winner = ctx.winner;
    let loser = winner.other();
    let target = owner.other();
    let living = life(&pos, owner) > 0;
    match effect {
        PostRoundEffect::RecoverPaidPillzOnDefeat { numerator, denominator } => {
            if owner == loser {
                recover_pillz(pos, owner, ctx, numerator, denominator)
            } else {
                Ok(pos)
            }
        },
        PostRoundEffect::RecoverPaidPillzOnVictory { numerator, denominator } => {
            if owner == winner {
                recover_pillz(pos, owner, ctx, numerator, denominator)
            } else {
                Ok(pos)
            }
        },
        PostRoundEffect::GainOnePillzOnVictoryOrDefeat => add_pillz(pos, owner, 1),
        PostRoundEffect::GainOnePillzAndLifeOnVictory => {
            if owner == winner && living {
                add_pillz_and_life(pos, owner, 1)
            } else {
                Ok(pos)
            }
        },
        PostRoundEffect::GainTwoPillzOnDefeatMaxEleven => {
            let current = pillz(&pos, owner);
            if owner == loser && living && current < 11 {
                match current.checked_add(2) {
                    Some(v) => Ok(
                        set_pillz(
                            pos,
                            owner,
                            if v < 11 {
                                v
                            } else {
                                11
                            },
                        ),
                    ),
                    None => Err(BaseRulesError::PillzIncreaseOverflow { player: owner }),
                }
            } else {
                Ok(pos)
            }
        },
        PostRoundEffect::GainLifeEqualToFinalDamageOnCourageVictory => {
            if owner == winner && owner == ctx.first_mover && living {
                add_life(pos, owner, *ctx.damage.get(owner))
            } else {
                Ok(pos)
            }
        },
        PostRoundEffect::GainLifeOnVictory(amount) => {
            if owner == winner {
                add_life(pos, owner, amount)
            } else {
                Ok(pos)
            }
        },
        PostRoundEffect::GainPillzOnVictory(amount) => {
            if owner == winner && living {
                add_pillz(pos, owner, amount)
            } else {
                Ok(pos)
            }
        },
        PostRoundEffect::GainPillzOnVictoryMax { pillz: amount, maximum } => {
            let current = pillz(&pos, owner);
            if owner == winner && living && current < maximum {
                match current.checked_add(amount) {
                    Some(v) => Ok(
                        set_pillz(
                            pos,
                            owner,
                            if v < maximum {
                                v
                            } else {
                                maximum
                            },
                        ),
                    ),
                    None => Err(BaseRulesError::PillzIncreaseOverflow { player: owner }),
                }
            } else {
                Ok(pos)
            }
        },
        PostRoundEffect::ReduceOpponentPillzOnVictory { pillz: amount, minimum } => {
            if owner == winner && pillz(&pos, target) > minimum {
                Ok(reduce_pillz(pos, target, amount, minimum))
            } else {
                Ok(pos)
            }
        },
        PostRoundEffect::ReduceOpponentPillzOnDefeat { pillz: amount, minimum } => {
            if owner == loser && pillz(&pos, target) > minimum {
                Ok(reduce_pillz(pos, target, amount, minimum))
            } else {
                Ok(pos)
            }
        },
        PostRoundEffect::GainPillzEqualToFinalDamageOnVictory => {
            if owner == winner && living {
                add_pillz(pos, owner, *ctx.damage.get(owner))
            } else {
                Ok(pos)
            }
        },
        PostRoundEffect::GainLifePerFinalDamageOnVictory { life_per_damage, maximum } => {
            if owner == winner && living {
                let current = life(&pos, owner);
                if maximum == 0 || current < maximum {
                    match ctx.damage.get(owner).checked_mul(life_per_damage) {
                        Some(gain) => add_life_capped(pos, owner, gain, maximum),
                        None => Err(BaseRulesError::LifeIncreaseOverflow { player: owner }),
                    }
                } else {
                    Ok(pos)
                }
            } else {
                Ok(pos)
            }
        },
        PostRoundEffect::GainLifePerOpponentFinalDamageOnVictory { life_per_damage } => {
            if owner == winner && living {
                match ctx.damage.get(target).checked_mul(life_per_damage) {
                    Some(gain) => add_life(pos, owner, gain),
                    None => Err(BaseRulesError::LifeIncreaseOverflow { player: owner }),
                }
            } else {
                Ok(pos)
            }
        },
        PostRoundEffect::GainLifeOnDefeat(amount) => {
            if owner == loser && living {
                add_life(pos, owner, amount)
            } else {
                Ok(pos)
            }
        },
        PostRoundEffect::ReanimateLife(amount) => {
            if owner == loser {
                add_life(pos, owner, amount)
            } else {
                Ok(pos)
            }
        },
        PostRoundEffect::GainLifeOnVictoryOrDefeat { life: amount } => {
            if living {
                add_life(pos, owner, amount)
            } else {
                Ok(pos)
            }
        },
        PostRoundEffect::ReduceOpponentLifeOnVictoryOrDefeat { life: amount, minimum } => {
            if life(&pos, target) > 0 {
                Ok(reduce_life(pos, target, amount, minimum))
            } else {
                Ok(pos)
            }
        },
        PostRoundEffect::ReduceOpponentLifeOnVictory { life: amount, minimum } => {
            if owner == winner && life(&pos, target) > minimum {
                Ok(reduce_life(pos, target, amount, minimum))
            } else {
                Ok(pos)
            }
        },
        PostRoundEffect::ReduceOpponentLifeOnDefeat { life: amount, minimum } => {
            if owner == loser && life(&pos, target) > minimum {
                Ok(reduce_life(pos, target, amount, minimum))
            } else {
                Ok(pos)
            }
        },
        PostRoundEffect::ReduceOpponentLifeOnKillshot { life: amount, minimum } => {
            if killshot(&ctx, owner) && life(&pos, target) > minimum {
                Ok(reduce_life(pos, target, amount, minimum))
            } else {
                Ok(pos)
            }
        },
        PostRoundEffect::ReduceBothPlayersLife { life: amount, minimum } => {
            let first = if life(&pos, owner) > minimum {
                reduce_life(pos, owner, amount, minimum)
            } else {
                pos
            };
            if life(&first, target) > minimum {
                Ok(reduce_life(first, target, amount, minimum))
            } else {
                Ok(first)
            }
        },
        PostRoundEffect::LatchOnVictory(latched) => {
            if owner == winner {
                latch_effect(pos, owner, latched)
            } else {
                Ok(pos)
            }
        },
        PostRoundEffect::LatchOnDefeat(latched) => {
            if owner == loser {
                latch_effect(pos, owner, latched)
            } else {
                Ok(pos)
            }
        },
        PostRoundEffect::LatchOnKillshot(latched) => {
            if killshot(&ctx, owner) {
                latch_effect(pos, owner, latched)
            } else {
                Ok(pos)
            }
        },
        PostRoundEffect::GainPillzAndLifeOnKillshot { amount } => {
            if killshot(&ctx, owner) && living {
                add_pillz_and_life(pos, owner, amount)
            } else {
                Ok(pos)
            }
        },
        PostRoundEffect::GainPillzOnKillshot(amount) => {
            if killshot(&ctx, owner) && living {
                add_pillz(pos, owner, amount)
            } else {
                Ok(pos)
            }
        },
        PostRoundEffect::GainLifeOnKillshot { life: amount, maximum } => {
            if killshot(&ctx, owner) && living {
                add_life_capped(pos, owner, amount, maximum)
            } else {
                Ok(pos)
            }
        },
        PostRoundEffect::GainPillzOnDefeat(amount) => {
            if owner == loser && living {
                add_pillz(pos, owner, amount)
            } else {
                Ok(pos)
            }
        },
        PostRoundEffect::GainPillzAndLifeOnDefeat(amount) => {
            if owner == loser && living {
                add_pillz_and_life(pos, owner, amount)
            } else {
                Ok(pos)
            }
        },
        PostRoundEffect::GainPillzAndLifeOnVictory(amount) => {
            if owner == winner && living {
                add_pillz_and_life(pos, owner, amount)
            } else {
                Ok(pos)
            }
        },
        PostRoundEffect::GainPillzOnVictoryOrDefeat(amount) => add_pillz(pos, owner, amount),
        PostRoundEffect::GainLifePerFinalDamageOnVictoryOrDefeat { life_per_damage } => {
            if living {
                match ctx.damage.get(owner).checked_mul(life_per_damage) {
                    Some(gain) => add_life(pos, owner, gain),
                    None => Err(BaseRulesError::LifeIncreaseOverflow { player: owner }),
                }
            } else {
                Ok(pos)
            }
        },
        PostRoundEffect::ReduceOpponentPillzAndLifeOnVictory { amount, minimum } => {
            if owner == winner {
                let first = if pillz(&pos, target) > minimum {
                    reduce_pillz(pos, target, amount, minimum)
                } else {
                    pos
                };
                if life(&first, target) > minimum {
                    Ok(reduce_life(first, target, amount, minimum))
                } else {
                    Ok(first)
                }
            } else {
                Ok(pos)
            }
        },
        PostRoundEffect::GainBothPlayersLifeOnVictoryOrDefeat(amount) => {
            let first = if living {
                add_life(pos, owner, amount)
            } else {
                Ok(pos)
            };
            match first {
                Err(e) => Err(e),
                Ok(p) => if life(&p, target) > 0 {
                    add_life(p, target, amount)
                } else {
                    Ok(p)
                },
            }
        },
        PostRoundEffect::GainBothPlayersPillzOnVictoryOrDefeat(amount) => {
            match add_pillz(pos, owner, amount) {
                Err(e) => Err(e),
                Ok(p) => add_pillz(p, target, amount),
            }
        },
        PostRoundEffect::ReduceOwnLifeOnVictory { life: amount, minimum } => {
            if owner == winner && life(&pos, owner) > minimum {
                Ok(reduce_life(pos, owner, amount, minimum))
            } else {
                Ok(pos)
            }
        },
        PostRoundEffect::ReduceOwnLife { life: amount, minimum } => {
            if life(&pos, owner) > minimum {
                Ok(reduce_life(pos, owner, amount, minimum))
            } else {
                Ok(pos)
            }
        },
        PostRoundEffect::GainLifeOnDefeatMax { life: amount, maximum } => {
            let current = life(&pos, owner);
            if owner == loser && living && current < maximum {
                match current.checked_add(amount) {
                    Some(v) => Ok(
                        set_life(
                            pos,
                            owner,
                            if v < maximum {
                                v
                            } else {
                                maximum
                            },
                        ),
                    ),
                    None => Err(BaseRulesError::LifeIncreaseOverflow { player: owner }),
                }
            } else {
                Ok(pos)
            }
        },
        PostRoundEffect::GainOpponentPillzOnDefeat(amount) => {
            if owner == loser {
                add_pillz(pos, target, amount)
            } else {
                Ok(pos)
            }
        },
    }
}

fn optional_effect(
    pos: BaseRulesPosition,
    ctx: PostRoundContext,
    owner: PlayerId,
    effect: Option<PostRoundEffect>,
) -> (r: Result<BaseRulesPosition, BaseRulesError>)
    requires
        effect matches Some(e) ==> e.well_formed(),
    ensures
        r == apply_optional_effect(pos, ctx, owner, effect),
{
    match effect {
        Some(e) => post_round_effect(pos, ctx, owner, e),
        None => Ok(pos),
    }
}

fn latched_effect(pos: BaseRulesPosition, owner: PlayerId, effect: LatchedEffectV1) -> (r: Result<
    BaseRulesPosition,
    BaseRulesError,
>)
    ensures
        r == apply_latched_effect(pos, owner, effect),
{
    match effect {
        LatchedEffectV1::HealLife { life: amount, maximum }
        | LatchedEffectV1::RegenLife { life: amount, maximum } => {
            let current = life(&pos, owner);
            if current > 0 && current < maximum {
                match current.checked_add(amount) {
                    Some(v) => Ok(
                        set_life(
                            pos,
                            owner,
                            if v < maximum {
                                v
                            } else {
                                maximum
                            },
                        ),
                    ),
                    None => Err(BaseRulesError::LifeIncreaseOverflow { player: owner }),
                }
            } else {
                Ok(pos)
            }
        },
        LatchedEffectV1::PoisonOpponentLife { life: amount, minimum }
        | LatchedEffectV1::ToxinOpponentLife { life: amount, minimum } => {
            let target = owner.other();
            if life(&pos, target) > minimum {
                Ok(reduce_life(pos, target, amount, minimum))
            } else {
                Ok(pos)
            }
        },
        LatchedEffectV1::ConsumeOpponentPillz { pillz: amount, minimum } => {
            let target = owner.other();
            if pillz(&pos, target) > minimum {
                Ok(reduce_pillz(pos, target, amount, minimum))
            } else {
                Ok(pos)
            }
        },
        LatchedEffectV1::CombustOpponentLifeAndPillz { amount, minimum } => {
            let target = owner.other();
            let first = if life(&pos, target) > minimum {
                reduce_life(pos, target, amount, minimum)
            } else {
                pos
            };
            if pillz(&first, target) > minimum {
                Ok(reduce_pillz(first, target, amount, minimum))
            } else {
                Ok(first)
            }
        },
        LatchedEffectV1::DopePillz { pillz: amount, maximum } => {
            let current = pillz(&pos, owner);
            if current < maximum {
                match current.checked_add(amount) {
                    Some(v) => Ok(
                        set_pillz(
                            pos,
                            owner,
                            if v < maximum {
                                v
                            } else {
                                maximum
                            },
                        ),
                    ),
                    None => Err(BaseRulesError::PillzIncreaseOverflow { player: owner }),
                }
            } else {
                Ok(pos)
            }
        },
    }
}

/// All of `owner`'s end-of-round work: bonus, ability, then its latched permanents in
/// latch order. `before_len` is how many permanents the owner held before this round.
pub fn owner_post_round(
    pos: BaseRulesPosition,
    ctx: PostRoundContext,
    owner: PlayerId,
    plan: PostRoundPlan,
    before_len: usize,
) -> (r: Result<BaseRulesPosition, BaseRulesError>)
    requires
        plan_well_formed(plan),
    ensures
        r == apply_owner_post_round(pos, ctx, owner, plan, before_len as nat),
{
    let p1 = match optional_effect(pos, ctx, owner, plan.bonus) {
        Ok(p) => p,
        Err(e) => return Err(e),
    };
    let p2 = match optional_effect(p1, ctx, owner, plan.ability) {
        Ok(p) => p,
        Err(e) => return Err(e),
    };
    let list = *p2.latched.get(owner);
    let items = list.iter();
    let ghost all = list.items();
    let mut current = p2;
    let mut i: usize = 0;
    assert(apply_owner_post_round(pos, ctx, owner, plan, before_len as nat) == repeat_latched(
        p2,
        owner,
        all,
        before_len as nat,
        0,
    ));
    while i < items.len()
        invariant
            items@ == all,
            apply_owner_post_round(pos, ctx, owner, plan, before_len as nat) == repeat_latched(
                p2,
                owner,
                all,
                before_len as nat,
                0,
            ),
            i <= items@.len(),
            repeat_latched(p2, owner, all, before_len as nat, 0) == repeat_latched(
                current,
                owner,
                all,
                before_len as nat,
                i as nat,
            ),
        decreases items@.len() - i,
    {
        let effect = items[i];
        if i >= before_len && !effect.pays_in_latching_round() {
        } else {
            match latched_effect(current, owner, effect) {
                Ok(next) => {
                    current = next;
                },
                Err(e) => {
                    assert(repeat_latched(current, owner, all, before_len as nat, i as nat) == Err::<
                        BaseRulesPosition,
                        BaseRulesError,
                    >(e));
                    return Err(e);
                },
            }
        }
        i = i + 1;
    }
    Ok(current)
}

} // verus!
