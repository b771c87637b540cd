//! What every round keeps: the bookkeeping of a completed round, the resources of an
//! effect-free one, and what end-of-round work can never do.

use super::post_round::{
    apply_latched_effect, apply_optional_effect, apply_owner_post_round, apply_post_round_effect,
    life_of, repeat_latched, PostRoundContext, PostRoundEffect, PostRoundPlan,
};
use super::round::{
    commit_spec, initial_position_spec, make_spec, played_with, prepared_round_spec, round_state_error,
    round_winner_spec, status_after_round_spec, PreparedSelection,
};
use super::{
    BaseRulesError, BaseRulesMatchSpec, BaseRulesPosition, BaseRulesRoundInput, ByPlayer,
    LatchedEffectV1, MatchStatus, PlayerId,
};
use vstd::prelude::*;

verus! {

broadcast use {vstd::array::group_array_axioms, super::group_hand_slot};

/// The parts of a position that end-of-round work never touches.
pub open spec fn same_frame(a: BaseRulesPosition, b: BaseRulesPosition) -> bool {
    &&& a.played == b.played
    &&& a.rounds_played == b.rounds_played
    &&& a.previous_round_winner == b.previous_round_winner
    &&& a.previous_round_slots == b.previous_round_slots
    &&& a.status == b.status
}

/// End-of-round work changes only Life, Pillz and the latched permanents.
#[verifier::rlimit(60)]
pub proof fn lemma_effect_frame(
    pos: BaseRulesPosition,
    ctx: PostRoundContext,
    owner: PlayerId,
    effect: PostRoundEffect,
)
    ensures
        apply_post_round_effect(pos, ctx, owner, effect) matches Ok(next) ==> same_frame(pos, next),
{
    match effect {
        PostRoundEffect::LatchOnVictory(_) | PostRoundEffect::LatchOnDefeat(_)
        | PostRoundEffect::LatchOnKillshot(_) => {},
        PostRoundEffect::ReduceBothPlayersLife { .. } => {},
        PostRoundEffect::GainOnePillzAndLifeOnVictory | PostRoundEffect::GainPillzAndLifeOnKillshot {
            ..
        } | PostRoundEffect::GainPillzAndLifeOnDefeat(_) => {},
        PostRoundEffect::GainLifePerFinalDamageOnVictory { .. }
        | PostRoundEffect::GainLifeOnKillshot { .. } => {},
        PostRoundEffect::GainPillzAndLifeOnVictory(_) => {},
        PostRoundEffect::GainLifePerFinalDamageOnVictoryOrDefeat { .. } => {},
        PostRoundEffect::ReduceOpponentPillzAndLifeOnVictory { .. } => {},
        PostRoundEffect::GainBothPlayersLifeOnVictoryOrDefeat(_) => {},
        PostRoundEffect::GainBothPlayersPillzOnVictoryOrDefeat(_) => {},
        PostRoundEffect::ReduceOwnLifeOnVictory { .. } | PostRoundEffect::ReduceOwnLife { .. } => {},
        PostRoundEffect::GainLifeOnDefeatMax { .. } => {},
        PostRoundEffect::GainOpponentPillzOnDefeat(_) => {},
        _ => {},
    }
}

pub proof fn lemma_repeat_frame(
    pos: BaseRulesPosition,
    owner: PlayerId,
    items: Seq<LatchedEffectV1>,
    before_len: nat,
    i: nat,
)
    ensures
        repeat_latched(pos, owner, items, before_len, i) matches Ok(next) ==> same_frame(pos, next)
            && next.latched == pos.latched,
    decreases items.len() - i,
{
    if i < items.len() {
        if i >= before_len && !items[i as int].pays_at_once() {
            lemma_repeat_frame(pos, owner, items, before_len, i + 1);
        } else {
            match apply_latched_effect(pos, owner, items[i as int]) {
                Ok(next) => lemma_repeat_frame(next, owner, items, before_len, i + 1),
                Err(_) => {},
            }
        }
    }
}

pub proof fn lemma_owner_frame(
    pos: BaseRulesPosition,
    ctx: PostRoundContext,
    owner: PlayerId,
    plan: PostRoundPlan,
    before_len: nat,
)
    ensures
        apply_owner_post_round(pos, ctx, owner, plan, before_len) matches Ok(next) ==> same_frame(
            pos,
            next,
        ),
{
    match apply_optional_effect(pos, ctx, owner, plan.bonus) {
        Ok(p1) => {
            if let Some(e) = plan.bonus {
                lemma_effect_frame(pos, ctx, owner, e);
            }
            match apply_optional_effect(p1, ctx, owner, plan.ability) {
                Ok(p2) => {
                    if let Some(e) = plan.ability {
                        lemma_effect_frame(p1, ctx, owner, e);
                    }
                    lemma_repeat_frame(p2, owner, p2.latched.at(owner).items(), before_len, 0);
                },
                Err(_) => {},
            }
        },
        Err(_) => {},
    }
}

/// A completed round is counted once, marks both selected cards played and nothing else,
/// records its winner and both slots, and the match is over exactly when a player is
/// knocked out or the last round is done. It holds whatever end-of-round work ran.
pub proof fn law_round_bookkeeping(
    pos: BaseRulesPosition,
    input: BaseRulesRoundInput,
    prepared: ByPlayer<PreparedSelection>,
    post_round: ByPlayer<PostRoundPlan>,
)
    requires
        pos.rounds_played < 4,
    ensures
        commit_spec(pos, input, prepared, post_round) matches Ok((report, next)) ==> {
            &&& next.rounds_played == pos.rounds_played + 1
            &&& next.played.at(PlayerId::P1) == played_with(
                pos.played.at(PlayerId::P1),
                prepared.at(PlayerId::P1).slot.value(),
            )
            &&& next.played.at(PlayerId::P2) == played_with(
                pos.played.at(PlayerId::P2),
                prepared.at(PlayerId::P2).slot.value(),
            )
            &&& next.previous_round_winner == Some(round_winner_spec(input.first_mover, prepared))
            &&& next.previous_round_slots == ByPlayer::pair(
                Some(prepared.at(PlayerId::P1).slot),
                Some(prepared.at(PlayerId::P2).slot),
            )
            &&& next.status == status_after_round_spec(next)
            &&& (next.status == MatchStatus::Playing <==> (next.players.at(PlayerId::P1).life > 0
                && next.players.at(PlayerId::P2).life > 0 && next.rounds_played < 4))
            &&& report.round == pos.rounds_played
            &&& report.players == next.players
            &&& report.status == next.status
            &&& report.cards.at(PlayerId::P1).won != report.cards.at(PlayerId::P2).won
        },
{
    let ctx = super::round::post_round_context_spec(input, prepared);
    let fought = super::round::combat_spec(pos, input, prepared);
    lemma_owner_frame(
        fought,
        ctx,
        PlayerId::P1,
        post_round.at(PlayerId::P1),
        pos.latched.at(PlayerId::P1).count(),
    );
    match apply_owner_post_round(
        fought,
        ctx,
        PlayerId::P1,
        post_round.at(PlayerId::P1),
        pos.latched.at(PlayerId::P1).count(),
    ) {
        Ok(after_p1) => {
            lemma_owner_frame(
                after_p1,
                ctx,
                PlayerId::P2,
                post_round.at(PlayerId::P2),
                pos.latched.at(PlayerId::P2).count(),
            );
        },
        Err(_) => {},
    }
}

/// A round is refused once the match is over or four rounds are done, and a card cannot
/// be played twice.
pub proof fn law_refusals(spec: BaseRulesMatchSpec, pos: BaseRulesPosition, input: BaseRulesRoundInput)
    ensures
        pos.rounds_played >= 4 ==> make_spec(spec, pos, input) == Err::<
            (super::BaseRulesRoundReport, BaseRulesPosition),
            BaseRulesError,
        >(BaseRulesError::RoundLimitReached { rounds_played: pos.rounds_played }),
        pos.rounds_played < 4 && pos.status != MatchStatus::Playing ==> make_spec(spec, pos, input)
            == Err::<(super::BaseRulesRoundReport, BaseRulesPosition), BaseRulesError>(
            BaseRulesError::MatchFinished { status: pos.status },
        ),
        (exists|p: PlayerId|
            input.selections.at(p).hand_index < 4 && #[trigger] pos.played.at(p)@[input.selections.at(
                p,
            ).hand_index as int]) ==> make_spec(spec, pos, input) is Err,
{
    if round_state_error(pos) is None {
        let p = choose|p: PlayerId|
            input.selections.at(p).hand_index < 4 && #[trigger] pos.played.at(p)@[input.selections.at(
                p,
            ).hand_index as int];
        if input.selections.at(p).hand_index < 4 && pos.played.at(p)@[input.selections.at(
            p,
        ).hand_index as int] {
            assert(prepared_round_spec(spec, pos, input) is Err);
        }
    }
}

/// An effect-free round moves exactly the resources the base rules move: each player
/// pays its selection, the loser loses the winner's Damage down to zero, the winner's Life
/// is untouched, and no permanent is latched.
pub proof fn law_effect_free_round(spec: BaseRulesMatchSpec, pos: BaseRulesPosition, input: BaseRulesRoundInput)
    requires
        pos.latched.at(PlayerId::P1).count() == 0,
        pos.latched.at(PlayerId::P2).count() == 0,
    ensures
        make_spec(spec, pos, input) matches Ok((report, next)) ==> (prepared_round_spec(
            spec,
            pos,
            input,
        ) matches Ok(prepared) && {
            let winner = round_winner_spec(input.first_mover, prepared);
            let loser = winner.opp();
            let damage = prepared.at(winner).result.damage;
            &&& next.players.at(PlayerId::P1).pillz == pos.players.at(PlayerId::P1).pillz
                - prepared.at(PlayerId::P1).cost
            &&& next.players.at(PlayerId::P2).pillz == pos.players.at(PlayerId::P2).pillz
                - prepared.at(PlayerId::P2).cost
            &&& next.players.at(winner).life == pos.players.at(winner).life
            &&& next.players.at(loser).life == (if pos.players.at(loser).life > damage {
                pos.players.at(loser).life - damage
            } else {
                0
            })
            &&& next.latched == pos.latched
            &&& report.cards.at(winner).won
        }),
{
    pos.latched.at(PlayerId::P1).lemma_items_len();
    pos.latched.at(PlayerId::P2).lemma_items_len();
    match prepared_round_spec(spec, pos, input) {
        Ok(prepared) => {
            let ctx = super::round::post_round_context_spec(input, prepared);
            let fought = super::round::combat_spec(pos, input, prepared);
            let none = PostRoundPlan { ability: None, bonus: None };
            fought.latched.at(PlayerId::P1).lemma_items_len();
            fought.latched.at(PlayerId::P2).lemma_items_len();
            assert(apply_owner_post_round(
                fought,
                ctx,
                PlayerId::P1,
                none,
                pos.latched.at(PlayerId::P1).count(),
            ) == Ok::<BaseRulesPosition, BaseRulesError>(fought));
            assert(apply_owner_post_round(
                fought,
                ctx,
                PlayerId::P2,
                none,
                pos.latched.at(PlayerId::P2).count(),
            ) == Ok::<BaseRulesPosition, BaseRulesError>(fought));
        },
        Err(_) => {},
    }
}

/// A base-rules round latches nothing: whatever permanents a position holds, the round
/// leaves them as they were. With the empty lists a base-rules game starts from, every
/// position it reaches holds none.
pub proof fn law_base_round_keeps_latches(
    spec: BaseRulesMatchSpec,
    pos: BaseRulesPosition,
    input: BaseRulesRoundInput,
)
    ensures
        make_spec(spec, pos, input) matches Ok((_, next)) ==> next.latched == pos.latched,
{
    match prepared_round_spec(spec, pos, input) {
        Ok(prepared) => {
            let ctx = super::round::post_round_context_spec(input, prepared);
            let fought = super::round::combat_spec(pos, input, prepared);
            let none = PostRoundPlan { ability: None, bonus: None };
            lemma_repeat_frame(
                fought,
                PlayerId::P1,
                fought.latched.at(PlayerId::P1).items(),
                pos.latched.at(PlayerId::P1).count(),
                0,
            );
            match apply_owner_post_round(
                fought,
                ctx,
                PlayerId::P1,
                none,
                pos.latched.at(PlayerId::P1).count(),
            ) {
                Ok(a1) => {
                    lemma_repeat_frame(
                        a1,
                        PlayerId::P2,
                        a1.latched.at(PlayerId::P2).items(),
                        pos.latched.at(PlayerId::P2).count(),
                        0,
                    );
                },
                Err(_) => {},
            }
        },
        Err(_) => {},
    }
}

/// End-of-round work never revives a knocked-out player: only Reanimate, and a Victory
/// Life gain paid to a winner an earlier effect took to zero, raise a Life of zero.
pub proof fn law_no_revival(
    pos: BaseRulesPosition,
    ctx: PostRoundContext,
    owner: PlayerId,
    effect: PostRoundEffect,
    player: PlayerId,
)
    requires
        life_of(pos, player) == 0,
        !(effect is ReanimateLife),
        !(effect is GainLifeOnVictory),
    ensures
        apply_post_round_effect(pos, ctx, owner, effect) matches Ok(next) ==> life_of(next, player)
            == 0,
{
    match effect {
        PostRoundEffect::ReduceBothPlayersLife { .. } => {},
        PostRoundEffect::GainPillzAndLifeOnVictory(_) => {},
        PostRoundEffect::GainLifePerFinalDamageOnVictoryOrDefeat { .. } => {},
        PostRoundEffect::ReduceOpponentPillzAndLifeOnVictory { .. } => {},
        PostRoundEffect::GainBothPlayersLifeOnVictoryOrDefeat(_) => {},
        PostRoundEffect::GainBothPlayersPillzOnVictoryOrDefeat(_) => {},
        PostRoundEffect::ReduceOwnLifeOnVictory { .. } | PostRoundEffect::ReduceOwnLife { .. } => {},
        PostRoundEffect::GainLifeOnDefeatMax { .. } => {},
        PostRoundEffect::GainOpponentPillzOnDefeat(_) => {},
        PostRoundEffect::GainOnePillzAndLifeOnVictory | PostRoundEffect::GainPillzAndLifeOnKillshot {
            ..
        } | PostRoundEffect::GainPillzAndLifeOnDefeat(_) => {},
        _ => {},
    }
}

/// A latched repeat never revives a knocked-out player either.
pub proof fn law_no_latched_revival(
    pos: BaseRulesPosition,
    owner: PlayerId,
    effect: LatchedEffectV1,
    player: PlayerId,
)
    requires
        life_of(pos, player) == 0,
    ensures
        apply_latched_effect(pos, owner, effect) matches Ok(next) ==> life_of(next, player) == 0,
{
}

/// A Victory, Defeat or Killshot opposing Life reduction leaves its target between its
/// floor and where it was: it never raises the target and never takes it below `minimum`.
pub proof fn law_reductions_are_floored(
    pos: BaseRulesPosition,
    ctx: PostRoundContext,
    owner: PlayerId,
    effect: PostRoundEffect,
)
    requires
        effect is ReduceOpponentLifeOnVictory || effect is ReduceOpponentLifeOnDefeat
            || effect is ReduceOpponentLifeOnKillshot,
    ensures
        apply_post_round_effect(pos, ctx, owner, effect) matches Ok(next) && life_of(
            next,
            owner.opp(),
        ) <= life_of(pos, owner.opp()) && (life_of(pos, owner.opp()) > reduction_floor(effect)
            ==> life_of(next, owner.opp()) >= reduction_floor(effect)),
{
}

/// The floor of an opposing Life reduction.
pub open spec fn reduction_floor(effect: PostRoundEffect) -> u16 {
    match effect {
        PostRoundEffect::ReduceOpponentLifeOnVictory { minimum, .. }
        | PostRoundEffect::ReduceOpponentLifeOnDefeat { minimum, .. }
        | PostRoundEffect::ReduceOpponentLifeOnKillshot { minimum, .. } => minimum,
        _ => 0,
    }
}

/// What an over match's status says of its Lives: Won(p) exactly when p's Life is strictly
/// the greater, and Draw exactly when the two are equal.
pub open spec fn status_fits_lives(status: MatchStatus, pos: BaseRulesPosition) -> bool {
    let p1 = pos.players.at(PlayerId::P1).life;
    let p2 = pos.players.at(PlayerId::P2).life;
    &&& (status == MatchStatus::Won(PlayerId::P1) <==> p1 > p2)
    &&& (status == MatchStatus::Won(PlayerId::P2) <==> p2 > p1)
    &&& (status == MatchStatus::Draw <==> p1 == p2)
}

/// A position's status after a round is decided by Life: the match is over exactly when a
/// Life is zero or the last round is done, and then it is Won by the player with strictly
/// more Life, or Draw when both Lives are equal.
pub proof fn law_status_is_decided_by_life(pos: BaseRulesPosition)
    ensures
        (status_after_round_spec(pos) == MatchStatus::Playing) <==> (pos.players.at(
            PlayerId::P1,
        ).life > 0 && pos.players.at(PlayerId::P2).life > 0 && pos.rounds_played != 4),
        status_after_round_spec(pos) != MatchStatus::Playing ==> status_fits_lives(
            status_after_round_spec(pos),
            pos,
        ),
{
}

/// A round's report and next position carry that decision: whenever the round leaves the
/// match over, its status is Won by the player with strictly more Life, or Draw when both
/// Lives are equal; and a match that starts over is decided the same way.
pub proof fn law_over_match_is_decided_by_life(
    pos: BaseRulesPosition,
    input: BaseRulesRoundInput,
    prepared: ByPlayer<PreparedSelection>,
    post_round: ByPlayer<PostRoundPlan>,
    spec: BaseRulesMatchSpec,
)
    ensures
        commit_spec(pos, input, prepared, post_round) matches Ok((report, next)) ==> (
        next.status != MatchStatus::Playing ==> status_fits_lives(next.status, next)
            && report.status == next.status),
        initial_position_spec(spec).status != MatchStatus::Playing ==> status_fits_lives(
            initial_position_spec(spec).status,
            initial_position_spec(spec),
        ),
{
    let ctx = super::round::post_round_context_spec(input, prepared);
    let fought = super::round::combat_spec(pos, input, prepared);
    match apply_owner_post_round(
        fought,
        ctx,
        PlayerId::P1,
        post_round.at(PlayerId::P1),
        pos.latched.at(PlayerId::P1).count(),
    ) {
        Ok(after_p1) => match apply_owner_post_round(
            after_p1,
            ctx,
            PlayerId::P2,
            post_round.at(PlayerId::P2),
            pos.latched.at(PlayerId::P2).count(),
        ) {
            Ok(after_p2) => {
                let next = super::round::finish_spec(
                    after_p2,
                    pos.rounds_played,
                    ctx.winner,
                    prepared,
                );
                law_status_is_decided_by_life(next);
            },
            Err(_) => {},
        },
        Err(_) => {},
    }
}

/// A base-rules round fights as the rules say: each selected card's Attack is its Power
/// times the Pillz placed plus the free pill, its Damage is its own plus two under Fury; the
/// larger Attack wins, equal Attacks go to the lower card level and then to the first mover;
/// and, with no permanent latched, each player pays its Pillz plus three for Fury and the
/// loser loses the winner's Damage (never below zero) while the winner's Life stays.
#[verifier::rlimit(40)]
pub proof fn law_base_round_fights_by_attack(
    spec: BaseRulesMatchSpec,
    pos: BaseRulesPosition,
    input: BaseRulesRoundInput,
)
    ensures
        make_spec(spec, pos, input) matches Ok((report, next)) ==> {
            let s1 = input.selections.at(PlayerId::P1);
            let s2 = input.selections.at(PlayerId::P2);
            let c1 = spec.players.at(PlayerId::P1).hand@[s1.hand_index as int];
            let c2 = spec.players.at(PlayerId::P2).hand@[s2.hand_index as int];
            let r1 = report.cards.at(PlayerId::P1);
            let r2 = report.cards.at(PlayerId::P2);
            let p1_wins = r1.attack > r2.attack || (r1.attack == r2.attack && (c1.key.level
                < c2.key.level || (c1.key.level == c2.key.level && input.first_mover
                == PlayerId::P1)));
            let winner = if p1_wins {
                PlayerId::P1
            } else {
                PlayerId::P2
            };
            let dealt = report.cards.at(winner).damage;
            let loser_life = pos.players.at(winner.opp()).life;
            &&& r1.attack == c1.power * (s1.pillz + 1)
            &&& r2.attack == c2.power * (s2.pillz + 1)
            &&& r1.power == c1.power && r2.power == c2.power
            &&& r1.damage == c1.damage + (if s1.fury { 2int } else { 0int })
            &&& r2.damage == c2.damage + (if s2.fury { 2int } else { 0int })
            &&& r1.won == p1_wins
            &&& r2.won == !p1_wins
            &&& (pos.latched.at(PlayerId::P1).count() == 0 && pos.latched.at(PlayerId::P2).count()
                == 0) ==> {
                &&& next.players.at(PlayerId::P1).pillz == pos.players.at(PlayerId::P1).pillz
                    - s1.pillz - (if s1.fury { 3int } else { 0int })
                &&& next.players.at(PlayerId::P2).pillz == pos.players.at(PlayerId::P2).pillz
                    - s2.pillz - (if s2.fury { 3int } else { 0int })
                &&& next.players.at(winner).life == pos.players.at(winner).life
                &&& next.players.at(winner.opp()).life == if loser_life > dealt {
                    loser_life - dealt
                } else {
                    0
                }
            }
        },
{
    if pos.latched.at(PlayerId::P1).count() == 0 && pos.latched.at(PlayerId::P2).count() == 0 {
        law_effect_free_round(spec, pos, input);
    }
    match prepared_round_spec(spec, pos, input) {
        Ok(prepared) => {
            pos.latched.at(PlayerId::P1).lemma_items_len();
            pos.latched.at(PlayerId::P2).lemma_items_len();
            let ctx = super::round::post_round_context_spec(input, prepared);
            let fought = super::round::combat_spec(pos, input, prepared);
            let none = PostRoundPlan { ability: None, bonus: None };
            match apply_owner_post_round(
                fought,
                ctx,
                PlayerId::P1,
                none,
                pos.latched.at(PlayerId::P1).count(),
            ) {
                Ok(a1) => {
                    lemma_repeat_frame(
                        fought,
                        PlayerId::P1,
                        fought.latched.at(PlayerId::P1).items(),
                        pos.latched.at(PlayerId::P1).count(),
                        0,
                    );
                },
                Err(_) => {},
            }
        },
        Err(_) => {},
    }
}

/// A Defeat Pillz gain pays only a living loser: it leaves the position exactly as it was
/// when its owner won the round or is out, and otherwise raises the owner's Pillz by its
/// amount and touches nothing else (or reports the overflow).
pub proof fn law_defeat_pillz_gain_pays_only_a_living_loser(
    pos: BaseRulesPosition,
    ctx: PostRoundContext,
    owner: PlayerId,
    amount: u16,
)
    ensures
        (owner == ctx.winner || life_of(pos, owner) == 0) ==> apply_post_round_effect(
            pos,
            ctx,
            owner,
            PostRoundEffect::GainPillzOnDefeat(amount),
        ) == Ok::<BaseRulesPosition, BaseRulesError>(pos),
        (owner != ctx.winner && life_of(pos, owner) > 0) ==> match apply_post_round_effect(
            pos,
            ctx,
            owner,
            PostRoundEffect::GainPillzOnDefeat(amount),
        ) {
            Ok(next) => {
                &&& next.players.at(owner).pillz == pos.players.at(owner).pillz + amount
                &&& next.players.at(owner).life == pos.players.at(owner).life
                &&& next.players.at(owner.opp()) == pos.players.at(owner.opp())
                &&& same_frame(pos, next)
                &&& next.latched == pos.latched
            },
            Err(e) => e == BaseRulesError::PillzIncreaseOverflow { player: owner }
                && pos.players.at(owner).pillz + amount > u16::MAX,
        },
{
}

/// `next` is `pos` with only `player`'s Life and Pillz moved by `life` and `pillz`.
pub open spec fn moves_only(pos: BaseRulesPosition, next: BaseRulesPosition, player: PlayerId, life: int, pillz: int) -> bool {
    &&& next.players.at(player).life == pos.players.at(player).life + life
    &&& next.players.at(player).pillz == pos.players.at(player).pillz + pillz
    &&& next.players.at(player.opp()) == pos.players.at(player.opp())
    &&& same_frame(pos, next)
    &&& next.latched == pos.latched
}

/// What a floored cut leaves of `value`: a value at or under the floor stays, any other goes
/// down by `amount` but never under the floor.
pub open spec fn cut_to(value: u16, amount: u16, minimum: u16) -> int {
    if value <= minimum {
        value as int
    } else if value - amount < minimum {
        minimum as int
    } else {
        value - amount
    }
}

/// The plain outcome gains and cuts pay exactly their amount when their outcome comes: a
/// Victory Pillz gain raises a living winner's Pillz, a Victory Life gain the winner's Life,
/// a Defeat Life gain a living loser's Life, each by its amount and nothing else (or the
/// overflow is reported); the one-Pillz Victory-or-Defeat gain pays either way; and a
/// Victory cut of the opposing Life or Pillz takes the target down by its amount, never
/// under its floor, leaving a target already at or under the floor alone.
#[verifier::rlimit(40)]
pub proof fn law_outcome_work_pays_its_amount(
    pos: BaseRulesPosition,
    ctx: PostRoundContext,
    owner: PlayerId,
    amount: u16,
    minimum: u16,
)
    ensures
        ({
            let res = apply_post_round_effect(pos, ctx, owner, PostRoundEffect::GainPillzOnVictory(amount));
            owner == ctx.winner && life_of(pos, owner) > 0 ==> (res matches Ok(next) ==> moves_only(
                pos,
                next,
                owner,
                0,
                amount as int,
            )) && (pos.players.at(owner).pillz + amount <= u16::MAX ==> res is Ok)
        }),
        ({
            let res = apply_post_round_effect(pos, ctx, owner, PostRoundEffect::GainLifeOnVictory(amount));
            owner == ctx.winner ==> (res matches Ok(next) ==> moves_only(pos, next, owner, amount as int, 0))
                && (pos.players.at(owner).life + amount <= u16::MAX ==> res is Ok)
        }),
        ({
            let res = apply_post_round_effect(pos, ctx, owner, PostRoundEffect::GainLifeOnDefeat(amount));
            owner != ctx.winner && life_of(pos, owner) > 0 ==> (res matches Ok(next) ==> moves_only(
                pos,
                next,
                owner,
                amount as int,
                0,
            )) && (pos.players.at(owner).life + amount <= u16::MAX ==> res is Ok)
        }),
        ({
            let res = apply_post_round_effect(pos, ctx, owner, PostRoundEffect::GainOnePillzOnVictoryOrDefeat);
            (res matches Ok(next) ==> moves_only(pos, next, owner, 0, 1)) && (pos.players.at(
                owner,
            ).pillz < u16::MAX ==> res is Ok)
        }),
        ({
            let target = owner.opp();
            let old = pos.players.at(target).life;
            let res = apply_post_round_effect(
                pos,
                ctx,
                owner,
                PostRoundEffect::ReduceOpponentLifeOnVictory { life: amount, minimum },
            );
            owner == ctx.winner ==> (res matches Ok(next) && moves_only(
                pos,
                next,
                target,
                cut_to(old, amount, minimum) - old,
                0,
            ))
        }),
        ({
            let target = owner.opp();
            let old = pos.players.at(target).pillz;
            let res = apply_post_round_effect(
                pos,
                ctx,
                owner,
                PostRoundEffect::ReduceOpponentPillzOnVictory { pillz: amount, minimum },
            );
            owner == ctx.winner ==> (res matches Ok(next) && moves_only(
                pos,
                next,
                target,
                0,
                cut_to(old, amount, minimum) - old,
            ))
        }),
{
}

/// The Defeat cuts and the gains paid on any outcome move exactly what they name: a Defeat
/// cut takes the loser's opponent down by its amount, never under its floor; a Killshot
/// Pillz gain raises a living owner's Pillz when its Attack is at least double the opposing
/// one; a Defeat Pillz-and-Life gain raises a living loser's Pillz and Life by its amount;
/// a Victory-or-Defeat Life gain raises a living owner's Life; and a cut of both Lives takes
/// each down by its amount, neither under the floor.
#[verifier::rlimit(40)]
pub proof fn law_defeat_and_either_outcome_work_pays_its_amount(
    pos: BaseRulesPosition,
    ctx: PostRoundContext,
    owner: PlayerId,
    amount: u16,
    minimum: u16,
)
    ensures
        ({
            let target = owner.opp();
            let old = pos.players.at(target).life;
            let res = apply_post_round_effect(
                pos,
                ctx,
                owner,
                PostRoundEffect::ReduceOpponentLifeOnDefeat { life: amount, minimum },
            );
            owner != ctx.winner ==> (res matches Ok(next) && moves_only(
                pos,
                next,
                target,
                cut_to(old, amount, minimum) - old,
                0,
            ))
        }),
        ({
            let target = owner.opp();
            let old = pos.players.at(target).pillz;
            let res = apply_post_round_effect(
                pos,
                ctx,
                owner,
                PostRoundEffect::ReduceOpponentPillzOnDefeat { pillz: amount, minimum },
            );
            owner != ctx.winner ==> (res matches Ok(next) && moves_only(
                pos,
                next,
                target,
                0,
                cut_to(old, amount, minimum) - old,
            ))
        }),
        ({
            let res = apply_post_round_effect(pos, ctx, owner, PostRoundEffect::GainPillzOnKillshot(amount));
            &&& ctx.attack.at(owner) >= 2 * ctx.attack.at(owner.opp()) && life_of(pos, owner) > 0
                ==> (res matches Ok(next) ==> moves_only(pos, next, owner, 0, amount as int)) && (
            pos.players.at(owner).pillz + amount <= u16::MAX ==> res is Ok)
            &&& ctx.attack.at(owner) < 2 * ctx.attack.at(owner.opp()) ==> res
                == Ok::<BaseRulesPosition, BaseRulesError>(pos)
        }),
        ({
            let res = apply_post_round_effect(pos, ctx, owner, PostRoundEffect::GainPillzAndLifeOnDefeat(amount));
            owner != ctx.winner && life_of(pos, owner) > 0 ==> (res matches Ok(next) ==> moves_only(
                pos,
                next,
                owner,
                amount as int,
                amount as int,
            )) && (pos.players.at(owner).pillz + amount <= u16::MAX && pos.players.at(owner).life
                + amount <= u16::MAX ==> res is Ok)
        }),
        ({
            let res = apply_post_round_effect(
                pos,
                ctx,
                owner,
                PostRoundEffect::GainLifeOnVictoryOrDefeat { life: amount },
            );
            life_of(pos, owner) > 0 ==> (res matches Ok(next) ==> moves_only(
                pos,
                next,
                owner,
                amount as int,
                0,
            )) && (pos.players.at(owner).life + amount <= u16::MAX ==> res is Ok)
        }),
        ({
            let res = apply_post_round_effect(
                pos,
                ctx,
                owner,
                PostRoundEffect::ReduceBothPlayersLife { life: amount, minimum },
            );
            res matches Ok(next) && next.players.at(owner).life == cut_to(
                pos.players.at(owner).life,
                amount,
                minimum,
            ) && next.players.at(owner.opp()).life == cut_to(
                pos.players.at(owner.opp()).life,
                amount,
                minimum,
            ) && next.players.at(owner).pillz == pos.players.at(owner).pillz && next.players.at(
                owner.opp(),
            ).pillz == pos.players.at(owner.opp()).pillz && same_frame(pos, next) && next.latched
                == pos.latched
        }),
{
}

/// The end-of-round work that only a round's winner does.
pub open spec fn victory_only(effect: PostRoundEffect) -> bool {
    ||| effect is RecoverPaidPillzOnVictory
    ||| effect is GainOnePillzAndLifeOnVictory
    ||| effect is GainLifeEqualToFinalDamageOnCourageVictory
    ||| effect is GainLifeOnVictory
    ||| effect is GainPillzOnVictory
    ||| effect is GainPillzOnVictoryMax
    ||| effect is ReduceOpponentPillzOnVictory
    ||| effect is GainPillzEqualToFinalDamageOnVictory
    ||| effect is GainLifePerFinalDamageOnVictory
    ||| effect is GainLifePerOpponentFinalDamageOnVictory
    ||| effect is ReduceOpponentLifeOnVictory
    ||| effect is LatchOnVictory
    ||| effect is GainPillzAndLifeOnVictory
    ||| effect is ReduceOpponentPillzAndLifeOnVictory
    ||| effect is ReduceOwnLifeOnVictory
}

/// The end-of-round work that only a round's loser does.
pub open spec fn defeat_only(effect: PostRoundEffect) -> bool {
    ||| effect is RecoverPaidPillzOnDefeat
    ||| effect is GainTwoPillzOnDefeatMaxEleven
    ||| effect is ReduceOpponentPillzOnDefeat
    ||| effect is GainLifeOnDefeat
    ||| effect is ReanimateLife
    ||| effect is ReduceOpponentLifeOnDefeat
    ||| effect is LatchOnDefeat
    ||| effect is GainPillzOnDefeat
    ||| effect is GainPillzAndLifeOnDefeat
    ||| effect is GainLifeOnDefeatMax
    ||| effect is GainOpponentPillzOnDefeat
}

/// Victory work does nothing for a loser and Defeat work nothing for a winner: each leaves
/// the position exactly as it was on the other outcome.
#[verifier::rlimit(40)]
pub proof fn law_outcome_work_waits_for_its_outcome(
    pos: BaseRulesPosition,
    ctx: PostRoundContext,
    owner: PlayerId,
    effect: PostRoundEffect,
)
    ensures
        victory_only(effect) && owner != ctx.winner ==> apply_post_round_effect(
            pos,
            ctx,
            owner,
            effect,
        ) == Ok::<BaseRulesPosition, BaseRulesError>(pos),
        defeat_only(effect) && owner == ctx.winner ==> apply_post_round_effect(
            pos,
            ctx,
            owner,
            effect,
        ) == Ok::<BaseRulesPosition, BaseRulesError>(pos),
{
}

} // verus!
