//! Base-rules rounds: validation, combat, the atomic commit and its exact undo.

use super::post_round::{
    apply_owner_post_round, owner_post_round, plan_well_formed, PostRoundContext, PostRoundPlan,
};
use super::{
    BaseRulesCardResult, BaseRulesCardSpec, BaseRulesError, BaseRulesMatchSpec,
    BaseRulesPlayerState, BaseRulesPosition, BaseRulesRoundInput, BaseRulesRoundReport,
    BaseRulesSelection, BaseRulesUndo, ByPlayer, HandSlot, LatchedEffectsV1, MatchStatus,
    PlayerId, FURY_COST, FURY_DAMAGE, MAX_ROUNDS,
};
use vstd::prelude::*;

verus! {

broadcast use {vstd::array::group_array_axioms, super::group_hand_slot};

/// A selection checked against the position: its slot, its cost and the card it plays.
#[derive(Clone, Copy, Debug, PartialEq, Eq)]
pub struct ValidatedSelection {
    pub slot: HandSlot,
    pub cost: u16,
    pub card: BaseRulesCardSpec,
    pub selection: BaseRulesSelection,
}

/// A validated selection with its combat result computed.
#[derive(Clone, Copy, Debug, PartialEq, Eq)]
pub struct PreparedSelection {
    pub slot: HandSlot,
    pub cost: u16,
    pub card: BaseRulesCardSpec,
    pub result: BaseRulesCardResult,
}

/// The error that forbids any round in `pos`, if one does.
pub open spec fn round_state_error(pos: BaseRulesPosition) -> Option<BaseRulesError> {
    if pos.rounds_played >= MAX_ROUNDS {
        Some(BaseRulesError::RoundLimitReached { rounds_played: pos.rounds_played })
    } else if pos.status != MatchStatus::Playing {
        Some(BaseRulesError::MatchFinished { status: pos.status })
    } else {
        None
    }
}

pub open spec fn fury_cost(fury: bool) -> u16 {
    if fury {
        FURY_COST
    } else {
        0
    }
}

/// What one player's selection costs or why it is refused.
pub open spec fn validate_player_spec(
    spec: BaseRulesMatchSpec,
    pos: BaseRulesPosition,
    input: BaseRulesRoundInput,
    player: PlayerId,
) -> Result<ValidatedSelection, BaseRulesError> {
    let selection = input.selections.at(player);
    let index = selection.hand_index;
    let cost: int = selection.pillz + fury_cost(selection.fury);
    let available = pos.players.at(player).pillz;
    if index >= 4 {
        Err(BaseRulesError::InvalidHandSlot { player, hand_index: index })
    } else if pos.played.at(player)@[index as int] {
        Err(BaseRulesError::CardAlreadyPlayed { player, hand_slot: HandSlot::spec_slot(index) })
    } else if cost > u16::MAX {
        Err(BaseRulesError::CostOverflow { player })
    } else if cost > available {
        Err(
            BaseRulesError::InsufficientPillz { player, available, required: cost as u16 },
        )
    } else {
        Ok(
            ValidatedSelection {
                slot: HandSlot::spec_slot(index),
                cost: cost as u16,
                card: spec.players.at(player).hand@[index as int],
                selection,
            },
        )
    }
}

/// The selected card's base-rules combat result: Attack is Power times the Pillz placed
/// (the free pill included), Damage gains Fury's two.
pub open spec fn prepare_spec(player: PlayerId, selected: ValidatedSelection) -> Result<
    PreparedSelection,
    BaseRulesError,
> {
    let attack: int = selected.card.power * (selected.selection.pillz + 1);
    let damage: int = selected.card.damage + if selected.selection.fury {
        FURY_DAMAGE
    } else {
        0
    };
    if attack > u32::MAX {
        Err(BaseRulesError::AttackOverflow { player })
    } else if damage > u16::MAX {
        Err(BaseRulesError::DamageOverflow { player })
    } else {
        Ok(
            PreparedSelection {
                slot: selected.slot,
                cost: selected.cost,
                card: selected.card,
                result: BaseRulesCardResult {
                    key: selected.card.key,
                    hand_slot: selected.slot,
                    power: selected.card.power,
                    damage: damage as u16,
                    attack: attack as u32,
                    won: false,
                },
            },
        )
    }
}

/// The larger attack wins; equal attacks go to the lower card level, then to the first
/// mover.
pub open spec fn round_winner_spec(first_mover: PlayerId, prepared: ByPlayer<PreparedSelection>) -> PlayerId {
    let p1 = prepared.at(PlayerId::P1);
    let p2 = prepared.at(PlayerId::P2);
    if p1.result.attack > p2.result.attack {
        PlayerId::P1
    } else if p1.result.attack < p2.result.attack {
        PlayerId::P2
    } else if p1.card.key.level < p2.card.key.level {
        PlayerId::P1
    } else if p1.card.key.level > p2.card.key.level {
        PlayerId::P2
    } else {
        first_mover
    }
}

/// The status a pair of Life totals decides once the match is over.
pub open spec fn decided_status(p1: u16, p2: u16) -> MatchStatus {
    if p1 > p2 {
        MatchStatus::Won(PlayerId::P1)
    } else if p1 < p2 {
        MatchStatus::Won(PlayerId::P2)
    } else {
        MatchStatus::Draw
    }
}

/// A knockout or the last round ends the match; the higher Life wins.
pub open spec fn status_after_round_spec(pos: BaseRulesPosition) -> MatchStatus {
    let p1 = pos.players.at(PlayerId::P1).life;
    let p2 = pos.players.at(PlayerId::P2).life;
    if p1 == 0 || p2 == 0 || pos.rounds_played == MAX_ROUNDS {
        decided_status(p1, p2)
    } else {
        MatchStatus::Playing
    }
}

pub open spec fn initial_status_spec(players: ByPlayer<BaseRulesPlayerState>) -> MatchStatus {
    let p1 = players.at(PlayerId::P1).life;
    let p2 = players.at(PlayerId::P2).life;
    if p1 != 0 && p2 != 0 {
        MatchStatus::Playing
    } else {
        decided_status(p1, p2)
    }
}

/// Whether a prepared pair can be committed in `pos`.
pub open spec fn commit_ready(pos: BaseRulesPosition, prepared: ByPlayer<PreparedSelection>) -> bool {
    &&& pos.rounds_played < MAX_ROUNDS
    &&& prepared.at(PlayerId::P1).cost <= pos.players.at(PlayerId::P1).pillz
    &&& prepared.at(PlayerId::P2).cost <= pos.players.at(PlayerId::P2).pillz
}

/// `pos` after one player paid the selection and marked the card played.
pub open spec fn pay_spec(pos: BaseRulesPosition, player: PlayerId, selected: PreparedSelection) -> BaseRulesPosition {
    let state = pos.players.at(player);
    BaseRulesPosition {
        players: pos.players.with(
            player,
            BaseRulesPlayerState { life: state.life, pillz: (state.pillz - selected.cost) as u16 },
        ),
        played: pos.played.with(
            player,
            played_with(pos.played.at(player), selected.slot.value()),
        ),
        ..pos
    }
}

/// The played flags with `slot` set.
pub open spec fn played_with(flags: [bool; 4], slot: u8) -> [bool; 4] {
    let s = flags@.update(slot as int, true);
    [s[0], s[1], s[2], s[3]]
}

pub open spec fn post_round_context_spec(input: BaseRulesRoundInput, prepared: ByPlayer<PreparedSelection>) -> PostRoundContext {
    let p1 = prepared.at(PlayerId::P1).result;
    let p2 = prepared.at(PlayerId::P2).result;
    PostRoundContext {
        winner: round_winner_spec(input.first_mover, prepared),
        first_mover: input.first_mover,
        damage: ByPlayer::pair(p1.damage, p2.damage),
        attack: ByPlayer::pair(p1.attack, p2.attack),
        cost: ByPlayer::pair(prepared.at(PlayerId::P1).cost, prepared.at(PlayerId::P2).cost),
    }
}

/// Costs paid, cards marked, and the winner's Damage taken from the loser's Life.
pub open spec fn combat_spec(pos: BaseRulesPosition, input: BaseRulesRoundInput, prepared: ByPlayer<PreparedSelection>) -> BaseRulesPosition {
    let paid = pay_spec(
        pay_spec(pos, PlayerId::P1, prepared.at(PlayerId::P1)),
        PlayerId::P2,
        prepared.at(PlayerId::P2),
    );
    let winner = round_winner_spec(input.first_mover, prepared);
    let loser = winner.opp();
    let loser_life = paid.players.at(loser).life;
    let damage = prepared.at(winner).result.damage;
    let life: u16 = if loser_life > damage {
        (loser_life - damage) as u16
    } else {
        0
    };
    BaseRulesPosition {
        players: paid.players.with(
            loser,
            BaseRulesPlayerState { life, pillz: paid.players.at(loser).pillz },
        ),
        ..paid
    }
}

/// The completed round's bookkeeping: count, winner, slots, status.
pub open spec fn finish_spec(
    pos: BaseRulesPosition,
    rounds_before: u8,
    winner: PlayerId,
    prepared: ByPlayer<PreparedSelection>,
) -> BaseRulesPosition {
    let counted = BaseRulesPosition {
        rounds_played: (rounds_before + 1) as u8,
        previous_round_winner: Some(winner),
        previous_round_slots: ByPlayer::pair(
            Some(prepared.at(PlayerId::P1).slot),
            Some(prepared.at(PlayerId::P2).slot),
        ),
        ..pos
    };
    BaseRulesPosition { status: status_after_round_spec(counted), ..counted }
}

pub open spec fn won_result(result: BaseRulesCardResult, won: bool) -> BaseRulesCardResult {
    BaseRulesCardResult { won, ..result }
}

pub open spec fn report_spec(
    pos: BaseRulesPosition,
    input: BaseRulesRoundInput,
    prepared: ByPlayer<PreparedSelection>,
    next: BaseRulesPosition,
) -> BaseRulesRoundReport {
    let winner = round_winner_spec(input.first_mover, prepared);
    BaseRulesRoundReport {
        round: pos.rounds_played,
        first_mover: input.first_mover,
        selections: input.selections,
        cards: ByPlayer::pair(
            won_result(prepared.at(PlayerId::P1).result, winner == PlayerId::P1),
            won_result(prepared.at(PlayerId::P2).result, winner == PlayerId::P2),
        ),
        players: next.players,
        status: next.status,
    }
}

/// The whole commit: combat, P1's end-of-round work, P2's, then the bookkeeping.
pub open spec fn commit_spec(
    pos: BaseRulesPosition,
    input: BaseRulesRoundInput,
    prepared: ByPlayer<PreparedSelection>,
    post_round: ByPlayer<PostRoundPlan>,
) -> Result<(BaseRulesRoundReport, BaseRulesPosition), BaseRulesError> {
    let ctx = post_round_context_spec(input, prepared);
    let fought = combat_spec(pos, input, prepared);
    match apply_owner_post_round(
        fought,
        ctx,
        PlayerId::P1,
        post_round.at(PlayerId::P1),
        pos.latched.at(PlayerId::P1).count(),
    ) {
        Err(e) => Err(e),
        Ok(after_p1) => match apply_owner_post_round(
            after_p1,
            ctx,
            PlayerId::P2,
            post_round.at(PlayerId::P2),
            pos.latched.at(PlayerId::P2).count(),
        ) {
            Err(e) => Err(e),
            Ok(after_p2) => {
                let next = finish_spec(after_p2, pos.rounds_played, ctx.winner, prepared);
                Ok((report_spec(pos, input, prepared, next), next))
            },
        },
    }
}

/// Both players validated and prepared, P1 completely before P2.
pub open spec fn prepared_round_spec(
    spec: BaseRulesMatchSpec,
    pos: BaseRulesPosition,
    input: BaseRulesRoundInput,
) -> Result<ByPlayer<PreparedSelection>, BaseRulesError> {
    match round_state_error(pos) {
        Some(e) => Err(e),
        None => match validate_player_spec(spec, pos, input, PlayerId::P1) {
            Err(e) => Err(e),
            Ok(v1) => match prepare_spec(PlayerId::P1, v1) {
                Err(e) => Err(e),
                Ok(p1) => match validate_player_spec(spec, pos, input, PlayerId::P2) {
                    Err(e) => Err(e),
                    Ok(v2) => match prepare_spec(PlayerId::P2, v2) {
                        Err(e) => Err(e),
                        Ok(p2) => Ok(ByPlayer::pair(p1, p2)),
                    },
                },
            },
        },
    }
}

/// One base-rules round from `pos`: the report and the next position, or the error.
pub open spec fn make_spec(spec: BaseRulesMatchSpec, pos: BaseRulesPosition, input: BaseRulesRoundInput) -> Result<
    (BaseRulesRoundReport, BaseRulesPosition),
    BaseRulesError,
> {
    match prepared_round_spec(spec, pos, input) {
        Err(e) => Err(e),
        Ok(prepared) => commit_spec(
            pos,
            input,
            prepared,
            ByPlayer::pair(PostRoundPlan::spec_none(), PostRoundPlan::spec_none()),
        ),
    }
}

/// The round-state check, then both selections validated, P1 before P2.
pub open spec fn validated_round_spec(
    spec: BaseRulesMatchSpec,
    pos: BaseRulesPosition,
    input: BaseRulesRoundInput,
) -> Result<ByPlayer<ValidatedSelection>, BaseRulesError> {
    match round_state_error(pos) {
        Some(e) => Err(e),
        None => match validate_player_spec(spec, pos, input, PlayerId::P1) {
            Err(e) => Err(e),
            Ok(v1) => match validate_player_spec(spec, pos, input, PlayerId::P2) {
                Err(e) => Err(e),
                Ok(v2) => Ok(ByPlayer::pair(v1, v2)),
            },
        },
    }
}

/// The initial position of a match.
pub open spec fn initial_position_spec(spec: BaseRulesMatchSpec) -> BaseRulesPosition {
    let players = ByPlayer::pair(
        BaseRulesPlayerState {
            life: spec.players.at(PlayerId::P1).initial_life,
            pillz: spec.players.at(PlayerId::P1).initial_pillz,
        },
        BaseRulesPlayerState {
            life: spec.players.at(PlayerId::P2).initial_life,
            pillz: spec.players.at(PlayerId::P2).initial_pillz,
        },
    );
    BaseRulesPosition {
        players,
        played: ByPlayer::pair([false, false, false, false], [false, false, false, false]),
        rounds_played: 0,
        previous_round_winner: None,
        previous_round_slots: ByPlayer::pair(None, None),
        latched: ByPlayer::pair(LatchedEffectsV1::spec_empty(), LatchedEffectsV1::spec_empty()),
        status: initial_status_spec(players),
    }
}

/// The effect-free base rules game.
#[derive(Clone, Debug, PartialEq, Eq)]
pub struct BaseRulesGame {
    spec: BaseRulesMatchSpec,
    position: BaseRulesPosition,
}

impl BaseRulesGame {
    pub closed spec fn spec_view(self) -> BaseRulesMatchSpec {
        self.spec
    }

    pub closed spec fn position_view(self) -> BaseRulesPosition {
        self.position
    }

    pub fn new(spec: BaseRulesMatchSpec) -> (game: Self)
        ensures
            game.spec_view() == spec,
            game.position_view() == initial_position_spec(spec),
            game.position_view().latched == ByPlayer::pair(
                LatchedEffectsV1::spec_empty(),
                LatchedEffectsV1::spec_empty(),
            ),
    {
        let p1 = *spec.players.get(PlayerId::P1);
        let p2 = *spec.players.get(PlayerId::P2);
        let players = ByPlayer::new(
            BaseRulesPlayerState { life: p1.initial_life, pillz: p1.initial_pillz },
            BaseRulesPlayerState { life: p2.initial_life, pillz: p2.initial_pillz },
        );
        let status = initial_status(&players);
        let game = BaseRulesGame {
            spec,
            position: BaseRulesPosition {
                players,
                played: ByPlayer::new([false, false, false, false], [false, false, false, false]),
                rounds_played: 0,
                previous_round_winner: None,
                previous_round_slots: ByPlayer::new(None, None),
                latched: ByPlayer::new(LatchedEffectsV1::empty(), LatchedEffectsV1::empty()),
                status,
            },
        };
        game
    }

    pub fn spec(&self) -> (r: &BaseRulesMatchSpec)
        ensures
            *r == self.spec_view(),
    {
        &self.spec
    }

    pub fn position(&self) -> (r: &BaseRulesPosition)
        ensures
            *r == self.position_view(),
    {
        &self.position
    }

    /// Play one round. On success the position advances and the token restores the old
    /// one; on failure nothing changes.
    pub fn make(&mut self, input: BaseRulesRoundInput) -> (r: Result<
        (BaseRulesRoundReport, BaseRulesUndo),
        BaseRulesError,
    >)
        ensures
            final(self).spec_view() == old(self).spec_view(),
            match make_spec(old(self).spec_view(), old(self).position_view(), input) {
                Ok((report, next)) => r matches Ok((rep, undo)) && rep == report
                    && final(self).position_view() == next && undo.before_view() == old(
                    self,
                ).position_view(),
                Err(e) => r == Err::<(BaseRulesRoundReport, BaseRulesUndo), BaseRulesError>(e)
                    && final(self).position_view() == old(self).position_view(),
            },
            final(self).position_view().latched == old(self).position_view().latched,
    {
        proof {
            super::laws::law_base_round_keeps_latches(
                self.spec_view(),
                self.position_view(),
                input,
            );
        }
        let prepared = match self.prepare_round(input) {
            Ok(p) => p,
            Err(e) => return Err(e),
        };
        self.commit(input, prepared, ByPlayer::new(PostRoundPlan::none(), PostRoundPlan::none()))
    }

    /// Return to the position `undo` was taken from.
    pub fn unmake(&mut self, undo: BaseRulesUndo)
        ensures
            final(self).spec_view() == old(self).spec_view(),
            final(self).position_view() == undo.before_view(),
    {
        self.position = undo.into_position();
    }

    /// Validate and prepare both selections, P1 completely before P2.
    pub(crate) fn prepare_round(&self, input: BaseRulesRoundInput) -> (r: Result<
        ByPlayer<PreparedSelection>,
        BaseRulesError,
    >)
        ensures
            r == prepared_round_spec(self.spec_view(), self.position_view(), input),
            r matches Ok(prepared) ==> commit_ready(self.position_view(), prepared),
    {
        if let Some(e) = self.check_round_state() {
            return Err(e);
        }
        let v1 = match self.validate_player(input, PlayerId::P1) {
            Ok(v) => v,
            Err(e) => return Err(e),
        };
        let p1 = match prepare_base_rules_selection(PlayerId::P1, v1) {
            Ok(p) => p,
            Err(e) => return Err(e),
        };
        let v2 = match self.validate_player(input, PlayerId::P2) {
            Ok(v) => v,
            Err(e) => return Err(e),
        };
        let p2 = match prepare_base_rules_selection(PlayerId::P2, v2) {
            Ok(p) => p,
            Err(e) => return Err(e),
        };
        Ok(ByPlayer::new(p1, p2))
    }

    /// Apply a prepared round and its end-of-round plans atomically: the work is done on
    /// a replacement position that only replaces the current one once everything fits.
    pub(crate) fn commit(
        &mut self,
        input: BaseRulesRoundInput,
        prepared: ByPlayer<PreparedSelection>,
        post_round: ByPlayer<PostRoundPlan>,
    ) -> (r: Result<(BaseRulesRoundReport, BaseRulesUndo), BaseRulesError>)
        requires
            commit_ready(old(self).position_view(), prepared),
            plan_well_formed(post_round.at(PlayerId::P1)),
            plan_well_formed(post_round.at(PlayerId::P2)),
        ensures
            final(self).spec_view() == old(self).spec_view(),
            match commit_spec(old(self).position_view(), input, prepared, post_round) {
                Ok((report, next)) => r matches Ok((rep, undo)) && rep == report
                    && final(self).position_view() == next && undo.before_view() == old(
                    self,
                ).position_view(),
                Err(e) => r == Err::<(BaseRulesRoundReport, BaseRulesUndo), BaseRulesError>(e)
                    && final(self).position_view() == old(self).position_view(),
            },
    {
        let start = self.position;
        let mut position = self.position;
        position = pay(position, PlayerId::P1, *prepared.get(PlayerId::P1));
        position = pay(position, PlayerId::P2, *prepared.get(PlayerId::P2));
        let winner = round_winner(input.first_mover, &prepared);
        let loser = winner.other();
        let damage = prepared.get(winner).result.damage;
        let loser_state = *position.players.get(loser);
        let life: u16 = if loser_state.life > damage {
            loser_state.life - damage
        } else {
            0
        };
        position.players.set(loser, BaseRulesPlayerState { life, pillz: loser_state.pillz });
        assert(position == combat_spec(start, input, prepared));
        let p1 = prepared.get(PlayerId::P1).result;
        let p2 = prepared.get(PlayerId::P2).result;
        let ctx = PostRoundContext {
            winner,
            first_mover: input.first_mover,
            damage: ByPlayer::new(p1.damage, p2.damage),
            attack: ByPlayer::new(p1.attack, p2.attack),
            cost: ByPlayer::new(prepared.get(PlayerId::P1).cost, prepared.get(PlayerId::P2).cost),
        };
        assert(ctx == post_round_context_spec(input, prepared));
        let before_p1 = start.latched.get(PlayerId::P1).len();
        let before_p2 = start.latched.get(PlayerId::P2).len();
        let after_p1 = match owner_post_round(
            position,
            ctx,
            PlayerId::P1,
            *post_round.get(PlayerId::P1),
            before_p1,
        ) {
            Ok(p) => p,
            Err(e) => return Err(e),
        };
        let after_p2 = match owner_post_round(
            after_p1,
            ctx,
            PlayerId::P2,
            *post_round.get(PlayerId::P2),
            before_p2,
        ) {
            Ok(p) => p,
            Err(e) => return Err(e),
        };
        let mut next = after_p2;
        next.rounds_played = start.rounds_played + 1;
        next.previous_round_winner = Some(winner);
        next.previous_round_slots = ByPlayer::new(
            Some(prepared.get(PlayerId::P1).slot),
            Some(prepared.get(PlayerId::P2).slot),
        );
        next.status = status_after_round(&next);
        let undo = BaseRulesUndo::from_position(start);
        self.position = next;
        let mut c1 = p1;
        c1.won = winner == PlayerId::P1;
        let mut c2 = p2;
        c2.won = winner == PlayerId::P2;
        let report = BaseRulesRoundReport {
            round: start.rounds_played,
            first_mover: input.first_mover,
            selections: input.selections,
            cards: ByPlayer::new(c1, c2),
            players: next.players,
            status: next.status,
        };
        Ok((report, undo))
    }

    /// The round-state check, then both selections validated, P1 before P2.
    pub(crate) fn validate_round(&self, input: BaseRulesRoundInput) -> (r: Result<
        ByPlayer<ValidatedSelection>,
        BaseRulesError,
    >)
        ensures
            r == validated_round_spec(self.spec_view(), self.position_view(), input),
            r matches Ok(v) ==> self.position_view().rounds_played < MAX_ROUNDS && v.at(
                PlayerId::P1,
            ).cost <= self.position_view().players.at(PlayerId::P1).pillz && v.at(
                PlayerId::P2,
            ).cost <= self.position_view().players.at(PlayerId::P2).pillz,
    {
        if let Some(e) = self.check_round_state() {
            return Err(e);
        }
        let v1 = match self.validate_player(input, PlayerId::P1) {
            Ok(v) => v,
            Err(e) => return Err(e),
        };
        let v2 = match self.validate_player(input, PlayerId::P2) {
            Ok(v) => v,
            Err(e) => return Err(e),
        };
        Ok(ByPlayer::new(v1, v2))
    }

    fn check_round_state(&self) -> (r: Option<BaseRulesError>)
        ensures
            r == round_state_error(self.position_view()),
    {
        if self.position.rounds_played >= MAX_ROUNDS {
            return Some(
                BaseRulesError::RoundLimitReached { rounds_played: self.position.rounds_played },
            );
        }
        match self.position.status {
            MatchStatus::Playing => None,
            status => Some(BaseRulesError::MatchFinished { status }),
        }
    }

    fn validate_player(&self, input: BaseRulesRoundInput, player: PlayerId) -> (r: Result<
        ValidatedSelection,
        BaseRulesError,
    >)
        ensures
            r == validate_player_spec(self.spec_view(), self.position_view(), input, player),
            r matches Ok(v) ==> v.cost <= self.position_view().players.at(player).pillz,
    {
        let selection = *input.selections.get(player);
        let slot = match HandSlot::try_from_index(selection.hand_index) {
            Ok(slot) => slot,
            Err(_) => {
                return Err(
                    BaseRulesError::InvalidHandSlot { player, hand_index: selection.hand_index },
                );
            },
        };
        let played = *self.position.played.get(player);
        if played[slot.index()] {
            return Err(BaseRulesError::CardAlreadyPlayed { player, hand_slot: slot });
        }
        let fury: u16 = if selection.fury {
            FURY_COST
        } else {
            0
        };
        let cost = match selection.pillz.checked_add(fury) {
            Some(c) => c,
            None => return Err(BaseRulesError::CostOverflow { player }),
        };
        let available = self.position.players.get(player).pillz;
        if cost > available {
            return Err(BaseRulesError::InsufficientPillz { player, available, required: cost });
        }
        let card = self.spec.players.get(player).hand[slot.index()];
        Ok(ValidatedSelection { slot, cost, card, selection })
    }
}

pub(crate) fn prepare_base_rules_selection(player: PlayerId, selected: ValidatedSelection) -> (r: Result<
    PreparedSelection,
    BaseRulesError,
>)
    ensures
        r == prepare_spec(player, selected),
        r matches Ok(p) ==> p.cost == selected.cost && p.slot == selected.slot,
{
    let pills = selected.selection.pillz as u32 + 1;
    let attack = match (selected.card.power as u32).checked_mul(pills) {
        Some(a) => a,
        None => return Err(BaseRulesError::AttackOverflow { player }),
    };
    let fury: u16 = if selected.selection.fury {
        FURY_DAMAGE
    } else {
        0
    };
    let damage = match selected.card.damage.checked_add(fury) {
        Some(d) => d,
        None => return Err(BaseRulesError::DamageOverflow { player }),
    };
    Ok(
        PreparedSelection {
            slot: selected.slot,
            cost: selected.cost,
            card: selected.card,
            result: BaseRulesCardResult {
                key: selected.card.key,
                hand_slot: selected.slot,
                power: selected.card.power,
                damage,
                attack,
                won: false,
            },
        },
    )
}

fn pay(pos: BaseRulesPosition, player: PlayerId, selected: PreparedSelection) -> (r: BaseRulesPosition)
    requires
        selected.cost <= pos.players.at(player).pillz,
    ensures
        r == pay_spec(pos, player, selected),
{
    let mut next = pos;
    let state = *pos.players.get(player);
    next.players.set(player, BaseRulesPlayerState { life: state.life, pillz: state.pillz - selected.cost });
    let mut flags = *pos.played.get(player);
    let ghost old_flags = flags;
    flags[selected.slot.index()] = true;
    assert(flags =~= played_with(old_flags, selected.slot.value()));
    next.played.set(player, flags);
    next
}

fn round_winner(first_mover: PlayerId, prepared: &ByPlayer<PreparedSelection>) -> (w: PlayerId)
    ensures
        w == round_winner_spec(first_mover, *prepared),
{
    let p1 = *prepared.get(PlayerId::P1);
    let p2 = *prepared.get(PlayerId::P2);
    if p1.result.attack > p2.result.attack {
        PlayerId::P1
    } else if p1.result.attack < p2.result.attack {
        PlayerId::P2
    } else if p1.card.key.level < p2.card.key.level {
        PlayerId::P1
    } else if p1.card.key.level > p2.card.key.level {
        PlayerId::P2
    } else {
        first_mover
    }
}

fn decided(p1: u16, p2: u16) -> (s: MatchStatus)
    ensures
        s == decided_status(p1, p2),
{
    if p1 > p2 {
        MatchStatus::Won(PlayerId::P1)
    } else if p1 < p2 {
        MatchStatus::Won(PlayerId::P2)
    } else {
        MatchStatus::Draw
    }
}

fn status_after_round(position: &BaseRulesPosition) -> (s: MatchStatus)
    ensures
        s == status_after_round_spec(*position),
{
    let p1 = position.players.get(PlayerId::P1).life;
    let p2 = position.players.get(PlayerId::P2).life;
    if p1 == 0 || p2 == 0 || position.rounds_played == MAX_ROUNDS {
        decided(p1, p2)
    } else {
        MatchStatus::Playing
    }
}

fn initial_status(players: &ByPlayer<BaseRulesPlayerState>) -> (s: MatchStatus)
    ensures
        s == initial_status_spec(*players),
{
    let p1 = players.get(PlayerId::P1).life;
    let p2 = players.get(PlayerId::P2).life;
    if p1 != 0 && p2 != 0 {
        MatchStatus::Playing
    } else {
        decided(p1, p2)
    }
}

} // verus!
