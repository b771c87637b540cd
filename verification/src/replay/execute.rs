//! Replay execution for the effects-disabled base-rules engine. A capture's expected outputs
//! are assertion targets only: the match and every round input come from source identity,
//! canonical card data and the submitted selections.

use super::text::{
    bool_text, bracketed, count_text, decimal, flag_text_spec, engine_name, engine_text_spec, indexed_text,
    joined_text, player_name, player_text_spec, side_name, side_text_spec, twice_indexed_text,
    two_numbers_text,
};
use super::model::{
    EnginePlayer, ExpectedCardResult, ReplayCard, ReplayCaseV1, ReplayPlay, ReplayPlayer,
    ReplayRound, SourceSide, REPLAY_SCHEMA_VERSION,
};
use crate::card::CardKey;
use crate::catalog::{lookup, CanonicalCard, CardCatalog};
use crate::engine::round::{initial_position_spec, make_spec, played_with};
use crate::engine::{
    BaseRulesCardResult, BaseRulesCardSpec, BaseRulesError, BaseRulesGame, BaseRulesMatchSpec,
    BaseRulesPlayerSpec, BaseRulesPosition, BaseRulesRoundInput, BaseRulesRoundReport,
    BaseRulesSelection, ByPlayer, PlayerId, MAX_ROUNDS,
};
use vstd::prelude::*;

verus! {

broadcast use {vstd::array::group_array_axioms, vstd::string::group_string_axioms};

/// A replay the engines refuse to run, with the field at fault.
#[derive(Clone, Debug, PartialEq, Eq)]
pub struct ReplayValidationError {
    pub battle_id: u64,
    pub field: String,
    pub detail: String,
}

/// What is wrong with a replay, first fault first.
#[derive(Clone, Copy, Debug, PartialEq, Eq, Structural)]
pub enum ReplayValidationFailure {
    SchemaVersion { found: u16 },
    RoundCount { found: usize },
    EnginePlayer { player: PlayerId, found: EnginePlayer },
    PlayerSourceSide { player: PlayerId, expected: SourceSide, found: SourceSide },
    HandIndex { player: PlayerId, index: u8, found: u8 },
    UnknownCard { player: PlayerId, index: u8, key: CardKey },
    RoundNumber { round: u8, found: u8 },
    FirstMover { found: PlayerId },
    RoundSourceFirstSide { round: u8, mover: PlayerId, expected: SourceSide, found: SourceSide },
    PlayEnginePlayer { round: u8, play: u8, expected: PlayerId, found: PlayerId },
    PlaySourceSide { round: u8, play: u8, expected: SourceSide, found: SourceSide },
    PlayHandIndex { round: u8, play: u8, found: u8 },
    PlayCard { round: u8, play: u8, expected: CardKey, found: CardKey },
    SlotAlreadyPlayed { round: u8, play: u8, player: PlayerId, slot: u8 },
    FreePillOverflow { round: u8, play: u8 },
    SourcePillzUsed { round: u8, play: u8, expected: u16, found: u16 },
}

/// The round a replay error is about.
#[derive(Clone, Copy, Debug, PartialEq, Eq)]
pub struct BaseRulesReplayRoundContext {
    pub battle_id: u64,
    pub round: u8,
    pub cards: ByPlayer<CardKey>,
    pub selections: ByPlayer<BaseRulesSelection>,
    pub first_mover: PlayerId,
}

#[derive(Clone, Debug, PartialEq, Eq)]
pub enum BaseRulesReplayError {
    PrefixOutOfRange { battle_id: u64, requested: usize, available: usize },
    Engine { context: BaseRulesReplayRoundContext, source: BaseRulesError },
    Mismatch {
        context: BaseRulesReplayRoundContext,
        field: String,
        expected: String,
        actual: String,
    },
}

/// The outputs of a replay a round asserts, each for one player.
#[derive(Clone, Copy, Debug, PartialEq, Eq, Structural)]
pub enum ReplayRoundField {
    Life(PlayerId),
    Pillz(PlayerId),
    Power(PlayerId),
    Damage(PlayerId),
    Attack(PlayerId),
    Won(PlayerId),
}

/// Why a replay run stops.
#[derive(Clone, Copy, Debug, PartialEq, Eq)]
pub enum ReplayStepError {
    Engine { context: BaseRulesReplayRoundContext, source: BaseRulesError },
    Mismatch {
        context: BaseRulesReplayRoundContext,
        field: ReplayRoundField,
        expected: ReplayRound,
        actual: BaseRulesRoundReport,
    },
}

/// A validated replay with the canonical inputs of its effects-disabled match.
#[derive(Clone, Debug)]
pub struct BaseRulesReplay {
    replay: ReplayCaseV1,
    match_spec: BaseRulesMatchSpec,
}

#[derive(Clone, Debug, PartialEq, Eq)]
pub struct BaseRulesReplayReport {
    pub battle_id: u64,
    pub effects_enabled: bool,
    pub rounds: Vec<BaseRulesRoundReport>,
    pub final_position: BaseRulesPosition,
}

pub open spec fn as_player(player: EnginePlayer) -> PlayerId {
    match player {
        EnginePlayer::P1 => PlayerId::P1,
        EnginePlayer::P2 => PlayerId::P2,
    }
}

pub open spec fn as_engine(player: PlayerId) -> EnginePlayer {
    match player {
        PlayerId::P1 => EnginePlayer::P1,
        PlayerId::P2 => EnginePlayer::P2,
    }
}

/// The first fault in one hand, from card `i` on: a slot that is not its own index, or a
/// card the catalog does not know.
pub open spec fn card_failure_from(
    hand: [ReplayCard; 4],
    catalog: Seq<CanonicalCard>,
    player: PlayerId,
    i: int,
) -> Option<ReplayValidationFailure>
    decreases 4 - i,
{
    if i < 0 || i >= 4 {
        None
    } else {
        let card = hand@[i];
        if card.hand_index != i {
            Some(
                ReplayValidationFailure::HandIndex {
                    player,
                    index: i as u8,
                    found: card.hand_index,
                },
            )
        } else if lookup(catalog, card.key) is None {
            Some(ReplayValidationFailure::UnknownCard { player, index: i as u8, key: card.key })
        } else {
            card_failure_from(hand, catalog, player, i + 1)
        }
    }
}

/// The first fault of one player's record.
pub open spec fn player_failure(
    replay: ReplayCaseV1,
    catalog: Seq<CanonicalCard>,
    player: PlayerId,
) -> Option<ReplayValidationFailure> {
    let source = replay.players@[player.idx()];
    let expected_side = if player == PlayerId::P1 {
        replay.metadata.source_first_side
    } else {
        replay.metadata.source_first_side.opp()
    };
    if source.engine_player != as_engine(player) {
        Some(ReplayValidationFailure::EnginePlayer { player, found: source.engine_player })
    } else if source.source_side != expected_side {
        Some(
            ReplayValidationFailure::PlayerSourceSide {
                player,
                expected: expected_side,
                found: source.source_side,
            },
        )
    } else {
        card_failure_from(source.hand, catalog, player, 0)
    }
}

/// One play checked against the replay and the slots already played; the slots after it.
pub open spec fn play_check(
    players: [ReplayPlayer; 2],
    round: ReplayRound,
    round_index: u8,
    play_index: u8,
    expected_player: PlayerId,
    used: ByPlayer<[bool; 4]>,
) -> Result<ByPlayer<[bool; 4]>, ReplayValidationFailure> {
    let play = round.plays@[play_index as int];
    let actual = as_player(play.engine_player);
    let source = players@[actual.idx()];
    if actual != expected_player {
        Err(
            ReplayValidationFailure::PlayEnginePlayer {
                round: round_index,
                play: play_index,
                expected: expected_player,
                found: actual,
            },
        )
    } else if play.source_side != source.source_side {
        Err(
            ReplayValidationFailure::PlaySourceSide {
                round: round_index,
                play: play_index,
                expected: source.source_side,
                found: play.source_side,
            },
        )
    } else if play.hand_index >= 4 {
        Err(
            ReplayValidationFailure::PlayHandIndex {
                round: round_index,
                play: play_index,
                found: play.hand_index,
            },
        )
    } else if play.card != source.hand@[play.hand_index as int].key {
        Err(
            ReplayValidationFailure::PlayCard {
                round: round_index,
                play: play_index,
                expected: source.hand@[play.hand_index as int].key,
                found: play.card,
            },
        )
    } else if used.at(actual)@[play.hand_index as int] {
        Err(
            ReplayValidationFailure::SlotAlreadyPlayed {
                round: round_index,
                play: play_index,
                player: actual,
                slot: play.hand_index,
            },
        )
    } else if play.pillz == u16::MAX {
        Err(ReplayValidationFailure::FreePillOverflow { round: round_index, play: play_index })
    } else if play.source_pillz_used != play.pillz + 1 {
        Err(
            ReplayValidationFailure::SourcePillzUsed {
                round: round_index,
                play: play_index,
                expected: (play.pillz + 1) as u16,
                found: play.source_pillz_used,
            },
        )
    } else {
        Ok(used.with(actual, played_with(used.at(actual), play.hand_index)))
    }
}

/// One round checked against the players and the slots already played; the slots after it.
pub open spec fn round_check(
    players: [ReplayPlayer; 2],
    round: ReplayRound,
    i: int,
    used: ByPlayer<[bool; 4]>,
) -> Result<ByPlayer<[bool; 4]>, ReplayValidationFailure> {
    let first = as_player(round.first_mover);
    let expected_side = players@[first.idx()].source_side;
    if round.round != i {
        Err(ReplayValidationFailure::RoundNumber { round: i as u8, found: round.round })
    } else if i == 0 && first != PlayerId::P1 {
        Err(ReplayValidationFailure::FirstMover { found: first })
    } else if round.source_first_side != expected_side {
        Err(
            ReplayValidationFailure::RoundSourceFirstSide {
                round: i as u8,
                mover: first,
                expected: expected_side,
                found: round.source_first_side,
            },
        )
    } else {
        match play_check(players, round, i as u8, 0, first, used) {
            Err(f) => Err(f),
            Ok(after_first) => play_check(players, round, i as u8, 1, first.opp(), after_first),
        }
    }
}

/// The first fault among the rounds from `i` on, given the slots already played.
pub open spec fn rounds_check_from(
    players: [ReplayPlayer; 2],
    rounds: Seq<ReplayRound>,
    i: int,
    used: ByPlayer<[bool; 4]>,
) -> Option<ReplayValidationFailure>
    decreases rounds.len() - i,
{
    if i < 0 || i >= rounds.len() {
        None
    } else {
        match round_check(players, rounds[i], i, used) {
            Err(f) => Some(f),
            Ok(after) => rounds_check_from(players, rounds, i + 1, after),
        }
    }
}

pub open spec fn nothing_played() -> ByPlayer<[bool; 4]> {
    ByPlayer::pair([false, false, false, false], [false, false, false, false])
}

/// The first fault of a replay against a catalog, if it has one.
pub open spec fn replay_failure(replay: ReplayCaseV1, catalog: Seq<CanonicalCard>) -> Option<
    ReplayValidationFailure,
> {
    if replay.schema_version != REPLAY_SCHEMA_VERSION {
        Some(ReplayValidationFailure::SchemaVersion { found: replay.schema_version })
    } else if replay.rounds@.len() > MAX_ROUNDS {
        Some(ReplayValidationFailure::RoundCount { found: replay.rounds@.len() as usize })
    } else {
        match player_failure(replay, catalog, PlayerId::P1) {
            Some(f) => Some(f),
            None => match player_failure(replay, catalog, PlayerId::P2) {
                Some(f) => Some(f),
                None => rounds_check_from(replay.players, replay.rounds@, 0, nothing_played()),
            },
        }
    }
}

/// A replay card bound to its canonical stats.
pub open spec fn canonical_card_spec(catalog: Seq<CanonicalCard>, key: CardKey) -> BaseRulesCardSpec {
    match lookup(catalog, key) {
        Some(c) => BaseRulesCardSpec {
            key,
            clan_id: c.clan_id,
            power: c.power as u16,
            damage: c.damage as u16,
        },
        None => BaseRulesCardSpec { key, clan_id: 0, power: 0, damage: 0 },
    }
}

pub open spec fn player_match_spec(replay: ReplayCaseV1, catalog: Seq<CanonicalCard>, player: PlayerId) -> BaseRulesPlayerSpec {
    let source = replay.players@[player.idx()];
    BaseRulesPlayerSpec {
        initial_life: source.base_life,
        initial_pillz: source.base_pillz,
        hand: [
            canonical_card_spec(catalog, source.hand@[0].key),
            canonical_card_spec(catalog, source.hand@[1].key),
            canonical_card_spec(catalog, source.hand@[2].key),
            canonical_card_spec(catalog, source.hand@[3].key),
        ],
    }
}

/// The effects-disabled match a replay describes.
pub open spec fn replay_match_spec(replay: ReplayCaseV1, catalog: Seq<CanonicalCard>) -> BaseRulesMatchSpec {
    BaseRulesMatchSpec {
        battle_rule_id: replay.metadata.battle_rule_id,
        night: replay.metadata.night,
        players: ByPlayer::pair(
            player_match_spec(replay, catalog, PlayerId::P1),
            player_match_spec(replay, catalog, PlayerId::P2),
        ),
    }
}

pub open spec fn play_selection(play: ReplayPlay) -> BaseRulesSelection {
    BaseRulesSelection { hand_index: play.hand_index, pillz: play.pillz, fury: play.fury }
}

/// A round's engine input and its context: each play filed under its player, later plays
/// over earlier ones.
pub open spec fn round_input_spec(battle_id: u64, round: ReplayRound) -> (
    BaseRulesRoundInput,
    BaseRulesReplayRoundContext,
) {
    let first = round.plays@[0];
    let second = round.plays@[1];
    let empty = BaseRulesSelection { hand_index: 0, pillz: 0, fury: false };
    let selections = ByPlayer::pair(empty, empty).with(
        as_player(first.engine_player),
        play_selection(first),
    ).with(as_player(second.engine_player), play_selection(second));
    let nobody = CardKey { id: 0, level: 0 };
    let cards = ByPlayer::pair(nobody, nobody).with(as_player(first.engine_player), first.card).with(
        as_player(second.engine_player),
        second.card,
    );
    let first_mover = as_player(round.first_mover);
    (
        BaseRulesRoundInput { first_mover, selections },
        BaseRulesReplayRoundContext {
            battle_id,
            round: round.round,
            cards,
            selections,
            first_mover,
        },
    )
}

/// The first asserted output of one player that the report contradicts.
pub open spec fn player_mismatch(
    expected: ReplayRound,
    actual: BaseRulesRoundReport,
    player: PlayerId,
) -> Option<ReplayRoundField> {
    let state = expected.expected_player_states@[player.idx()];
    let card = actual.cards.at(player);
    if state.life != actual.players.at(player).life {
        Some(ReplayRoundField::Life(player))
    } else if state.pillz != actual.players.at(player).pillz {
        Some(ReplayRoundField::Pillz(player))
    } else {
        match expected.expected_card_results@[player.idx()] {
            None => None,
            Some(e) => if e.power != card.power {
                Some(ReplayRoundField::Power(player))
            } else if e.damage != card.damage {
                Some(ReplayRoundField::Damage(player))
            } else if e.attack != card.attack {
                Some(ReplayRoundField::Attack(player))
            } else if e.won != card.won {
                Some(ReplayRoundField::Won(player))
            } else {
                None
            },
        }
    }
}

/// The first asserted output the report contradicts, P1's before P2's.
pub open spec fn round_mismatch(expected: ReplayRound, actual: BaseRulesRoundReport) -> Option<
    ReplayRoundField,
> {
    match player_mismatch(expected, actual, PlayerId::P1) {
        Some(f) => Some(f),
        None => player_mismatch(expected, actual, PlayerId::P2),
    }
}

/// The name of an asserted output in a mismatch.
pub open spec fn field_text_spec(field: ReplayRoundField) -> Seq<char> {
    match field {
        ReplayRoundField::Life(p) => "players."@ + player_text_spec(p) + ".life"@,
        ReplayRoundField::Pillz(p) => "players."@ + player_text_spec(p) + ".pillz"@,
        ReplayRoundField::Power(p) => "cards."@ + player_text_spec(p) + ".power"@,
        ReplayRoundField::Damage(p) => "cards."@ + player_text_spec(p) + ".damage"@,
        ReplayRoundField::Attack(p) => "cards."@ + player_text_spec(p) + ".attack"@,
        ReplayRoundField::Won(p) => "cards."@ + player_text_spec(p) + ".won"@,
    }
}

/// The asserted card result of `player`, zero and lost where the round asserts none.
pub open spec fn asserted_card(expected: ReplayRound, player: PlayerId) -> ExpectedCardResult {
    match expected.expected_card_results@[player.idx()] {
        Some(e) => e,
        None => ExpectedCardResult { power: 0, damage: 0, attack: 0, won: false },
    }
}

/// The value a round asserts for `field`, as a mismatch writes it.
pub open spec fn expected_text_spec(field: ReplayRoundField, expected: ReplayRound) -> Seq<char> {
    match field {
        ReplayRoundField::Life(p) => decimal(expected.expected_player_states@[p.idx()].life as nat),
        ReplayRoundField::Pillz(p) => decimal(expected.expected_player_states@[p.idx()].pillz as nat),
        ReplayRoundField::Power(p) => decimal(asserted_card(expected, p).power as nat),
        ReplayRoundField::Damage(p) => decimal(asserted_card(expected, p).damage as nat),
        ReplayRoundField::Attack(p) => decimal(asserted_card(expected, p).attack as nat),
        ReplayRoundField::Won(p) => flag_text_spec(asserted_card(expected, p).won),
    }
}

/// The value a report gives for `field`, as a mismatch writes it.
pub open spec fn actual_text_spec(field: ReplayRoundField, actual: BaseRulesRoundReport) -> Seq<char> {
    match field {
        ReplayRoundField::Life(p) => decimal(actual.players.at(p).life as nat),
        ReplayRoundField::Pillz(p) => decimal(actual.players.at(p).pillz as nat),
        ReplayRoundField::Power(p) => decimal(actual.cards.at(p).power as nat),
        ReplayRoundField::Damage(p) => decimal(actual.cards.at(p).damage as nat),
        ReplayRoundField::Attack(p) => decimal(actual.cards.at(p).attack as nat),
        ReplayRoundField::Won(p) => flag_text_spec(actual.cards.at(p).won),
    }
}

/// Running `rounds` from `pos`: each round's report and the final position, or why the run
/// stops.
pub open spec fn replay_steps(
    spec: BaseRulesMatchSpec,
    battle_id: u64,
    rounds: Seq<ReplayRound>,
    pos: BaseRulesPosition,
) -> Result<(Seq<BaseRulesRoundReport>, BaseRulesPosition), ReplayStepError>
    decreases rounds.len(),
{
    if rounds.len() == 0 {
        Ok((Seq::empty(), pos))
    } else {
        let (input, context) = round_input_spec(battle_id, rounds[0]);
        match make_spec(spec, pos, input) {
            Err(source) => Err(ReplayStepError::Engine { context, source }),
            Ok((report, next)) => match round_mismatch(rounds[0], report) {
                Some(field) => Err(
                    ReplayStepError::Mismatch { context, field, expected: rounds[0], actual: report },
                ),
                None => match replay_steps(spec, battle_id, rounds.drop_first(), next) {
                    Err(e) => Err(e),
                    Ok((reports, last)) => Ok((seq![report] + reports, last)),
                },
            },
        }
    }
}

/// `reports` in front of a run's reports.
pub open spec fn after_reports(
    reports: Seq<BaseRulesRoundReport>,
    run: Result<(Seq<BaseRulesRoundReport>, BaseRulesPosition), ReplayStepError>,
) -> Result<(Seq<BaseRulesRoundReport>, BaseRulesPosition), ReplayStepError> {
    match run {
        Err(e) => Err(e),
        Ok((rest, last)) => Ok((reports + rest, last)),
    }
}

#[verifier::rlimit(40)]
proof fn lemma_replay_step(
    spec: BaseRulesMatchSpec,
    battle_id: u64,
    rest: Seq<ReplayRound>,
    pos: BaseRulesPosition,
    reports: Seq<BaseRulesRoundReport>,
    report: BaseRulesRoundReport,
    next: BaseRulesPosition,
)
    requires
        rest.len() > 0,
        make_spec(spec, pos, round_input_spec(battle_id, rest[0]).0) == Ok::<
            (BaseRulesRoundReport, BaseRulesPosition),
            BaseRulesError,
        >((report, next)),
        round_mismatch(rest[0], report) is None,
    ensures
        after_reports(reports, replay_steps(spec, battle_id, rest, pos)) == after_reports(
            reports.push(report),
            replay_steps(spec, battle_id, rest.drop_first(), next),
        ),
{
    match replay_steps(spec, battle_id, rest.drop_first(), next) {
        Ok((rs, last)) => {
            assert(reports + (seq![report] + rs) =~= reports.push(report) + rs);
        },
        Err(_) => {},
    }
}

proof fn lemma_replay_engine_error(
    spec: BaseRulesMatchSpec,
    battle_id: u64,
    rest: Seq<ReplayRound>,
    pos: BaseRulesPosition,
    source: BaseRulesError,
)
    requires
        rest.len() > 0,
        make_spec(spec, pos, round_input_spec(battle_id, rest[0]).0) == Err::<
            (BaseRulesRoundReport, BaseRulesPosition),
            BaseRulesError,
        >(source),
    ensures
        replay_steps(spec, battle_id, rest, pos) == Err::<
            (Seq<BaseRulesRoundReport>, BaseRulesPosition),
            ReplayStepError,
        >(ReplayStepError::Engine { context: round_input_spec(battle_id, rest[0]).1, source }),
{
}

proof fn lemma_replay_mismatch(
    spec: BaseRulesMatchSpec,
    battle_id: u64,
    rest: Seq<ReplayRound>,
    pos: BaseRulesPosition,
    report: BaseRulesRoundReport,
    next: BaseRulesPosition,
)
    requires
        rest.len() > 0,
        make_spec(spec, pos, round_input_spec(battle_id, rest[0]).0) == Ok::<
            (BaseRulesRoundReport, BaseRulesPosition),
            BaseRulesError,
        >((report, next)),
        round_mismatch(rest[0], report) is Some,
    ensures
        replay_steps(spec, battle_id, rest, pos) == Err::<
            (Seq<BaseRulesRoundReport>, BaseRulesPosition),
            ReplayStepError,
        >(
            ReplayStepError::Mismatch {
                context: round_input_spec(battle_id, rest[0]).1,
                field: round_mismatch(rest[0], report).unwrap(),
                expected: rest[0],
                actual: report,
            },
        ),
{
}

/// Whether two rounds differ at most in the outputs they assert.
pub open spec fn same_but_expectations(a: ReplayRound, b: ReplayRound) -> bool {
    &&& a.round == b.round
    &&& a.first_mover == b.first_mover
    &&& a.source_first_side == b.source_first_side
    &&& a.plays == b.plays
}

/// A round's recorded plays become the engine input as recorded: the engine's first mover is
/// the recorded one, and when the two plays are by different players, each player's
/// selection is its own play's hand slot, Pillz and Fury, and its card the play's card.
pub proof fn law_round_input_files_each_play_under_its_player(battle_id: u64, round: ReplayRound)
    ensures
        ({
            let (input, context) = round_input_spec(battle_id, round);
            let a = round.plays@[0];
            let b = round.plays@[1];
            &&& (input.first_mover == PlayerId::P1 <==> round.first_mover == EnginePlayer::P1)
            &&& context.first_mover == input.first_mover
            &&& context.selections == input.selections
            &&& context.round == round.round
            &&& context.battle_id == battle_id
            &&& a.engine_player != b.engine_player ==> forall|k: int|
                0 <= k < 2 ==> {
                    let play = #[trigger] round.plays@[k];
                    let who = if play.engine_player == EnginePlayer::P1 {
                        PlayerId::P1
                    } else {
                        PlayerId::P2
                    };
                    &&& input.selections.at(who).hand_index == play.hand_index
                    &&& input.selections.at(who).pillz == play.pillz
                    &&& input.selections.at(who).fury == play.fury
                    &&& context.cards.at(who) == play.card
                }
        }),
{
}

/// Whether a report agrees with everything a round records of one player: its Life and
/// Pillz, and, where the round records the card's result, its Power, Damage, Attack and
/// whether it won.
pub open spec fn agrees_with_record(
    expected: ReplayRound,
    actual: BaseRulesRoundReport,
    player: PlayerId,
) -> bool {
    let state = expected.expected_player_states@[player.idx()];
    let card = actual.cards.at(player);
    &&& state.life == actual.players.at(player).life
    &&& state.pillz == actual.players.at(player).pillz
    &&& (expected.expected_card_results@[player.idx()] matches Some(e) ==> {
        &&& e.power == card.power
        &&& e.damage == card.damage
        &&& e.attack == card.attack
        &&& e.won == card.won
    })
}

/// A round passes its assertion exactly when the report agrees with every recorded output of
/// both players; and a reported mismatch names a field whose recorded and computed values
/// really differ.
pub proof fn law_a_round_passes_exactly_when_every_record_agrees(
    expected: ReplayRound,
    actual: BaseRulesRoundReport,
)
    ensures
        round_mismatch(expected, actual) is None <==> (agrees_with_record(
            expected,
            actual,
            PlayerId::P1,
        ) && agrees_with_record(expected, actual, PlayerId::P2)),
        round_mismatch(expected, actual) matches Some(field) ==> match field {
            ReplayRoundField::Life(p) => expected.expected_player_states@[p.idx()].life
                != actual.players.at(p).life,
            ReplayRoundField::Pillz(p) => expected.expected_player_states@[p.idx()].pillz
                != actual.players.at(p).pillz,
            ReplayRoundField::Power(p) => expected.expected_card_results@[p.idx()] matches Some(e)
                && e.power != actual.cards.at(p).power,
            ReplayRoundField::Damage(p) => expected.expected_card_results@[p.idx()] matches Some(e)
                && e.damage != actual.cards.at(p).damage,
            ReplayRoundField::Attack(p) => expected.expected_card_results@[p.idx()] matches Some(e)
                && e.attack != actual.cards.at(p).attack,
            ReplayRoundField::Won(p) => expected.expected_card_results@[p.idx()] matches Some(e)
                && e.won != actual.cards.at(p).won,
        },
{
}

/// A replay passes only when the engine agrees with every record: a successful run reports
/// one round per recorded round, and each report agrees with its round's recorded Life,
/// Pillz and card results for both players.
pub proof fn law_a_passing_replay_agrees_with_every_round(
    spec: BaseRulesMatchSpec,
    battle_id: u64,
    rounds: Seq<ReplayRound>,
    pos: BaseRulesPosition,
)
    ensures
        replay_steps(spec, battle_id, rounds, pos) matches Ok((reports, _)) ==> {
            &&& reports.len() == rounds.len()
            &&& forall|i: int|
                0 <= i < rounds.len() ==> agrees_with_record(
                    #[trigger] rounds[i],
                    reports[i],
                    PlayerId::P1,
                ) && agrees_with_record(rounds[i], reports[i], PlayerId::P2)
        },
    decreases rounds.len(),
{
    if rounds.len() > 0 {
        let (input, context) = round_input_spec(battle_id, rounds[0]);
        match make_spec(spec, pos, input) {
            Ok((report, next)) => {
                law_a_round_passes_exactly_when_every_record_agrees(rounds[0], report);
                law_a_passing_replay_agrees_with_every_round(
                    spec,
                    battle_id,
                    rounds.drop_first(),
                    next,
                );
                if let Ok((reports, _)) = replay_steps(spec, battle_id, rounds, pos) {
                    let rest = rounds.drop_first();
                    assert forall|i: int| 0 <= i < rounds.len() implies agrees_with_record(
                        #[trigger] rounds[i],
                        reports[i],
                        PlayerId::P1,
                    ) && agrees_with_record(rounds[i], reports[i], PlayerId::P2) by {
                        if i > 0 {
                            assert(rounds[i] == rest[i - 1]);
                        }
                    }
                }
            },
            Err(_) => {},
        }
    }
}

/// A replay's expected outputs are assertion targets only: the match and every round's
/// input come from the players, the catalog and the submitted plays, so two replays that
/// differ only in what their rounds assert run exactly the same rounds.
pub proof fn law_expectations_never_steer(
    spec: BaseRulesMatchSpec,
    battle_id: u64,
    a: Seq<ReplayRound>,
    b: Seq<ReplayRound>,
    pos: BaseRulesPosition,
)
    requires
        a.len() == b.len(),
        forall|i: int| 0 <= i < a.len() ==> #[trigger] same_but_expectations(a[i], b[i]),
    ensures
        forall|i: int|
            0 <= i < a.len() ==> round_input_spec(battle_id, #[trigger] a[i]) == round_input_spec(
                battle_id,
                b[i],
            ),
        replay_steps(spec, battle_id, a, pos) is Ok && replay_steps(spec, battle_id, b, pos) is Ok
            ==> replay_steps(spec, battle_id, a, pos) == replay_steps(spec, battle_id, b, pos),
    decreases a.len(),
{
    assert forall|i: int| 0 <= i < a.len() implies round_input_spec(battle_id, #[trigger] a[i])
        == round_input_spec(battle_id, b[i]) by {
        assert(same_but_expectations(a[i], b[i]));
    }
    if a.len() > 0 {
        assert forall|i: int| 0 <= i < a.drop_first().len() implies #[trigger] same_but_expectations(
            a.drop_first()[i],
            b.drop_first()[i],
        ) by {
            assert(same_but_expectations(a[i + 1], b[i + 1]));
        }
        assert(same_but_expectations(a[0], b[0]));
        let (input, context) = round_input_spec(battle_id, a[0]);
        match make_spec(spec, pos, input) {
            Ok((report, next)) => {
                law_expectations_never_steer(spec, battle_id, a.drop_first(), b.drop_first(), next);
            },
            Err(_) => {},
        }
    }
}

// ---------------------------------------------------------------------------------------
// Executable checks.

fn player_id_of(player: EnginePlayer) -> (r: PlayerId)
    ensures
        r == as_player(player),
{
    match player {
        EnginePlayer::P1 => PlayerId::P1,
        EnginePlayer::P2 => PlayerId::P2,
    }
}

fn engine_player_of(player: PlayerId) -> (r: EnginePlayer)
    ensures
        r == as_engine(player),
{
    match player {
        PlayerId::P1 => EnginePlayer::P1,
        PlayerId::P2 => EnginePlayer::P2,
    }
}

fn hand_failure(hand: &[ReplayCard; 4], catalog: &CardCatalog, player: PlayerId) -> (r: Option<
    ReplayValidationFailure,
>)
    ensures
        r == card_failure_from(*hand, catalog.entries(), player, 0),
{
    let mut i: usize = 0;
    while i < 4
        invariant
            i <= 4,
            card_failure_from(*hand, catalog.entries(), player, 0) == card_failure_from(
                *hand,
                catalog.entries(),
                player,
                i as int,
            ),
        decreases 4 - i,
    {
        let card = &hand[i];
        if card.hand_index as usize != i {
            return Some(
                ReplayValidationFailure::HandIndex { player, index: i as u8, found: card.hand_index },
            );
        }
        if catalog.get(card.key).is_none() {
            return Some(ReplayValidationFailure::UnknownCard { player, index: i as u8, key: card.key });
        }
        i += 1;
    }
    None
}

fn check_player(replay: &ReplayCaseV1, catalog: &CardCatalog, player: PlayerId) -> (r: Option<
    ReplayValidationFailure,
>)
    ensures
        r == player_failure(*replay, catalog.entries(), player),
{
    let source = &replay.players[player.index()];
    let expected_side = if player == PlayerId::P1 {
        replay.metadata.source_first_side
    } else {
        replay.metadata.source_first_side.other()
    };
    if source.engine_player != engine_player_of(player) {
        return Some(ReplayValidationFailure::EnginePlayer { player, found: source.engine_player });
    }
    if source.source_side != expected_side {
        return Some(
            ReplayValidationFailure::PlayerSourceSide {
                player,
                expected: expected_side,
                found: source.source_side,
            },
        );
    }
    hand_failure(&source.hand, catalog, player)
}

fn check_play(
    players: &[ReplayPlayer; 2],
    round: &ReplayRound,
    round_index: u8,
    play_index: u8,
    expected_player: PlayerId,
    used: ByPlayer<[bool; 4]>,
) -> (r: Result<ByPlayer<[bool; 4]>, ReplayValidationFailure>)
    requires
        play_index < 2,
    ensures
        r == play_check(*players, *round, round_index, play_index, expected_player, used),
{
    let play = round.plays[play_index as usize];
    let actual = player_id_of(play.engine_player);
    let source = &players[actual.index()];
    if actual != expected_player {
        return Err(
            ReplayValidationFailure::PlayEnginePlayer {
                round: round_index,
                play: play_index,
                expected: expected_player,
                found: actual,
            },
        );
    }
    if play.source_side != source.source_side {
        return Err(
            ReplayValidationFailure::PlaySourceSide {
                round: round_index,
                play: play_index,
                expected: source.source_side,
                found: play.source_side,
            },
        );
    }
    if play.hand_index >= 4 {
        return Err(
            ReplayValidationFailure::PlayHandIndex {
                round: round_index,
                play: play_index,
                found: play.hand_index,
            },
        );
    }
    let slot = play.hand_index as usize;
    let hand_key = source.hand[slot].key;
    if play.card != hand_key {
        return Err(
            ReplayValidationFailure::PlayCard {
                round: round_index,
                play: play_index,
                expected: hand_key,
                found: play.card,
            },
        );
    }
    let mut flags = *used.get(actual);
    if flags[slot] {
        return Err(
            ReplayValidationFailure::SlotAlreadyPlayed {
                round: round_index,
                play: play_index,
                player: actual,
                slot: play.hand_index,
            },
        );
    }
    let ghost before = flags;
    flags[slot] = true;
    assert(flags =~= played_with(before, play.hand_index));
    let mut next = used;
    next.set(actual, flags);
    if play.pillz == u16::MAX {
        return Err(ReplayValidationFailure::FreePillOverflow { round: round_index, play: play_index });
    }
    let expected = play.pillz + 1;
    if play.source_pillz_used != expected {
        return Err(
            ReplayValidationFailure::SourcePillzUsed {
                round: round_index,
                play: play_index,
                expected,
                found: play.source_pillz_used,
            },
        );
    }
    Ok(next)
}

/// The first fault of a replay against a catalog, if it has one.
pub fn replay_validation_failure(replay: &ReplayCaseV1, catalog: &CardCatalog) -> (r: Option<
    ReplayValidationFailure,
>)
    ensures
        r == replay_failure(*replay, catalog.entries()),
{
    if replay.schema_version != REPLAY_SCHEMA_VERSION {
        return Some(ReplayValidationFailure::SchemaVersion { found: replay.schema_version });
    }
    if replay.rounds.len() > MAX_ROUNDS as usize {
        return Some(ReplayValidationFailure::RoundCount { found: replay.rounds.len() });
    }
    if let Some(f) = check_player(replay, catalog, PlayerId::P1) {
        return Some(f);
    }
    if let Some(f) = check_player(replay, catalog, PlayerId::P2) {
        return Some(f);
    }
    let mut used = ByPlayer::new([false, false, false, false], [false, false, false, false]);
    let mut i: usize = 0;
    while i < replay.rounds.len()
        invariant
            i <= replay.rounds@.len() <= 4,
            replay_failure(*replay, catalog.entries()) == rounds_check_from(
                replay.players,
                replay.rounds@,
                i as int,
                used,
            ),
        decreases replay.rounds@.len() - i,
    {
        let round = &replay.rounds[i];
        let first = player_id_of(round.first_mover);
        let expected_side = replay.players[first.index()].source_side;
        if round.round as usize != i {
            return Some(ReplayValidationFailure::RoundNumber { round: i as u8, found: round.round });
        }
        if i == 0 && first != PlayerId::P1 {
            return Some(ReplayValidationFailure::FirstMover { found: first });
        }
        if round.source_first_side != expected_side {
            return Some(
                ReplayValidationFailure::RoundSourceFirstSide {
                    round: i as u8,
                    mover: first,
                    expected: expected_side,
                    found: round.source_first_side,
                },
            );
        }
        let after_first = match check_play(&replay.players, round, i as u8, 0, first, used) {
            Ok(u) => u,
            Err(f) => return Some(f),
        };
        used = match check_play(&replay.players, round, i as u8, 1, first.other(), after_first) {
            Ok(u) => u,
            Err(f) => return Some(f),
        };
        i += 1;
    }
    None
}

/// `rounds[round].plays[play]` followed by `name`.
pub open spec fn play_field_spec(round: u8, play: u8, name: Seq<char>) -> Seq<char> {
    "rounds"@ + bracketed(round as nat) + ".plays"@ + bracketed(play as nat) + name
}

/// `players[player].hand[index]` followed by `name`.
pub open spec fn card_field_spec(player: PlayerId, index: u8, name: Seq<char>) -> Seq<char> {
    "players"@ + bracketed(player.idx() as nat) + ".hand"@ + bracketed(index as nat) + name
}

/// The field of the replay a failure names.
pub open spec fn failure_field_spec(failure: ReplayValidationFailure) -> Seq<char> {
    match failure {
        ReplayValidationFailure::SchemaVersion { .. } => "schema_version"@,
        ReplayValidationFailure::RoundCount { .. } => "rounds"@,
        ReplayValidationFailure::EnginePlayer { player, .. } => "players"@ + bracketed(
            player.idx() as nat,
        ) + ".engine_player"@,
        ReplayValidationFailure::PlayerSourceSide { player, .. } => "players"@ + bracketed(
            player.idx() as nat,
        ) + ".source_side"@,
        ReplayValidationFailure::HandIndex { player, index, .. } => card_field_spec(
            player,
            index,
            ".hand_index"@,
        ),
        ReplayValidationFailure::UnknownCard { player, index, .. } => card_field_spec(
            player,
            index,
            ".key"@,
        ),
        ReplayValidationFailure::RoundNumber { round, .. } => "rounds"@ + bracketed(round as nat)
            + ".round"@,
        ReplayValidationFailure::FirstMover { .. } => "rounds[0].first_mover"@,
        ReplayValidationFailure::RoundSourceFirstSide { round, .. } => "rounds"@ + bracketed(
            round as nat,
        ) + ".source_first_side"@,
        ReplayValidationFailure::PlayEnginePlayer { round, play, .. } => play_field_spec(
            round,
            play,
            ".engine_player"@,
        ),
        ReplayValidationFailure::PlaySourceSide { round, play, .. } => play_field_spec(
            round,
            play,
            ".source_side"@,
        ),
        ReplayValidationFailure::PlayHandIndex { round, play, .. } => play_field_spec(
            round,
            play,
            ".hand_index"@,
        ),
        ReplayValidationFailure::PlayCard { round, play, .. } => play_field_spec(
            round,
            play,
            ".card"@,
        ),
        ReplayValidationFailure::SlotAlreadyPlayed { round, play, .. } => play_field_spec(
            round,
            play,
            ".hand_index"@,
        ),
        ReplayValidationFailure::FreePillOverflow { round, play } => play_field_spec(
            round,
            play,
            ".pillz"@,
        ),
        ReplayValidationFailure::SourcePillzUsed { round, play, .. } => play_field_spec(
            round,
            play,
            ".source_pillz_used"@,
        ),
    }
}

/// A card key as its `Debug` form writes it.
pub open spec fn key_text_spec(key: CardKey) -> Seq<char> {
    "CardKey { id: "@ + decimal(key.id as nat) + ", level: "@ + decimal(key.level as nat)
        + " }"@
}

/// `expected A, found B`, with both numbers in decimal.
pub open spec fn expected_found_spec(expected: nat, found: nat) -> Seq<char> {
    "expected "@ + decimal(expected) + ", found "@ + decimal(found)
}

/// `expected A, found B`, with both names as given.
pub open spec fn expected_found_names_spec(expected: Seq<char>, found: Seq<char>) -> Seq<char> {
    "expected "@ + expected + ", found "@ + found
}

/// What a failure found, against what was expected where there is one.
pub open spec fn failure_detail_spec(failure: ReplayValidationFailure) -> Seq<char> {
    match failure {
        ReplayValidationFailure::SchemaVersion { found } => expected_found_spec(
            REPLAY_SCHEMA_VERSION as nat,
            found as nat,
        ),
        ReplayValidationFailure::RoundCount { found } => "expected at most "@ + decimal(
            MAX_ROUNDS as nat,
        ) + ", found "@ + decimal(found as nat),
        ReplayValidationFailure::EnginePlayer { player, found } => expected_found_names_spec(
            engine_text_spec(as_engine(player)),
            engine_text_spec(found),
        ),
        ReplayValidationFailure::PlayerSourceSide { expected, found, .. } => expected_found_names_spec(
            side_text_spec(expected),
            side_text_spec(found),
        ),
        ReplayValidationFailure::HandIndex { index, found, .. } => expected_found_spec(
            index as nat,
            found as nat,
        ),
        ReplayValidationFailure::UnknownCard { key, .. } => "unknown canonical card "@ + decimal(
            key.id as nat,
        ) + " level "@ + decimal(key.level as nat),
        ReplayValidationFailure::RoundNumber { round, found } => expected_found_spec(
            round as nat,
            found as nat,
        ),
        ReplayValidationFailure::FirstMover { found } => "expected P1, found "@ + player_text_spec(
            found,
        ),
        ReplayValidationFailure::RoundSourceFirstSide { mover, expected, found, .. } => "expected "@
            + side_text_spec(expected) + " for "@ + player_text_spec(mover) + ", found "@
            + side_text_spec(found),
        ReplayValidationFailure::PlayEnginePlayer { expected, found, .. } => expected_found_names_spec(
            player_text_spec(expected),
            player_text_spec(found),
        ),
        ReplayValidationFailure::PlaySourceSide { expected, found, .. } => expected_found_names_spec(
            side_text_spec(expected),
            side_text_spec(found),
        ),
        ReplayValidationFailure::PlayHandIndex { found, .. } => "expected 0.."@ + decimal(3)
            + ", found "@ + decimal(found as nat),
        ReplayValidationFailure::PlayCard { expected, found, .. } => expected_found_names_spec(
            key_text_spec(expected),
            key_text_spec(found),
        ),
        ReplayValidationFailure::SlotAlreadyPlayed { player, slot, .. } => player_text_spec(player)
            + " already played slot "@ + decimal(slot as nat),
        ReplayValidationFailure::FreePillOverflow { .. } => "cannot add the source free pill within u16"@,
        ReplayValidationFailure::SourcePillzUsed { expected, found, .. } => expected_found_spec(
            expected as nat,
            found as nat,
        ),
    }
}

/// The field of the replay a failure is about.
fn failure_field(failure: ReplayValidationFailure) -> (r: String)
    ensures
        r@ == failure_field_spec(failure),
{
    match failure {
        ReplayValidationFailure::SchemaVersion { .. } => "schema_version".to_string(),
        ReplayValidationFailure::RoundCount { .. } => "rounds".to_string(),
        ReplayValidationFailure::EnginePlayer { player, .. } => indexed_text(
            "players",
            player.index(),
            ".engine_player",
        ),
        ReplayValidationFailure::PlayerSourceSide { player, .. } => indexed_text(
            "players",
            player.index(),
            ".source_side",
        ),
        ReplayValidationFailure::HandIndex { player, index, .. } => twice_indexed_text(
            "players",
            player.index(),
            ".hand",
            index as usize,
            ".hand_index",
        ),
        ReplayValidationFailure::UnknownCard { player, index, .. } => twice_indexed_text(
            "players",
            player.index(),
            ".hand",
            index as usize,
            ".key",
        ),
        ReplayValidationFailure::RoundNumber { round, .. } => indexed_text(
            "rounds",
            round as usize,
            ".round",
        ),
        ReplayValidationFailure::FirstMover { .. } => "rounds[0].first_mover".to_string(),
        ReplayValidationFailure::RoundSourceFirstSide { round, .. } => indexed_text(
            "rounds",
            round as usize,
            ".source_first_side",
        ),
        ReplayValidationFailure::PlayEnginePlayer { round, play, .. } => twice_indexed_text("rounds", round as usize, ".plays", play as usize, ".engine_player"),
        ReplayValidationFailure::PlaySourceSide { round, play, .. } => twice_indexed_text("rounds", round as usize, ".plays", play as usize, ".source_side"),
        ReplayValidationFailure::PlayHandIndex { round, play, .. } => twice_indexed_text("rounds", round as usize, ".plays", play as usize, ".hand_index"),
        ReplayValidationFailure::PlayCard { round, play, .. } => twice_indexed_text("rounds", round as usize, ".plays", play as usize, ".card"),
        ReplayValidationFailure::SlotAlreadyPlayed { round, play, .. } => twice_indexed_text("rounds", round as usize, ".plays", play as usize, ".hand_index"),
        ReplayValidationFailure::FreePillOverflow { round, play } => twice_indexed_text("rounds", round as usize, ".plays", play as usize, ".pillz"),
        ReplayValidationFailure::SourcePillzUsed { round, play, .. } => twice_indexed_text("rounds", round as usize, ".plays", play as usize, ".source_pillz_used"),
    }
}

fn key_text(key: CardKey) -> (r: String)
    ensures
        r@ == key_text_spec(key),
{
    two_numbers_text("CardKey { id: ", key.id as u64, ", level: ", key.level as u64, " }")
}

/// What a failure found, against what was expected where there is one.
fn failure_detail(failure: ReplayValidationFailure) -> (r: String)
    ensures
        r@ == failure_detail_spec(failure),
{
    proof {
        reveal_strlit("");
    }
    match failure {
        ReplayValidationFailure::SchemaVersion { found } => two_numbers_text(
            "expected ",
            REPLAY_SCHEMA_VERSION as u64,
            ", found ",
            found as u64,
            "",
        ),
        ReplayValidationFailure::RoundCount { found } => two_numbers_text(
            "expected at most ",
            MAX_ROUNDS as u64,
            ", found ",
            found as u64,
            "",
        ),
        ReplayValidationFailure::EnginePlayer { player, found } => joined_text(
            "expected ",
            engine_name(engine_player_of(player)),
            ", found ",
            engine_name(found),
            "",
            "",
        ),
        ReplayValidationFailure::PlayerSourceSide { expected, found, .. } => joined_text(
            "expected ",
            side_name(expected),
            ", found ",
            side_name(found),
            "",
            "",
        ),
        ReplayValidationFailure::HandIndex { index, found, .. } => two_numbers_text(
            "expected ",
            index as u64,
            ", found ",
            found as u64,
            "",
        ),
        ReplayValidationFailure::UnknownCard { key, .. } => two_numbers_text(
            "unknown canonical card ",
            key.id as u64,
            " level ",
            key.level as u64,
            "",
        ),
        ReplayValidationFailure::RoundNumber { round, found } => two_numbers_text(
            "expected ",
            round as u64,
            ", found ",
            found as u64,
            "",
        ),
        ReplayValidationFailure::FirstMover { found } => joined_text(
            "expected P1, found ",
            player_name(found),
            "",
            "",
            "",
            "",
        ),
        ReplayValidationFailure::RoundSourceFirstSide { mover, expected, found, .. } => joined_text(
            "expected ",
            side_name(expected),
            " for ",
            player_name(mover),
            ", found ",
            side_name(found),
        ),
        ReplayValidationFailure::PlayEnginePlayer { expected, found, .. } => joined_text(
            "expected ",
            player_name(expected),
            ", found ",
            player_name(found),
            "",
            "",
        ),
        ReplayValidationFailure::PlaySourceSide { expected, found, .. } => joined_text(
            "expected ",
            side_name(expected),
            ", found ",
            side_name(found),
            "",
            "",
        ),
        ReplayValidationFailure::PlayHandIndex { found, .. } => two_numbers_text(
            "expected 0..",
            3,
            ", found ",
            found as u64,
            "",
        ),
        ReplayValidationFailure::PlayCard { expected, found, .. } => {
            let expected = key_text(expected);
            let found = key_text(found);
            joined_text("expected ", expected.as_str(), ", found ", found.as_str(), "", "")
        },
        ReplayValidationFailure::SlotAlreadyPlayed { player, slot, .. } => {
            let slot = count_text("", slot as u64, "");
            joined_text(player_name(player), " already played slot ", slot.as_str(), "", "", "")
        },
        ReplayValidationFailure::FreePillOverflow { .. } => "cannot add the source free pill within u16".to_string(),
        ReplayValidationFailure::SourcePillzUsed { expected, found, .. } => two_numbers_text(
            "expected ",
            expected as u64,
            ", found ",
            found as u64,
            "",
        ),
    }
}

/// Check a replay against a catalog: `Ok` exactly when it has no fault.
pub fn validate_replay(replay: &ReplayCaseV1, catalog: &CardCatalog) -> (r: Result<
    (),
    ReplayValidationError,
>)
    ensures
        r is Ok <==> replay_failure(*replay, catalog.entries()) is None,
        r matches Err(e) ==> e.battle_id == replay.metadata.battle_id && e.field@
            == failure_field_spec(replay_failure(*replay, catalog.entries()).unwrap()) && e.detail@
            == failure_detail_spec(replay_failure(*replay, catalog.entries()).unwrap()),
{
    match replay_validation_failure(replay, catalog) {
        None => Ok(()),
        Some(failure) => Err(
            ReplayValidationError {
                battle_id: replay.metadata.battle_id,
                field: failure_field(failure),
                detail: failure_detail(failure),
            },
        ),
    }
}

fn canonical_card(catalog: &CardCatalog, key: CardKey) -> (r: BaseRulesCardSpec)
    ensures
        r == canonical_card_spec(catalog.entries(), key),
{
    match catalog.get(key) {
        Some(c) => BaseRulesCardSpec {
            key,
            clan_id: c.clan_id,
            power: c.power as u16,
            damage: c.damage as u16,
        },
        None => BaseRulesCardSpec { key, clan_id: 0, power: 0, damage: 0 },
    }
}

fn player_spec(replay: &ReplayCaseV1, catalog: &CardCatalog, player: PlayerId) -> (r: BaseRulesPlayerSpec)
    ensures
        r == player_match_spec(*replay, catalog.entries(), player),
{
    let source = &replay.players[player.index()];
    BaseRulesPlayerSpec {
        initial_life: source.base_life,
        initial_pillz: source.base_pillz,
        hand: [
            canonical_card(catalog, source.hand[0].key),
            canonical_card(catalog, source.hand[1].key),
            canonical_card(catalog, source.hand[2].key),
            canonical_card(catalog, source.hand[3].key),
        ],
    }
}

/// A round's engine input and its context.
pub fn round_input(battle_id: u64, round: &ReplayRound) -> (r: (
    BaseRulesRoundInput,
    BaseRulesReplayRoundContext,
))
    ensures
        r == round_input_spec(battle_id, *round),
{
    let empty = BaseRulesSelection::new(0, 0, false);
    let mut selections = ByPlayer::new(empty, empty);
    let mut cards = ByPlayer::new(CardKey::new(0, 0), CardKey::new(0, 0));
    let first = round.plays[0];
    let second = round.plays[1];
    selections.set(
        player_id_of(first.engine_player),
        BaseRulesSelection::new(first.hand_index, first.pillz, first.fury),
    );
    cards.set(player_id_of(first.engine_player), first.card);
    selections.set(
        player_id_of(second.engine_player),
        BaseRulesSelection::new(second.hand_index, second.pillz, second.fury),
    );
    cards.set(player_id_of(second.engine_player), second.card);
    let first_mover = player_id_of(round.first_mover);
    (
        BaseRulesRoundInput { first_mover, selections },
        BaseRulesReplayRoundContext { battle_id, round: round.round, cards, selections, first_mover },
    )
}

fn check_player_outputs(expected: &ReplayRound, actual: &BaseRulesRoundReport, player: PlayerId) -> (r: Option<
    ReplayRoundField,
>)
    ensures
        r == player_mismatch(*expected, *actual, player),
{
    let state = expected.expected_player_states[player.index()];
    let result = *actual.cards.get(player);
    let outcome = *actual.players.get(player);
    if state.life != outcome.life {
        return Some(ReplayRoundField::Life(player));
    }
    if state.pillz != outcome.pillz {
        return Some(ReplayRoundField::Pillz(player));
    }
    match expected.expected_card_results[player.index()] {
        None => None,
        Some(e) => if e.power != result.power {
            Some(ReplayRoundField::Power(player))
        } else if e.damage != result.damage {
            Some(ReplayRoundField::Damage(player))
        } else if e.attack != result.attack {
            Some(ReplayRoundField::Attack(player))
        } else if e.won != result.won {
            Some(ReplayRoundField::Won(player))
        } else {
            None
        },
    }
}

/// The first asserted output the report contradicts, P1's before P2's.
pub fn first_round_mismatch(expected: &ReplayRound, actual: &BaseRulesRoundReport) -> (r: Option<
    ReplayRoundField,
>)
    ensures
        r == round_mismatch(*expected, *actual),
{
    match check_player_outputs(expected, actual, PlayerId::P1) {
        Some(f) => Some(f),
        None => check_player_outputs(expected, actual, PlayerId::P2),
    }
}

/// A mismatch as an error, with the field's name and both values rendered.
fn mismatch_error(
    context: BaseRulesReplayRoundContext,
    field: ReplayRoundField,
    expected: &ReplayRound,
    actual: &BaseRulesRoundReport,
) -> (r: BaseRulesReplayError)
    ensures
        r matches BaseRulesReplayError::Mismatch {
            context: c,
            field: name,
            expected: expected_text,
            actual: actual_text,
        } && c == context && name@ == field_text_spec(field) && expected_text@ == expected_text_spec(
            field,
            *expected,
        ) && actual_text@ == actual_text_spec(field, *actual),
{
    proof {
        reveal_strlit("");
    }
    let (name, expected_text, actual_text) = match field {
        ReplayRoundField::Life(p) => (
            joined_text("players.", player_name(p), ".life", "", "", ""),
            count_text("", expected.expected_player_states[p.index()].life as u64, ""),
            count_text("", actual.players.get(p).life as u64, ""),
        ),
        ReplayRoundField::Pillz(p) => (
            joined_text("players.", player_name(p), ".pillz", "", "", ""),
            count_text("", expected.expected_player_states[p.index()].pillz as u64, ""),
            count_text("", actual.players.get(p).pillz as u64, ""),
        ),
        ReplayRoundField::Power(p) => (
            joined_text("cards.", player_name(p), ".power", "", "", ""),
            match expected.expected_card_results[p.index()] {
                Some(e) => count_text("", e.power as u64, ""),
                None => count_text("", 0, ""),
            },
            count_text("", actual.cards.get(p).power as u64, ""),
        ),
        ReplayRoundField::Damage(p) => (
            joined_text("cards.", player_name(p), ".damage", "", "", ""),
            match expected.expected_card_results[p.index()] {
                Some(e) => count_text("", e.damage as u64, ""),
                None => count_text("", 0, ""),
            },
            count_text("", actual.cards.get(p).damage as u64, ""),
        ),
        ReplayRoundField::Attack(p) => (
            joined_text("cards.", player_name(p), ".attack", "", "", ""),
            match expected.expected_card_results[p.index()] {
                Some(e) => count_text("", e.attack as u64, ""),
                None => count_text("", 0, ""),
            },
            count_text("", actual.cards.get(p).attack as u64, ""),
        ),
        ReplayRoundField::Won(p) => (
            joined_text("cards.", player_name(p), ".won", "", "", ""),
            match expected.expected_card_results[p.index()] {
                Some(e) => bool_text(e.won),
                None => bool_text(false),
            },
            bool_text(actual.cards.get(p).won),
        ),
    };
    BaseRulesReplayError::Mismatch { context, field: name, expected: expected_text, actual: actual_text }
}

/// Check a round's report against the replay's assertions.
pub fn assert_round(
    expected: &ReplayRound,
    actual: &BaseRulesRoundReport,
    context: BaseRulesReplayRoundContext,
) -> (r: Result<(), BaseRulesReplayError>)
    ensures
        r is Ok <==> round_mismatch(*expected, *actual) is None,
        r matches Err(e) ==> e matches BaseRulesReplayError::Mismatch {
            context: c,
            field: name,
            expected: expected_text,
            actual: actual_text,
        } && c == context && name@ == field_text_spec(round_mismatch(*expected, *actual).unwrap())
            && expected_text@ == expected_text_spec(
            round_mismatch(*expected, *actual).unwrap(),
            *expected,
        ) && actual_text@ == actual_text_spec(round_mismatch(*expected, *actual).unwrap(), *actual),
{
    match first_round_mismatch(expected, actual) {
        None => Ok(()),
        Some(field) => Err(mismatch_error(context, field, expected, actual)),
    }
}

impl BaseRulesReplay {
    pub closed spec fn replay_view(self) -> ReplayCaseV1 {
        self.replay
    }

    pub closed spec fn spec_view(self) -> BaseRulesMatchSpec {
        self.match_spec
    }

    /// Check the replay and bind its cards to their canonical stats.
    pub fn new(replay: ReplayCaseV1, catalog: &CardCatalog) -> (r: Result<Self, ReplayValidationError>)
        ensures
            r is Ok <==> replay_failure(replay, catalog.entries()) is None,
            r matches Err(e) ==> e.battle_id == replay.metadata.battle_id && e.field@
                == failure_field_spec(replay_failure(replay, catalog.entries()).unwrap())
                && e.detail@ == failure_detail_spec(
                replay_failure(replay, catalog.entries()).unwrap(),
            ),
            r matches Ok(bound) ==> bound.replay_view() == replay && bound.spec_view()
                == replay_match_spec(replay, catalog.entries()),
    {
        if let Err(e) = validate_replay(&replay, catalog) {
            return Err(e);
        }
        let p1 = player_spec(&replay, catalog, PlayerId::P1);
        let p2 = player_spec(&replay, catalog, PlayerId::P2);
        let match_spec = BaseRulesMatchSpec {
            battle_rule_id: replay.metadata.battle_rule_id,
            night: replay.metadata.night,
            players: ByPlayer::new(p1, p2),
        };
        Ok(BaseRulesReplay { replay, match_spec })
    }

    pub fn battle_id(&self) -> (r: u64)
        ensures
            r == self.replay_view().metadata.battle_id,
    {
        self.replay.metadata.battle_id
    }

    pub fn replay(&self) -> (r: &ReplayCaseV1)
        ensures
            *r == self.replay_view(),
    {
        &self.replay
    }

    pub fn match_spec(&self) -> (r: &BaseRulesMatchSpec)
        ensures
            *r == self.spec_view(),
    {
        &self.match_spec
    }

    /// A fresh effects-disabled game of the replay's match.
    pub fn new_game(&self) -> (r: BaseRulesGame)
        ensures
            r.spec_view() == self.spec_view(),
            r.position_view() == initial_position_spec(self.spec_view()),
    {
        BaseRulesGame::new(self.match_spec)
    }

    /// Run every round of the replay, asserting each.
    pub fn execute_effects_disabled(&self) -> (r: Result<BaseRulesReplayReport, BaseRulesReplayError>)
        ensures
            match replay_steps(
                self.spec_view(),
                self.replay_view().metadata.battle_id,
                self.replay_view().rounds@,
                initial_position_spec(self.spec_view()),
            ) {
                Ok((reports, last)) => r matches Ok(report) && report.battle_id
                    == self.replay_view().metadata.battle_id && !report.effects_enabled
                    && report.rounds@ == reports && report.final_position == last,
                Err(ReplayStepError::Engine { context, source }) => r == Err::<
                    BaseRulesReplayReport,
                    BaseRulesReplayError,
                >(BaseRulesReplayError::Engine { context, source }),
                Err(ReplayStepError::Mismatch { context, field, expected, actual }) => r matches Err(
                    BaseRulesReplayError::Mismatch {
                        context: c,
                        field: name,
                        expected: expected_text,
                        actual: actual_text,
                    },
                ) && c == context && name@ == field_text_spec(field) && expected_text@
                    == expected_text_spec(field, expected) && actual_text@ == actual_text_spec(
                    field,
                    actual,
                ),
            },
    {
        let rounds = self.replay.rounds.len();
        proof {
            assert(self.replay_view().rounds@.take(rounds as int) =~= self.replay_view().rounds@);
        }
        self.execute_effects_disabled_prefix(rounds)
    }

    /// Run the first `rounds` rounds of the replay, asserting each.
    #[verifier::rlimit(80)]
    pub fn execute_effects_disabled_prefix(&self, rounds: usize) -> (r: Result<
        BaseRulesReplayReport,
        BaseRulesReplayError,
    >)
        ensures
            rounds > self.replay_view().rounds@.len() ==> r == Err::<
                BaseRulesReplayReport,
                BaseRulesReplayError,
            >(
                BaseRulesReplayError::PrefixOutOfRange {
                    battle_id: self.replay_view().metadata.battle_id,
                    requested: rounds,
                    available: self.replay_view().rounds@.len() as usize,
                },
            ),
            rounds <= self.replay_view().rounds@.len() ==> match replay_steps(
                self.spec_view(),
                self.replay_view().metadata.battle_id,
                self.replay_view().rounds@.take(rounds as int),
                initial_position_spec(self.spec_view()),
            ) {
                Ok((reports, last)) => r matches Ok(report) && report.battle_id
                    == self.replay_view().metadata.battle_id && !report.effects_enabled
                    && report.rounds@ == reports && report.final_position == last,
                Err(ReplayStepError::Engine { context, source }) => r == Err::<
                    BaseRulesReplayReport,
                    BaseRulesReplayError,
                >(BaseRulesReplayError::Engine { context, source }),
                Err(ReplayStepError::Mismatch { context, field, expected, actual }) => r matches Err(
                    BaseRulesReplayError::Mismatch {
                        context: c,
                        field: name,
                        expected: expected_text,
                        actual: actual_text,
                    },
                ) && c == context && name@ == field_text_spec(field) && expected_text@
                    == expected_text_spec(field, expected) && actual_text@ == actual_text_spec(
                    field,
                    actual,
                ),
            },
    {
        let battle_id = self.replay.metadata.battle_id;
        if rounds > self.replay.rounds.len() {
            return Err(
                BaseRulesReplayError::PrefixOutOfRange {
                    battle_id,
                    requested: rounds,
                    available: self.replay.rounds.len(),
                },
            );
        }
        let ghost all = self.replay.rounds@.take(rounds as int);
        let ghost spec = self.match_spec;
        let mut game = self.new_game();
        let mut reports: Vec<BaseRulesRoundReport> = Vec::new();
        let mut i: usize = 0;
        proof {
            assert(all.skip(0) =~= all);
            assert(reports@ + Seq::<BaseRulesRoundReport>::empty() =~= reports@);
        }
        while i < rounds
            invariant
                rounds <= self.replay.rounds@.len(),
                i <= rounds,
                all == self.replay.rounds@.take(rounds as int),
                spec == self.match_spec,
                battle_id == self.replay.metadata.battle_id,
                game.spec_view() == spec,
                replay_steps(spec, battle_id, all, initial_position_spec(spec)) == after_reports(
                    reports@,
                    replay_steps(spec, battle_id, all.skip(i as int), game.position_view()),
                ),
            decreases rounds - i,
        {
            let round = &self.replay.rounds[i];
            let (input, context) = round_input(battle_id, round);
            let ghost rest = all.skip(i as int);
            let ghost pos = game.position_view();
            proof {
                assert(rest[0] == *round);
                assert(rest.drop_first() =~= all.skip(i as int + 1));
            }
            let report = match game.make(input) {
                Ok((report, _undo)) => report,
                Err(source) => {
                    proof {
                        lemma_replay_engine_error(spec, battle_id, rest, pos, source);
                    }
                    return Err(BaseRulesReplayError::Engine { context, source });
                },
            };
            if let Err(e) = assert_round(round, &report, context) {
                proof {
                    lemma_replay_mismatch(spec, battle_id, rest, pos, report, game.position_view());
                }
                return Err(e);
            }
            proof {
                lemma_replay_step(spec, battle_id, rest, pos, reports@, report, game.position_view());
            }
            reports.push(report);
            i += 1;
        }
        proof {
            assert(all.skip(rounds as int) =~= Seq::<ReplayRound>::empty());
            assert(reports@ + Seq::<BaseRulesRoundReport>::empty() =~= reports@);
        }
        Ok(
            BaseRulesReplayReport {
                battle_id,
                effects_enabled: false,
                rounds: reports,
                final_position: *game.position(),
            },
        )
    }
}

} // verus!
