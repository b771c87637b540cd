//! Normalizing a captured game into a replay: players in engine order, hands by index,
//! plays in move order, and every output the capture and its embedded testcase assert,
//! cross-checked against each other.

use super::capture::{
    CapturedCard, CapturedGame, CapturedMove, CapturedPlayer, CapturedResolution, CapturedRound,
    CapturedTestcase, CapturedTestcaseMove, CapturedTestcaseResult,
};
use super::text::{
    bool_text, count_text, engine_name, indexed_text, joined_text, number_text, quoted_text,
    result_text, side_name, twice_indexed_text, two_numbers_text,
};
use super::execute::{
    as_player, nothing_played, play_check, replay_failure, round_check, rounds_check_from,
};
use super::model::{
    EnginePlayer, ExpectedCardResult, ExpectedPlayerState, ReplayCard, ReplayCaseV1,
    ReplayMetadata, ReplayPlay, ReplayPlayer, ReplayRound, SourceClub, SourceModifier,
    SourceProfile, SourceRoom, SourceSide, SourceStatus, REPLAY_SCHEMA_VERSION,
};
use crate::card::CardKey;
use crate::catalog::{lookup, CardCatalog};
use crate::engine::round::played_with;
use crate::engine::{ByPlayer, PlayerId};
use vstd::prelude::*;

verus! {

broadcast use {vstd::array::group_array_axioms, vstd::string::group_string_axioms};

#[derive(Clone, Copy, Debug, PartialEq, Eq, Structural)]
pub enum ReplaySkipReason {
    NoReplayTestcase,
    InProgress,
}

/// A capture that holds no replay, and why.
#[derive(Clone, Debug, PartialEq, Eq)]
pub struct SkippedReplay {
    pub battle_id: u64,
    pub source_status: String,
    pub reason: ReplaySkipReason,
}

#[derive(Clone, Debug, PartialEq, Eq)]
pub enum ReplayClassification {
    Ready(Box<ReplayCaseV1>),
    Skipped(SkippedReplay),
}

#[derive(Clone, Debug, PartialEq, Eq)]
pub struct AdapterError {
    pub battle_id: u64,
    pub kind: AdapterErrorKind,
}

#[derive(Clone, Debug, PartialEq, Eq)]
pub enum AdapterErrorKind {
    InvalidField { field: String, detail: String },
    UnknownCard { source_side: SourceSide, hand_index: u8, key: CardKey },
    TestcaseMismatch { field: String, capture: String, testcase: String },
}

/// The engine player a source side plays as, given the side that moves first.
pub open spec fn engine_player_spec(side: SourceSide, first_side: SourceSide) -> EnginePlayer {
    if side == first_side {
        EnginePlayer::P1
    } else {
        EnginePlayer::P2
    }
}

/// The source side an engine player sits on, given the side that moves first.
pub open spec fn side_for_player_spec(player: EnginePlayer, first_side: SourceSide) -> SourceSide {
    match player {
        EnginePlayer::P1 => first_side,
        EnginePlayer::P2 => first_side.opp(),
    }
}

/// Players in engine order: P1 on the first side, P2 on the other.
pub open spec fn players_ordered(players: [ReplayPlayer; 2], first_side: SourceSide) -> bool {
    &&& players[0].engine_player == EnginePlayer::P1
    &&& players[0].source_side == first_side
    &&& players[1].engine_player == EnginePlayer::P2
    &&& players[1].source_side == first_side.opp()
}

/// Every card sits at its own index and is known to the catalog.
pub open spec fn hand_known(hand: [ReplayCard; 4], catalog: Seq<crate::catalog::CanonicalCard>) -> bool {
    forall|i: int|
        0 <= i < 4 ==> #[trigger] hand@[i].hand_index == i && lookup(catalog, hand@[i].key) is Some
}

/// A side number: 0 or 1.
pub open spec fn side_ok(value: i64) -> bool {
    value == 0 || value == 1
}

pub open spec fn side_from(value: i64) -> SourceSide {
    if value == 0 {
        SourceSide::Side0
    } else {
        SourceSide::Side1
    }
}

pub open spec fn fits_u16(value: i64) -> bool {
    0 <= value <= u16::MAX
}

pub open spec fn fits_u32(value: i64) -> bool {
    0 <= value <= u32::MAX
}

/// The identity a captured card names.
pub open spec fn captured_key(card: CapturedCard) -> CardKey {
    CardKey { id: card.id, level: card.level as u8 }
}

/// A captured card the adapter accepts: a level that fits, a card the catalog knows, and a
/// name and a clan.
pub open spec fn card_ok(card: CapturedCard, catalog: Seq<crate::catalog::CanonicalCard>) -> bool {
    &&& 0 <= card.level <= 255
    &&& lookup(catalog, captured_key(card)) is Some
    &&& card.name is Some
    &&& card.clan is Some
}

pub open spec fn modifier_of(modifier: Option<super::capture::CapturedModifier>) -> Option<
    SourceModifier,
> {
    match modifier {
        Some(m) => Some(SourceModifier { id: m.id, description: m.description }),
        None => None,
    }
}

/// A captured card as the replay records it, at `hand_index`.
pub open spec fn normalized_card(card: CapturedCard, hand_index: u8) -> ReplayCard {
    ReplayCard {
        key: captured_key(card),
        hand_index,
        source_name: card.name.unwrap(),
        source_clan: card.clan.unwrap(),
        in_battle_id: card.in_battle_id,
        state: card.state,
        source_ability: modifier_of(card.ability),
        source_bonus: modifier_of(card.bonus),
    }
}

/// A captured hand the adapter accepts: four acceptable cards whose indices are 0 to 3,
/// each once.
pub open spec fn hand_ok(hand: Seq<CapturedCard>, catalog: Seq<crate::catalog::CanonicalCard>) -> bool {
    &&& hand.len() == 4
    &&& forall|j: int| 0 <= j < 4 ==> 0 <= #[trigger] hand[j].index <= 3 && card_ok(hand[j], catalog)
    &&& forall|a: int, b: int| 0 <= a < b < 4 ==> #[trigger] hand[a].index != #[trigger] hand[b].index
}

/// The captured card that sits at index `k`.
pub open spec fn card_at(hand: Seq<CapturedCard>, k: int) -> CapturedCard {
    hand[choose|j: int| 0 <= j < hand.len() && hand[j].index == k]
}

pub open spec fn player_ok(player: CapturedPlayer, catalog: Seq<crate::catalog::CanonicalCard>) -> bool {
    &&& hand_ok(player.hand@, catalog)
    &&& fits_u16(player.level)
    &&& fits_u16(player.certification_level)
    &&& fits_u16(player.base_life)
    &&& fits_u16(player.base_pillz)
}

/// A captured player as the replay records it.
pub open spec fn normalized_player(
    player: CapturedPlayer,
    engine_player: EnginePlayer,
    source_side: SourceSide,
) -> ReplayPlayer {
    ReplayPlayer {
        engine_player,
        source_side,
        profile: SourceProfile {
            id: player.id,
            name: player.name,
            level: player.level as u16,
            grade: player.grade,
            country: player.country,
            club: match player.club {
                Some(club) => Some(SourceClub { id: club.id, name: club.name }),
                None => None,
            },
            registration_time: player.registration_time,
            certification_level: player.certification_level as u16,
        },
        base_life: player.base_life as u16,
        base_pillz: player.base_pillz as u16,
        hand: [
            normalized_card(card_at(player.hand@, 0), 0),
            normalized_card(card_at(player.hand@, 1), 1),
            normalized_card(card_at(player.hand@, 2), 2),
            normalized_card(card_at(player.hand@, 3), 3),
        ],
    }
}

/// The card the testcase lists at position `k`: the first player's four, then the second's.
pub open spec fn listed_card(players: [ReplayPlayer; 2], k: int) -> ReplayCard {
    if k < 4 {
        players@[0].hand@[k]
    } else {
        players@[1].hand@[k - 4]
    }
}

/// A testcase header that agrees with the capture: not flipped, the same night, the eight
/// cards and levels of the two hands in order, the first player's base life and pills, and
/// at most four rounds, none beyond the capture's.
pub open spec fn header_ok(
    night: bool,
    round_count: int,
    testcase: CapturedTestcase,
    players: [ReplayPlayer; 2],
) -> bool {
    &&& !testcase.flip
    &&& testcase.night == night
    &&& testcase.cards@.len() == 8
    &&& testcase.levels@.len() == 8
    &&& testcase.life == players@[0].base_life
    &&& testcase.pillz == players@[0].base_pillz
    &&& forall|k: int|
        0 <= k < 8 ==> #[trigger] testcase.cards@[k]@ == listed_card(players, k).source_name@
            && testcase.levels@[k] == listed_card(players, k).key.level
    &&& testcase.moves@.len() <= 4
    &&& testcase.moves@.len() <= round_count
}

/// The position of the first of a round's two moves made from `side`, if any.
pub open spec fn move_index(moves: Seq<CapturedMove>, side: SourceSide) -> Option<int> {
    if side_from(moves[0].side) == side {
        Some(0)
    } else if side_from(moves[1].side) == side {
        Some(1)
    } else {
        None
    }
}

/// The engine player a move from `side` belongs to.
pub open spec fn mover(side: SourceSide, first_side: SourceSide) -> PlayerId {
    as_player(engine_player_spec(side, first_side))
}

/// A move the adapter accepts: a hand slot 0 to 3 not yet played, the card that slot holds,
/// and pills that fit with the source's free pill on top.
pub open spec fn play_ok(
    source: CapturedMove,
    side: SourceSide,
    first_side: SourceSide,
    players: [ReplayPlayer; 2],
    used: ByPlayer<[bool; 4]>,
) -> bool {
    let player = mover(side, first_side);
    &&& 0 <= source.index <= 3
    &&& !used.at(player)@[source.index as int]
    &&& source.card_id == players@[player.idx()].hand@[source.index as int].key.id
    &&& fits_u16(source.pillz)
    &&& fits_u16(source.pillz_used)
    &&& source.pillz < u16::MAX
    &&& source.pillz_used == source.pillz + 1
}

/// A move as the replay records it.
pub open spec fn normalized_play(
    source: CapturedMove,
    side: SourceSide,
    first_side: SourceSide,
    players: [ReplayPlayer; 2],
) -> ReplayPlay {
    let engine = engine_player_spec(side, first_side);
    ReplayPlay {
        engine_player: engine,
        source_side: side,
        hand_index: source.index as u8,
        card: players@[as_player(engine).idx()].hand@[source.index as int].key,
        pillz: source.pillz as u16,
        source_pillz_used: source.pillz_used as u16,
        fury: source.fury,
        source_timestamp_ms: source.t,
    }
}

/// The slots played once a move is made.
pub open spec fn used_after(
    source: CapturedMove,
    side: SourceSide,
    first_side: SourceSide,
    used: ByPlayer<[bool; 4]>,
) -> ByPlayer<[bool; 4]> {
    let player = mover(side, first_side);
    used.with(player, played_with(used.at(player), source.index as u8))
}

/// Life and pills recorded for `side` after a round, both present and fitting in u16.
pub open spec fn state_ok(round: CapturedRound, side: SourceSide) -> bool {
    &&& round.life@[side.idx()] matches Some(life) && fits_u16(life)
    &&& round.pillz@[side.idx()] matches Some(pillz) && fits_u16(pillz)
}

pub open spec fn state_of(round: CapturedRound, side: SourceSide) -> ExpectedPlayerState {
    ExpectedPlayerState {
        life: round.life@[side.idx()].unwrap() as u16,
        pillz: round.pillz@[side.idx()].unwrap() as u16,
    }
}

pub open spec fn result_fits(power: i64, damage: i64, attack: i64) -> bool {
    fits_u16(power) && fits_u16(damage) && fits_u32(attack)
}

pub open spec fn card_result(power: i64, damage: i64, attack: i64, won: bool) -> ExpectedCardResult {
    ExpectedCardResult { power: power as u16, damage: damage as u16, attack: attack as u32, won }
}

/// A recorded resolution for `side` the adapter accepts: none, one with a negative attack
/// (a card that did not resolve), or one whose numbers fit.
pub open spec fn resolution_ok(round: CapturedRound, side: SourceSide) -> bool {
    match round.resolution@[side.idx()] {
        Some(res) => res.attack >= 0 ==> result_fits(res.power, res.damage, res.attack),
        None => true,
    }
}

pub open spec fn resolution_of(round: CapturedRound, side: SourceSide) -> Option<ExpectedCardResult> {
    match round.resolution@[side.idx()] {
        Some(res) => if res.attack >= 0 {
            Some(card_result(res.power, res.damage, res.attack, res.won))
        } else {
            None
        },
        None => None,
    }
}

pub open spec fn testcase_result_ok(result: Option<CapturedTestcaseResult>) -> bool {
    result matches Some(res) ==> result_fits(res.power, res.damage, res.attack)
}

pub open spec fn testcase_result_of(result: Option<CapturedTestcaseResult>) -> Option<
    ExpectedCardResult,
> {
    match result {
        Some(res) => Some(card_result(res.power, res.damage, res.attack, res.won)),
        None => None,
    }
}

/// The testcase's two card results, each acceptable and equal to the capture's.
pub open spec fn results_agree(
    results: [Option<ExpectedCardResult>; 2],
    testcase: CapturedTestcaseMove,
) -> bool {
    &&& testcase_result_ok(testcase.r1)
    &&& results@[0] == testcase_result_of(testcase.r1)
    &&& testcase_result_ok(testcase.r2)
    &&& results@[1] == testcase_result_of(testcase.r2)
}

/// A play that agrees with the testcase's selection: slot, pills and fury.
pub open spec fn selection_ok(play: ReplayPlay, selection: (i64, i64, bool)) -> bool {
    play.hand_index == selection.0 && play.pillz == selection.1 && play.fury == selection.2
}

/// Player states that agree with the testcase's life and pills.
pub open spec fn states_agree(states: [ExpectedPlayerState; 2], testcase: CapturedTestcaseMove) -> bool {
    &&& states@[0].life == testcase.p1life
    &&& states@[0].pillz == testcase.p1pillz
    &&& states@[1].life == testcase.p2life
    &&& states@[1].pillz == testcase.p2pillz
}

/// Round `i` as the replay records it and the slots played after it, or `None` where the
/// adapter refuses it: the round's number, a first side (the game's first side in round 0),
/// one move from each side, both moves acceptable in turn, and the testcase's selections,
/// states and card results all equal to the capture's.
pub open spec fn round_spec(
    round: CapturedRound,
    testcase: CapturedTestcaseMove,
    i: int,
    players: [ReplayPlayer; 2],
    first_side: SourceSide,
    used: ByPlayer<[bool; 4]>,
) -> Option<(ReplayRound, ByPlayer<[bool; 4]>)> {
    let moves = round.moves@;
    let side = side_from(round.first.unwrap());
    let second = side.opp();
    if !(round.round == i && round.first is Some && side_ok(round.first.unwrap())) {
        None
    } else if (i == 0 && side != first_side) || moves.len() != 2 {
        None
    } else if !side_ok(moves[0].side) || !side_ok(moves[1].side) {
        None
    } else if move_index(moves, side) is None || move_index(moves, second) is None {
        None
    } else {
        let m1 = moves[move_index(moves, side).unwrap()];
        let m2 = moves[move_index(moves, second).unwrap()];
        let between = used_after(m1, side, first_side, used);
        let p1 = normalized_play(m1, side, first_side, players);
        let p2 = normalized_play(m2, second, first_side, players);
        let side_p1 = side_for_player_spec(EnginePlayer::P1, first_side);
        let side_p2 = side_for_player_spec(EnginePlayer::P2, first_side);
        let states = [state_of(round, side_p1), state_of(round, side_p2)];
        let results = [resolution_of(round, side_p1), resolution_of(round, side_p2)];
        if play_ok(m1, side, first_side, players, used) && play_ok(
            m2,
            second,
            first_side,
            players,
            between,
        ) && selection_ok(p1, testcase.s1) && selection_ok(p2, testcase.s2) && state_ok(
            round,
            side_p1,
        ) && state_ok(round, side_p2) && states_agree(states, testcase) && resolution_ok(
            round,
            side_p1,
        ) && resolution_ok(round, side_p2) && results_agree(results, testcase) {
            Some(
                (
                    ReplayRound {
                        round: i as u8,
                        first_mover: engine_player_spec(side, first_side),
                        source_first_side: side,
                        plays: [p1, p2],
                        expected_player_states: states,
                        expected_card_results: results,
                    },
                    used_after(m2, second, first_side, between),
                ),
            )
        } else {
            None
        }
    }
}

/// The first `n` rounds as the replay records them and the slots played after them, or
/// `None` where the adapter refuses one of them.
pub open spec fn rounds_prefix(
    rounds: Seq<CapturedRound>,
    moves: Seq<CapturedTestcaseMove>,
    players: [ReplayPlayer; 2],
    first_side: SourceSide,
    n: nat,
) -> Option<(Seq<ReplayRound>, ByPlayer<[bool; 4]>)>
    decreases n,
{
    if n == 0 {
        Some((Seq::empty(), nothing_played()))
    } else {
        match rounds_prefix(rounds, moves, players, first_side, (n - 1) as nat) {
            None => None,
            Some(done) => match round_spec(
                rounds[n - 1],
                moves[n - 1],
                n - 1,
                players,
                first_side,
                done.1,
            ) {
                None => None,
                Some(next) => Some((done.0.push(next.0), next.1)),
            },
        }
    }
}

/// The final status a finished capture names, if it is one a replay records.
pub open spec fn status_of(status: Seq<char>) -> Option<SourceStatus> {
    if status == "done"@ {
        Some(SourceStatus::Done)
    } else if status == "timeout"@ {
        Some(SourceStatus::Timeout)
    } else if status == "left"@ {
        Some(SourceStatus::Left)
    } else {
        None
    }
}

/// The side that moves first in a capture.
pub open spec fn first_side_of(capture: CapturedGame) -> SourceSide {
    side_from(capture.first_player.unwrap())
}

/// The capture's two players, the one on the first side first.
pub open spec fn ordered_captured(capture: CapturedGame) -> (CapturedPlayer, CapturedPlayer) {
    let a = capture.players@[0];
    let b = capture.players@[1];
    if side_from(a.side) == first_side_of(capture) {
        (a, b)
    } else {
        (b, a)
    }
}

/// The replay's two players: the first side's as P1, the other's as P2.
pub open spec fn adapted_players(capture: CapturedGame) -> [ReplayPlayer; 2] {
    let first_side = first_side_of(capture);
    let (a, b) = ordered_captured(capture);
    [
        normalized_player(a, EnginePlayer::P1, first_side),
        normalized_player(b, EnginePlayer::P2, first_side.opp()),
    ]
}

/// The replay's rounds: those the testcase resolves, normalized in order.
pub open spec fn adapted_rounds(capture: CapturedGame) -> Option<
    (Seq<ReplayRound>, ByPlayer<[bool; 4]>),
> {
    let testcase = capture.testcase.unwrap();
    rounds_prefix(
        capture.rounds@,
        testcase.moves@,
        adapted_players(capture),
        first_side_of(capture),
        testcase.moves@.len(),
    )
}

/// A finished capture with a testcase that the adapter turns into a replay: a known final
/// status, sides that are 0 or 1 (the two players' different), two acceptable players, a
/// testcase header that agrees with them, and acceptable rounds.
pub open spec fn adapt_ok(capture: CapturedGame, catalog: Seq<crate::catalog::CanonicalCard>) -> bool {
    let (a, b) = ordered_captured(capture);
    &&& status_of(capture.final_status@) is Some
    &&& capture.first_player is Some
    &&& side_ok(capture.first_player.unwrap())
    &&& (capture.my_side matches Some(v) ==> side_ok(v))
    &&& capture.players@.len() == 2
    &&& side_ok(capture.players@[0].side)
    &&& side_ok(capture.players@[1].side)
    &&& capture.players@[0].side != capture.players@[1].side
    &&& player_ok(a, catalog)
    &&& player_ok(b, catalog)
    &&& header_ok(
        capture.night,
        capture.rounds@.len() as int,
        capture.testcase.unwrap(),
        adapted_players(capture),
    )
    &&& adapted_rounds(capture) is Some
}

/// A capture's final status text names the replay's source status: "done" is Done,
/// "timeout" is Timeout and "left" is Left, and no other text names one. So a capture that
/// adapts records exactly the status its text names.
pub proof fn law_status_text_names_its_status(
    status: Seq<char>,
    capture: CapturedGame,
    catalog: Seq<crate::catalog::CanonicalCard>,
)
    ensures
        status_of(status) == Some(SourceStatus::Done) <==> status == "done"@,
        status_of(status) == Some(SourceStatus::Timeout) <==> status == "timeout"@,
        status_of(status) == Some(SourceStatus::Left) <==> status == "left"@,
        status_of(status) is None <==> (status != "done"@ && status != "timeout"@ && status
            != "left"@),
        adapt_ok(capture, catalog) ==> {
            let named = adapted_metadata(capture).source_status;
            &&& (named == SourceStatus::Done <==> capture.final_status@ == "done"@)
            &&& (named == SourceStatus::Timeout <==> capture.final_status@ == "timeout"@)
            &&& (named == SourceStatus::Left <==> capture.final_status@ == "left"@)
        },
{
    reveal_strlit("done");
    reveal_strlit("timeout");
    reveal_strlit("left");
    assert("done"@ != "timeout"@) by {
        assert("done"@.len() != "timeout"@.len());
    }
    assert("done"@ != "left"@) by {
        assert("done"@[0] != "left"@[0]);
    }
    assert("timeout"@ != "left"@) by {
        assert("timeout"@.len() != "left"@.len());
    }
}

/// What the replay records of the capture besides players and rounds.
pub open spec fn adapted_metadata(capture: CapturedGame) -> ReplayMetadata {
    ReplayMetadata {
        battle_id: capture.id,
        captured_at: capture.captured_at,
        creation_time: capture.creation_time,
        room: match capture.room {
            Some(room) => Some(
                SourceRoom {
                    id: room.id,
                    name: room.name,
                    battle_rule_id: room.id_battle_rule,
                    deck_format_id: room.id_deck_format,
                },
            ),
            None => None,
        },
        battle_rule_id: capture.battle_rule_id,
        night: capture.night,
        source_status: status_of(capture.final_status@).unwrap(),
        source_first_side: first_side_of(capture),
        recording_player_id: capture.my_id,
        recording_side: match capture.my_side {
            Some(v) => Some(side_from(v)),
            None => None,
        },
        source_snapshot_count: capture.snapshots,
        source_issues: capture.issues,
    }
}

fn invalid(battle_id: u64, field: String, detail: String) -> (r: AdapterError)
    ensures
        r.battle_id == battle_id,
{
    AdapterError { battle_id, kind: AdapterErrorKind::InvalidField { field, detail } }
}

fn mismatch(battle_id: u64, field: String, capture: String, testcase: String) -> (r: AdapterError)
    ensures
        r.battle_id == battle_id,
{
    AdapterError { battle_id, kind: AdapterErrorKind::TestcaseMismatch { field, capture, testcase } }
}

// ---------------------------------------------------------------------------------------
// Conversions.

fn source_status(battle_id: u64, status: &String) -> (r: Result<SourceStatus, AdapterError>)
    ensures
        r is Ok <==> status_of(status@) is Some,
        r matches Ok(s) ==> status_of(status@) == Some(s),
        r matches Err(e) ==> e.battle_id == battle_id,
{
    if *status == "done".to_string() {
        Ok(SourceStatus::Done)
    } else if *status == "timeout".to_string() {
        Ok(SourceStatus::Timeout)
    } else if *status == "left".to_string() {
        Ok(SourceStatus::Left)
    } else {
        Err(invalid(battle_id, "finalStatus".to_string(), quoted_text("unsupported status ", status.as_str())))
    }
}

fn source_side(battle_id: u64, field: String, value: i64) -> (r: Result<SourceSide, AdapterError>)
    ensures
        value == 0 ==> r == Ok::<SourceSide, AdapterError>(SourceSide::Side0),
        value == 1 ==> r == Ok::<SourceSide, AdapterError>(SourceSide::Side1),
        value != 0 && value != 1 ==> (r matches Err(e) && e.battle_id == battle_id),
{
    if value == 0 {
        Ok(SourceSide::Side0)
    } else if value == 1 {
        Ok(SourceSide::Side1)
    } else {
        Err(invalid(battle_id, field, number_text("expected side 0 or 1, found ", value, "")))
    }
}

fn engine_player(side: SourceSide, first_side: SourceSide) -> (r: EnginePlayer)
    ensures
        r == engine_player_spec(side, first_side),
{
    if side == first_side {
        EnginePlayer::P1
    } else {
        EnginePlayer::P2
    }
}

fn side_for_player(player: EnginePlayer, first_side: SourceSide) -> (r: SourceSide)
    ensures
        r == side_for_player_spec(player, first_side),
{
    match player {
        EnginePlayer::P1 => first_side,
        EnginePlayer::P2 => first_side.other(),
    }
}

fn hand_index(battle_id: u64, field: String, value: i64) -> (r: Result<u8, AdapterError>)
    ensures
        0 <= value <= 3 ==> r == Ok::<u8, AdapterError>(value as u8),
        !(0 <= value <= 3) ==> (r matches Err(e) && e.battle_id == battle_id),
{
    if 0 <= value && value <= 3 {
        Ok(value as u8)
    } else {
        Err(invalid(battle_id, field, number_text("expected an index from 0 through 3, found ", value, "")))
    }
}

fn to_u16(battle_id: u64, field: String, value: i64) -> (r: Result<u16, AdapterError>)
    ensures
        0 <= value <= u16::MAX ==> r == Ok::<u16, AdapterError>(value as u16),
        !(0 <= value <= u16::MAX) ==> (r matches Err(e) && e.battle_id == battle_id),
{
    if 0 <= value && value <= u16::MAX as i64 {
        Ok(value as u16)
    } else {
        Err(invalid(battle_id, field, number_text("", value, " is outside the range 0..=65535")))
    }
}

fn to_u32(battle_id: u64, field: String, value: i64) -> (r: Result<u32, AdapterError>)
    ensures
        0 <= value <= u32::MAX ==> r == Ok::<u32, AdapterError>(value as u32),
        !(0 <= value <= u32::MAX) ==> (r matches Err(e) && e.battle_id == battle_id),
{
    if 0 <= value && value <= u32::MAX as i64 {
        Ok(value as u32)
    } else {
        Err(invalid(battle_id, field, number_text("", value, " is outside the range 0..=4294967295")))
    }
}

fn compare_int(battle_id: u64, field: String, capture: i64, testcase: i64) -> (r: Result<
    (),
    AdapterError,
>)
    ensures
        r is Ok <==> capture == testcase,
        r matches Err(e) ==> e.battle_id == battle_id,
{
    if capture == testcase {
        Ok(())
    } else {
        Err(mismatch(battle_id, field, number_text("", capture, ""), number_text("", testcase, "")))
    }
}

fn compare_flag(battle_id: u64, field: String, capture: bool, testcase: bool) -> (r: Result<
    (),
    AdapterError,
>)
    ensures
        r is Ok <==> capture == testcase,
        r matches Err(e) ==> e.battle_id == battle_id,
{
    if capture == testcase {
        Ok(())
    } else {
        Err(mismatch(battle_id, field, bool_text(capture), bool_text(testcase)))
    }
}

fn compare_text(battle_id: u64, field: String, capture: &String, testcase: &String) -> (r: Result<
    (),
    AdapterError,
>)
    ensures
        r is Ok <==> capture@ == testcase@,
        r matches Err(e) ==> e.battle_id == battle_id,
{
    if *capture == *testcase {
        Ok(())
    } else {
        Err(
            mismatch(
                battle_id,
                field,
                quoted_text("", capture.as_str()),
                quoted_text("", testcase.as_str()),
            ),
        )
    }
}

// ---------------------------------------------------------------------------------------
// Players and hands.

fn normalize_card(
    battle_id: u64,
    source_side: SourceSide,
    hand_index: u8,
    card: CapturedCard,
    catalog: &CardCatalog,
) -> (r: Result<ReplayCard, AdapterError>)
    ensures
        r is Ok <==> card_ok(card, catalog.entries()),
        r matches Ok(c) ==> c == normalized_card(card, hand_index),
        r matches Err(e) ==> e.battle_id == battle_id,
{
    if card.level < 0 || card.level > 255 {
        return Err(
            invalid(
                battle_id,
                "players[].hand[].level".to_string(),
                number_text("", card.level, " is outside u8"),
            ),
        );
    }
    let key = CardKey::new(card.id, card.level as u8);
    if catalog.get(key).is_none() {
        return Err(
            AdapterError {
                battle_id,
                kind: AdapterErrorKind::UnknownCard { source_side, hand_index, key },
            },
        );
    }
    let source_name = match card.name {
        Some(name) => name,
        None => return Err(
            invalid(
                battle_id,
                "players[].hand[].name".to_string(),
                two_numbers_text("is null for card ", key.id as u64, " level ", key.level as u64, ""),
            ),
        ),
    };
    let source_clan = match card.clan {
        Some(clan) => clan,
        None => return Err(
            invalid(
                battle_id,
                "players[].hand[].clan".to_string(),
                two_numbers_text("is null for card ", key.id as u64, " level ", key.level as u64, ""),
            ),
        ),
    };
    let source_ability = match card.ability {
        Some(m) => Some(SourceModifier { id: m.id, description: m.description }),
        None => None,
    };
    let source_bonus = match card.bonus {
        Some(m) => Some(SourceModifier { id: m.id, description: m.description }),
        None => None,
    };
    Ok(
        ReplayCard {
            key,
            hand_index,
            source_name,
            source_clan,
            in_battle_id: card.in_battle_id,
            state: card.state,
            source_ability,
            source_bonus,
        },
    )
}

fn normalize_player(
    battle_id: u64,
    player: CapturedPlayer,
    engine_player: EnginePlayer,
    source_side: SourceSide,
    catalog: &CardCatalog,
) -> (r: Result<ReplayPlayer, AdapterError>)
    ensures
        r is Ok <==> player_ok(player, catalog.entries()),
        r matches Ok(p) ==> p == normalized_player(player, engine_player, source_side)
            && hand_known(p.hand, catalog.entries()),
        r matches Err(e) ==> e.battle_id == battle_id,
{
    let ghost orig = player.hand@;
    let ghost cat = catalog.entries();
    let mut cards = player.hand;
    if cards.len() != 4 {
        return Err(
            invalid(
                battle_id,
                indexed_text("players", source_side.index(), ".hand"),
                count_text("expected four cards, found ", cards.len() as u64, ""),
            ),
        );
    }
    let mut hand: [Option<ReplayCard>; 4] = [None, None, None, None];
    let mut n: usize = 0;
    while n < 4
        invariant
            n <= 4,
            orig == player.hand@,
            cat == catalog.entries(),
            orig.len() == 4,
            cards@ == orig.skip(n as int),
            forall|j: int| 0 <= j < n ==> 0 <= #[trigger] orig[j].index <= 3 && card_ok(orig[j], cat),
            forall|a: int, b: int| 0 <= a < b < n ==> #[trigger] orig[a].index != #[trigger] orig[b].index,
            forall|k: int|
                0 <= k < 4 ==> (#[trigger] hand@[k] is Some <==> exists|j: int|
                    0 <= j < n && orig[j].index == k),
            forall|j: int|
                0 <= j < n ==> hand@[#[trigger] orig[j].index as int] == Some(
                    normalized_card(orig[j], orig[j].index as u8),
                ),
        decreases 4 - n,
    {
        let card = cards.remove(0);
        assert(card == orig[n as int]);
        assert(cards@ =~= orig.skip(n as int + 1));
        let index = match hand_index(
            battle_id,
            indexed_text("players", source_side.index(), ".hand[].index"),
            card.index,
        ) {
            Ok(i) => i,
            Err(e) => {
                assert(!(0 <= orig[n as int].index <= 3));
                assert(!hand_ok(orig, cat));
                return Err(e);
            },
        };
        assert(index as int == orig[n as int].index);
        if hand[index as usize].is_some() {
            proof {
                assert(hand@[index as int] is Some);
                let j = choose|j: int| 0 <= j < n && orig[j].index == index as int;
                assert(orig[j].index == orig[n as int].index);
                assert(j < n);
                assert(!hand_ok(orig, cat));
            }
            return Err(
                invalid(
                    battle_id,
                    indexed_text("players", source_side.index(), ".hand[].index"),
                    count_text("index ", index as u64, " occurs more than once"),
                ),
            );
        }
        let replay_card = match normalize_card(battle_id, source_side, index, card, catalog) {
            Ok(c) => c,
            Err(e) => {
                assert(!hand_ok(orig, cat));
                return Err(e);
            },
        };
        hand[index as usize] = Some(replay_card);
        n += 1;
    }
    proof {
        let i0 = orig[0].index;
        let i1 = orig[1].index;
        let i2 = orig[2].index;
        let i3 = orig[3].index;
        assert(i0 != i1 && i0 != i2 && i0 != i3 && i1 != i2 && i1 != i3 && i2 != i3);
        assert forall|k: int| 0 <= k < 4 implies #[trigger] hand@[k] is Some by {
            assert(k == i0 || k == i1 || k == i2 || k == i3);
            if k == i0 {
                assert(hand@[orig[0].index as int] is Some);
            } else if k == i1 {
                assert(hand@[orig[1].index as int] is Some);
            } else if k == i2 {
                assert(hand@[orig[2].index as int] is Some);
            } else {
                assert(hand@[orig[3].index as int] is Some);
            }
        }
        assert forall|k: int| 0 <= k < 4 implies hand@[k] == Some(
            normalized_card(#[trigger] card_at(orig, k), k as u8),
        ) by {
            let j = choose|j: int| 0 <= j < 4 && orig[j].index == k;
            assert(hand@[k] is Some);
            let w = choose|w: int| 0 <= w < 4 && orig[w].index == k;
            if w != j {
                if w < j {
                    assert(orig[w].index != orig[j].index);
                } else {
                    assert(orig[j].index != orig[w].index);
                }
            }
            assert(card_at(orig, k) == orig[j]);
            assert(card_ok(orig[j], cat));
            assert(hand@[orig[j].index as int] == Some(normalized_card(orig[j], orig[j].index as u8)));
        }
        assert forall|k: int| 0 <= k < 4 implies card_ok(#[trigger] card_at(orig, k), cat) by {
            assert(hand@[k] is Some);
            let j = choose|j: int| 0 <= j < 4 && orig[j].index == k;
            let w = choose|w: int| 0 <= w < 4 && orig[w].index == k;
            assert(card_ok(orig[j], cat));
            assert(card_at(orig, k) == orig[w]);
        }
    }
    let ghost full = hand;
    let h0 = hand[0].take();
    let h1 = hand[1].take();
    let h2 = hand[2].take();
    let h3 = hand[3].take();
    assert(h0 == full@[0] && h1 == full@[1] && h2 == full@[2] && h3 == full@[3]);
    let (c0, c1, c2, c3) = match (h0, h1, h2, h3) {
        (Some(c0), Some(c1), Some(c2), Some(c3)) => (c0, c1, c2, c3),
        _ => {
            assert(false);
            return Err(
                invalid(
                    battle_id,
                    indexed_text("players", source_side.index(), ".hand[].index"),
                    "an index is missing".to_string(),
                ),
            );
        },
    };
    proof {
        assert(hand_ok(orig, cat));
        assert(c0 == normalized_card(card_at(orig, 0), 0));
        assert(c1 == normalized_card(card_at(orig, 1), 1));
        assert(c2 == normalized_card(card_at(orig, 2), 2));
        assert(c3 == normalized_card(card_at(orig, 3), 3));
        assert(card_ok(card_at(orig, 0), cat));
        assert(card_ok(card_at(orig, 1), cat));
        assert(card_ok(card_at(orig, 2), cat));
        assert(card_ok(card_at(orig, 3), cat));
    }
    let level = match to_u16(battle_id, "players[].level".to_string(), player.level) {
        Ok(v) => v,
        Err(e) => return Err(e),
    };
    let certification_level = match to_u16(
        battle_id,
        "players[].certificationLevel".to_string(),
        player.certification_level,
    ) {
        Ok(v) => v,
        Err(e) => return Err(e),
    };
    let base_life = match to_u16(battle_id, "players[].baseLife".to_string(), player.base_life) {
        Ok(v) => v,
        Err(e) => return Err(e),
    };
    let base_pillz = match to_u16(battle_id, "players[].basePillz".to_string(), player.base_pillz) {
        Ok(v) => v,
        Err(e) => return Err(e),
    };
    let club = match player.club {
        Some(club) => Some(SourceClub { id: club.id, name: club.name }),
        None => None,
    };
    let out = ReplayPlayer {
        engine_player,
        source_side,
        profile: SourceProfile {
            id: player.id,
            name: player.name,
            level,
            grade: player.grade,
            country: player.country,
            club,
            registration_time: player.registration_time,
            certification_level,
        },
        base_life,
        base_pillz,
        hand: [c0, c1, c2, c3],
    };
    assert(hand_known(out.hand, cat)) by {
        assert(out.hand@[0] == c0 && out.hand@[1] == c1 && out.hand@[2] == c2 && out.hand@[3] == c3);
    }
    Ok(out)
}

// ---------------------------------------------------------------------------------------
// The testcase header.

fn validate_testcase_header(
    battle_id: u64,
    capture_night: bool,
    capture_round_count: usize,
    testcase: &CapturedTestcase,
    players: &[ReplayPlayer; 2],
) -> (r: Result<(), AdapterError>)
    ensures
        r is Ok <==> header_ok(capture_night, capture_round_count as int, *testcase, *players),
        r matches Err(e) ==> e.battle_id == battle_id,
{
    if testcase.flip {
        return Err(
            invalid(
                battle_id,
                "testcase.flip".to_string(),
                "must be false for a normalized capture".to_string(),
            ),
        );
    }
    if let Err(e) = compare_flag(battle_id, "testcase.night".to_string(), capture_night, testcase.night) {
        return Err(e);
    }
    if testcase.cards.len() != 8 || testcase.levels.len() != 8 {
        return Err(
            invalid(
                battle_id,
                "testcase.cards/levels".to_string(),
                two_numbers_text(
                    "expected eight cards and levels, found ",
                    testcase.cards.len() as u64,
                    "/",
                    testcase.levels.len() as u64,
                    "",
                ),
            ),
        );
    }
    if let Err(e) = compare_int(
        battle_id,
        "testcase.life/player1.baseLife".to_string(),
        players[0].base_life as i64,
        testcase.life,
    ) {
        return Err(e);
    }
    if let Err(e) = compare_int(
        battle_id,
        "testcase.pillz/player1.basePillz".to_string(),
        players[0].base_pillz as i64,
        testcase.pillz,
    ) {
        return Err(e);
    }
    let mut k: usize = 0;
    while k < 8
        invariant
            k <= 8,
            testcase.cards@.len() == 8,
            testcase.levels@.len() == 8,
            forall|j: int|
                0 <= j < k ==> #[trigger] testcase.cards@[j]@ == listed_card(*players, j).source_name@
                    && testcase.levels@[j] == listed_card(*players, j).key.level,
        decreases 8 - k,
    {
        let player = if k < 4 {
            &players[0]
        } else {
            &players[1]
        };
        let card = if k < 4 {
            &player.hand[k]
        } else {
            &player.hand[k - 4]
        };
        if let Err(e) = compare_text(
            battle_id,
            indexed_text("testcase.cards", k, ""),
            &card.source_name,
            &testcase.cards[k],
        ) {
            return Err(e);
        }
        if let Err(e) = compare_int(
            battle_id,
            indexed_text("testcase.levels", k, ""),
            card.key.level as i64,
            testcase.levels[k],
        ) {
            return Err(e);
        }
        k += 1;
    }
    if testcase.moves.len() > 4 {
        return Err(
            invalid(
                battle_id,
                "testcase.moves".to_string(),
                count_text("expected at most four rounds, found ", testcase.moves.len() as u64, ""),
            ),
        );
    }
    if capture_round_count < testcase.moves.len() {
        return Err(
            invalid(
                battle_id,
                "rounds".to_string(),
                two_numbers_text(
                    "capture has ",
                    capture_round_count as u64,
                    " rounds but testcase has ",
                    testcase.moves.len() as u64,
                    " resolved moves",
                ),
            ),
        );
    }
    Ok(())
}

// ---------------------------------------------------------------------------------------
// Rounds.

fn normalize_play(
    battle_id: u64,
    round_index: usize,
    move_index: usize,
    source: CapturedMove,
    source_side: SourceSide,
    first_side: SourceSide,
    players: &[ReplayPlayer; 2],
    used: &mut ByPlayer<[bool; 4]>,
) -> (r: Result<ReplayPlay, AdapterError>)
    ensures
        r is Ok <==> play_ok(source, source_side, first_side, *players, *old(used)),
        r matches Ok(play) ==> play == normalized_play(source, source_side, first_side, *players)
            && *final(used) == used_after(source, source_side, first_side, *old(used)),
        r matches Ok(play) ==> {
            let player = as_player(play.engine_player);
            &&& play.engine_player == engine_player_spec(source_side, first_side)
            &&& play.source_side == source_side
            &&& play.hand_index < 4
            &&& play.card == players@[player.idx()].hand@[play.hand_index as int].key
            &&& !old(used).at(player)@[play.hand_index as int]
            &&& *final(used) == old(used).with(
                player,
                played_with(old(used).at(player), play.hand_index),
            )
            &&& play.pillz < u16::MAX
            &&& play.source_pillz_used == play.pillz + 1
        },
        r matches Err(e) ==> e.battle_id == battle_id,
{
    let engine = engine_player(source_side, first_side);
    let player = match engine {
        EnginePlayer::P1 => PlayerId::P1,
        EnginePlayer::P2 => PlayerId::P2,
    };
    let hand_index = match hand_index(
        battle_id,
        twice_indexed_text("rounds", round_index, ".moves", move_index, ".index"),
        source.index,
    ) {
        Ok(i) => i,
        Err(e) => return Err(e),
    };
    let mut flags = *used.get(player);
    if flags[hand_index as usize] {
        return Err(
            invalid(
                battle_id,
                twice_indexed_text("rounds", round_index, ".moves", move_index, ".index"),
                joined_text(
                    "player ",
                    engine_name(engine),
                    " already played hand index ",
                    count_text("", hand_index as u64, "").as_str(),
                    "",
                    "",
                ),
            ),
        );
    }
    let ghost before = flags;
    flags[hand_index as usize] = true;
    assert(flags =~= played_with(before, hand_index));
    used.set(player, flags);
    let card = players[engine.index()].hand[hand_index as usize].key;
    if let Err(e) = compare_int(
        battle_id,
        twice_indexed_text("rounds", round_index, ".moves", move_index, ".cardId"),
        source.card_id as i64,
        card.id as i64,
    ) {
        return Err(e);
    }
    let pillz = match to_u16(battle_id, twice_indexed_text("rounds", round_index, ".moves", move_index, ".pillz"), source.pillz) {
        Ok(v) => v,
        Err(e) => return Err(e),
    };
    let source_pillz_used = match to_u16(
        battle_id,
        twice_indexed_text("rounds", round_index, ".moves", move_index, ".pillzUsed"),
        source.pillz_used,
    ) {
        Ok(v) => v,
        Err(e) => return Err(e),
    };
    if pillz == u16::MAX {
        return Err(
            invalid(
                battle_id,
                twice_indexed_text("rounds", round_index, ".moves", move_index, ".pillz"),
                "cannot add the source's free pill within u16".to_string(),
            ),
        );
    }
    if source_pillz_used != pillz + 1 {
        return Err(
            invalid(
                battle_id,
                twice_indexed_text("rounds", round_index, ".moves", move_index, ".pillzUsed"),
                two_numbers_text(
                    "expected pillz + free pill = ",
                    pillz as u64 + 1,
                    ", found ",
                    source_pillz_used as u64,
                    "",
                ),
            ),
        );
    }
    Ok(
        ReplayPlay {
            engine_player: engine,
            source_side,
            hand_index,
            card,
            pillz,
            source_pillz_used,
            fury: source.fury,
            source_timestamp_ms: source.t,
        },
    )
}

fn validate_testcase_selection(
    battle_id: u64,
    round_index: usize,
    name: &str,
    play: &ReplayPlay,
    testcase: (i64, i64, bool),
) -> (r: Result<(), AdapterError>)
    ensures
        r is Ok <==> selection_ok(*play, testcase),
        r matches Err(e) ==> e.battle_id == battle_id,
{
    if let Err(e) = compare_int(
        battle_id,
        twice_indexed_text("testcase.moves", round_index, name, 0, ""),
        play.hand_index as i64,
        testcase.0,
    ) {
        return Err(e);
    }
    if let Err(e) = compare_int(
        battle_id,
        twice_indexed_text("testcase.moves", round_index, name, 1, ""),
        play.pillz as i64,
        testcase.1,
    ) {
        return Err(e);
    }
    compare_flag(
        battle_id,
        twice_indexed_text("testcase.moves", round_index, name, 2, ""),
        play.fury,
        testcase.2,
    )
}

fn expected_state(
    battle_id: u64,
    round_index: usize,
    player: EnginePlayer,
    round: &CapturedRound,
    first_side: SourceSide,
) -> (r: Result<ExpectedPlayerState, AdapterError>)
    ensures
        r is Ok <==> state_ok(*round, side_for_player_spec(player, first_side)),
        r matches Ok(s) ==> s == state_of(*round, side_for_player_spec(player, first_side)),
        r matches Err(e) ==> e.battle_id == battle_id,
{
    let side = side_for_player(player, first_side);
    let life = match round.life[side.index()] {
        Some(v) => v,
        None => return Err(
            invalid(
                battle_id,
                twice_indexed_text("rounds", round_index, ".life", side.index(), ""),
                "is null in the resolved prefix".to_string(),
            ),
        ),
    };
    let pillz = match round.pillz[side.index()] {
        Some(v) => v,
        None => return Err(
            invalid(
                battle_id,
                twice_indexed_text("rounds", round_index, ".pillz", side.index(), ""),
                "is null in the resolved prefix".to_string(),
            ),
        ),
    };
    let life = match to_u16(battle_id, twice_indexed_text("rounds", round_index, ".life", side.index(), ""), life) {
        Ok(v) => v,
        Err(e) => return Err(e),
    };
    let pillz = match to_u16(battle_id, twice_indexed_text("rounds", round_index, ".pillz", side.index(), ""), pillz) {
        Ok(v) => v,
        Err(e) => return Err(e),
    };
    Ok(ExpectedPlayerState { life, pillz })
}

fn compare_testcase_state(
    battle_id: u64,
    round_index: usize,
    states: &[ExpectedPlayerState; 2],
    testcase: &CapturedTestcaseMove,
) -> (r: Result<(), AdapterError>)
    ensures
        r is Ok <==> states_agree(*states, *testcase),
        r matches Err(e) ==> e.battle_id == battle_id,
{
    if let Err(e) = compare_int(
        battle_id,
        indexed_text("testcase.moves", round_index, ".p1life"),
        states[0].life as i64,
        testcase.p1life,
    ) {
        return Err(e);
    }
    if let Err(e) = compare_int(
        battle_id,
        indexed_text("testcase.moves", round_index, ".p1pillz"),
        states[0].pillz as i64,
        testcase.p1pillz,
    ) {
        return Err(e);
    }
    if let Err(e) = compare_int(
        battle_id,
        indexed_text("testcase.moves", round_index, ".p2life"),
        states[1].life as i64,
        testcase.p2life,
    ) {
        return Err(e);
    }
    compare_int(
        battle_id,
        indexed_text("testcase.moves", round_index, ".p2pillz"),
        states[1].pillz as i64,
        testcase.p2pillz,
    )
}

fn normalize_result(
    battle_id: u64,
    fields: (String, String, String),
    power: i64,
    damage: i64,
    attack: i64,
    won: bool,
) -> (r: Result<ExpectedCardResult, AdapterError>)
    ensures
        r is Ok <==> result_fits(power, damage, attack),
        r matches Ok(c) ==> c == card_result(power, damage, attack, won),
        r matches Err(e) ==> e.battle_id == battle_id,
{
    let (power_field, damage_field, attack_field) = fields;
    let power = match to_u16(battle_id, power_field, power) {
        Ok(v) => v,
        Err(e) => return Err(e),
    };
    let damage = match to_u16(battle_id, damage_field, damage) {
        Ok(v) => v,
        Err(e) => return Err(e),
    };
    let attack = match to_u32(battle_id, attack_field, attack) {
        Ok(v) => v,
        Err(e) => return Err(e),
    };
    Ok(ExpectedCardResult { power, damage, attack, won })
}

fn expected_result(
    battle_id: u64,
    round_index: usize,
    player: EnginePlayer,
    round: &CapturedRound,
    first_side: SourceSide,
) -> (r: Result<Option<ExpectedCardResult>, AdapterError>)
    ensures
        r is Ok <==> resolution_ok(*round, side_for_player_spec(player, first_side)),
        r matches Ok(c) ==> c == resolution_of(*round, side_for_player_spec(player, first_side)),
        r matches Err(e) ==> e.battle_id == battle_id,
{
    let side = side_for_player(player, first_side);
    match round.resolution[side.index()] {
        Some(result) => if result.attack >= 0 {
            match normalize_result(
                battle_id,
                (
                    twice_indexed_text("rounds", round_index, ".resolution", side.index(), ".power"),
                    twice_indexed_text("rounds", round_index, ".resolution", side.index(), ".damage"),
                    twice_indexed_text("rounds", round_index, ".resolution", side.index(), ".attack"),
                ),
                result.power,
                result.damage,
                result.attack,
                result.won,
            ) {
                Ok(c) => Ok(Some(c)),
                Err(e) => Err(e),
            }
        } else {
            Ok(None)
        },
        None => Ok(None),
    }
}

fn compare_testcase_results(
    battle_id: u64,
    round_index: usize,
    results: &[Option<ExpectedCardResult>; 2],
    testcase: &CapturedTestcaseMove,
) -> (r: Result<(), AdapterError>)
    ensures
        r is Ok <==> results_agree(*results, *testcase),
        r matches Err(e) ==> e.battle_id == battle_id,
{
    let mut k: usize = 0;
    while k < 2
        invariant
            k <= 2,
            k >= 1 ==> testcase_result_ok(testcase.r1) && results@[0] == testcase_result_of(
                testcase.r1,
            ),
            k >= 2 ==> testcase_result_ok(testcase.r2) && results@[1] == testcase_result_of(
                testcase.r2,
            ),
        decreases 2 - k,
    {
        let (source, names) = if k == 0 {
            (testcase.r1, [".r1", ".r1.power", ".r1.damage", ".r1.attack"])
        } else {
            (testcase.r2, [".r2", ".r2.power", ".r2.damage", ".r2.attack"])
        };
        let expected = match source {
            Some(result) => match normalize_result(
                battle_id,
                (
                    indexed_text("testcase.moves", round_index, names[1]),
                    indexed_text("testcase.moves", round_index, names[2]),
                    indexed_text("testcase.moves", round_index, names[3]),
                ),
                result.power,
                result.damage,
                result.attack,
                result.won,
            ) {
                Ok(c) => Some(c),
                Err(e) => return Err(e),
            },
            None => None,
        };
        if results[k] != expected {
            return Err(
                mismatch(
                    battle_id,
                    indexed_text("testcase.moves", round_index, names[0]),
                    result_text(results[k]),
                    result_text(expected),
                ),
            );
        }
        k += 1;
    }
    Ok(())
}

/// The sides of a round's two moves.
fn move_sides(battle_id: u64, round_index: usize, moves: &Vec<CapturedMove>) -> (r: Result<
    [SourceSide; 2],
    AdapterError,
>)
    requires
        moves@.len() == 2,
    ensures
        r is Ok <==> side_ok(moves@[0].side) && side_ok(moves@[1].side),
        r matches Ok(sides) ==> sides@[0] == side_from(moves@[0].side) && sides@[1] == side_from(
            moves@[1].side,
        ),
        r matches Err(e) ==> e.battle_id == battle_id,
{
    let side0 = match source_side(
        battle_id,
        twice_indexed_text("rounds", round_index, ".moves", 0, ".side"),
        moves[0].side,
    ) {
        Ok(s) => s,
        Err(e) => return Err(e),
    };
    let side1 = match source_side(
        battle_id,
        twice_indexed_text("rounds", round_index, ".moves", 1, ".side"),
        moves[1].side,
    ) {
        Ok(s) => s,
        Err(e) => return Err(e),
    };
    Ok([side0, side1])
}

/// The position of the first move made from `side`; `missing` opens the error's detail
/// where there is none.
fn move_from(
    battle_id: u64,
    round_index: usize,
    sides: &[SourceSide; 2],
    side: SourceSide,
    missing: &str,
) -> (r: Result<usize, AdapterError>)
    ensures
        r is Ok <==> (sides@[0] == side || sides@[1] == side),
        r matches Ok(i) ==> (i == 0 && sides@[0] == side) || (i == 1 && sides@[0] != side
            && sides@[1] == side),
        r matches Err(e) ==> e.battle_id == battle_id,
{
    if sides[0] == side {
        Ok(0)
    } else if sides[1] == side {
        Ok(1)
    } else {
        Err(
            invalid(
                battle_id,
                indexed_text("rounds", round_index, ".moves[].side"),
                joined_text(missing, side_name(side), "", "", "", ""),
            ),
        )
    }
}

proof fn lemma_rounds_ok(
    players: [ReplayPlayer; 2],
    rounds: Seq<ReplayRound>,
    useds: Seq<ByPlayer<[bool; 4]>>,
    k: int,
)
    requires
        0 <= k <= rounds.len(),
        useds.len() == rounds.len() + 1,
        forall|j: int|
            0 <= j < rounds.len() ==> #[trigger] round_check(players, rounds[j], j, useds[j])
                == Ok::<ByPlayer<[bool; 4]>, super::execute::ReplayValidationFailure>(
                useds[j + 1],
            ),
    ensures
        rounds_check_from(players, rounds, k, useds[k]) is None,
    decreases rounds.len() - k,
{
    if k < rounds.len() {
        lemma_rounds_ok(players, rounds, useds, k + 1);
        assert(round_check(players, rounds[k], k, useds[k]) == Ok::<
            ByPlayer<[bool; 4]>,
            super::execute::ReplayValidationFailure,
        >(useds[k + 1]));
    }
}

/// Normalize round `round_index` of a capture against the testcase's record of it, playing
/// its two slots in `used`.
fn normalize_round(
    battle_id: u64,
    round_index: usize,
    round: &CapturedRound,
    testcase_move: CapturedTestcaseMove,
    players: &[ReplayPlayer; 2],
    first_side: SourceSide,
    used: &mut ByPlayer<[bool; 4]>,
) -> (r: Result<ReplayRound, AdapterError>)
    requires
        players_ordered(*players, first_side),
        round_index < 4,
    ensures
        r is Ok <==> round_spec(
            *round,
            testcase_move,
            round_index as int,
            *players,
            first_side,
            *old(used),
        ) is Some,
        r matches Ok(replay_round) ==> round_spec(
            *round,
            testcase_move,
            round_index as int,
            *players,
            first_side,
            *old(used),
        ) == Some((replay_round, *final(used))),
        r matches Ok(replay_round) ==> round_check(
            *players,
            replay_round,
            round_index as int,
            *old(used),
        ) == Ok::<ByPlayer<[bool; 4]>, super::execute::ReplayValidationFailure>(*final(used)),
        r matches Err(e) ==> e.battle_id == battle_id,
{
    let ghost used_before = *used;
    if let Err(e) = compare_int(
        battle_id,
        indexed_text("rounds", round_index, ".round"),
        round.round,
        round_index as i64,
    ) {
        return Err(e);
    }
    let first_value = match round.first {
        Some(v) => v,
        None => return Err(
            invalid(
                battle_id,
                indexed_text("rounds", round_index, ".first"),
                "is null".to_string(),
            ),
        ),
    };
    let actual_first_side = match source_side(
        battle_id,
        indexed_text("rounds", round_index, ".first"),
        first_value,
    ) {
        Ok(s) => s,
        Err(e) => return Err(e),
    };
    if round_index == 0 && actual_first_side != first_side {
        return Err(
            mismatch(
                battle_id,
                "rounds[0].first/firstPlayer".to_string(),
                joined_text("", side_name(actual_first_side), "", "", "", ""),
                joined_text("", side_name(first_side), "", "", "", ""),
            ),
        );
    }
    if round.moves.len() != 2 {
        return Err(
            invalid(
                battle_id,
                indexed_text("rounds", round_index, ".moves"),
                count_text("expected two moves, found ", round.moves.len() as u64, ""),
            ),
        );
    }
    let sides = match move_sides(battle_id, round_index, &round.moves) {
        Ok(sides) => sides,
        Err(e) => return Err(e),
    };
    let first_move_index = match move_from(
        battle_id,
        round_index,
        &sides,
        actual_first_side,
        "has no move for explicit first side ",
    ) {
        Ok(i) => i,
        Err(e) => return Err(e),
    };
    let second_side = actual_first_side.other();
    let second_move_index = match move_from(
        battle_id,
        round_index,
        &sides,
        second_side,
        "has no move for opposite side ",
    ) {
        Ok(i) => i,
        Err(e) => return Err(e),
    };
    let first_play = match normalize_play(
        battle_id,
        round_index,
        first_move_index,
        round.moves[first_move_index],
        actual_first_side,
        first_side,
        players,
        used,
    ) {
        Ok(p) => p,
        Err(e) => return Err(e),
    };
    let ghost used_between = *used;
    let second_play = match normalize_play(
        battle_id,
        round_index,
        second_move_index,
        round.moves[second_move_index],
        second_side,
        first_side,
        players,
        used,
    ) {
        Ok(p) => p,
        Err(e) => return Err(e),
    };
    if let Err(e) = validate_testcase_selection(battle_id, round_index, ".s1", &first_play, testcase_move.s1) {
        return Err(e);
    }
    if let Err(e) = validate_testcase_selection(battle_id, round_index, ".s2", &second_play, testcase_move.s2) {
        return Err(e);
    }
    let state_p1 = match expected_state(battle_id, round_index, EnginePlayer::P1, round, first_side) {
        Ok(s) => s,
        Err(e) => return Err(e),
    };
    let state_p2 = match expected_state(battle_id, round_index, EnginePlayer::P2, round, first_side) {
        Ok(s) => s,
        Err(e) => return Err(e),
    };
    let expected_player_states = [state_p1, state_p2];
    if let Err(e) = compare_testcase_state(battle_id, round_index, &expected_player_states, &testcase_move) {
        return Err(e);
    }
    let result_p1 = match expected_result(battle_id, round_index, EnginePlayer::P1, round, first_side) {
        Ok(c) => c,
        Err(e) => return Err(e),
    };
    let result_p2 = match expected_result(battle_id, round_index, EnginePlayer::P2, round, first_side) {
        Ok(c) => c,
        Err(e) => return Err(e),
    };
    let expected_card_results = [result_p1, result_p2];
    if let Err(e) = compare_testcase_results(battle_id, round_index, &expected_card_results, &testcase_move) {
        return Err(e);
    }
    let replay_round = ReplayRound {
        round: round_index as u8,
        first_mover: engine_player(actual_first_side, first_side),
        source_first_side: actual_first_side,
        plays: [first_play, second_play],
        expected_player_states,
        expected_card_results,
    };
    proof {
        let first = as_player(replay_round.first_mover);
        assert(players@[first.idx()].source_side == actual_first_side);
        assert(first_play.engine_player == replay_round.first_mover);
        assert(as_player(second_play.engine_player) == first.opp());
        assert(replay_round.plays@[0] == first_play);
        assert(replay_round.plays@[1] == second_play);
        assert(play_check(*players, replay_round, round_index as u8, 0, first, used_before)
            == Ok::<ByPlayer<[bool; 4]>, super::execute::ReplayValidationFailure>(
            used_between,
        ));
        assert(play_check(
            *players,
            replay_round,
            round_index as u8,
            1,
            first.opp(),
            used_between,
        ) == Ok::<ByPlayer<[bool; 4]>, super::execute::ReplayValidationFailure>(*used));
        assert(round_check(*players, replay_round, round_index as int, used_before) == Ok::<
            ByPlayer<[bool; 4]>,
            super::execute::ReplayValidationFailure,
        >(*used));
    }
    Ok(replay_round)
}

fn normalize_rounds(
    battle_id: u64,
    rounds: &Vec<CapturedRound>,
    testcase: &CapturedTestcase,
    players: &[ReplayPlayer; 2],
    first_side: SourceSide,
) -> (r: Result<Vec<ReplayRound>, AdapterError>)
    requires
        players_ordered(*players, first_side),
        testcase.moves@.len() <= rounds@.len(),
        testcase.moves@.len() <= 4,
    ensures
        r is Ok <==> rounds_prefix(
            rounds@,
            testcase.moves@,
            *players,
            first_side,
            testcase.moves@.len(),
        ) is Some,
        r matches Ok(v) ==> v@ == rounds_prefix(
            rounds@,
            testcase.moves@,
            *players,
            first_side,
            testcase.moves@.len(),
        ).unwrap().0,
        r matches Ok(v) ==> v@.len() == testcase.moves@.len(),
        r matches Ok(v) ==> rounds_check_from(*players, v@, 0, nothing_played()) is None,
        r matches Err(e) ==> e.battle_id == battle_id,
{
    let mut used = ByPlayer::new([false, false, false, false], [false, false, false, false]);
    let mut normalized: Vec<ReplayRound> = Vec::new();
    let ghost mut useds: Seq<ByPlayer<[bool; 4]>> = seq![used];
    let mut round_index: usize = 0;
    while round_index < testcase.moves.len()
        invariant
            players_ordered(*players, first_side),
            testcase.moves@.len() <= rounds@.len(),
            testcase.moves@.len() <= 4,
            round_index <= testcase.moves@.len(),
            normalized@.len() == round_index,
            useds.len() == round_index + 1,
            useds[round_index as int] == used,
            useds[0] == nothing_played(),
            rounds_prefix(rounds@, testcase.moves@, *players, first_side, round_index as nat)
                == Some((normalized@, used)),
            forall|j: int|
                0 <= j < round_index ==> #[trigger] round_check(
                    *players,
                    normalized@[j],
                    j,
                    useds[j],
                ) == Ok::<ByPlayer<[bool; 4]>, super::execute::ReplayValidationFailure>(
                    useds[j + 1],
                ),
        decreases testcase.moves@.len() - round_index,
    {
        let ghost before = used;
        let replay_round = match normalize_round(
            battle_id,
            round_index,
            &rounds[round_index],
            testcase.moves[round_index],
            players,
            first_side,
            &mut used,
        ) {
            Ok(r) => r,
            Err(e) => {
                proof {
                    lemma_prefix_stays_refused(
                        rounds@,
                        testcase.moves@,
                        *players,
                        first_side,
                        (round_index + 1) as nat,
                        testcase.moves@.len(),
                    );
                }
                return Err(e);
            },
        };
        proof {
            useds = useds.push(used);
        }
        normalized.push(replay_round);
        round_index += 1;
    }
    proof {
        lemma_rounds_ok(*players, normalized@, useds, 0);
    }
    Ok(normalized)
}

/// Once a prefix of the rounds is refused, every longer one is.
proof fn lemma_prefix_stays_refused(
    rounds: Seq<CapturedRound>,
    moves: Seq<CapturedTestcaseMove>,
    players: [ReplayPlayer; 2],
    first_side: SourceSide,
    n: nat,
    m: nat,
)
    requires
        n <= m,
        rounds_prefix(rounds, moves, players, first_side, n) is None,
    ensures
        rounds_prefix(rounds, moves, players, first_side, m) is None,
    decreases m - n,
{
    if n < m {
        lemma_prefix_stays_refused(rounds, moves, players, first_side, n, (m - 1) as nat);
    }
}

// ---------------------------------------------------------------------------------------
// The whole capture.

/// Normalize a capture into a replay, or say why it holds none. A replay it makes is one
/// the replay engine accepts.
pub fn adapt_capture(capture: CapturedGame, catalog: &CardCatalog) -> (r: Result<
    ReplayClassification,
    AdapterError,
>)
    ensures
        capture.final_status@ == "playing"@ ==> r == Ok::<ReplayClassification, AdapterError>(
            ReplayClassification::Skipped(
                SkippedReplay {
                    battle_id: capture.id,
                    source_status: capture.final_status,
                    reason: ReplaySkipReason::InProgress,
                },
            ),
        ),
        capture.final_status@ != "playing"@ && capture.testcase is None ==> r == Ok::<
            ReplayClassification,
            AdapterError,
        >(
            ReplayClassification::Skipped(
                SkippedReplay {
                    battle_id: capture.id,
                    source_status: capture.final_status,
                    reason: ReplaySkipReason::NoReplayTestcase,
                },
            ),
        ),
        capture.final_status@ != "playing"@ && capture.testcase is Some ==> (r is Ok <==> adapt_ok(
            capture,
            catalog.entries(),
        )),
        r matches Ok(ReplayClassification::Ready(replay)) ==> {
            &&& capture.final_status@ != "playing"@
            &&& capture.testcase is Some
            &&& replay.schema_version == REPLAY_SCHEMA_VERSION
            &&& replay.metadata == adapted_metadata(capture)
            &&& replay.players == adapted_players(capture)
            &&& replay.rounds@ == adapted_rounds(capture).unwrap().0
            &&& replay.rounds@.len() == capture.testcase.unwrap().moves@.len()
            &&& players_ordered(replay.players, replay.metadata.source_first_side)
            &&& replay_failure(*replay, catalog.entries()) is None
        },
        r matches Err(e) ==> e.battle_id == capture.id,
{
    let battle_id = capture.id;
    if capture.final_status == "playing".to_string() {
        return Ok(
            ReplayClassification::Skipped(
                SkippedReplay {
                    battle_id,
                    source_status: capture.final_status,
                    reason: ReplaySkipReason::InProgress,
                },
            ),
        );
    }
    let testcase = match capture.testcase {
        Some(testcase) => testcase,
        None => return Ok(
            ReplayClassification::Skipped(
                SkippedReplay {
                    battle_id,
                    source_status: capture.final_status,
                    reason: ReplaySkipReason::NoReplayTestcase,
                },
            ),
        ),
    };
    let source_status = match source_status(battle_id, &capture.final_status) {
        Ok(s) => s,
        Err(e) => return Err(e),
    };
    let first_value = match capture.first_player {
        Some(v) => v,
        None => return Err(invalid(battle_id, "firstPlayer".to_string(), "is null".to_string())),
    };
    let first_side = match source_side(battle_id, "firstPlayer".to_string(), first_value) {
        Ok(s) => s,
        Err(e) => return Err(e),
    };
    let recording_side = match capture.my_side {
        Some(v) => match source_side(battle_id, "mySide".to_string(), v) {
            Ok(s) => Some(s),
            Err(e) => return Err(e),
        },
        None => None,
    };
    let mut captured_players = capture.players;
    if captured_players.len() != 2 {
        return Err(
            invalid(
                battle_id,
                "players".to_string(),
                count_text("expected two players, found ", captured_players.len() as u64, ""),
            ),
        );
    }
    let second_captured = captured_players.remove(1);
    let first_captured = captured_players.remove(0);
    let first_captured_side = match source_side(
        battle_id,
        "players[].side".to_string(),
        first_captured.side,
    ) {
        Ok(s) => s,
        Err(e) => return Err(e),
    };
    let second_captured_side = match source_side(
        battle_id,
        "players[].side".to_string(),
        second_captured.side,
    ) {
        Ok(s) => s,
        Err(e) => return Err(e),
    };
    if first_captured_side == second_captured_side {
        return Err(
            invalid(
                battle_id,
                "players[].side".to_string(),
                count_text("side ", first_captured_side.index() as u64, " occurs more than once"),
            ),
        );
    }
    let (first_player, second_player) = if first_captured_side == first_side {
        (first_captured, second_captured)
    } else {
        (second_captured, first_captured)
    };
    let p1 = match normalize_player(battle_id, first_player, EnginePlayer::P1, first_side, catalog) {
        Ok(p) => p,
        Err(e) => return Err(e),
    };
    let p2 = match normalize_player(
        battle_id,
        second_player,
        EnginePlayer::P2,
        first_side.other(),
        catalog,
    ) {
        Ok(p) => p,
        Err(e) => return Err(e),
    };
    let players = [p1, p2];
    if let Err(e) = validate_testcase_header(
        battle_id,
        capture.night,
        capture.rounds.len(),
        &testcase,
        &players,
    ) {
        return Err(e);
    }
    let rounds = match normalize_rounds(battle_id, &capture.rounds, &testcase, &players, first_side) {
        Ok(r) => r,
        Err(e) => return Err(e),
    };
    let room = match capture.room {
        Some(room) => Some(
            SourceRoom {
                id: room.id,
                name: room.name,
                battle_rule_id: room.id_battle_rule,
                deck_format_id: room.id_deck_format,
            },
        ),
        None => None,
    };
    let replay = ReplayCaseV1 {
        schema_version: REPLAY_SCHEMA_VERSION,
        metadata: ReplayMetadata {
            battle_id,
            captured_at: capture.captured_at,
            creation_time: capture.creation_time,
            room,
            battle_rule_id: capture.battle_rule_id,
            night: capture.night,
            source_status,
            source_first_side: first_side,
            recording_player_id: capture.my_id,
            recording_side,
            source_snapshot_count: capture.snapshots,
            source_issues: capture.issues,
        },
        players,
        rounds,
    };
    proof {
        let cat = catalog.entries();
        assert(replay.players@[0] == p1);
        assert(replay.players@[1] == p2);
        assert(hand_known(p1.hand, cat));
        assert(hand_known(p2.hand, cat));
        assert(super::execute::card_failure_from(p1.hand, cat, PlayerId::P1, 0) is None) by {
            lemma_known_hand_has_no_failure(p1.hand, cat, PlayerId::P1, 0);
        }
        assert(super::execute::card_failure_from(p2.hand, cat, PlayerId::P2, 0) is None) by {
            lemma_known_hand_has_no_failure(p2.hand, cat, PlayerId::P2, 0);
        }
    }
    Ok(ReplayClassification::Ready(Box::new(replay)))
}

proof fn lemma_known_hand_has_no_failure(
    hand: [ReplayCard; 4],
    catalog: Seq<crate::catalog::CanonicalCard>,
    player: PlayerId,
    i: int,
)
    requires
        hand_known(hand, catalog),
        0 <= i <= 4,
    ensures
        super::execute::card_failure_from(hand, catalog, player, i) is None,
    decreases 4 - i,
{
    if i < 4 {
        assert(hand@[i].hand_index == i);
        lemma_known_hand_has_no_failure(hand, catalog, player, i + 1);
    }
}

} // verus!
