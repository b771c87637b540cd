use pillz_engine::card::CardKey;
use pillz_engine::catalog::{CanonicalCard, CardCatalog};
use pillz_engine::engine::{MatchStatus, PlayerId};
use pillz_engine::replay::adapter::{adapt_capture, AdapterErrorKind, ReplayClassification, ReplaySkipReason};
use pillz_engine::replay::capture::{
    CapturedCard, CapturedGame, CapturedMove, CapturedPlayer, CapturedResolution, CapturedRound,
    CapturedTestcase, CapturedTestcaseMove, CapturedTestcaseResult,
};
use pillz_engine::replay::corpus::{battle_id_order, duplicated_battle_ids};
use pillz_engine::replay::execute::{
    replay_validation_failure, validate_replay, BaseRulesReplay, BaseRulesReplayError,
    ReplayValidationFailure,
};
use pillz_engine::replay::model::{
    EnginePlayer, ExpectedCardResult, ExpectedPlayerState, ReplayCard, ReplayCaseV1,
    ReplayMetadata, ReplayPlay, ReplayPlayer, ReplayRound, SourceProfile, SourceSide,
    SourceStatus, REPLAY_SCHEMA_VERSION,
};

fn catalog() -> CardCatalog {
    let mut cards = Vec::new();
    for id in [1, 2, 3, 4] {
        cards.push(CanonicalCard { key: CardKey::new(id, 3), clan_id: id, power: 6, damage: 3 });
    }
    for id in [11, 12, 13, 14] {
        cards.push(CanonicalCard { key: CardKey::new(id, 3), clan_id: id, power: 4, damage: 2 });
    }
    CardCatalog::new(cards)
}

fn card(id: u32, index: u8) -> ReplayCard {
    ReplayCard {
        key: CardKey::new(id, 3),
        hand_index: index,
        source_name: format!("card {id}"),
        source_clan: "clan".to_string(),
        in_battle_id: id,
        state: "hand".to_string(),
        source_ability: None,
        source_bonus: None,
    }
}

fn player(engine_player: EnginePlayer, side: SourceSide, ids: [u32; 4]) -> ReplayPlayer {
    ReplayPlayer {
        engine_player,
        source_side: side,
        profile: SourceProfile {
            id: 1,
            name: "player".to_string(),
            level: 1,
            grade: "A".to_string(),
            country: "FR".to_string(),
            club: None,
            registration_time: 0,
            certification_level: 0,
        },
        base_life: 20,
        base_pillz: 10,
        hand: [card(ids[0], 0), card(ids[1], 1), card(ids[2], 2), card(ids[3], 3)],
    }
}

fn play(engine_player: EnginePlayer, side: SourceSide, slot: u8, id: u32, pillz: u16) -> ReplayPlay {
    ReplayPlay {
        engine_player,
        source_side: side,
        hand_index: slot,
        card: CardKey::new(id, 3),
        pillz,
        source_pillz_used: pillz + 1,
        fury: false,
        source_timestamp_ms: 0,
    }
}

/// One round: P1 bets two on a Power 6 card against P2's unbet Power 4, so 18 beats 4 and
/// P2 takes three.
fn replay() -> ReplayCaseV1 {
    ReplayCaseV1 {
        schema_version: REPLAY_SCHEMA_VERSION,
        metadata: ReplayMetadata {
            battle_id: 77,
            captured_at: "now".to_string(),
            creation_time: 0,
            room: None,
            battle_rule_id: 10,
            night: false,
            source_status: SourceStatus::Done,
            source_first_side: SourceSide::Side1,
            recording_player_id: None,
            recording_side: None,
            source_snapshot_count: 1,
            source_issues: Vec::new(),
        },
        players: [
            player(EnginePlayer::P1, SourceSide::Side1, [1, 2, 3, 4]),
            player(EnginePlayer::P2, SourceSide::Side0, [11, 12, 13, 14]),
        ],
        rounds: vec![ReplayRound {
            round: 0,
            first_mover: EnginePlayer::P1,
            source_first_side: SourceSide::Side1,
            plays: [
                play(EnginePlayer::P1, SourceSide::Side1, 0, 1, 2),
                play(EnginePlayer::P2, SourceSide::Side0, 0, 11, 0),
            ],
            expected_player_states: [
                ExpectedPlayerState { life: 20, pillz: 8 },
                ExpectedPlayerState { life: 17, pillz: 10 },
            ],
            expected_card_results: [
                Some(ExpectedCardResult { power: 6, damage: 3, attack: 18, won: true }),
                Some(ExpectedCardResult { power: 4, damage: 2, attack: 4, won: false }),
            ],
        }],
    }
}

#[test]
fn a_consistent_replay_validates_and_replays_exactly() {
    let bound = BaseRulesReplay::new(replay(), &catalog()).unwrap();
    assert_eq!(bound.battle_id(), 77);
    assert_eq!(bound.match_spec().players[PlayerId::P1].hand[0].power, 6);
    let report = bound.execute_effects_disabled().unwrap();
    assert!(!report.effects_enabled);
    assert_eq!(report.rounds.len(), 1);
    assert_eq!(report.rounds[0].cards[PlayerId::P1].attack, 18);
    assert_eq!(report.final_position.players[PlayerId::P2].life, 17);
    assert_eq!(report.final_position.status, MatchStatus::Playing);
}

#[test]
fn a_prefix_beyond_the_replay_is_refused() {
    let bound = BaseRulesReplay::new(replay(), &catalog()).unwrap();
    assert_eq!(
        bound.execute_effects_disabled_prefix(2),
        Err(BaseRulesReplayError::PrefixOutOfRange { battle_id: 77, requested: 2, available: 1 })
    );
    assert_eq!(bound.execute_effects_disabled_prefix(0).unwrap().rounds.len(), 0);
}

#[test]
fn a_wrong_expected_life_is_reported_as_a_mismatch() {
    let mut case = replay();
    case.rounds[0].expected_player_states[1].life = 16;
    let bound = BaseRulesReplay::new(case, &catalog()).unwrap();
    match bound.execute_effects_disabled() {
        Err(BaseRulesReplayError::Mismatch { context, field, expected, actual }) => {
            assert_eq!(context.battle_id, 77);
            assert_eq!(field, "players.P2.life");
            assert_eq!(expected, "16");
            assert_eq!(actual, "17");
        }
        other => panic!("unexpected {other:?}"),
    }
}

#[test]
fn a_full_run_is_the_prefix_of_every_round() {
    let mut case = replay();
    case.rounds[0].expected_card_results[0] =
        Some(ExpectedCardResult { power: 6, damage: 3, attack: 17, won: true });
    let bound = BaseRulesReplay::new(case, &catalog()).unwrap();
    let full = bound.execute_effects_disabled();
    assert_eq!(full, bound.execute_effects_disabled_prefix(1));
    match full {
        Err(BaseRulesReplayError::Mismatch { field, expected, actual, .. }) => {
            assert_eq!((field.as_str(), expected.as_str(), actual.as_str()), ("cards.P1.attack", "17", "18"));
        }
        other => panic!("unexpected {other:?}"),
    }
    let bound = BaseRulesReplay::new(replay(), &catalog()).unwrap();
    assert_eq!(bound.execute_effects_disabled(), bound.execute_effects_disabled_prefix(1));
}

#[test]
fn an_unaffordable_bet_is_an_engine_error() {
    let mut case = replay();
    case.rounds[0].plays[0].pillz = 11;
    case.rounds[0].plays[0].source_pillz_used = 12;
    let bound = BaseRulesReplay::new(case, &catalog()).unwrap();
    assert!(matches!(bound.execute_effects_disabled(), Err(BaseRulesReplayError::Engine { .. })));
}

#[test]
fn validation_names_the_first_fault() {
    let catalog = catalog();
    let mut wrong_version = replay();
    wrong_version.schema_version = 2;
    assert_eq!(
        replay_validation_failure(&wrong_version, &catalog),
        Some(ReplayValidationFailure::SchemaVersion { found: 2 })
    );
    let error = BaseRulesReplay::new(wrong_version, &catalog).unwrap_err();
    assert_eq!(error.battle_id, 77);
    assert_eq!(error.field, "schema_version");

    let mut unknown = replay();
    unknown.players[1].hand[2].key = CardKey::new(99, 3);
    assert_eq!(
        replay_validation_failure(&unknown, &catalog),
        Some(ReplayValidationFailure::UnknownCard {
            player: PlayerId::P2,
            index: 2,
            key: CardKey::new(99, 3)
        })
    );

    let mut replayed = replay();
    let mut second = replayed.rounds[0];
    second.round = 1;
    replayed.rounds.push(second);
    assert_eq!(
        replay_validation_failure(&replayed, &catalog),
        Some(ReplayValidationFailure::SlotAlreadyPlayed { round: 1, play: 0, player: PlayerId::P1, slot: 0 })
    );

    let mut free_pill = replay();
    free_pill.rounds[0].plays[1].source_pillz_used = 0;
    assert_eq!(
        replay_validation_failure(&free_pill, &catalog),
        Some(ReplayValidationFailure::SourcePillzUsed { round: 0, play: 1, expected: 1, found: 0 })
    );
    assert_eq!(replay_validation_failure(&replay(), &catalog), None);
}

#[test]
fn duplicated_battle_ids_mark_every_copy() {
    assert_eq!(duplicated_battle_ids(&vec![5, 7, 5, 9]), vec![true, false, true, false]);
    assert_eq!(duplicated_battle_ids(&Vec::new()), Vec::<bool>::new());
}

fn captured_card(id: u32, index: i64) -> CapturedCard {
    CapturedCard {
        id,
        name: Some(format!("card {id}")),
        clan: Some("clan".to_string()),
        level: 3,
        index,
        in_battle_id: id,
        state: "hand".to_string(),
        ability: None,
        bonus: None,
    }
}

fn captured_player(side: i64, ids: [u32; 4]) -> CapturedPlayer {
    CapturedPlayer {
        side,
        id: side as u64,
        name: "player".to_string(),
        level: 1,
        grade: "A".to_string(),
        country: "FR".to_string(),
        club: None,
        registration_time: 0,
        certification_level: 0,
        base_life: 20,
        base_pillz: 10,
        // Listed out of index order: the adapter files each card under its own index.
        hand: vec![
            captured_card(ids[3], 3),
            captured_card(ids[0], 0),
            captured_card(ids[2], 2),
            captured_card(ids[1], 1),
        ],
    }
}

/// The capture of `replay()`: side 1 moves first, and the source lists side 0 first.
fn capture() -> CapturedGame {
    let resolution = |power, damage, attack, won| CapturedResolution {
        power,
        damage,
        damage_after: damage,
        attack,
        won,
    };
    let mut names = Vec::new();
    for id in [1, 2, 3, 4, 11, 12, 13, 14] {
        names.push(format!("card {id}"));
    }
    CapturedGame {
        id: 77,
        captured_at: "now".to_string(),
        creation_time: 0,
        room: None,
        battle_rule_id: 10,
        night: false,
        my_id: None,
        my_side: None,
        first_player: Some(1),
        players: vec![captured_player(0, [11, 12, 13, 14]), captured_player(1, [1, 2, 3, 4])],
        rounds: vec![CapturedRound {
            round: 0,
            first: Some(1),
            moves: vec![
                CapturedMove { side: 0, index: 0, card_id: 11, pillz: 0, pillz_used: 1, fury: false, t: 0 },
                CapturedMove { side: 1, index: 0, card_id: 1, pillz: 2, pillz_used: 3, fury: false, t: 0 },
            ],
            resolution: [Some(resolution(4, 2, 4, false)), Some(resolution(6, 3, 18, true))],
            life: [Some(17), Some(20)],
            pillz: [Some(10), Some(8)],
        }],
        final_status: "done".to_string(),
        snapshots: 1,
        issues: Vec::new(),
        testcase: Some(CapturedTestcase {
            cards: names,
            levels: vec![3; 8],
            night: false,
            flip: false,
            life: 20,
            pillz: 10,
            moves: vec![CapturedTestcaseMove {
                s1: (0, 2, false),
                s2: (0, 0, false),
                p1life: 20,
                p2life: 17,
                p1pillz: 8,
                p2pillz: 10,
                r1: Some(CapturedTestcaseResult { power: 6, damage: 3, attack: 18, won: true }),
                r2: Some(CapturedTestcaseResult { power: 4, damage: 2, attack: 4, won: false }),
            }],
        }),
    }
}

#[test]
fn an_adapted_capture_is_a_replay_the_engine_accepts() {
    let catalog = catalog();
    let replay = match adapt_capture(capture(), &catalog).unwrap() {
        ReplayClassification::Ready(replay) => *replay,
        other => panic!("unexpected {other:?}"),
    };
    assert_eq!(replay.players[0].source_side, SourceSide::Side1);
    assert_eq!(replay.players[0].hand[1].key, CardKey::new(2, 3));
    assert_eq!(replay.rounds[0].plays[0].engine_player, EnginePlayer::P1);
    assert_eq!(replay.rounds[0].expected_player_states[1].life, 17);
    let bound = BaseRulesReplay::new(replay, &catalog).unwrap();
    bound.execute_effects_disabled().unwrap();
}

#[test]
fn captures_without_a_replay_are_skipped() {
    let catalog = catalog();
    let mut playing = capture();
    playing.final_status = "playing".to_string();
    match adapt_capture(playing, &catalog).unwrap() {
        ReplayClassification::Skipped(skipped) => {
            assert_eq!(skipped.reason, ReplaySkipReason::InProgress);
            assert_eq!(skipped.battle_id, 77);
        }
        other => panic!("unexpected {other:?}"),
    }
    let mut no_testcase = capture();
    no_testcase.testcase = None;
    match adapt_capture(no_testcase, &catalog).unwrap() {
        ReplayClassification::Skipped(skipped) => {
            assert_eq!(skipped.reason, ReplaySkipReason::NoReplayTestcase)
        }
        other => panic!("unexpected {other:?}"),
    }
}

#[test]
fn adapter_errors_name_the_battle() {
    let catalog = catalog();
    let mut same_side = capture();
    same_side.players[1].side = 0;
    assert_eq!(adapt_capture(same_side, &catalog).unwrap_err().battle_id, 77);

    let mut unknown = capture();
    unknown.players[0].hand[0].id = 99;
    match adapt_capture(unknown, &catalog).unwrap_err().kind {
        AdapterErrorKind::UnknownCard { source_side, hand_index, key } => {
            assert_eq!(source_side, SourceSide::Side0);
            assert_eq!(hand_index, 3);
            assert_eq!(key, CardKey::new(99, 3));
        }
        other => panic!("unexpected {other:?}"),
    }

    let mut disagreeing = capture();
    if let Some(testcase) = disagreeing.testcase.as_mut() {
        testcase.moves[0].p2life = 18;
    }
    assert!(matches!(
        adapt_capture(disagreeing, &catalog).unwrap_err().kind,
        AdapterErrorKind::TestcaseMismatch { .. }
    ));

    let mut bad_status = capture();
    bad_status.final_status = "lost".to_string();
    assert!(matches!(
        adapt_capture(bad_status, &catalog).unwrap_err().kind,
        AdapterErrorKind::InvalidField { .. }
    ));
}

fn resolution(power: i64, damage: i64, attack: i64, won: bool) -> CapturedResolution {
    CapturedResolution { power, damage, damage_after: damage, attack, won }
}

fn testcase_result(power: i64, damage: i64, attack: i64, won: bool) -> CapturedTestcaseResult {
    CapturedTestcaseResult { power, damage, attack, won }
}

/// `capture()` with a second round in which side 0 moves first, its moves listed side 1
/// first.
fn two_round_capture() -> CapturedGame {
    let mut source = capture();
    source.rounds.push(CapturedRound {
        round: 1,
        first: Some(0),
        moves: vec![
            CapturedMove { side: 1, index: 1, card_id: 2, pillz: 1, pillz_used: 2, fury: false, t: 0 },
            CapturedMove { side: 0, index: 1, card_id: 12, pillz: 3, pillz_used: 4, fury: false, t: 0 },
        ],
        resolution: [Some(resolution(4, 2, 16, true)), Some(resolution(6, 3, 12, false))],
        life: [Some(17), Some(18)],
        pillz: [Some(6), Some(6)],
    });
    source.testcase.as_mut().unwrap().moves.push(CapturedTestcaseMove {
        s1: (1, 3, false),
        s2: (1, 1, false),
        p1life: 18,
        p2life: 17,
        p1pillz: 6,
        p2pillz: 6,
        r1: Some(testcase_result(6, 3, 12, false)),
        r2: Some(testcase_result(4, 2, 16, true)),
    });
    source
}

fn ready(source: CapturedGame) -> ReplayCaseV1 {
    match adapt_capture(source, &catalog()).unwrap() {
        ReplayClassification::Ready(replay) => *replay,
        other => panic!("expected a ready replay, got {other:?}"),
    }
}

fn invalid_field(source: CapturedGame) -> (String, String) {
    match adapt_capture(source, &catalog()).unwrap_err().kind {
        AdapterErrorKind::InvalidField { field, detail } => (field, detail),
        other => panic!("expected an invalid field, got {other:?}"),
    }
}

fn mismatched_field(source: CapturedGame) -> String {
    match adapt_capture(source, &catalog()).unwrap_err().kind {
        AdapterErrorKind::TestcaseMismatch { field, .. } => field,
        other => panic!("expected a testcase mismatch, got {other:?}"),
    }
}

#[test]
fn the_first_side_plays_as_engine_player_one() {
    let replay = ready(two_round_capture());
    assert_eq!(replay.metadata.source_first_side, SourceSide::Side1);
    assert_eq!(replay.players[0].engine_player, EnginePlayer::P1);
    assert_eq!(replay.players[0].source_side, SourceSide::Side1);
    assert_eq!(replay.players[1].source_side, SourceSide::Side0);
    assert_eq!(replay.rounds[1].first_mover, EnginePlayer::P2);
    assert_eq!(replay.rounds[1].plays[0].engine_player, EnginePlayer::P2);
    assert_eq!(replay.rounds[1].plays[1].engine_player, EnginePlayer::P1);
    assert_eq!(replay.rounds[1].expected_player_states[0].life, 18);
    assert_eq!(replay.rounds[1].expected_card_results[1].unwrap().attack, 16);
}

#[test]
fn plays_follow_the_explicit_first_side_whatever_the_listed_order() {
    let mut source = capture();
    source.rounds[0].moves.reverse();
    for replay in [ready(capture()), ready(source)] {
        assert_eq!(replay.rounds[0].plays[0].source_side, SourceSide::Side1);
        assert_eq!(replay.rounds[0].plays[0].card, CardKey::new(1, 3));
        assert_eq!(replay.rounds[0].plays[1].source_side, SourceSide::Side0);
        assert_eq!(replay.rounds[0].plays[1].card, CardKey::new(11, 3));
    }
}

#[test]
fn a_first_mover_that_does_not_alternate_is_kept() {
    let mut source = two_round_capture();
    source.rounds[1].first = Some(1);
    let testcase_move = &mut source.testcase.as_mut().unwrap().moves[1];
    std::mem::swap(&mut testcase_move.s1, &mut testcase_move.s2);
    let replay = ready(source);
    assert_eq!(replay.rounds[1].first_mover, EnginePlayer::P1);
    assert_eq!(replay.rounds[1].plays[0].engine_player, EnginePlayer::P1);
    assert_eq!(replay.rounds[1].plays[1].engine_player, EnginePlayer::P2);
}

#[test]
fn the_second_player_keeps_its_own_starting_resources() {
    let mut source = capture();
    source.players[0].base_life = 14;
    source.players[0].base_pillz = 11;
    let replay = ready(source);
    assert_eq!((replay.players[0].base_life, replay.players[0].base_pillz), (20, 10));
    assert_eq!((replay.players[1].base_life, replay.players[1].base_pillz), (14, 11));
}

#[test]
fn a_result_keeps_the_damage_dealt_not_the_damage_after() {
    let mut source = capture();
    source.rounds[0].resolution[0].as_mut().unwrap().damage_after = 0;
    let replay = ready(source);
    assert_eq!(replay.rounds[0].expected_card_results[1].unwrap().damage, 2);
}

#[test]
fn an_attack_beyond_u16_is_kept_and_one_beyond_u32_is_refused() {
    let mut source = capture();
    source.rounds[0].resolution[1].as_mut().unwrap().attack = 82_000;
    source.testcase.as_mut().unwrap().moves[0].r1.as_mut().unwrap().attack = 82_000;
    assert_eq!(ready(source).rounds[0].expected_card_results[0].unwrap().attack, 82_000);

    let mut source = capture();
    source.rounds[0].resolution[0].as_mut().unwrap().attack = i64::from(u32::MAX) + 1;
    let (field, detail) = invalid_field(source);
    assert_eq!(field, "rounds[0].resolution[0].attack");
    assert_eq!(detail, "4294967296 is outside the range 0..=4294967295");
}

#[test]
fn two_players_on_one_side_are_refused() {
    let mut source = capture();
    source.players[1].side = 0;
    assert_eq!(
        invalid_field(source),
        ("players[].side".to_string(), "side 0 occurs more than once".to_string())
    );
}

#[test]
fn a_move_whose_card_is_not_the_one_in_its_slot_is_refused() {
    let mut source = capture();
    source.rounds[0].moves[0].card_id = u32::MAX;
    assert_eq!(mismatched_field(source), "rounds[0].moves[0].cardId");
}

#[test]
fn rounds_out_of_sequence_are_refused() {
    let mut source = two_round_capture();
    source.rounds[1].round = 3;
    assert_eq!(mismatched_field(source), "rounds[1].round");
}

#[test]
fn negative_resources_are_refused() {
    let mut source = capture();
    source.rounds[0].life[0] = Some(-1);
    assert_eq!(
        invalid_field(source),
        ("rounds[0].life[0]".to_string(), "-1 is outside the range 0..=65535".to_string())
    );
}

#[test]
fn a_result_error_names_the_source_side_slot() {
    let mut source = capture();
    source.rounds[0].resolution[1].as_mut().unwrap().power = -1;
    assert_eq!(invalid_field(source).0, "rounds[0].resolution[1].power");
}

#[test]
fn a_round_needs_one_move_from_each_side() {
    let mut source = capture();
    source.rounds[0].moves[0].side = 1;
    assert_eq!(
        invalid_field(source),
        ("rounds[0].moves[].side".to_string(), "has no move for opposite side Side0".to_string())
    );
    let mut source = capture();
    source.rounds[0].moves[1].side = 2;
    assert_eq!(
        invalid_field(source),
        ("rounds[0].moves[1].side".to_string(), "expected side 0 or 1, found 2".to_string())
    );
}

#[test]
fn a_refused_replay_names_its_field_and_what_was_found() {
    let catalog = catalog();
    let mut misfiled = replay();
    misfiled.players[0].hand[1].hand_index = 2;
    let error = validate_replay(&misfiled, &catalog).unwrap_err();
    assert_eq!(error.battle_id, 77);
    assert_eq!(error.field, "players[0].hand[1].hand_index");
    assert_eq!(error.detail, "expected 1, found 2");

    let mut other_card = replay();
    other_card.rounds[0].plays[1].card = CardKey::new(12, 3);
    let error = validate_replay(&other_card, &catalog).unwrap_err();
    assert_eq!(error.field, "rounds[0].plays[1].card");
    assert_eq!(
        error.detail,
        "expected CardKey { id: 11, level: 3 }, found CardKey { id: 12, level: 3 }"
    );

    let mut wrong_side = replay();
    wrong_side.rounds[0].source_first_side = SourceSide::Side0;
    let error = validate_replay(&wrong_side, &catalog).unwrap_err();
    assert_eq!(error.field, "rounds[0].source_first_side");
    assert_eq!(error.detail, "expected Side1 for P1, found Side0");
    assert!(validate_replay(&replay(), &catalog).is_ok());
}

#[test]
fn a_testcase_mismatch_writes_both_values_as_debug_does() {
    let mut source = capture();
    source.testcase.as_mut().unwrap().moves[0].r1.as_mut().unwrap().power = 7;
    match adapt_capture(source, &catalog()).unwrap_err().kind {
        AdapterErrorKind::TestcaseMismatch { field, capture, testcase } => {
            assert_eq!(field, "testcase.moves[0].r1");
            assert_eq!(capture, "Some(ExpectedCardResult { power: 6, damage: 3, attack: 18, won: true })");
            assert_eq!(testcase, "Some(ExpectedCardResult { power: 7, damage: 3, attack: 18, won: true })");
        }
        other => panic!("unexpected {other:?}"),
    }
    let mut source = capture();
    source.testcase.as_mut().unwrap().cards[0] = "card \"X\"".to_string();
    match adapt_capture(source, &catalog()).unwrap_err().kind {
        AdapterErrorKind::TestcaseMismatch { field, capture, testcase } => {
            assert_eq!(field, "testcase.cards[0]");
            assert_eq!(capture, "\"card 1\"");
            assert_eq!(testcase, "\"card \\\"X\\\"\"");
        }
        other => panic!("unexpected {other:?}"),
    }
}

#[test]
fn battle_id_order_sorts_by_id_and_keeps_equal_ids_in_place() {
    assert_eq!(battle_id_order(&vec![9, 5, 7, 5, 1]), vec![4, 1, 3, 2, 0]);
    assert_eq!(battle_id_order(&vec![3, 3, 3]), vec![0, 1, 2]);
    assert_eq!(battle_id_order(&Vec::new()), Vec::<usize>::new());
}
