use pillz_engine::card::CardKey;
use pillz_engine::engine::combat_stat_admission::{source_plan_refusal, KOMBOKA_EFFECTIVE_CLAN_ID};
use pillz_engine::engine::combat_stat_diagnostic::CombatStatDiagnosticV1;
use pillz_engine::engine::combat_stat_types::{
    CombatStatAffectedSideV1, CombatStatArithmeticStageV1, CombatStatAttributeV1, CombatStatCardPlanV1,
    CombatStatDiagnosticErrorV1, CombatStatDiagnosticMatchSpecV1, CombatStatEffectSourceV1,
    CombatStatEffectV1, CombatStatMagnitudeV1, CombatStatOperationV1, CombatStatPlanErrorV1,
    CombatStatPredicateV1, CombatStatSourcePlanV1, CopiedSourceKindV1,
    InvalidCombatStatPlanReasonV1, ResourceCancellationV1, RoundScaleV1,
};
use pillz_engine::engine::{
    BaseRulesCardSpec, BaseRulesError, BaseRulesMatchSpec, BaseRulesPlayerSpec,
    BaseRulesRoundInput, BaseRulesSelection, ByPlayer, MatchStatus, PlayerId,
};
use std::collections::hash_map::DefaultHasher;
use std::hash::{Hash, Hasher};

const TWO_OF_THREE: CombatStatEffectV1 = CombatStatEffectV1::RecoverPaidPillzOnDefeat {
    numerator: 2,
    denominator: 3,
};

fn base_spec(p1_pillz: u16) -> BaseRulesMatchSpec {
    let card = |id, power| BaseRulesCardSpec {
        key: CardKey::new(id, 3),
        clan_id: id,
        power,
        damage: 3,
    };
    BaseRulesMatchSpec {
        battle_rule_id: 10,
        night: false,
        players: ByPlayer::new(
            BaseRulesPlayerSpec {
                initial_life: 20,
                initial_pillz: p1_pillz,
                hand: [card(1, 6), card(2, 6), card(3, 6), card(4, 6)],
            },
            BaseRulesPlayerSpec {
                initial_life: 20,
                initial_pillz: 20,
                hand: [card(11, 31), card(12, 31), card(13, 31), card(14, 31)],
            },
        ),
    }
}

fn absent(card: BaseRulesCardSpec) -> CombatStatCardPlanV1 {
    CombatStatCardPlanV1 {
        key: card.key,
        effective_clan_id: card.clan_id,
        ability: CombatStatSourcePlanV1::Absent,
        bonus: CombatStatSourcePlanV1::Absent,
        source_bonus_support_count: 0,
        source_ability_support_count: 0,
    }
}

fn spec_with_p1(
    effect_source: CombatStatEffectSourceV1,
    id: u32,
    effect: CombatStatEffectV1,
    p1_pillz: u16,
) -> CombatStatDiagnosticMatchSpecV1 {
    let base_rules = base_spec(p1_pillz);
    let mut cards = ByPlayer::new(
        base_rules.players[PlayerId::P1].hand.map(absent),
        base_rules.players[PlayerId::P2].hand.map(absent),
    );
    let plan = CombatStatSourcePlanV1::Execute {
        source_id: id,
        predicate: CombatStatPredicateV1::Always,
        effect,
    };
    match effect_source {
        CombatStatEffectSourceV1::Ability => cards[PlayerId::P1][0].ability = plan,
        CombatStatEffectSourceV1::Bonus => {
            cards[PlayerId::P1][0].bonus = plan;
            cards[PlayerId::P1][0].source_bonus_support_count = 1;
        }
    }
    CombatStatDiagnosticMatchSpecV1 { base_rules, cards }
}

fn set_p1_card_key(spec: &mut CombatStatDiagnosticMatchSpecV1, key: CardKey) {
    spec.base_rules.players[PlayerId::P1].hand[0].key = key;
    spec.cards[PlayerId::P1][0].key = key;
}

fn set_p1_effective_clan_id(spec: &mut CombatStatDiagnosticMatchSpecV1, clan_id: u32) {
    spec.cards[PlayerId::P1][0].effective_clan_id = clan_id;
}

fn input(p1_pillz: u16, fury: bool) -> BaseRulesRoundInput {
    BaseRulesRoundInput {
        first_mover: PlayerId::P1,
        selections: ByPlayer::new(
            BaseRulesSelection::new(0, p1_pillz, fury),
            BaseRulesSelection::new(0, 0, false),
        ),
    }
}

#[test]
fn defeat_recovery_uses_fury_inclusive_cost_and_undo_is_exact() {
    let spec = spec_with_p1(CombatStatEffectSourceV1::Ability, 729, TWO_OF_THREE, 7);
    let mut game = CombatStatDiagnosticV1::new(spec).unwrap();
    let before = game.position().clone();
    let mut hasher = DefaultHasher::new();
    before.hash(&mut hasher);
    let before_hash = hasher.finish();

    // Four selected pillz plus Fury costs seven; losing recovers ceil(7 * 2 / 3) = 5.
    let (report, undo) = game.make(input(4, true)).unwrap();
    assert!(!report.cards[PlayerId::P1].won);
    assert_eq!(report.players[PlayerId::P1].pillz, 5);
    assert_eq!(game.position().players[PlayerId::P1].pillz, 5);
    game.unmake(undo);
    assert_eq!(game.position(), &before);
    let mut restored_hasher = DefaultHasher::new();
    game.position().hash(&mut restored_hasher);
    assert_eq!(restored_hasher.finish(), before_hash);
}

/// The recovered amount is `max(1, floor((paid + 1) * N / M))`: the Pillz placed on the
/// card, free pill included, rounded down. For 2/3 and 1/2 that equals rounding the paid
/// cost up, which is what the Defeat captures show; 1/3 is where the two differ.
#[test]
fn recovery_ratio_rounds_down_over_the_pillz_placed_including_the_free_pill() {
    let defeat = |numerator, denominator| CombatStatEffectV1::RecoverPaidPillzOnDefeat {
        numerator,
        denominator,
    };
    let victory = |numerator, denominator| CombatStatEffectV1::RecoverPaidPillzOnVictory {
        numerator,
        denominator,
    };
    let play = |effect, pillz, fury, win: bool| {
        let mut spec = spec_with_p1(CombatStatEffectSourceV1::Ability, 1, effect, 20);
        spec.base_rules.players[PlayerId::P1].hand[0].power = if win { 400 } else { 1 };
        let mut game = CombatStatDiagnosticV1::new(spec).unwrap();
        let (report, _) = game.make(input(pillz, fury)).unwrap();
        assert_eq!(report.cards[PlayerId::P1].won, win);
        report.players[PlayerId::P1].pillz
    };
    let cost = |pillz: u16, fury: bool| pillz + if fury { 3 } else { 0 };
    for (effect, pillz, fury, win, recovered) in [
        // 1207064/0: Bubbles bets 5 and loses; 12 - 5 + 3 = 10.
        (defeat(1, 2), 5, false, false, 3),
        // 1131463/1: Morgane bets 6 and loses; 10 - 6 + 3 = 7.
        (defeat(1, 2), 6, false, false, 3),
        // 877983/1 and 1145886/1: a bet of nothing still recovers one.
        (defeat(1, 2), 0, false, false, 1),
        (defeat(1, 2), 4, true, false, 4),
        // 947010/0: Kyrioz Ld bets 7 and wins; 12 - 7 + 2 = 7, not the 3 rounding up gives.
        (victory(1, 3), 7, false, true, 2),
        // 1093500/3, 946570/0, 1025563/0: 9, 6 and 3 recover 3, 2 and 1.
        (victory(1, 3), 9, false, true, 3),
        (victory(1, 3), 6, false, true, 2),
        (victory(1, 3), 3, false, true, 1),
        (victory(1, 3), 0, false, true, 1),
        (victory(1, 3), 2, true, true, 2),
        // 1025181/0: Porcusite's Unison 1/2 bets 10 and wins; 12 - 10 + 5 = 7.
        (victory(1, 2), 10, false, true, 5),
        // A Recover on the other outcome pays nothing.
        (victory(1, 3), 6, false, false, 0),
        (defeat(1, 2), 6, false, true, 0),
    ] {
        assert_eq!(
            play(effect, pillz, fury, win),
            20 - cost(pillz, fury) + recovered,
            "{effect:?} bet {pillz} fury {fury} win {win}"
        );
    }
}

#[test]
fn unison_recovery_pays_only_a_one_clan_hand() {
    let effect = CombatStatEffectV1::RecoverPaidPillzOnVictory {
        numerator: 1,
        denominator: 3,
    };
    let play = |unison: bool| {
        let mut spec = spec_with_p1(CombatStatEffectSourceV1::Ability, 3752, effect, 20);
        spec.base_rules.players[PlayerId::P1].hand[0].power = 400;
        spec.cards[PlayerId::P1][0].ability = CombatStatSourcePlanV1::Execute {
            source_id: 3752,
            predicate: CombatStatPredicateV1::OwnerHandUnison,
            effect,
        };
        if unison {
            for card in &mut spec.cards[PlayerId::P1] {
                card.effective_clan_id = 31;
            }
        }
        let mut game = CombatStatDiagnosticV1::new(spec).unwrap();
        game.make(input(6, false)).unwrap().0.players[PlayerId::P1].pillz
    };
    // 1093079/0: Cynosine bets 6 in an all-Bangers hand and wins; 12 - 6 + 2 = 8.
    assert_eq!(play(true), 16);
    assert_eq!(play(false), 14);
}

#[test]
fn reprisal_soa_stops_defeat_life_as_in_capture_1069193_round_three() {
    // The full capture cannot yet replay because round zero selects Komboka's unsupported
    // +1 Pillz And Life. This isolated server-backed round keeps the observed arithmetic:
    // Spidee moves second, deals six to an opponent on 18, and their Defeat +2 Life is
    // stopped, leaving 12 rather than 14.
    let mut spec = spec_with_p1(
        CombatStatEffectSourceV1::Ability,
        1310,
        CombatStatEffectV1::StopOpponentAbility,
        0,
    );
    set_p1_card_key(&mut spec, CardKey::new(1498, 4));
    spec.cards[PlayerId::P1][0].ability = CombatStatSourcePlanV1::Execute {
        source_id: 1310,
        predicate: CombatStatPredicateV1::OwnerMovesSecond,
        effect: CombatStatEffectV1::StopOpponentAbility,
    };
    spec.base_rules.players[PlayerId::P1].hand[0].power = 40;
    spec.base_rules.players[PlayerId::P1].hand[0].damage = 6;
    spec.base_rules.players[PlayerId::P2].initial_life = 18;
    spec.base_rules.players[PlayerId::P2].hand[0].power = 6;
    spec.cards[PlayerId::P2][0].ability = CombatStatSourcePlanV1::Execute {
        source_id: 4635,
        predicate: CombatStatPredicateV1::Always,
        effect: CombatStatEffectV1::GainLifeOnDefeat { life: 2 },
    };
    let mut game = CombatStatDiagnosticV1::new(spec).unwrap();
    let before = game.position().clone();
    let mut before_hasher = DefaultHasher::new();
    before.hash(&mut before_hasher);
    let before_hash = before_hasher.finish();
    let mut round = input(0, false);
    round.first_mover = PlayerId::P2;
    let (report, undo) = game.make(round).unwrap();
    assert!(report.cards[PlayerId::P1].won);
    assert_eq!(report.players[PlayerId::P2].life, 12);
    game.unmake(undo);
    assert_eq!(game.position(), &before);
    let mut restored_hasher = DefaultHasher::new();
    game.position().hash(&mut restored_hasher);
    assert_eq!(restored_hasher.finish(), before_hash);
}

#[test]
fn reprisal_soa_participates_in_the_existing_soa_cycle_without_leaking_state() {
    let mut spec = spec_with_p1(
        CombatStatEffectSourceV1::Ability,
        1310,
        CombatStatEffectV1::StopOpponentAbility,
        0,
    );
    set_p1_card_key(&mut spec, CardKey::new(1498, 4));
    spec.cards[PlayerId::P1][0].ability = CombatStatSourcePlanV1::Execute {
        source_id: 1310,
        predicate: CombatStatPredicateV1::OwnerMovesSecond,
        effect: CombatStatEffectV1::StopOpponentAbility,
    };
    spec.cards[PlayerId::P2][0].ability = CombatStatSourcePlanV1::Execute {
        source_id: 41,
        predicate: CombatStatPredicateV1::Always,
        effect: CombatStatEffectV1::StopOpponentAbility,
    };
    let mut game = CombatStatDiagnosticV1::new(spec).unwrap();
    let before = game.position().clone();
    let mut before_hasher = DefaultHasher::new();
    before.hash(&mut before_hasher);
    let before_hash = before_hasher.finish();
    let mut round = input(0, false);
    round.first_mover = PlayerId::P2;
    let (_, undo) = game.make(round).unwrap();
    game.unmake(undo);
    assert_eq!(game.position(), &before);
    let mut restored_hasher = DefaultHasher::new();
    game.position().hash(&mut restored_hasher);
    assert_eq!(restored_hasher.finish(), before_hash);
}

#[test]
fn reprisal_soa_public_plans_are_ability_identity_and_predicate_locked() {
    for (id, key) in [(1310, CardKey::new(1498, 4)), (2073, CardKey::new(2042, 3))] {
        let mut valid = spec_with_p1(
            CombatStatEffectSourceV1::Ability,
            id,
            CombatStatEffectV1::StopOpponentAbility,
            0,
        );
        set_p1_card_key(&mut valid, key);
        valid.cards[PlayerId::P1][0].ability = CombatStatSourcePlanV1::Execute {
            source_id: id,
            predicate: CombatStatPredicateV1::OwnerMovesSecond,
            effect: CombatStatEffectV1::StopOpponentAbility,
        };
        assert!(CombatStatDiagnosticV1::new(valid).is_ok(), "id={id}");
    }

    let mut wrong_id = spec_with_p1(
        CombatStatEffectSourceV1::Ability,
        1,
        CombatStatEffectV1::StopOpponentAbility,
        0,
    );
    wrong_id.cards[PlayerId::P1][0].ability = CombatStatSourcePlanV1::Execute {
        source_id: 1,
        predicate: CombatStatPredicateV1::OwnerMovesSecond,
        effect: CombatStatEffectV1::StopOpponentAbility,
    };
    assert!(matches!(
        CombatStatDiagnosticV1::new(wrong_id),
        Err(CombatStatPlanErrorV1::InvalidExecute {
            reason: InvalidCombatStatPlanReasonV1::ReprisalStopOpponentAbilityIdentity,
            ..
        })
    ));

    let mut wrong_source = spec_with_p1(
        CombatStatEffectSourceV1::Bonus,
        1310,
        CombatStatEffectV1::StopOpponentAbility,
        0,
    );
    wrong_source.cards[PlayerId::P1][0].bonus = CombatStatSourcePlanV1::Execute {
        source_id: 1310,
        predicate: CombatStatPredicateV1::OwnerMovesSecond,
        effect: CombatStatEffectV1::StopOpponentAbility,
    };
    assert!(matches!(
        CombatStatDiagnosticV1::new(wrong_source),
        Err(CombatStatPlanErrorV1::InvalidExecute {
            reason: InvalidCombatStatPlanReasonV1::ReprisalStopOpponentAbilityIdentity,
            ..
        })
    ));

    for effect in [
        CombatStatEffectV1::StopOpponentAbility,
        CombatStatEffectV1::ModifyCombatStat {
            side: CombatStatAffectedSideV1::Player,
            stat: CombatStatAttributeV1::Power,
            operation: CombatStatOperationV1::Increase,
            value: 1,
            minimum: None,
            maximum: None,
            multiplier: CombatStatMagnitudeV1::Fixed,
        },
    ] {
        // Default predicate is Always: neither generic unconditional SOA nor a numeric
        // plan may borrow a reserved Reprisal identity through the Bonus source.
        let wrong_source_always =
            spec_with_p1(CombatStatEffectSourceV1::Bonus, 1310, effect, 0);
        assert!(matches!(
            CombatStatDiagnosticV1::new(wrong_source_always),
            Err(CombatStatPlanErrorV1::InvalidExecute {
                reason: InvalidCombatStatPlanReasonV1::ReprisalStopOpponentAbilityIdentity,
                ..
            })
        ));
    }

    let mut wrong_predicate = spec_with_p1(
        CombatStatEffectSourceV1::Ability,
        1310,
        CombatStatEffectV1::StopOpponentAbility,
        0,
    );
    set_p1_card_key(&mut wrong_predicate, CardKey::new(1498, 4));
    wrong_predicate.cards[PlayerId::P1][0].ability = CombatStatSourcePlanV1::Execute {
        source_id: 1310,
        predicate: CombatStatPredicateV1::OwnerMovesFirst,
        effect: CombatStatEffectV1::StopOpponentAbility,
    };
    assert!(matches!(
        CombatStatDiagnosticV1::new(wrong_predicate),
        Err(CombatStatPlanErrorV1::InvalidExecute {
            reason: InvalidCombatStatPlanReasonV1::ReprisalStopOpponentAbilityPredicate,
            ..
        })
    ));

    let mut unconditional_reprisal = spec_with_p1(
        CombatStatEffectSourceV1::Ability,
        1310,
        CombatStatEffectV1::StopOpponentAbility,
        0,
    );
    set_p1_card_key(&mut unconditional_reprisal, CardKey::new(1498, 4));
    assert!(matches!(
        CombatStatDiagnosticV1::new(unconditional_reprisal),
        Err(CombatStatPlanErrorV1::InvalidExecute {
            reason: InvalidCombatStatPlanReasonV1::ReprisalStopOpponentAbilityPredicate,
            ..
        })
    ));

    let mut wrong_effect = spec_with_p1(
        CombatStatEffectSourceV1::Ability,
        1310,
        CombatStatEffectV1::StopOpponentBonus,
        0,
    );
    set_p1_card_key(&mut wrong_effect, CardKey::new(1498, 4));
    wrong_effect.cards[PlayerId::P1][0].ability = CombatStatSourcePlanV1::Execute {
        source_id: 1310,
        predicate: CombatStatPredicateV1::OwnerMovesSecond,
        effect: CombatStatEffectV1::StopOpponentBonus,
    };
    assert!(matches!(
        CombatStatDiagnosticV1::new(wrong_effect),
        Err(CombatStatPlanErrorV1::InvalidExecute {
            reason: InvalidCombatStatPlanReasonV1::ReprisalStopOpponentAbilityEffect,
            ..
        })
    ));

    for (source_id, wrong_key) in [
        (1310, CardKey::new(1498, 3)),
        (1310, CardKey::new(2042, 3)),
        (2073, CardKey::new(2042, 2)),
        (2073, CardKey::new(1498, 4)),
    ] {
        let mut wrong_card = spec_with_p1(
            CombatStatEffectSourceV1::Ability,
            source_id,
            CombatStatEffectV1::StopOpponentAbility,
            0,
        );
        set_p1_card_key(&mut wrong_card, wrong_key);
        wrong_card.cards[PlayerId::P1][0].ability = CombatStatSourcePlanV1::Execute {
            source_id,
            predicate: CombatStatPredicateV1::OwnerMovesSecond,
            effect: CombatStatEffectV1::StopOpponentAbility,
        };
        assert!(matches!(
            CombatStatDiagnosticV1::new(wrong_card),
            Err(CombatStatPlanErrorV1::InvalidExecute {
                reason: InvalidCombatStatPlanReasonV1::ReprisalStopOpponentAbilityCard,
                ..
            })
        ));
    }

    // Existing unconditional public plans remain intentionally generic.
    assert!(CombatStatDiagnosticV1::new(spec_with_p1(
        CombatStatEffectSourceV1::Bonus,
        1,
        CombatStatEffectV1::StopOpponentAbility,
        0,
    ))
    .is_ok());
}

#[test]
fn defeat_recovery_is_source_live_but_not_a_combat_stat_modifier() {
    let mut spec = spec_with_p1(CombatStatEffectSourceV1::Bonus, 577, TWO_OF_THREE, 3);
    spec.cards[PlayerId::P2][0].ability = CombatStatSourcePlanV1::Execute {
        source_id: 1,
        predicate: CombatStatPredicateV1::Always,
        effect: CombatStatEffectV1::StopOpponentBonus,
    };
    let mut stopped = CombatStatDiagnosticV1::new(spec).unwrap();
    let (report, _) = stopped.make(input(3, false)).unwrap();
    assert_eq!(report.players[PlayerId::P1].pillz, 0);

    let mut spec = spec_with_p1(CombatStatEffectSourceV1::Ability, 1418, TWO_OF_THREE, 3);
    spec.cards[PlayerId::P2][0].ability = CombatStatSourcePlanV1::Execute {
        source_id: 1,
        predicate: CombatStatPredicateV1::Always,
        effect: CombatStatEffectV1::CancelOpponentCombatStatModifiers {
            stat: CombatStatAttributeV1::PowerAndDamage,
        },
    };
    let mut uncancelled = CombatStatDiagnosticV1::new(spec).unwrap();
    let (report, _) = uncancelled.make(input(3, false)).unwrap();
    assert_eq!(report.players[PlayerId::P1].pillz, 2);

    let mut minimum = CombatStatDiagnosticV1::new(spec_with_p1(
        CombatStatEffectSourceV1::Ability,
        1418,
        TWO_OF_THREE,
        0,
    ))
    .unwrap();
    let (report, _) = minimum.make(input(0, false)).unwrap();
    assert_eq!(report.players[PlayerId::P1].pillz, 1);

    // The two independently active sources represent two END events, so each exact
    // recovery applies after the same paid cost.
    let mut double = spec_with_p1(CombatStatEffectSourceV1::Ability, 729, TWO_OF_THREE, 3);
    double.cards[PlayerId::P1][0].bonus = CombatStatSourcePlanV1::Execute {
        source_id: 577,
        predicate: CombatStatPredicateV1::Always,
        effect: TWO_OF_THREE,
    };
    double.cards[PlayerId::P1][0].source_bonus_support_count = 1;
    let mut double = CombatStatDiagnosticV1::new(double).unwrap();
    let (report, _) = double.make(input(3, false)).unwrap();
    assert_eq!(report.players[PlayerId::P1].pillz, 4);
}

#[test]
fn defeat_recovery_requires_a_round_loss_and_still_runs_after_a_tie_break_or_ko() {
    let mut winning_spec =
        spec_with_p1(CombatStatEffectSourceV1::Ability, 1418, TWO_OF_THREE, 3);
    winning_spec.base_rules.players[PlayerId::P1].hand[0].power = 40;
    let mut winner = CombatStatDiagnosticV1::new(winning_spec).unwrap();
    let (report, _) = winner.make(input(3, false)).unwrap();
    assert!(report.cards[PlayerId::P1].won);
    assert_eq!(report.players[PlayerId::P1].pillz, 0);

    let mut tied_spec = spec_with_p1(CombatStatEffectSourceV1::Ability, 1418, TWO_OF_THREE, 0);
    tied_spec.base_rules.players[PlayerId::P2].hand[0].power = 6;
    let mut tied = CombatStatDiagnosticV1::new(tied_spec).unwrap();
    let (report, _) = tied
        .make(BaseRulesRoundInput {
            first_mover: PlayerId::P2,
            selections: ByPlayer::new(
                BaseRulesSelection::new(0, 0, false),
                BaseRulesSelection::new(0, 0, false),
            ),
        })
        .unwrap();
    assert!(!report.cards[PlayerId::P1].won);
    assert_eq!(report.players[PlayerId::P1].pillz, 1);

    let mut ko_spec = spec_with_p1(CombatStatEffectSourceV1::Ability, 1418, TWO_OF_THREE, 3);
    ko_spec.base_rules.players[PlayerId::P1].initial_life = 2;
    let mut ko = CombatStatDiagnosticV1::new(ko_spec).unwrap();
    let (report, _) = ko.make(input(3, false)).unwrap();
    assert_eq!(report.players[PlayerId::P1].life, 0);
    assert_eq!(report.players[PlayerId::P1].pillz, 2);
    assert_eq!(report.status, MatchStatus::Won(PlayerId::P2));
}

#[test]
fn recovery_public_plans_are_bounded_by_grammar_and_overflow_is_atomic() {
    // Sasl Lovelace's same-text `2475` was locked out until revision 63.
    assert!(CombatStatDiagnosticV1::new(spec_with_p1(
        CombatStatEffectSourceV1::Ability,
        2475,
        TWO_OF_THREE,
        3,
    ))
    .is_ok());
    let defeat = |numerator, denominator| CombatStatEffectV1::RecoverPaidPillzOnDefeat {
        numerator,
        denominator,
    };
    let victory = |numerator, denominator| CombatStatEffectV1::RecoverPaidPillzOnVictory {
        numerator,
        denominator,
    };
    for effect in [
        defeat(0, 3),
        defeat(3, 3),
        defeat(1, 0),
        victory(0, 0),
        victory(4, 3),
    ] {
        assert!(
            matches!(
                CombatStatDiagnosticV1::new(spec_with_p1(
                    CombatStatEffectSourceV1::Ability,
                    2475,
                    effect,
                    3,
                )),
                Err(CombatStatPlanErrorV1::InvalidExecute {
                    reason: InvalidCombatStatPlanReasonV1::RecoveryRatio,
                    ..
                })
            ),
            "{effect:?}"
        );
    }
    assert!(matches!(
        CombatStatDiagnosticV1::new(spec_with_p1(
            CombatStatEffectSourceV1::Bonus,
            3459,
            victory(1, 3),
            3,
        )),
        Err(CombatStatPlanErrorV1::InvalidExecute {
            reason: InvalidCombatStatPlanReasonV1::RecoverySource,
            ..
        })
    ));
    let mut unison_defeat =
        spec_with_p1(CombatStatEffectSourceV1::Ability, 770, defeat(1, 2), 3);
    unison_defeat.cards[PlayerId::P1][0].ability = CombatStatSourcePlanV1::Execute {
        source_id: 770,
        predicate: CombatStatPredicateV1::OwnerHandUnison,
        effect: defeat(1, 2),
    };
    assert!(matches!(
        CombatStatDiagnosticV1::new(unison_defeat),
        Err(CombatStatPlanErrorV1::InvalidExecute {
            reason: InvalidCombatStatPlanReasonV1::RecoveryPredicate,
            ..
        })
    ));

    let mut wrong_predicate =
        spec_with_p1(CombatStatEffectSourceV1::Ability, 1418, TWO_OF_THREE, 3);
    wrong_predicate.cards[PlayerId::P1][0].ability = CombatStatSourcePlanV1::Execute {
        source_id: 1418,
        predicate: CombatStatPredicateV1::OwnerLostPreviousRound,
        effect: TWO_OF_THREE,
    };
    assert!(matches!(
        CombatStatDiagnosticV1::new(wrong_predicate),
        Err(CombatStatPlanErrorV1::InvalidExecute {
            reason: InvalidCombatStatPlanReasonV1::RecoveryPredicate,
            ..
        })
    ));

    let mut overflow = CombatStatDiagnosticV1::new(spec_with_p1(
        CombatStatEffectSourceV1::Ability,
        1418,
        TWO_OF_THREE,
        u16::MAX,
    ))
    .unwrap();
    let before = overflow.position().clone();
    assert!(matches!(
        overflow.make(input(0, false)),
        Err(CombatStatDiagnosticErrorV1::BaseRules(
            BaseRulesError::PillzRecoveryOverflow {
                player: PlayerId::P1
            }
        ))
    ));
    assert_eq!(overflow.position(), &before);
}

#[test]
fn victory_or_defeat_gains_one_after_winning_losing_or_a_ko_and_undo_is_exact() {
    let effect = CombatStatEffectV1::GainOnePillzOnVictoryOrDefeat;

    let mut winner_spec = spec_with_p1(CombatStatEffectSourceV1::Bonus, 1034, effect, 3);
    winner_spec.base_rules.players[PlayerId::P1].hand[0].power = 40;
    let mut winner = CombatStatDiagnosticV1::new(winner_spec).unwrap();
    let before = winner.position().clone();
    let mut before_hasher = DefaultHasher::new();
    before.hash(&mut before_hasher);
    let before_hash = before_hasher.finish();
    let (report, undo) = winner.make(input(3, false)).unwrap();
    assert!(report.cards[PlayerId::P1].won);
    assert_eq!(report.players[PlayerId::P1].pillz, 1);
    winner.unmake(undo);
    assert_eq!(winner.position(), &before);
    let mut restored_hasher = DefaultHasher::new();
    winner.position().hash(&mut restored_hasher);
    assert_eq!(restored_hasher.finish(), before_hash);

    let mut loser = CombatStatDiagnosticV1::new(spec_with_p1(
        CombatStatEffectSourceV1::Bonus,
        1034,
        effect,
        3,
    ))
    .unwrap();
    let (report, _) = loser.make(input(3, false)).unwrap();
    assert!(!report.cards[PlayerId::P1].won);
    assert_eq!(report.players[PlayerId::P1].pillz, 1);

    let mut ko_spec = spec_with_p1(CombatStatEffectSourceV1::Bonus, 1034, effect, 3);
    ko_spec.base_rules.players[PlayerId::P1].initial_life = 2;
    let mut ko = CombatStatDiagnosticV1::new(ko_spec).unwrap();
    let (report, _) = ko.make(input(3, false)).unwrap();
    assert_eq!(report.status, MatchStatus::Won(PlayerId::P2));
    assert_eq!(report.players[PlayerId::P1].life, 0);
    assert_eq!(report.players[PlayerId::P1].pillz, 1);

    // The active Bonus:1034 is applied before the static Ability:1375, after the
    // KO damage has resolved. Both effects are still committed atomically with the
    // round and undo restores the byte-identical starting position.
    let mut both_spec = spec_with_p1(CombatStatEffectSourceV1::Bonus, 1034, effect, 3);
    both_spec.base_rules.players[PlayerId::P1].initial_life = 2;
    both_spec.cards[PlayerId::P1][0].ability = CombatStatSourcePlanV1::Execute {
        source_id: 1375,
        predicate: CombatStatPredicateV1::Always,
        effect,
    };
    let mut both = CombatStatDiagnosticV1::new(both_spec).unwrap();
    let before = both.position().clone();
    let mut before_hasher = DefaultHasher::new();
    before.hash(&mut before_hasher);
    let before_hash = before_hasher.finish();
    let (report, undo) = both.make(input(3, false)).unwrap();
    assert_eq!(report.status, MatchStatus::Won(PlayerId::P2));
    assert_eq!(report.players[PlayerId::P1].life, 0);
    assert_eq!(report.players[PlayerId::P1].pillz, 2);
    both.unmake(undo);
    assert_eq!(both.position(), &before);
    let mut restored_hasher = DefaultHasher::new();
    both.position().hash(&mut restored_hasher);
    assert_eq!(restored_hasher.finish(), before_hash);
}

#[test]
fn victory_or_defeat_bonus_is_stopped_by_stop_bonus_but_not_reinterpreted_by_cancellation() {
    let effect = CombatStatEffectV1::GainOnePillzOnVictoryOrDefeat;
    let mut stopped_spec = spec_with_p1(CombatStatEffectSourceV1::Bonus, 1034, effect, 3);
    stopped_spec.cards[PlayerId::P2][0].ability = CombatStatSourcePlanV1::Execute {
        source_id: 1,
        predicate: CombatStatPredicateV1::Always,
        effect: CombatStatEffectV1::StopOpponentBonus,
    };
    let mut stopped = CombatStatDiagnosticV1::new(stopped_spec).unwrap();
    let (report, _) = stopped.make(input(3, false)).unwrap();
    assert_eq!(report.players[PlayerId::P1].pillz, 0);

    let mut cancelled_spec = spec_with_p1(CombatStatEffectSourceV1::Bonus, 1034, effect, 3);
    cancelled_spec.cards[PlayerId::P2][0].ability = CombatStatSourcePlanV1::Execute {
        source_id: 1,
        predicate: CombatStatPredicateV1::Always,
        effect: CombatStatEffectV1::CancelOpponentCombatStatModifiers {
            stat: CombatStatAttributeV1::PowerAndDamage,
        },
    };
    let mut cancelled = CombatStatDiagnosticV1::new(cancelled_spec).unwrap();
    let (report, _) = cancelled.make(input(3, false)).unwrap();
    assert_eq!(report.players[PlayerId::P1].pillz, 1);
}

#[test]
fn victory_or_defeat_public_plans_are_exact_and_overflow_is_atomic() {
    let effect = CombatStatEffectV1::GainOnePillzOnVictoryOrDefeat;
    for (source, id) in [
        (CombatStatEffectSourceV1::Bonus, 1034),
        (CombatStatEffectSourceV1::Ability, 1034),
        (CombatStatEffectSourceV1::Ability, 1375),
        (CombatStatEffectSourceV1::Ability, 4111),
        (CombatStatEffectSourceV1::Ability, 5085),
        (CombatStatEffectSourceV1::Ability, 5520),
    ] {
        assert!(CombatStatDiagnosticV1::new(spec_with_p1(source, id, effect, 3)).is_ok());
    }
    for (source, id) in [
        (CombatStatEffectSourceV1::Bonus, 1375),
        (CombatStatEffectSourceV1::Bonus, 4111),
    ] {
        assert!(matches!(
            CombatStatDiagnosticV1::new(spec_with_p1(source, id, effect, 3)),
            Err(CombatStatPlanErrorV1::InvalidExecute {
                reason: InvalidCombatStatPlanReasonV1::VictoryOrDefeatIdentity,
                ..
            })
        ));
    }
    let mut wrong_predicate = spec_with_p1(CombatStatEffectSourceV1::Bonus, 1034, effect, 3);
    wrong_predicate.cards[PlayerId::P1][0].bonus = CombatStatSourcePlanV1::Execute {
        source_id: 1034,
        predicate: CombatStatPredicateV1::OwnerWonPreviousRound,
        effect,
    };
    assert!(matches!(
        CombatStatDiagnosticV1::new(wrong_predicate),
        Err(CombatStatPlanErrorV1::InvalidExecute {
            reason: InvalidCombatStatPlanReasonV1::VictoryOrDefeatPredicate,
            ..
        })
    ));

    let mut overflow = CombatStatDiagnosticV1::new(spec_with_p1(
        CombatStatEffectSourceV1::Bonus,
        1034,
        effect,
        u16::MAX,
    ))
    .unwrap();
    let before = overflow.position().clone();
    assert!(matches!(
        overflow.make(input(0, false)),
        Err(CombatStatDiagnosticErrorV1::BaseRules(
            BaseRulesError::PillzIncreaseOverflow {
                player: PlayerId::P1
            }
        ))
    ));
    assert_eq!(overflow.position(), &before);
}

#[test]
fn komboka_composite_bonus_is_exact_winner_only_ko_safe_and_undo_atomic() {
    let komboka = CombatStatEffectV1::GainOnePillzAndLifeOnVictory;
    let mut winner_spec = spec_with_p1(CombatStatEffectSourceV1::Bonus, 1714, komboka, 3);
    set_p1_effective_clan_id(&mut winner_spec, KOMBOKA_EFFECTIVE_CLAN_ID);
    winner_spec.base_rules.players[PlayerId::P1].hand[0].power = 40;
    // A winning Komboka bonus still pays after it KOs the opposing player.
    winner_spec.base_rules.players[PlayerId::P2].initial_life = 3;
    let mut winner = CombatStatDiagnosticV1::new(winner_spec).unwrap();
    let before = winner.position().clone();
    let mut before_hasher = DefaultHasher::new();
    before.hash(&mut before_hasher);
    let before_hash = before_hasher.finish();
    let (report, undo) = winner.make(input(3, false)).unwrap();
    assert_eq!(report.status, MatchStatus::Won(PlayerId::P1));
    assert_eq!(report.players[PlayerId::P1].pillz, 1);
    assert_eq!(report.players[PlayerId::P1].life, 21);
    assert_eq!(report.players[PlayerId::P2].life, 0);
    winner.unmake(undo);
    assert_eq!(winner.position(), &before);
    let mut restored_hasher = DefaultHasher::new();
    winner.position().hash(&mut restored_hasher);
    assert_eq!(restored_hasher.finish(), before_hash);

    let mut losing_spec = spec_with_p1(CombatStatEffectSourceV1::Bonus, 1714, komboka, 3);
    set_p1_effective_clan_id(&mut losing_spec, KOMBOKA_EFFECTIVE_CLAN_ID);
    let mut losing = CombatStatDiagnosticV1::new(losing_spec).unwrap();
    let (report, _) = losing.make(input(0, false)).unwrap();
    assert!(!report.cards[PlayerId::P1].won);
    assert_eq!(report.players[PlayerId::P1].life, 17);
    assert_eq!(report.players[PlayerId::P1].pillz, 3);

    let mut losing_ko_spec = spec_with_p1(CombatStatEffectSourceV1::Bonus, 1714, komboka, 0);
    set_p1_effective_clan_id(&mut losing_ko_spec, KOMBOKA_EFFECTIVE_CLAN_ID);
    losing_ko_spec.base_rules.players[PlayerId::P1].initial_life = 2;
    let mut losing_ko = CombatStatDiagnosticV1::new(losing_ko_spec).unwrap();
    let (report, _) = losing_ko.make(input(0, false)).unwrap();
    assert_eq!(report.status, MatchStatus::Won(PlayerId::P2));
    assert_eq!(report.players[PlayerId::P1].life, 0);
    assert_eq!(report.players[PlayerId::P1].pillz, 0);

    let mut pillz_overflow_spec =
        spec_with_p1(CombatStatEffectSourceV1::Bonus, 1714, komboka, u16::MAX);
    set_p1_effective_clan_id(&mut pillz_overflow_spec, KOMBOKA_EFFECTIVE_CLAN_ID);
    pillz_overflow_spec.base_rules.players[PlayerId::P1].hand[0].power = 40;
    let mut pillz_overflow = CombatStatDiagnosticV1::new(pillz_overflow_spec).unwrap();
    let before = pillz_overflow.position().clone();
    assert!(matches!(
        pillz_overflow.make(input(0, false)),
        Err(CombatStatDiagnosticErrorV1::BaseRules(
            BaseRulesError::PillzIncreaseOverflow {
                player: PlayerId::P1
            }
        ))
    ));
    assert_eq!(pillz_overflow.position(), &before);

    let mut life_overflow_spec =
        spec_with_p1(CombatStatEffectSourceV1::Bonus, 1714, komboka, 0);
    set_p1_effective_clan_id(&mut life_overflow_spec, KOMBOKA_EFFECTIVE_CLAN_ID);
    life_overflow_spec.base_rules.players[PlayerId::P1].initial_life = u16::MAX;
    life_overflow_spec.base_rules.players[PlayerId::P1].hand[0].power = 40;
    let mut life_overflow = CombatStatDiagnosticV1::new(life_overflow_spec).unwrap();
    let before = life_overflow.position().clone();
    assert!(matches!(
        life_overflow.make(input(0, false)),
        Err(CombatStatDiagnosticErrorV1::BaseRules(
            BaseRulesError::LifeIncreaseOverflow {
                player: PlayerId::P1
            }
        ))
    ));
    // Pillz was checked and tentatively added before Life, but neither part can leak
    // from the replacement position when the second checked addition overflows.
    assert_eq!(life_overflow.position(), &before);
}

#[test]
fn komboka_public_plan_reserves_1714_for_its_exact_bonus_effect_and_predicate() {
    let komboka = CombatStatEffectV1::GainOnePillzAndLifeOnVictory;
    let mut valid = spec_with_p1(CombatStatEffectSourceV1::Bonus, 1714, komboka, 3);
    set_p1_effective_clan_id(&mut valid, KOMBOKA_EFFECTIVE_CLAN_ID);
    assert!(CombatStatDiagnosticV1::new(valid).is_ok());

    assert!(matches!(
        CombatStatDiagnosticV1::new(spec_with_p1(
            CombatStatEffectSourceV1::Bonus,
            1714,
            komboka,
            3,
        )),
        Err(CombatStatPlanErrorV1::InvalidExecute {
            reason: InvalidCombatStatPlanReasonV1::KombokaVictoryPillzAndLifeClan,
            ..
        })
    ));

    for effect in [
        CombatStatEffectV1::GainLifeOnVictory { life: 1 },
        CombatStatEffectV1::ModifyCombatStat {
            side: CombatStatAffectedSideV1::Player,
            stat: CombatStatAttributeV1::Power,
            operation: CombatStatOperationV1::Increase,
            value: 1,
            minimum: None,
            maximum: None,
            multiplier: CombatStatMagnitudeV1::Fixed,
        },
    ] {
        assert!(matches!(
            CombatStatDiagnosticV1::new(spec_with_p1(
                CombatStatEffectSourceV1::Bonus,
                1714,
                effect,
                3,
            )),
            Err(CombatStatPlanErrorV1::InvalidExecute {
                reason: InvalidCombatStatPlanReasonV1::KombokaVictoryPillzAndLifeEffect,
                ..
            })
        ));
    }
    assert!(matches!(
        CombatStatDiagnosticV1::new(spec_with_p1(
            CombatStatEffectSourceV1::Ability,
            1714,
            komboka,
            3,
        )),
        Err(CombatStatPlanErrorV1::InvalidExecute {
            reason: InvalidCombatStatPlanReasonV1::KombokaVictoryPillzAndLifeIdentity,
            ..
        })
    ));
    let mut wrong_predicate = spec_with_p1(CombatStatEffectSourceV1::Bonus, 1714, komboka, 3);
    set_p1_effective_clan_id(&mut wrong_predicate, KOMBOKA_EFFECTIVE_CLAN_ID);
    wrong_predicate.cards[PlayerId::P1][0].bonus = CombatStatSourcePlanV1::Execute {
        source_id: 1714,
        predicate: CombatStatPredicateV1::OwnerWonPreviousRound,
        effect: komboka,
    };
    assert!(matches!(
        CombatStatDiagnosticV1::new(wrong_predicate),
        Err(CombatStatPlanErrorV1::InvalidExecute {
            reason: InvalidCombatStatPlanReasonV1::KombokaVictoryPillzAndLifePredicate,
            ..
        })
    ));
    assert!(matches!(
        CombatStatDiagnosticV1::new(spec_with_p1(
            CombatStatEffectSourceV1::Bonus,
            1,
            komboka,
            3,
        )),
        Err(CombatStatPlanErrorV1::InvalidExecute {
            reason: InvalidCombatStatPlanReasonV1::KombokaVictoryPillzAndLifeIdentity,
            ..
        })
    ));
}

#[test]
fn komboka_bonus_obeys_stop_bonus_but_not_stop_opponent_ability() {
    let komboka = CombatStatEffectV1::GainOnePillzAndLifeOnVictory;
    let mut stopped_spec = spec_with_p1(CombatStatEffectSourceV1::Bonus, 1714, komboka, 3);
    set_p1_effective_clan_id(&mut stopped_spec, KOMBOKA_EFFECTIVE_CLAN_ID);
    stopped_spec.base_rules.players[PlayerId::P1].hand[0].power = 40;
    stopped_spec.cards[PlayerId::P2][0].ability = CombatStatSourcePlanV1::Execute {
        source_id: 1,
        predicate: CombatStatPredicateV1::Always,
        effect: CombatStatEffectV1::StopOpponentBonus,
    };
    let mut stopped = CombatStatDiagnosticV1::new(stopped_spec).unwrap();
    let before = stopped.position().clone();
    let mut before_hasher = DefaultHasher::new();
    before.hash(&mut before_hasher);
    let before_hash = before_hasher.finish();
    let (report, undo) = stopped.make(input(3, false)).unwrap();
    assert!(report.cards[PlayerId::P1].won);
    assert_eq!(report.players[PlayerId::P1].pillz, 0);
    assert_eq!(report.players[PlayerId::P1].life, 20);
    stopped.unmake(undo);
    assert_eq!(stopped.position(), &before);
    let mut restored_hasher = DefaultHasher::new();
    stopped.position().hash(&mut restored_hasher);
    assert_eq!(restored_hasher.finish(), before_hash);

    let mut soa_spec = spec_with_p1(CombatStatEffectSourceV1::Bonus, 1714, komboka, 3);
    set_p1_effective_clan_id(&mut soa_spec, KOMBOKA_EFFECTIVE_CLAN_ID);
    soa_spec.base_rules.players[PlayerId::P1].hand[0].power = 40;
    soa_spec.cards[PlayerId::P2][0].ability = CombatStatSourcePlanV1::Execute {
        source_id: 1,
        predicate: CombatStatPredicateV1::Always,
        effect: CombatStatEffectV1::StopOpponentAbility,
    };
    let mut soa = CombatStatDiagnosticV1::new(soa_spec).unwrap();
    let (report, _) = soa.make(input(3, false)).unwrap();
    assert!(report.cards[PlayerId::P1].won);
    assert_eq!(report.players[PlayerId::P1].pillz, 1);
    assert_eq!(report.players[PlayerId::P1].life, 21);
}

#[test]
fn victory_life_direct_plan_is_positive_winner_only_bonus_before_ability_and_atomic() {
    let bonus = CombatStatEffectV1::GainLifeOnVictory { life: 2 };
    let ability = CombatStatEffectV1::GainLifeOnVictory { life: 1 };
    let mut ordered = spec_with_p1(CombatStatEffectSourceV1::Bonus, 888, bonus, 3);
    ordered.base_rules.players[PlayerId::P1].hand[0].power = 40;
    ordered.cards[PlayerId::P1][0].ability = CombatStatSourcePlanV1::Execute {
        source_id: 889,
        predicate: CombatStatPredicateV1::Always,
        effect: ability,
    };
    let mut ordered = CombatStatDiagnosticV1::new(ordered).unwrap();
    let before = ordered.position().clone();
    let mut hasher = DefaultHasher::new();
    before.hash(&mut hasher);
    let before_hash = hasher.finish();
    let (report, undo) = ordered.make(input(3, false)).unwrap();
    assert!(report.cards[PlayerId::P1].won);
    // The Bonus registration is before Ability in the common END plan; both values
    // are carried by the plan rather than read from a registry on the hot path.
    assert_eq!(report.players[PlayerId::P1].life, 23);
    ordered.unmake(undo);
    assert_eq!(ordered.position(), &before);
    let mut restored = DefaultHasher::new();
    ordered.position().hash(&mut restored);
    assert_eq!(restored.finish(), before_hash);

    let mut zero = spec_with_p1(
        CombatStatEffectSourceV1::Ability,
        888,
        CombatStatEffectV1::GainLifeOnVictory { life: 0 },
        3,
    );
    zero.base_rules.players[PlayerId::P1].hand[0].power = 40;
    assert!(matches!(
        CombatStatDiagnosticV1::new(zero),
        Err(CombatStatPlanErrorV1::InvalidExecute {
            reason: InvalidCombatStatPlanReasonV1::VictoryLifeMagnitude,
            ..
        })
    ));

    // The two reviewed prefixed forms are the only predicates the grammar carries, and
    // only from the Ability slot: `Confidence :` and `Asymmetry:` are abilities, no
    // clan bonus prints either, and every other predicate is still out of the slice.
    for predicate in [
        CombatStatPredicateV1::OwnerWonPreviousRound,
        CombatStatPredicateV1::SelectedHandSlotsDiffer,
    ] {
        let mut conditional = spec_with_p1(CombatStatEffectSourceV1::Ability, 888, bonus, 3);
        conditional.cards[PlayerId::P1][0].ability = CombatStatSourcePlanV1::Execute {
            source_id: 888,
            predicate,
            effect: bonus,
        };
        assert!(CombatStatDiagnosticV1::new(conditional).is_ok());

        let mut from_bonus = spec_with_p1(CombatStatEffectSourceV1::Ability, 888, bonus, 3);
        from_bonus.cards[PlayerId::P1][0].bonus = CombatStatSourcePlanV1::Execute {
            source_id: 888,
            predicate,
            effect: bonus,
        };
        assert!(matches!(
            CombatStatDiagnosticV1::new(from_bonus),
            Err(CombatStatPlanErrorV1::InvalidExecute {
                reason: InvalidCombatStatPlanReasonV1::VictoryLifePredicate,
                ..
            })
        ));
    }

    let mut conditional = spec_with_p1(CombatStatEffectSourceV1::Ability, 888, bonus, 3);
    conditional.cards[PlayerId::P1][0].ability = CombatStatSourcePlanV1::Execute {
        source_id: 888,
        predicate: CombatStatPredicateV1::OwnerLostPreviousRound,
        effect: bonus,
    };
    assert!(matches!(
        CombatStatDiagnosticV1::new(conditional),
        Err(CombatStatPlanErrorV1::InvalidExecute {
            reason: InvalidCombatStatPlanReasonV1::VictoryLifePredicate,
            ..
        })
    ));

    let mut overflow = spec_with_p1(CombatStatEffectSourceV1::Ability, 888, bonus, 0);
    overflow.base_rules.players[PlayerId::P1].initial_life = u16::MAX;
    overflow.base_rules.players[PlayerId::P1].hand[0].power = 40;
    let mut overflow = CombatStatDiagnosticV1::new(overflow).unwrap();
    let before = overflow.position().clone();
    assert!(matches!(
        overflow.make(input(0, false)),
        Err(CombatStatDiagnosticErrorV1::BaseRules(
            BaseRulesError::LifeIncreaseOverflow {
                player: PlayerId::P1
            }
        ))
    ));
    assert_eq!(overflow.position(), &before);
}

#[test]
fn defeat_life_is_surviving_loss_only_and_reanimate_revives_before_status() {
    let defeat = CombatStatEffectV1::GainLifeOnDefeat { life: 2 };
    let reanimate = CombatStatEffectV1::ReanimateLife { life: 2 };

    let mut ordinary = spec_with_p1(CombatStatEffectSourceV1::Ability, 862, defeat, 0);
    ordinary.base_rules.players[PlayerId::P1].initial_life = 7;
    let mut ordinary = CombatStatDiagnosticV1::new(ordinary).unwrap();
    let (report, _) = ordinary.make(input(0, false)).unwrap();
    assert!(!report.cards[PlayerId::P1].won);
    // 7 - 3 damage + 2 Defeat Life.
    assert_eq!(report.players[PlayerId::P1].life, 6);

    let mut ordinary_ko = spec_with_p1(CombatStatEffectSourceV1::Ability, 862, defeat, 0);
    ordinary_ko.base_rules.players[PlayerId::P1].initial_life = 2;
    let mut ordinary_ko = CombatStatDiagnosticV1::new(ordinary_ko).unwrap();
    let (report, _) = ordinary_ko.make(input(0, false)).unwrap();
    assert_eq!(report.players[PlayerId::P1].life, 0);
    assert_eq!(report.status, MatchStatus::Won(PlayerId::P2));

    let mut winning = spec_with_p1(CombatStatEffectSourceV1::Ability, 862, defeat, 0);
    winning.base_rules.players[PlayerId::P1].initial_life = 7;
    winning.base_rules.players[PlayerId::P1].hand[0].power = 40;
    let mut winning = CombatStatDiagnosticV1::new(winning).unwrap();
    let (report, _) = winning.make(input(0, false)).unwrap();
    assert!(report.cards[PlayerId::P1].won);
    assert_eq!(report.players[PlayerId::P1].life, 7);

    let mut revive = spec_with_p1(CombatStatEffectSourceV1::Ability, 4951, reanimate, 0);
    revive.base_rules.players[PlayerId::P1].initial_life = 2;
    let mut revive = CombatStatDiagnosticV1::new(revive).unwrap();
    let before = revive.position().clone();
    let mut before_hasher = DefaultHasher::new();
    before.hash(&mut before_hasher);
    let before_hash = before_hasher.finish();
    let (report, undo) = revive.make(input(0, false)).unwrap();
    assert!(!report.cards[PlayerId::P1].won);
    assert_eq!(report.players[PlayerId::P1].life, 2);
    assert_eq!(report.status, MatchStatus::Playing);
    revive.unmake(undo);
    assert_eq!(revive.position(), &before);
    let mut restored = DefaultHasher::new();
    revive.position().hash(&mut restored);
    assert_eq!(restored.finish(), before_hash);
}

#[test]
fn reanimate_is_stopped_and_life_overflow_is_atomic() {
    let reanimate = CombatStatEffectV1::ReanimateLife { life: 2 };
    let mut stopped = spec_with_p1(CombatStatEffectSourceV1::Ability, 4951, reanimate, 0);
    stopped.base_rules.players[PlayerId::P1].initial_life = 7;
    stopped.cards[PlayerId::P2][0].ability = CombatStatSourcePlanV1::Execute {
        source_id: 1,
        predicate: CombatStatPredicateV1::Always,
        effect: CombatStatEffectV1::StopOpponentAbility,
    };
    let mut stopped = CombatStatDiagnosticV1::new(stopped).unwrap();
    let (report, _) = stopped.make(input(0, false)).unwrap();
    assert_eq!(report.players[PlayerId::P1].life, 4);

    let mut overflow = spec_with_p1(CombatStatEffectSourceV1::Ability, 4951, reanimate, 0);
    overflow.base_rules.players[PlayerId::P1].initial_life = u16::MAX;
    // Keep the loss while making its damage zero, so Reanimate's checked add is the
    // operation which overflows and the complete replacement position must roll back.
    overflow.base_rules.players[PlayerId::P2].hand[0].damage = 0;
    let mut overflow = CombatStatDiagnosticV1::new(overflow).unwrap();
    let before = overflow.position().clone();
    assert!(matches!(
        overflow.make(input(0, false)),
        Err(CombatStatDiagnosticErrorV1::BaseRules(
            BaseRulesError::LifeIncreaseOverflow {
                player: PlayerId::P1
            }
        ))
    ));
    assert_eq!(overflow.position(), &before);
}

#[test]
fn defeat_life_and_reanimate_public_plans_are_ability_only_positive_and_unconditional() {
    for (effect, source_reason, magnitude_reason, predicate_reason) in [
        (
            CombatStatEffectV1::GainLifeOnDefeat { life: 2 },
            InvalidCombatStatPlanReasonV1::DefeatLifeSource,
            InvalidCombatStatPlanReasonV1::DefeatLifeMagnitude,
            InvalidCombatStatPlanReasonV1::DefeatLifePredicate,
        ),
        (
            CombatStatEffectV1::ReanimateLife { life: 2 },
            InvalidCombatStatPlanReasonV1::ReanimateLifeSource,
            InvalidCombatStatPlanReasonV1::ReanimateLifeMagnitude,
            InvalidCombatStatPlanReasonV1::ReanimateLifePredicate,
        ),
    ] {
        assert!(CombatStatDiagnosticV1::new(spec_with_p1(
            CombatStatEffectSourceV1::Ability,
            1,
            effect,
            0,
        ))
        .is_ok());
        assert!(matches!(
            CombatStatDiagnosticV1::new(spec_with_p1(
                CombatStatEffectSourceV1::Bonus,
                1,
                effect,
                0,
            )),
            Err(CombatStatPlanErrorV1::InvalidExecute { reason, .. }) if reason == source_reason
        ));
        let zero = match effect {
            CombatStatEffectV1::GainLifeOnDefeat { .. } => {
                CombatStatEffectV1::GainLifeOnDefeat { life: 0 }
            }
            CombatStatEffectV1::ReanimateLife { .. } => {
                CombatStatEffectV1::ReanimateLife { life: 0 }
            }
            _ => unreachable!(),
        };
        assert!(matches!(
            CombatStatDiagnosticV1::new(spec_with_p1(
                CombatStatEffectSourceV1::Ability,
                1,
                zero,
                0,
            )),
            Err(CombatStatPlanErrorV1::InvalidExecute { reason, .. }) if reason == magnitude_reason
        ));
        let mut conditional = spec_with_p1(CombatStatEffectSourceV1::Ability, 1, effect, 0);
        conditional.cards[PlayerId::P1][0].ability = CombatStatSourcePlanV1::Execute {
            source_id: 1,
            predicate: CombatStatPredicateV1::OwnerLostPreviousRound,
            effect,
        };
        assert!(matches!(
            CombatStatDiagnosticV1::new(conditional),
            Err(CombatStatPlanErrorV1::InvalidExecute { reason, .. }) if reason == predicate_reason
        ));
    }
}

#[test]
fn argos_defeat_pillz_is_capped_after_bonus_and_skips_wins_or_kos() {
    let argos = CombatStatEffectV1::GainTwoPillzOnDefeatMaxEleven;
    let vod = CombatStatEffectV1::GainOnePillzOnVictoryOrDefeat;
    let mut ordered = spec_with_p1(CombatStatEffectSourceV1::Ability, 1158, argos, 12);
    ordered.cards[PlayerId::P1][0].bonus = CombatStatSourcePlanV1::Execute {
        source_id: 1034,
        predicate: CombatStatPredicateV1::Always,
        effect: vod,
    };
    ordered.cards[PlayerId::P1][0].source_bonus_support_count = 1;
    let mut ordered = CombatStatDiagnosticV1::new(ordered).unwrap();
    let before = ordered.position().clone();
    let mut before_hasher = DefaultHasher::new();
    before.hash(&mut before_hasher);
    let before_hash = before_hasher.finish();
    let (report, undo) = ordered.make(input(2, false)).unwrap();
    assert!(!report.cards[PlayerId::P1].won);
    // 12 - 2 = 10; Bonus:1034 runs first to 11, then Argos is already capped.
    assert_eq!(report.players[PlayerId::P1].pillz, 11);
    ordered.unmake(undo);
    assert_eq!(ordered.position(), &before);
    let mut restored_hasher = DefaultHasher::new();
    ordered.position().hash(&mut restored_hasher);
    assert_eq!(restored_hasher.finish(), before_hash);

    let mut above = spec_with_p1(CombatStatEffectSourceV1::Ability, 1158, argos, 13);
    above.cards[PlayerId::P1][0].bonus = CombatStatSourcePlanV1::Execute {
        source_id: 1034,
        predicate: CombatStatPredicateV1::Always,
        effect: vod,
    };
    above.cards[PlayerId::P1][0].source_bonus_support_count = 1;
    let mut above = CombatStatDiagnosticV1::new(above).unwrap();
    let (report, _) = above.make(input(2, false)).unwrap();
    // 13 - 2 = 11; bonus first gives 12 and Argos must not lower it.
    assert_eq!(report.players[PlayerId::P1].pillz, 12);

    let mut winning = spec_with_p1(CombatStatEffectSourceV1::Ability, 1158, argos, 12);
    winning.base_rules.players[PlayerId::P1].hand[0].power = 40;
    let mut winning = CombatStatDiagnosticV1::new(winning).unwrap();
    let (report, _) = winning.make(input(2, false)).unwrap();
    assert!(report.cards[PlayerId::P1].won);
    assert_eq!(report.players[PlayerId::P1].pillz, 10);

    let mut zero = CombatStatDiagnosticV1::new(spec_with_p1(
        CombatStatEffectSourceV1::Ability,
        1158,
        argos,
        3,
    ))
    .unwrap();
    let (report, _) = zero.make(input(3, false)).unwrap();
    assert!(!report.cards[PlayerId::P1].won);
    assert_eq!(report.players[PlayerId::P1].pillz, 2);

    let mut stopped_bonus = spec_with_p1(CombatStatEffectSourceV1::Ability, 1158, argos, 9);
    stopped_bonus.cards[PlayerId::P1][0].bonus = CombatStatSourcePlanV1::Execute {
        source_id: 1034,
        predicate: CombatStatPredicateV1::Always,
        effect: vod,
    };
    stopped_bonus.cards[PlayerId::P1][0].source_bonus_support_count = 1;
    stopped_bonus.cards[PlayerId::P2][0].ability = CombatStatSourcePlanV1::Execute {
        source_id: 1,
        predicate: CombatStatPredicateV1::Always,
        effect: CombatStatEffectV1::StopOpponentBonus,
    };
    let mut stopped_bonus = CombatStatDiagnosticV1::new(stopped_bonus).unwrap();
    let (report, _) = stopped_bonus.make(input(2, false)).unwrap();
    // 9 - 2 = 7; Stop Bonus suppresses only VOD, so Argos still returns two.
    assert_eq!(report.players[PlayerId::P1].pillz, 9);

    let mut ko = spec_with_p1(CombatStatEffectSourceV1::Ability, 1158, argos, 12);
    ko.base_rules.players[PlayerId::P1].initial_life = 2;
    ko.cards[PlayerId::P1][0].bonus = CombatStatSourcePlanV1::Execute {
        source_id: 1034,
        predicate: CombatStatPredicateV1::Always,
        effect: vod,
    };
    ko.cards[PlayerId::P1][0].source_bonus_support_count = 1;
    let mut ko = CombatStatDiagnosticV1::new(ko).unwrap();
    let (report, _) = ko.make(input(2, false)).unwrap();
    assert_eq!(report.status, MatchStatus::Won(PlayerId::P2));
    assert_eq!(report.players[PlayerId::P1].life, 0);
    // VOD is the audited post-KO exception; Argos' ordinary Pillz gain is suppressed.
    assert_eq!(report.players[PlayerId::P1].pillz, 11);
}

#[test]
fn argos_public_plans_are_identity_and_predicate_locked() {
    let effect = CombatStatEffectV1::GainTwoPillzOnDefeatMaxEleven;
    assert!(CombatStatDiagnosticV1::new(spec_with_p1(
        CombatStatEffectSourceV1::Ability,
        1158,
        effect,
        12,
    ))
    .is_ok());
    assert!(matches!(
        CombatStatDiagnosticV1::new(spec_with_p1(
            CombatStatEffectSourceV1::Bonus,
            1158,
            effect,
            12,
        )),
        Err(CombatStatPlanErrorV1::InvalidExecute {
            reason: InvalidCombatStatPlanReasonV1::ArgosDefeatCappedPillzIdentity,
            ..
        })
    ));
    let mut wrong_predicate = spec_with_p1(CombatStatEffectSourceV1::Ability, 1158, effect, 12);
    wrong_predicate.cards[PlayerId::P1][0].ability = CombatStatSourcePlanV1::Execute {
        source_id: 1158,
        predicate: CombatStatPredicateV1::OwnerLostPreviousRound,
        effect,
    };
    assert!(matches!(
        CombatStatDiagnosticV1::new(wrong_predicate),
        Err(CombatStatPlanErrorV1::InvalidExecute {
            reason: InvalidCombatStatPlanReasonV1::ArgosDefeatCappedPillzPredicate,
            ..
        })
    ));
}

fn execute(effect: CombatStatEffectV1, id: u32) -> CombatStatSourcePlanV1 {
    CombatStatSourcePlanV1::Execute {
        source_id: id,
        predicate: CombatStatPredicateV1::Always,
        effect,
    }
}

fn cards_damage(operation: CombatStatOperationV1, minimum: Option<u16>) -> CombatStatEffectV1 {
    CombatStatEffectV1::ModifyCombatStat {
        side: CombatStatAffectedSideV1::Both,
        stat: CombatStatAttributeV1::Damage,
        operation,
        value: 2,
        minimum,
        maximum: None,
        multiplier: CombatStatMagnitudeV1::Fixed,
    }
}

/// Round two: both players play slot 1, nobody bets, P2 moves first and wins 6 x 1
/// against 31 x 1 while dealing 3.
fn second_round() -> BaseRulesRoundInput {
    BaseRulesRoundInput {
        first_mover: PlayerId::P2,
        selections: ByPlayer::new(
            BaseRulesSelection::new(1, 0, false),
            BaseRulesSelection::new(1, 0, false),
        ),
    }
}

fn killshot_game(effect: CombatStatEffectV1, p1_pillz: u16) -> CombatStatDiagnosticV1 {
    CombatStatDiagnosticV1::new(spec_with_p1(
        CombatStatEffectSourceV1::Ability,
        2250,
        effect,
        p1_pillz,
    ))
    .unwrap()
}

/// The Killshot own gains and the Toxin latch share revision 38's trigger: P1's 6 power
/// against P2's 31 doubles at ten Pillz (66 against 31) and only wins at five (36).
#[test]
fn killshot_own_gains_and_toxin_latch_pay_on_the_attack_ratio_alone() {
    let pillz = CombatStatEffectV1::GainPillzOnKillshot { pillz: 3 };
    let (report, _) = killshot_game(pillz, 10).make(input(10, false)).unwrap();
    assert!(report.cards[PlayerId::P1].won);
    assert_eq!(report.players[PlayerId::P1].pillz, 3, "10 - 10 + 3");
    let (report, _) = killshot_game(pillz, 10).make(input(5, false)).unwrap();
    assert!(report.cards[PlayerId::P1].won);
    assert_eq!(
        report.players[PlayerId::P1].pillz,
        5,
        "a plain win pays nothing"
    );

    let life = CombatStatEffectV1::GainLifeOnKillshot {
        life: 3,
        maximum: 0,
    };
    let (report, _) = killshot_game(life, 10).make(input(10, false)).unwrap();
    assert_eq!(report.players[PlayerId::P1].life, 23);
    let (report, _) = killshot_game(life, 10).make(input(5, false)).unwrap();
    assert_eq!(report.players[PlayerId::P1].life, 20);

    // Heal's cap: an overshoot stops at Max, and an owner at or past Max gains nothing.
    let capped = CombatStatEffectV1::GainLifeOnKillshot {
        life: 5,
        maximum: 22,
    };
    for (start, expected) in [(20, 22), (18, 22), (16, 21), (22, 22), (24, 24)] {
        let mut spec = spec_with_p1(CombatStatEffectSourceV1::Ability, 5065, capped, 10);
        spec.base_rules.players[PlayerId::P1].initial_life = start;
        let (report, _) = CombatStatDiagnosticV1::new(spec)
            .unwrap()
            .make(input(10, false))
            .unwrap();
        assert_eq!(report.players[PlayerId::P1].life, expected, "from {start}");
    }

    // Toxin latches on the ratio and pays at once: 20 - 3 combat damage - 1, then one
    // more in a round P1 loses. A plain win latches nothing.
    let toxin = CombatStatEffectV1::ToxinOpponentLifeOnKillshot {
        life: 1,
        minimum: 0,
    };
    let mut latched = killshot_game(toxin, 10);
    let (report, _) = latched.make(input(10, false)).unwrap();
    assert_eq!(report.players[PlayerId::P2].life, 16);
    let before = latched.position().clone();
    let (report, undo) = latched.make(second_round()).unwrap();
    assert!(!report.cards[PlayerId::P1].won);
    assert_eq!(report.players[PlayerId::P2].life, 15);
    latched.unmake(undo);
    assert_eq!(latched.position(), &before);
    let mut plain = killshot_game(toxin, 10);
    let (report, _) = plain.make(input(5, false)).unwrap();
    assert_eq!(report.players[PlayerId::P2].life, 17);
    let (report, _) = plain.make(second_round()).unwrap();
    assert_eq!(report.players[PlayerId::P2].life, 17);

    // At zero attack on both sides the ratio holds for the side that loses the tie, as
    // it does for revision 38's reduction: a living loser gains, a knocked-out one does
    // not, and the latch is taken either way.
    let stalled = |effect, p1_life| {
        let mut spec = spec_with_p1(CombatStatEffectSourceV1::Ability, 2250, effect, 0);
        spec.base_rules.players[PlayerId::P1].hand[0].power = 0;
        spec.base_rules.players[PlayerId::P2].hand[0].power = 0;
        spec.base_rules.players[PlayerId::P1].initial_life = p1_life;
        let mut game = CombatStatDiagnosticV1::new(spec).unwrap();
        let (report, _) = game
            .make(BaseRulesRoundInput {
                first_mover: PlayerId::P2,
                selections: ByPlayer::new(
                    BaseRulesSelection::new(0, 0, false),
                    BaseRulesSelection::new(0, 0, false),
                ),
            })
            .unwrap();
        assert!(!report.cards[PlayerId::P1].won);
        report
    };
    assert_eq!(stalled(pillz, 20).players[PlayerId::P1].pillz, 3);
    assert_eq!(stalled(life, 20).players[PlayerId::P1].life, 20);
    assert_eq!(stalled(life, 3).players[PlayerId::P1].life, 0);
    assert_eq!(stalled(pillz, 3).players[PlayerId::P1].pillz, 0);
    assert_eq!(stalled(toxin, 3).players[PlayerId::P2].life, 19);
}

#[test]
fn killshot_post_round_plans_are_ability_only_positive_and_only_unison_gates_life() {
    let life = CombatStatEffectV1::GainLifeOnKillshot {
        life: 4,
        maximum: 0,
    };
    let plan = |effect, predicate| CombatStatSourcePlanV1::Execute {
        source_id: 3894,
        predicate,
        effect,
    };
    let reason = |spec| match CombatStatDiagnosticV1::new(spec) {
        Err(CombatStatPlanErrorV1::InvalidExecute { reason, .. }) => Some(reason),
        _ => None,
    };
    for effect in [
        CombatStatEffectV1::GainPillzOnKillshot { pillz: 3 },
        life,
        CombatStatEffectV1::ToxinOpponentLifeOnKillshot {
            life: 1,
            minimum: 0,
        },
    ] {
        assert!(CombatStatDiagnosticV1::new(spec_with_p1(
            CombatStatEffectSourceV1::Ability,
            3894,
            effect,
            10
        ))
        .is_ok());
        assert_eq!(
            reason(spec_with_p1(
                CombatStatEffectSourceV1::Bonus,
                3894,
                effect,
                10
            )),
            Some(InvalidCombatStatPlanReasonV1::KillshotPostRoundSource)
        );
    }
    let zero = CombatStatEffectV1::GainPillzOnKillshot { pillz: 0 };
    assert_eq!(
        reason(spec_with_p1(
            CombatStatEffectSourceV1::Ability,
            2250,
            zero,
            10
        )),
        Some(InvalidCombatStatPlanReasonV1::KillshotPostRoundMagnitude)
    );
    // `Unison:` is the one predicate printed, and only on the uncapped Life gain.
    for (effect, predicate, admitted) in [
        (life, CombatStatPredicateV1::OwnerHandUnison, true),
        (life, CombatStatPredicateV1::OwnerWonPreviousRound, false),
        (
            CombatStatEffectV1::GainLifeOnKillshot {
                life: 5,
                maximum: 14,
            },
            CombatStatPredicateV1::OwnerHandUnison,
            false,
        ),
        (
            CombatStatEffectV1::GainPillzOnKillshot { pillz: 3 },
            CombatStatPredicateV1::OwnerHandUnison,
            false,
        ),
        (
            CombatStatEffectV1::ToxinOpponentLifeOnKillshot {
                life: 1,
                minimum: 0,
            },
            CombatStatPredicateV1::OwnerHandUnison,
            false,
        ),
    ] {
        let mut spec = spec_with_p1(CombatStatEffectSourceV1::Ability, 3894, effect, 10);
        spec.cards[PlayerId::P1][0].ability = plan(effect, predicate);
        let expected =
            (!admitted).then_some(InvalidCombatStatPlanReasonV1::KillshotPostRoundPredicate);
        assert_eq!(reason(spec), expected, "{effect:?} under {predicate:?}");
    }

    // A mixed hand never pays; a one-clan hand pays on the ratio.
    for (mono, expected) in [(false, 20), (true, 24)] {
        let mut spec = spec_with_p1(CombatStatEffectSourceV1::Ability, 3894, life, 10);
        spec.cards[PlayerId::P1][0].ability =
            plan(life, CombatStatPredicateV1::OwnerHandUnison);
        if mono {
            for card in spec.cards[PlayerId::P1].iter_mut() {
                card.effective_clan_id = 1;
            }
        }
        let (report, _) = CombatStatDiagnosticV1::new(spec)
            .unwrap()
            .make(input(10, false))
            .unwrap();
        assert_eq!(report.players[PlayerId::P1].life, expected, "mono {mono}");
    }
}

#[test]
fn a_cards_plan_outside_its_one_shape_is_refused() {
    let decrease = cards_damage(CombatStatOperationV1::Decrease, Some(1));
    let refused = |spec: CombatStatDiagnosticMatchSpecV1| {
        matches!(
            CombatStatDiagnosticV1::new(spec),
            Err(CombatStatPlanErrorV1::InvalidExecute {
                reason: InvalidCombatStatPlanReasonV1::BothCardsModifierShape,
                ..
            })
        )
    };
    assert!(refused(spec_with_p1(
        CombatStatEffectSourceV1::Bonus,
        2018,
        decrease,
        0
    )));
    let mut conditional = spec_with_p1(CombatStatEffectSourceV1::Ability, 2018, decrease, 0);
    conditional.cards[PlayerId::P1][0].ability = CombatStatSourcePlanV1::Execute {
        source_id: 2018,
        predicate: CombatStatPredicateV1::OwnerWonPreviousRound,
        effect: decrease,
    };
    assert!(refused(conditional));
    for effect in [
        cards_damage(CombatStatOperationV1::Decrease, None),
        cards_damage(CombatStatOperationV1::Increase, Some(1)),
        CombatStatEffectV1::ModifyCombatStat {
            side: CombatStatAffectedSideV1::Both,
            stat: CombatStatAttributeV1::Power,
            operation: CombatStatOperationV1::Decrease,
            value: 2,
            minimum: Some(2),
            maximum: None,
            multiplier: CombatStatMagnitudeV1::Fixed,
        },
        CombatStatEffectV1::ModifyCombatStat {
            side: CombatStatAffectedSideV1::Both,
            stat: CombatStatAttributeV1::Damage,
            operation: CombatStatOperationV1::Increase,
            value: 2,
            minimum: None,
            maximum: None,
            multiplier: CombatStatMagnitudeV1::Growth,
        },
    ] {
        assert!(
            refused(spec_with_p1(
                CombatStatEffectSourceV1::Ability,
                2018,
                effect,
                0
            )),
            "{effect:?}"
        );
    }
}


/// Whether a match builds and its first round, P1 betting `p1_pillz`, is refused because a
/// scaled amount of P1's passes `u16`.
fn magnitude_overflows(spec: CombatStatDiagnosticMatchSpecV1, p1_pillz: u16) -> bool {
    let mut game = CombatStatDiagnosticV1::new(spec).unwrap();
    matches!(
        game.make(input(p1_pillz, false)),
        Err(CombatStatDiagnosticErrorV1::ArithmeticOverflow {
            player: PlayerId::P1,
            stage: CombatStatArithmeticStageV1::EffectMagnitude,
        })
    )
}

#[test]
fn tune_out_is_bonus_only_and_refused_beside_a_killshot_or_an_opposing_power_cancel() {
    let refused = |spec: CombatStatDiagnosticMatchSpecV1,
                   expected: InvalidCombatStatPlanReasonV1| {
        matches!(
            CombatStatDiagnosticV1::new(spec),
            Err(CombatStatPlanErrorV1::InvalidExecute { reason, .. }) if reason == expected
        )
    };
    assert!(refused(
        spec_with_p1(
            CombatStatEffectSourceV1::Ability,
            3496,
            CombatStatEffectV1::SimplifyAttackToPillz,
            0
        ),
        InvalidCombatStatPlanReasonV1::AttackSimplificationSource,
    ));
    let tune_out = || {
        spec_with_p1(
            CombatStatEffectSourceV1::Bonus,
            3496,
            CombatStatEffectV1::SimplifyAttackToPillz,
            0,
        )
    };
    let killshot = CombatStatEffectV1::ReduceOpponentLifeOnKillshot {
        life: 3,
        minimum: 0,
    };
    // An opposing Killshot anywhere in the other hand, an opposing Power cancel, and a
    // Killshot printed beside the Tune Out bonus on its own card.
    let mut opposing_killshot = tune_out();
    opposing_killshot.cards[PlayerId::P2][3].ability = execute(killshot, 4459);
    assert!(refused(
        opposing_killshot,
        InvalidCombatStatPlanReasonV1::AttackSimplificationAgainstUnpinnedEffect,
    ));
    let mut opposing_cancel = tune_out();
    opposing_cancel.cards[PlayerId::P2][2].ability = execute(
        CombatStatEffectV1::CancelOpponentCombatStatModifiers {
            stat: CombatStatAttributeV1::Power,
        },
        1164,
    );
    assert!(refused(
        opposing_cancel,
        InvalidCombatStatPlanReasonV1::AttackSimplificationAgainstUnpinnedEffect,
    ));
    let mut own_killshot = tune_out();
    own_killshot.cards[PlayerId::P1][0].ability = execute(killshot, 4459);
    assert!(refused(
        own_killshot,
        InvalidCombatStatPlanReasonV1::AttackSimplificationAgainstUnpinnedEffect,
    ));
    // An opposing Copy, and a Power reduction to Min 0 on either side - no round shows
    // whether it lands before or after Power is set to 1.
    let mut opposing_copy = tune_out();
    opposing_copy.cards[PlayerId::P2][2].ability = CombatStatSourcePlanV1::CopyOpponentSource {
        source_id: 2918,
        copied: CopiedSourceKindV1::Bonus,
        predicate: CombatStatPredicateV1::Always,
    };
    opposing_copy.cards[PlayerId::P2][2].source_ability_support_count = 1;
    assert!(refused(
        opposing_copy,
        InvalidCombatStatPlanReasonV1::AttackSimplificationAgainstUnpinnedEffect,
    ));
    for (owner, minimum, refuses) in [
        (PlayerId::P2, 0, true),
        (PlayerId::P1, 0, true),
        (PlayerId::P2, 1, false),
    ] {
        let mut reduced = tune_out();
        reduced.cards[owner][3].ability = execute(
            CombatStatEffectV1::ModifyCombatStat {
                side: CombatStatAffectedSideV1::Opponent,
                stat: CombatStatAttributeV1::Power,
                operation: CombatStatOperationV1::Decrease,
                value: 3,
                minimum: Some(minimum),
                maximum: None,
                multiplier: CombatStatMagnitudeV1::Fixed,
            },
            1815,
        );
        assert_eq!(
            refused(
                reduced,
                InvalidCombatStatPlanReasonV1::AttackSimplificationAgainstUnpinnedEffect,
            ),
            refuses,
            "{owner:?} Min {minimum}"
        );
    }
    // An opposing Damage cancel does not meet it: Tune Out leaves Damage alone.
    let mut damage_cancel = tune_out();
    damage_cancel.cards[PlayerId::P2][2].ability = execute(
        CombatStatEffectV1::CancelOpponentCombatStatModifiers {
            stat: CombatStatAttributeV1::Damage,
        },
        4414,
    );
    assert!(CombatStatDiagnosticV1::new(damage_cancel).is_ok());
}

fn modifier(
    side: CombatStatAffectedSideV1,
    stat: CombatStatAttributeV1,
    operation: CombatStatOperationV1,
    value: u16,
    minimum: Option<u16>,
) -> CombatStatEffectV1 {
    CombatStatEffectV1::ModifyCombatStat {
        side,
        stat,
        operation,
        value,
        minimum,
        maximum: None,
        multiplier: CombatStatMagnitudeV1::Fixed,
    }
}

#[test]
fn combat_stat_modifiers_are_validated_by_shape_direction_and_magnitude() {
    let plan = |effect| CombatStatSourcePlanV1::Execute {
        source_id: 2,
        predicate: CombatStatPredicateV1::Always,
        effect,
    };
    let refusal = |effect| {
        source_plan_refusal(CombatStatEffectSourceV1::Ability, CardKey::new(1, 3), 1, plan(effect))
    };
    let (both, opponent, player) = (
        CombatStatAffectedSideV1::Both,
        CombatStatAffectedSideV1::Opponent,
        CombatStatAffectedSideV1::Player,
    );
    let (damage, power) = (CombatStatAttributeV1::Damage, CombatStatAttributeV1::Power);
    let (decrease, increase) = (CombatStatOperationV1::Decrease, CombatStatOperationV1::Increase);
    assert_eq!(refusal(modifier(both, damage, increase, 2, None)), None);
    assert_eq!(
        refusal(modifier(both, damage, increase, 2, Some(1))),
        Some(InvalidCombatStatPlanReasonV1::BothCardsModifierShape)
    );
    assert_eq!(
        refusal(modifier(both, damage, decrease, 2, None)),
        Some(InvalidCombatStatPlanReasonV1::BothCardsModifierShape)
    );
    assert_eq!(refusal(modifier(player, power, increase, 3, None)), None);
    assert_eq!(refusal(modifier(opponent, power, decrease, 1, Some(2))), None);
    assert_eq!(
        refusal(modifier(opponent, power, increase, 1, None)),
        Some(InvalidCombatStatPlanReasonV1::InvalidModifierDirection)
    );
    assert_eq!(
        refusal(modifier(player, power, increase, 0, None)),
        Some(InvalidCombatStatPlanReasonV1::ZeroMagnitude)
    );
    assert_eq!(
        refusal(modifier(player, power, increase, 1, Some(1))),
        Some(InvalidCombatStatPlanReasonV1::IncompatibleBounds)
    );
    // A fixed modifier is played, and so is one scaled by the owner's round-start Life.
    let spec = spec_with_p1(
        CombatStatEffectSourceV1::Ability,
        2,
        modifier(player, power, increase, 3, None),
        0,
    );
    assert!(CombatStatDiagnosticV1::new(spec).is_ok());
    let scaled = CombatStatEffectV1::ModifyCombatStat {
        side: player,
        stat: power,
        operation: increase,
        value: 3,
        minimum: None,
        maximum: None,
        multiplier: CombatStatMagnitudeV1::OwnerLife,
    };
    assert_eq!(refusal(scaled), None);
    let spec = spec_with_p1(CombatStatEffectSourceV1::Ability, 2, scaled, 0);
    let mut game = CombatStatDiagnosticV1::new(spec).unwrap();
    let (report, _) = game.make(input(0, false)).unwrap();
    assert_eq!(report.cards[PlayerId::P1].power, 66);
}

#[test]
fn own_life_and_gift_plans_are_validated_and_played() {
    let refusal = |effect| {
        source_plan_refusal(
            CombatStatEffectSourceV1::Ability,
            CardKey::new(1, 3),
            1,
            execute(effect, 7),
        )
    };
    assert_eq!(
        refusal(CombatStatEffectV1::ReduceOwnLife { life: 2, minimum: 0 }),
        Some(InvalidCombatStatPlanReasonV1::CorruptLifeMagnitude)
    );
    assert_eq!(refusal(CombatStatEffectV1::ReduceOwnLife { life: 2, minimum: 1 }), None);
    assert_eq!(
        refusal(CombatStatEffectV1::ReduceOwnLifeOnVictory { life: 0, minimum: 1 }),
        Some(InvalidCombatStatPlanReasonV1::BacklashLifeMagnitude)
    );
    assert_eq!(
        refusal(CombatStatEffectV1::GainLifeOnDefeatMax { life: 3, maximum: 3 }),
        Some(InvalidCombatStatPlanReasonV1::DefeatLifeMagnitude)
    );
    assert_eq!(refusal(CombatStatEffectV1::GainOpponentPillzOnDefeat { pillz: 1 }), None);
    // P1 loses the round (6 against 31), takes 3, and Corrupt takes 2 more.
    let spec = spec_with_p1(
        CombatStatEffectSourceV1::Ability,
        7,
        CombatStatEffectV1::ReduceOwnLife { life: 2, minimum: 1 },
        0,
    );
    let mut game = CombatStatDiagnosticV1::new(spec).unwrap();
    let (report, _) = game.make(input(0, false)).unwrap();
    assert_eq!(report.players[PlayerId::P1].life, 15);
    // A losing owner's gift goes to the opponent; Defeat Life stops at its maximum.
    let played = |effect| {
        let mut game =
            CombatStatDiagnosticV1::new(spec_with_p1(CombatStatEffectSourceV1::Ability, 7, effect, 0))
                .unwrap();
        game.make(input(0, false)).unwrap().0
    };
    assert_eq!(
        played(CombatStatEffectV1::GainOpponentPillzOnDefeat { pillz: 2 }).players[PlayerId::P2].pillz,
        22
    );
    assert_eq!(
        played(CombatStatEffectV1::GainLifeOnDefeatMax { life: 5, maximum: 19 }).players[PlayerId::P1]
            .life,
        19
    );
    // Backlash pays only on a win, so this loss leaves P1 at 17.
    assert_eq!(
        played(CombatStatEffectV1::ReduceOwnLifeOnVictory { life: 2, minimum: 1 }).players
            [PlayerId::P1]
            .life,
        17
    );
}

#[test]
fn reprisal_soa_is_live_only_when_its_owner_moves_second_and_undo_restores() {
    let mut spec = spec_with_p1(
        CombatStatEffectSourceV1::Ability,
        1310,
        CombatStatEffectV1::StopOpponentAbility,
        0,
    );
    set_p1_card_key(&mut spec, CardKey::new(1498, 4));
    spec.cards[PlayerId::P1][0].ability = CombatStatSourcePlanV1::Execute {
        source_id: 1310,
        predicate: CombatStatPredicateV1::OwnerMovesSecond,
        effect: CombatStatEffectV1::StopOpponentAbility,
    };
    spec.base_rules.players[PlayerId::P2].hand[0].power = 6;
    spec.cards[PlayerId::P2][0].ability = CombatStatSourcePlanV1::Execute {
        source_id: 2,
        predicate: CombatStatPredicateV1::Always,
        effect: CombatStatEffectV1::ModifyCombatStat {
            side: CombatStatAffectedSideV1::Player,
            stat: CombatStatAttributeV1::Power,
            operation: CombatStatOperationV1::Increase,
            value: 3,
            minimum: None,
            maximum: None,
            multiplier: CombatStatMagnitudeV1::Fixed,
        },
    };

    let mut first = CombatStatDiagnosticV1::new(spec.clone()).unwrap();
    let (report, _) = first.make(input(0, false)).unwrap();
    // P1 moved first, so Reprisal is inactive and P2's Ability is live.
    assert_eq!(report.cards[PlayerId::P2].power, 9);

    let mut second = CombatStatDiagnosticV1::new(spec).unwrap();
    let before = second.position().clone();
    let mut before_hasher = DefaultHasher::new();
    before.hash(&mut before_hasher);
    let before_hash = before_hasher.finish();
    let mut second_input = input(0, false);
    second_input.first_mover = PlayerId::P2;
    let (report, undo) = second.make(second_input).unwrap();
    // P1 now moved second, so its SOA is live before PRE4 and suppresses P2's Ability.
    assert_eq!(report.cards[PlayerId::P2].power, 6);
    second.unmake(undo);
    assert_eq!(second.position(), &before);
    let mut restored_hasher = DefaultHasher::new();
    second.position().hash(&mut restored_hasher);
    assert_eq!(restored_hasher.finish(), before_hash);
}

#[test]
fn cards_lands_on_both_cards_with_the_own_half_before_opposing_reductions() {
    // Rajesh (5/6) prints `-2 Cards Damage, Min 4` against Sue (6/3), whose
    // `-1 Opp Power And Damage, Min 3` takes his Power to 4. His own Damage is at 4 before
    // Sue's reduction takes it to the reported 3 - the other order leaves 4 - and Sue's
    // 3, already under Min 4, is left alone rather than pulled up to it.
    let mut spec = spec_with_p1(
        CombatStatEffectSourceV1::Ability,
        3570,
        cards_damage(CombatStatOperationV1::Decrease, Some(4)),
        0,
    );
    spec.base_rules.players[PlayerId::P1].hand[0].power = 5;
    spec.base_rules.players[PlayerId::P1].hand[0].damage = 6;
    spec.base_rules.players[PlayerId::P2].hand[0].power = 6;
    spec.cards[PlayerId::P2][0].ability = execute(
        CombatStatEffectV1::ModifyCombatStat {
            side: CombatStatAffectedSideV1::Opponent,
            stat: CombatStatAttributeV1::PowerAndDamage,
            operation: CombatStatOperationV1::Decrease,
            value: 1,
            minimum: Some(3),
            maximum: None,
            multiplier: CombatStatMagnitudeV1::Fixed,
        },
        916,
    );
    let mut game = CombatStatDiagnosticV1::new(spec).unwrap();
    let before = game.position().clone();
    let (report, undo) = game.make(input(0, false)).unwrap();
    assert_eq!(report.cards[PlayerId::P1].power, 4);
    assert_eq!(report.cards[PlayerId::P1].damage, 3);
    assert_eq!(report.cards[PlayerId::P2].damage, 3);
    assert!(report.cards[PlayerId::P2].won);
    assert_eq!(report.players[PlayerId::P1].life, 17);
    game.unmake(undo);
    assert_eq!(game.position(), &before);
}

#[test]
fn cards_increase_passes_protection_and_an_opposing_cancel_or_copy_is_refused() {
    // `Cards Damage +2` takes El Resbaladizo 6 to 8 and Aurora 5 to 7. The opposing half is
    // an increase, which Protection - a refusal of reductions by the opposing character -
    // does not touch.
    let mut spec = spec_with_p1(
        CombatStatEffectSourceV1::Ability,
        3295,
        cards_damage(CombatStatOperationV1::Increase, None),
        4,
    );
    spec.cards[PlayerId::P2][0].bonus = execute(
        CombatStatEffectV1::ProtectOwnCombatStat {
            stat: CombatStatAttributeV1::PowerAndDamage,
        },
        1355,
    );
    spec.cards[PlayerId::P2][0].source_bonus_support_count = 1;
    let mut game = CombatStatDiagnosticV1::new(spec.clone()).unwrap();
    let (report, _) = game.make(input(0, false)).unwrap();
    assert_eq!(report.cards[PlayerId::P1].damage, 5);
    assert_eq!(report.cards[PlayerId::P2].damage, 5);

    // The decrease's opposing half is a reduction by the opposing character, so the same
    // Protection refuses it while the owner's own half still lands.
    spec.cards[PlayerId::P1][0].ability =
        execute(cards_damage(CombatStatOperationV1::Decrease, Some(1)), 2018);
    let mut game = CombatStatDiagnosticV1::new(spec.clone()).unwrap();
    let (report, _) = game.make(input(0, false)).unwrap();
    assert_eq!(report.cards[PlayerId::P1].damage, 1);
    assert_eq!(report.cards[PlayerId::P2].damage, 3);

    // No round shows a `Cards` modifier meeting an opposing cancel of its stat or an
    // opposing Copy, so either refuses the match; an opposing cancel of another stat does
    // not meet it.
    let refused = |spec: CombatStatDiagnosticMatchSpecV1| {
        matches!(
            CombatStatDiagnosticV1::new(spec),
            Err(CombatStatPlanErrorV1::InvalidExecute {
                reason: InvalidCombatStatPlanReasonV1::BothCardsModifierAgainstUnpinnedEffect,
                ..
            })
        )
    };
    spec.cards[PlayerId::P1][0].ability =
        execute(cards_damage(CombatStatOperationV1::Increase, None), 3295);
    for (stat, refuses) in [
        (CombatStatAttributeV1::Damage, true),
        (CombatStatAttributeV1::PowerAndDamage, true),
        (CombatStatAttributeV1::Power, false),
        (CombatStatAttributeV1::Attack, false),
    ] {
        let mut cancelled = spec.clone();
        cancelled.cards[PlayerId::P2][0].bonus = execute(
            CombatStatEffectV1::CancelOpponentCombatStatModifiers { stat },
            4414,
        );
        assert_eq!(refused(cancelled), refuses, "{stat:?}");
    }
    let mut copied = spec;
    copied.cards[PlayerId::P2][2].ability = CombatStatSourcePlanV1::CopyOpponentSource {
        source_id: 2918,
        copied: CopiedSourceKindV1::Ability,
        predicate: CombatStatPredicateV1::Always,
    };
    copied.cards[PlayerId::P2][2].source_ability_support_count = 1;
    assert!(refused(copied));
}

#[test]
fn cards_attack_reduces_both_attacks_each_to_its_own_floor() {
    // Miss Denna's `-7 Cards Attack, Min 0` takes her own 7 to 0 and Callie's 36 + 12
    // Support to 41.
    let mut spec = spec_with_p1(
        CombatStatEffectSourceV1::Ability,
        4616,
        CombatStatEffectV1::ModifyCombatStat {
            side: CombatStatAffectedSideV1::Both,
            stat: CombatStatAttributeV1::Attack,
            operation: CombatStatOperationV1::Decrease,
            value: 7,
            minimum: Some(0),
            maximum: None,
            multiplier: CombatStatMagnitudeV1::Fixed,
        },
        0,
    );
    spec.base_rules.players[PlayerId::P1].hand[0].power = 7;
    spec.base_rules.players[PlayerId::P2].hand[0].power = 48;
    let mut game = CombatStatDiagnosticV1::new(spec).unwrap();
    let (report, _) = game.make(input(0, false)).unwrap();
    assert_eq!(report.cards[PlayerId::P1].attack, 0);
    assert_eq!(report.cards[PlayerId::P2].attack, 41);
}

#[test]
fn tune_out_makes_each_attack_its_bet_and_ignores_every_attack_modifier() {
    // P2 prints 31 Power and an own `Attack +30`; under P1's Tune Out both Powers are 1,
    // P1's bet of 4 is an Attack of 5 against P2's 1, and Fury adds Damage only.
    let mut spec = spec_with_p1(
        CombatStatEffectSourceV1::Bonus,
        3496,
        CombatStatEffectV1::SimplifyAttackToPillz,
        7,
    );
    spec.cards[PlayerId::P2][0].ability = execute(
        CombatStatEffectV1::ModifyCombatStat {
            side: CombatStatAffectedSideV1::Player,
            stat: CombatStatAttributeV1::Attack,
            operation: CombatStatOperationV1::Increase,
            value: 30,
            minimum: None,
            maximum: None,
            multiplier: CombatStatMagnitudeV1::Fixed,
        },
        5,
    );
    let mut game = CombatStatDiagnosticV1::new(spec.clone()).unwrap();
    let before = game.position().clone();
    let (report, undo) = game.make(input(4, true)).unwrap();
    assert_eq!(report.cards[PlayerId::P1].power, 1);
    assert_eq!(report.cards[PlayerId::P2].power, 1);
    assert_eq!(report.cards[PlayerId::P1].attack, 5);
    assert_eq!(report.cards[PlayerId::P2].attack, 1);
    assert_eq!(report.cards[PlayerId::P1].damage, 5);
    assert!(report.cards[PlayerId::P1].won);
    assert_eq!(report.players[PlayerId::P2].life, 15);
    game.unmake(undo);
    assert_eq!(game.position(), &before);

    // Equal bets fall to the ordinary tie-break.
    let mut game = CombatStatDiagnosticV1::new(spec.clone()).unwrap();
    let (report, _) = game.make(input(0, false)).unwrap();
    assert_eq!(report.cards[PlayerId::P1].attack, 1);
    assert_eq!(report.cards[PlayerId::P2].attack, 1);
    assert!(report.cards[PlayerId::P1].won);

    // A stopped Tune Out leaves an ordinary round.
    spec.cards[PlayerId::P2][0].ability = execute(CombatStatEffectV1::StopOpponentBonus, 1359);
    let mut game = CombatStatDiagnosticV1::new(spec).unwrap();
    let (report, _) = game.make(input(4, false)).unwrap();
    assert_eq!(report.cards[PlayerId::P1].attack, 30);
    assert_eq!(report.cards[PlayerId::P2].attack, 31);
}

#[test]
fn support_victory_grammars_scale_by_the_sources_support_count() {
    let play = |effect: CombatStatEffectV1, one_clan: bool| {
        let mut spec = spec_with_p1(CombatStatEffectSourceV1::Ability, 7, effect, 6);
        if one_clan {
            for card in &mut spec.cards[PlayerId::P1] {
                card.effective_clan_id = 31;
            }
        }
        spec.cards[PlayerId::P1][0].source_ability_support_count = if one_clan { 4 } else { 1 };
        let mut game = CombatStatDiagnosticV1::new(spec).unwrap();
        // A bet of five makes an Attack of 36 against 31.
        let (report, _) = game.make(input(5, false)).unwrap();
        assert!(report.cards[PlayerId::P1].won);
        report
    };
    let life = |effect| CombatStatEffectV1::GainLifeOnVictoryPerSupport { per_count: effect };
    assert_eq!(play(life(2), true).players[PlayerId::P1].life, 28);
    assert_eq!(play(life(2), false).players[PlayerId::P1].life, 22);
    let cut = CombatStatEffectV1::ReduceOpponentLifeOnVictoryPerSupport {
        per_count: 1,
        minimum: 0,
    };
    assert_eq!(play(cut, true).players[PlayerId::P2].life, 13);
    let baseline = play(CombatStatEffectV1::GainPillzOnVictoryPerSupport { per_count: 1 }, false)
        .players[PlayerId::P1]
        .pillz;
    let four = play(CombatStatEffectV1::GainPillzOnVictoryPerSupport { per_count: 1 }, true)
        .players[PlayerId::P1]
        .pillz;
    assert_eq!(four, baseline + 3);

    // A printed amount whose product with the Support count passes `u16` refuses the round.
    let mut spec = spec_with_p1(CombatStatEffectSourceV1::Ability, 7, life(20000), 6);
    for card in &mut spec.cards[PlayerId::P1] {
        card.effective_clan_id = 31;
    }
    spec.cards[PlayerId::P1][0].source_ability_support_count = 4;
    assert!(magnitude_overflows(spec, 5));
}

#[test]
fn round_and_brawl_victory_grammars_scale_by_round_and_anti_support() {
    // One winning round from a bet of five: an Attack of 36 against 31 in round zero.
    let play = |effect: CombatStatEffectV1, one_opposing_clan: bool| {
        let mut spec = spec_with_p1(CombatStatEffectSourceV1::Ability, 7, effect, 6);
        if one_opposing_clan {
            for card in &mut spec.cards[PlayerId::P2] {
                card.effective_clan_id = 41;
            }
        }
        let mut game = CombatStatDiagnosticV1::new(spec).unwrap();
        let (report, _) = game.make(input(5, false)).unwrap();
        assert!(report.cards[PlayerId::P1].won);
        report
    };
    let life = |scale| CombatStatEffectV1::GainLifeOnVictoryPerRound { per_round: 2, scale };
    // Growth multiplies by the zero-based round plus one, Degrowth by four less it.
    assert_eq!(play(life(RoundScaleV1::Growth), false).players[PlayerId::P1].life, 22);
    assert_eq!(play(life(RoundScaleV1::Degrowth), false).players[PlayerId::P1].life, 28);
    let cut = CombatStatEffectV1::ReduceOpponentLifeOnVictoryPerRound {
        per_round: 1,
        minimum: 0,
        scale: RoundScaleV1::Degrowth,
    };
    assert_eq!(play(cut, false).players[PlayerId::P2].life, 13);

    // Brawl counts the opposing hand's characters of the opposing selected card's clan.
    let brawl = CombatStatEffectV1::ReduceOpponentLifeOnVictoryPerAntiSupport {
        per_count: 1,
        minimum: 0,
    };
    assert_eq!(play(brawl, false).players[PlayerId::P2].life, 16);
    assert_eq!(play(brawl, true).players[PlayerId::P2].life, 13);
    let capped = CombatStatEffectV1::GainPillzOnVictoryPerAntiSupport { per_count: 1, maximum: 0 };
    let uncapped_one = play(capped, false).players[PlayerId::P1].pillz;
    let uncapped_four = play(capped, true).players[PlayerId::P1].pillz;
    assert_eq!(uncapped_four, uncapped_one + 3);

    // A scaled amount past `u16` refuses the round: 20000 four times over in round zero
    // under Degrowth, though once over under Growth it fits.
    let huge = |scale| CombatStatEffectV1::GainLifeOnVictoryPerRound { per_round: 20000, scale };
    let spec = spec_with_p1(CombatStatEffectSourceV1::Ability, 7, huge(RoundScaleV1::Degrowth), 6);
    assert!(magnitude_overflows(spec, 5));
    let spec = spec_with_p1(CombatStatEffectSourceV1::Ability, 7, huge(RoundScaleV1::Growth), 6);
    assert!(!magnitude_overflows(spec, 5));
}

#[test]
fn round_support_and_brawl_modifiers_bind_to_their_factor() {
    let scaled = |side, stat, operation, value, minimum, multiplier| {
        CombatStatEffectV1::ModifyCombatStat {
            side,
            stat,
            operation,
            value,
            minimum,
            maximum: None,
            multiplier,
        }
    };
    let (player, opponent) = (CombatStatAffectedSideV1::Player, CombatStatAffectedSideV1::Opponent);
    let (increase, decrease) = (CombatStatOperationV1::Increase, CombatStatOperationV1::Decrease);
    let play = |effect: CombatStatEffectV1, one_clan: bool, support: u16| {
        let mut spec = spec_with_p1(CombatStatEffectSourceV1::Ability, 7, effect, 0);
        if one_clan {
            for owner in [PlayerId::P1, PlayerId::P2] {
                for card in &mut spec.cards[owner] {
                    card.effective_clan_id = 41;
                }
            }
        }
        spec.cards[PlayerId::P1][0].source_ability_support_count = support;
        let mut game = CombatStatDiagnosticV1::new(spec).unwrap();
        game.make(input(0, false)).unwrap().0
    };
    // Growth multiplies by the zero-based round plus one, Degrowth by four less it.
    let growth = scaled(player, CombatStatAttributeV1::Power, increase, 2, None, CombatStatMagnitudeV1::Growth);
    assert_eq!(play(growth, false, 0).cards[PlayerId::P1].power, 8);
    let degrowth =
        scaled(player, CombatStatAttributeV1::Power, increase, 2, None, CombatStatMagnitudeV1::Degrowth);
    assert_eq!(play(degrowth, false, 0).cards[PlayerId::P1].power, 14);
    // Support multiplies by the source's own Support count.
    let support = scaled(
        player,
        CombatStatAttributeV1::Damage,
        increase,
        2,
        None,
        CombatStatMagnitudeV1::SourceBonusSupport,
    );
    assert_eq!(play(support, false, 1).cards[PlayerId::P1].damage, 5);
    assert_eq!(play(support, true, 4).cards[PlayerId::P1].damage, 11);
    // Brawl multiplies by the opposing hand's characters of the opposing card's clan.
    let brawl = scaled(
        opponent,
        CombatStatAttributeV1::Power,
        decrease,
        1,
        Some(0),
        CombatStatMagnitudeV1::AntiSupport,
    );
    assert_eq!(play(brawl, false, 0).cards[PlayerId::P2].power, 30);
    assert_eq!(play(brawl, true, 0).cards[PlayerId::P2].power, 27);

    // A value that four times over passes `u16` refuses the round.
    let huge = scaled(player, CombatStatAttributeV1::Power, increase, 20000, None, CombatStatMagnitudeV1::Degrowth);
    let spec = spec_with_p1(CombatStatEffectSourceV1::Ability, 7, huge, 0);
    assert!(magnitude_overflows(spec, 0));
}

/// One round of a built match with P1's plans set by `setup`; P1 bets `p1_pillz`.
fn round_with(
    setup: impl Fn(&mut CombatStatDiagnosticMatchSpecV1),
    p1_pillz: u16,
) -> pillz_engine::engine::BaseRulesRoundReport {
    let mut spec = spec_with_p1(
        CombatStatEffectSourceV1::Ability,
        9,
        CombatStatEffectV1::GainLifeOnVictory { life: 1 },
        6,
    );
    spec.cards[PlayerId::P1][0].ability = CombatStatSourcePlanV1::Absent;
    setup(&mut spec);
    let mut game = CombatStatDiagnosticV1::new(spec).unwrap();
    game.make(input(p1_pillz, false)).unwrap().0
}

fn power_up(value: u16) -> CombatStatEffectV1 {
    CombatStatEffectV1::ModifyCombatStat {
        side: CombatStatAffectedSideV1::Player,
        stat: CombatStatAttributeV1::Power,
        operation: CombatStatOperationV1::Increase,
        value,
        minimum: None,
        maximum: None,
        multiplier: CombatStatMagnitudeV1::Fixed,
    }
}

#[test]
fn a_copy_adopts_the_opposing_plan_under_its_owners_conditions() {
    let report = round_with(
        |spec| {
            spec.cards[PlayerId::P1][0].ability = CombatStatSourcePlanV1::CopyOpponentSource {
                source_id: 2918,
                copied: CopiedSourceKindV1::Ability,
                predicate: CombatStatPredicateV1::Always,
            };
            spec.cards[PlayerId::P1][0].source_ability_support_count = 1;
            spec.cards[PlayerId::P2][0].ability = execute(power_up(3), 5);
        },
        0,
    );
    assert_eq!(report.cards[PlayerId::P1].power, 9);
    assert_eq!(report.cards[PlayerId::P2].power, 34);
    // A Copy whose own condition fails adopts nothing.
    let report = round_with(
        |spec| {
            spec.cards[PlayerId::P1][0].ability = CombatStatSourcePlanV1::CopyOpponentSource {
                source_id: 2918,
                copied: CopiedSourceKindV1::Ability,
                predicate: CombatStatPredicateV1::OwnerMovesSecond,
            };
            spec.cards[PlayerId::P1][0].source_ability_support_count = 1;
            spec.cards[PlayerId::P2][0].ability = execute(power_up(3), 5);
        },
        0,
    );
    assert_eq!(report.cards[PlayerId::P1].power, 6);
}

#[test]
fn printed_stat_controls_take_the_opposing_printed_value_before_modifiers() {
    let control = |effect: CombatStatEffectV1| {
        move |spec: &mut CombatStatDiagnosticMatchSpecV1| {
            spec.base_rules.players[PlayerId::P2].hand[0].damage = 5;
            spec.cards[PlayerId::P1][0].ability = execute(effect, 40);
        }
    };
    let power = CombatStatAttributeV1::Power;
    let damage = CombatStatAttributeV1::Damage;
    let report =
        round_with(control(CombatStatEffectV1::CopyOpponentPrintedCombatStat { stat: power }), 0);
    assert_eq!(report.cards[PlayerId::P1].power, 31);
    assert_eq!(report.cards[PlayerId::P2].power, 31);
    let report =
        round_with(control(CombatStatEffectV1::ExchangePrintedCombatStat { stat: damage }), 0);
    assert_eq!(report.cards[PlayerId::P1].damage, 5);
    assert_eq!(report.cards[PlayerId::P2].damage, 3);
    let report =
        round_with(control(CombatStatEffectV1::ImposePrintedCombatStat { stat: damage }), 0);
    assert_eq!(report.cards[PlayerId::P2].damage, 3);
}

#[test]
fn a_slot_protection_keeps_its_slot_through_a_stop_and_cancels_drop_their_targets() {
    let stopped = |protect: bool| {
        round_with(
            move |spec| {
                spec.cards[PlayerId::P1][0].ability = execute(power_up(3), 5);
                if protect {
                    spec.cards[PlayerId::P1][0].bonus =
                        execute(CombatStatEffectV1::ProtectOwnAbility, 6);
                    spec.cards[PlayerId::P1][0].source_bonus_support_count = 1;
                }
                spec.cards[PlayerId::P2][0].ability =
                    execute(CombatStatEffectV1::StopOpponentAbility, 7);
            },
            0,
        )
    };
    assert_eq!(stopped(false).cards[PlayerId::P1].power, 6);
    assert_eq!(stopped(true).cards[PlayerId::P1].power, 9);

    // An opposing cancel of Power modifiers drops the owner's Power gain.
    let report = round_with(
        |spec| {
            spec.cards[PlayerId::P1][0].ability = execute(power_up(3), 5);
            spec.cards[PlayerId::P2][0].ability = execute(
                CombatStatEffectV1::CancelOpponentCombatStatModifiers {
                    stat: CombatStatAttributeV1::Power,
                },
                8,
            );
        },
        0,
    );
    assert_eq!(report.cards[PlayerId::P1].power, 6);

    // An opposing cancel of Pillz modifiers drops the owner's Pillz gain.
    let gain = |cancel: bool| {
        round_with(
            move |spec| {
                spec.cards[PlayerId::P1][0].ability =
                    execute(CombatStatEffectV1::GainOnePillzOnVictoryOrDefeat, 1034);
                if cancel {
                    spec.cards[PlayerId::P2][0].ability = execute(
                        CombatStatEffectV1::CancelOpponentResourceModifiers {
                            resources: ResourceCancellationV1::Pillz,
                        },
                        8,
                    );
                }
            },
            0,
        )
        .players[PlayerId::P1]
            .pillz
    };
    assert_eq!(gain(false), gain(true) + 1);
}

#[test]
fn latched_consume_and_compound_victory_work_are_paid() {
    // A bet of five wins (36 against 31); Consume pays at once.
    let report = round_with(
        |spec| {
            spec.cards[PlayerId::P1][0].ability = execute(
                CombatStatEffectV1::ConsumeOpponentPillzOnVictory { pillz: 2, minimum: 0 },
                11,
            );
        },
        5,
    );
    assert_eq!(report.players[PlayerId::P2].pillz, 18);
    let report = round_with(
        |spec| {
            spec.cards[PlayerId::P1][0].ability = execute(
                CombatStatEffectV1::ReduceOpponentPillzAndLifeOnVictory { amount: 2, minimum: 0 },
                12,
            );
        },
        5,
    );
    assert_eq!(report.players[PlayerId::P2].pillz, 18);
    assert_eq!(report.players[PlayerId::P2].life, 15);
}

#[test]
fn the_match_plan_is_never_changed_by_make_or_unmake() {
    let spec = spec_with_p1(CombatStatEffectSourceV1::Ability, 1418, TWO_OF_THREE, 3);
    let mut game = CombatStatDiagnosticV1::new(spec.clone()).unwrap();
    let (_, undo) = game.make(input(0, false)).unwrap();
    assert_eq!(game.match_spec(), &spec);
    // Slot zero is spent, so the same selection again is refused and changes nothing.
    assert!(game.make(input(0, false)).is_err());
    assert_eq!(game.match_spec(), &spec);
    game.unmake(undo);
    assert_eq!(game.match_spec(), &spec);
    let (_, _) = game.make(input(1, false)).unwrap();
    assert_eq!(game.match_spec(), &spec);
}

#[test]
fn opposing_stat_and_lost_life_magnitudes_read_the_round() {
    let scaled = |stat, multiplier| CombatStatEffectV1::ModifyCombatStat {
        side: CombatStatAffectedSideV1::Player,
        stat,
        operation: CombatStatOperationV1::Increase,
        value: 1,
        minimum: None,
        maximum: None,
        multiplier,
    };
    // `+1 Damage Per Opp. Power`: the opposing 31.
    let report = round_with(
        |spec| {
            spec.cards[PlayerId::P1][0].ability = execute(
                scaled(CombatStatAttributeV1::Damage, CombatStatMagnitudeV1::OpponentPower),
                21,
            );
        },
        0,
    );
    assert_eq!(report.cards[PlayerId::P1].damage, 34);
    // `+1 Power Per Life Lost`: nothing lost yet in round zero.
    let report = round_with(
        |spec| {
            spec.cards[PlayerId::P1][0].ability = execute(
                scaled(CombatStatAttributeV1::Power, CombatStatMagnitudeV1::OwnerLifeLost),
                22,
            );
        },
        0,
    );
    assert_eq!(report.cards[PlayerId::P1].power, 6);
}
