use pillz_engine::card::CardKey;
use pillz_engine::engine::combat_stat_construction::clan_gate_is_ambiguous;
use pillz_engine::engine::combat_stat_diagnostic::CombatStatDiagnosticV1;
use pillz_engine::engine::combat_stat_types::{
    ClanConjunctV1, ClanSetV1, CombatStatCardPlanV1, CombatStatDiagnosticMatchSpecV1,
    CombatStatEffectSourceV1, CombatStatPredicateV1, CombatStatSourcePlanV1,
    CopiedSourceKindV1,
};
use pillz_engine::engine::{
    BaseRulesCardSpec, BaseRulesError, BaseRulesGame, BaseRulesMatchSpec, BaseRulesPlayerSpec,
    BaseRulesRoundInput, BaseRulesSelection, ByPlayer, HandSlot, LatchedEffectV1,
    LatchedEffectsV1, MatchStatus, PlayerId,
};

fn base_spec() -> BaseRulesMatchSpec {
    let card = |id: u32, power: u16| BaseRulesCardSpec {
        key: CardKey::new(id, 3),
        clan_id: id,
        power,
        damage: 3,
    };
    BaseRulesMatchSpec {
        battle_rule_id: 10,
        night: false,
        players: ByPlayer::new(
            BaseRulesPlayerSpec {
                initial_life: 20,
                initial_pillz: 12,
                hand: [card(1, 6), card(2, 5), card(3, 4), card(4, 9)],
            },
            BaseRulesPlayerSpec {
                initial_life: 20,
                initial_pillz: 12,
                hand: [card(11, 7), card(12, 3), card(13, 8), card(14, 2)],
            },
        ),
    }
}

fn round(first_mover: PlayerId, p1: (u8, u16, bool), p2: (u8, u16, bool)) -> BaseRulesRoundInput {
    BaseRulesRoundInput {
        first_mover,
        selections: ByPlayer::new(
            BaseRulesSelection::new(p1.0, p1.1, p1.2),
            BaseRulesSelection::new(p2.0, p2.1, p2.2),
        ),
    }
}

fn sourceless(spec: BaseRulesMatchSpec) -> CombatStatDiagnosticMatchSpecV1 {
    let absent = |card: BaseRulesCardSpec| CombatStatCardPlanV1 {
        key: card.key,
        effective_clan_id: card.clan_id,
        ability: CombatStatSourcePlanV1::Absent,
        bonus: CombatStatSourcePlanV1::Absent,
        source_bonus_support_count: 0,
        source_ability_support_count: 0,
    };
    CombatStatDiagnosticMatchSpecV1 {
        base_rules: spec,
        cards: ByPlayer::new(
            spec.players[PlayerId::P1].hand.map(absent),
            spec.players[PlayerId::P2].hand.map(absent),
        ),
    }
}

#[test]
fn attack_is_power_times_the_pillz_placed_and_the_loser_takes_the_damage() {
    let mut game = BaseRulesGame::new(base_spec());
    // 6 x (3 + 1) = 24 against 7 x 1 = 7; Fury adds two Damage and costs three Pillz.
    let (report, undo) = game.make(round(PlayerId::P1, (0, 3, true), (0, 0, false))).unwrap();
    assert_eq!(report.cards[PlayerId::P1].attack, 24);
    assert_eq!(report.cards[PlayerId::P1].damage, 5);
    assert!(report.cards[PlayerId::P1].won);
    assert_eq!(report.players[PlayerId::P1].pillz, 6);
    assert_eq!(report.players[PlayerId::P2].life, 15);
    assert_eq!(report.players[PlayerId::P1].life, 20);
    game.unmake(undo);
    assert_eq!(game.position().players[PlayerId::P1].pillz, 12);
    assert_eq!(game.position().rounds_played, 0);
}

#[test]
fn equal_attacks_go_to_the_lower_level_then_the_first_mover() {
    let mut spec = base_spec();
    spec.players[PlayerId::P2].hand[1].power = 5;
    let mut game = BaseRulesGame::new(spec);
    let (report, _) = game.make(round(PlayerId::P2, (1, 0, false), (1, 0, false))).unwrap();
    assert!(report.cards[PlayerId::P2].won);
    spec.players[PlayerId::P1].hand[1].key = CardKey::new(2, 2);
    let mut lower = BaseRulesGame::new(spec);
    let (report, _) = lower.make(round(PlayerId::P2, (1, 0, false), (1, 0, false))).unwrap();
    assert!(report.cards[PlayerId::P1].won);
}

#[test]
fn refused_rounds_change_nothing() {
    let mut game = BaseRulesGame::new(base_spec());
    let before = *game.position();
    assert_eq!(
        game.make(round(PlayerId::P1, (4, 0, false), (0, 0, false))),
        Err(BaseRulesError::InvalidHandSlot { player: PlayerId::P1, hand_index: 4 })
    );
    assert_eq!(
        game.make(round(PlayerId::P1, (0, 13, false), (0, 0, false))),
        Err(BaseRulesError::InsufficientPillz { player: PlayerId::P1, available: 12, required: 13 })
    );
    assert_eq!(game.position(), &before);
    game.make(round(PlayerId::P1, (0, 0, false), (0, 0, false))).unwrap();
    assert_eq!(
        game.make(round(PlayerId::P2, (0, 0, false), (1, 0, false))),
        Err(BaseRulesError::CardAlreadyPlayed {
            player: PlayerId::P1,
            hand_slot: HandSlot::try_from_index(0).unwrap()
        })
    );
}

#[test]
fn four_rounds_end_the_match_and_a_fifth_is_refused() {
    let mut game = BaseRulesGame::new(base_spec());
    for slot in 0..4 {
        game.make(round(PlayerId::P1, (slot, 0, false), (slot, 0, false))).unwrap();
    }
    assert_ne!(game.position().status, MatchStatus::Playing);
    assert!(game.make(round(PlayerId::P1, (0, 0, false), (0, 0, false))).is_err());
}

#[test]
fn a_sourceless_diagnostic_plays_exactly_the_base_rules() {
    let spec = base_spec();
    let mut base = BaseRulesGame::new(spec);
    let mut diagnostic = CombatStatDiagnosticV1::new(sourceless(spec)).unwrap();
    for (first, p1, p2) in [
        (PlayerId::P1, (0, 2, false), (3, 1, true)),
        (PlayerId::P2, (2, 0, true), (0, 4, false)),
        (PlayerId::P1, (1, 3, false), (1, 0, false)),
    ] {
        let input = round(first, p1, p2);
        let (expected, _) = base.make(input).unwrap();
        let (actual, _) = diagnostic.make(input).unwrap();
        assert_eq!(actual, expected);
        assert_eq!(diagnostic.position(), base.position());
    }
}

#[test]
fn clan_sets_hold_exactly_their_ids() {
    let set = ClanSetV1::from_ids(&[1, 5, 63]).unwrap();
    assert!(set.contains(1) && set.contains(5) && set.contains(63));
    assert!(!set.contains(2) && !set.contains(64) && !set.contains(0));
    assert_eq!(ClanSetV1::from_ids(&[]), None);
    assert_eq!(ClanSetV1::from_ids(&[3, 64]), None);
}

#[test]
fn a_clan_conjunct_is_its_plain_predicate() {
    assert_eq!(ClanConjunctV1::OwnerMovesFirst.predicate(), CombatStatPredicateV1::OwnerMovesFirst);
    assert_eq!(ClanConjunctV1::OwnerMovesSecond.predicate(), CombatStatPredicateV1::OwnerMovesSecond);
    assert_eq!(
        ClanConjunctV1::SelectedHandSlotsDiffer.predicate(),
        CombatStatPredicateV1::SelectedHandSlotsDiffer
    );
}

#[test]
fn an_infiltrating_oculus_on_either_side_of_a_versus_list_is_ambiguous() {
    let mut spec = sourceless(base_spec());
    // P2's slot 2 is an Oculus infiltrating clan 7.
    spec.base_rules.players[PlayerId::P2].hand[2].clan_id = 56;
    spec.cards[PlayerId::P2][2].effective_clan_id = 7;
    let versus = |ids: &[u32]| CombatStatPredicateV1::OpponentHandHasClan(ClanSetV1::from_ids(ids).unwrap());
    let ambiguous = |predicate, spec: &CombatStatDiagnosticMatchSpecV1| {
        clan_gate_is_ambiguous(
            PlayerId::P1,
            CombatStatEffectSourceV1::Ability,
            predicate,
            &spec.base_rules,
            &spec.cards,
        )
    };
    assert!(ambiguous(versus(&[56]), &spec));
    assert!(ambiguous(versus(&[7]), &spec));
    assert!(!ambiguous(versus(&[7, 56]), &spec));
    assert!(!ambiguous(versus(&[9]), &spec));
    // `After` reads the owner's own hand, which holds no Oculus.
    let after = CombatStatPredicateV1::OwnerPreviousCardClanIn(ClanSetV1::from_ids(&[56]).unwrap());
    assert!(!ambiguous(after, &spec));
    // An opposing Copy of the Ability slot widens it to both hands.
    spec.cards[PlayerId::P2][0].ability = CombatStatSourcePlanV1::CopyOpponentSource {
        source_id: 5,
        copied: CopiedSourceKindV1::Ability,
        predicate: CombatStatPredicateV1::Always,
    };
    assert!(ambiguous(after, &spec));
    assert!(!ambiguous(CombatStatPredicateV1::Always, &spec));
}

#[test]
fn latched_effects_keep_their_order_up_to_a_full_hand() {
    let mut latched = LatchedEffectsV1::empty();
    assert!(latched.is_empty());
    let poison = LatchedEffectV1::PoisonOpponentLife { life: 1, minimum: 0 };
    let heal = LatchedEffectV1::HealLife { life: 2, maximum: 20 };
    assert_eq!(latched.push(poison), Ok(()));
    assert_eq!(latched.push(heal), Ok(()));
    assert_eq!(latched.len(), 2);
    assert_eq!(latched.get(1), Some(heal));
    assert_eq!(latched.iter(), vec![poison, heal]);
    assert_eq!(latched.push(poison), Ok(()));
    assert_eq!(latched.push(poison), Ok(()));
    assert_eq!(latched.push(heal), Err(heal));
    assert_eq!(latched.len(), 4);
}
