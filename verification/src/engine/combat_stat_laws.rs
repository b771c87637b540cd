//! What the combat-stat projection promises as a whole: it adds nothing to the base rules
//! where no source fires, a stopped source does no work, and its compound predicates are
//! the conjunctions they are printed as.

use super::combat_stat_construction::{construction_error, first_mismatch_from};
use super::combat_stat_diagnostic::{
    diagnostic_round_spec, fired, predicate_context, resolved_round, selected_card,
};
use super::combat_stat_admission::post_round_of;
use super::combat_stat_resolution::{
    ability_stopped, acting, bind_effect, bonus_stopped, controlled, live, round_work, Scaling,
};
use super::combat_stat_modifiers::{cancels, changed, half, modified, prepared_spec, protects, Fired};
use super::combat_stat_predicate::{active_effect, predicate_holds, PredicateContext};
use super::combat_stat_types::{
    ClanConjunctV1, ClanSetV1, CombatStatAffectedSideV1, CombatStatAttributeV1,
    CombatStatCardPlanV1, CombatStatDiagnosticErrorV1, CombatStatDiagnosticMatchSpecV1,
    CombatStatEffectV1, CombatStatMagnitudeV1, CombatStatOperationV1, CombatStatPlanErrorV1,
    CombatStatPredicateV1, CombatStatSourcePlanV1, CopiedSourceKindV1,
};
use super::post_round::PostRoundPlan;
use super::round::{initial_position_spec, make_spec, validated_round_spec, ValidatedSelection};
use super::{BaseRulesCardSpec, BaseRulesPosition, BaseRulesRoundInput, ByPlayer, PlayerId};
use vstd::prelude::*;

verus! {

broadcast use {vstd::array::group_array_axioms, super::group_hand_slot};

/// No card of either hand carries a source.
pub open spec fn sourceless(cards: ByPlayer<[CombatStatCardPlanV1; 4]>) -> bool {
    forall|p: PlayerId, i: int|
        0 <= i < 4 ==> {
            let card = #[trigger] cards.at(p)@[i];
            card.ability == CombatStatSourcePlanV1::Absent && card.bonus
                == CombatStatSourcePlanV1::Absent
        }
}

/// Where no card carries a source, a diagnostic round is exactly a base-rules round: it
/// succeeds exactly when the base-rules round does, with the same report and position.
pub proof fn law_sourceless_round_is_base_rules(
    spec: CombatStatDiagnosticMatchSpecV1,
    pos: BaseRulesPosition,
    input: BaseRulesRoundInput,
)
    requires
        sourceless(spec.cards),
    ensures
        diagnostic_round_spec(spec, pos, input) is Ok <==> make_spec(spec.base_rules, pos, input) is Ok,
        diagnostic_round_spec(spec, pos, input) matches Ok(done) ==> make_spec(
            spec.base_rules,
            pos,
            input,
        ) == Ok::<_, super::BaseRulesError>(done),
{
    match validated_round_spec(spec.base_rules, pos, input) {
        Ok(validated) => {
            let c1 = selected_card(spec, validated, PlayerId::P1);
            let c2 = selected_card(spec, validated, PlayerId::P2);
            assert(c1 == spec.cards.at(PlayerId::P1)@[validated.at(PlayerId::P1).slot.value() as int]);
            assert(c2 == spec.cards.at(PlayerId::P2)@[validated.at(PlayerId::P2).slot.value() as int]);
            assert(fired(spec, pos, input, validated, PlayerId::P1) == (
                None::<CombatStatEffectV1>,
                None::<CombatStatEffectV1>,
            ));
            assert(fired(spec, pos, input, validated, PlayerId::P2) == (
                None::<CombatStatEffectV1>,
                None::<CombatStatEffectV1>,
            ));
            lemma_quiet_round(spec, pos, input, validated);
        },
        Err(_) => {},
    }
}

proof fn lemma_quiet_round(
    spec: CombatStatDiagnosticMatchSpecV1,
    pos: BaseRulesPosition,
    input: BaseRulesRoundInput,
    validated: ByPlayer<ValidatedSelection>,
)
    requires
        fired(spec, pos, input, validated, PlayerId::P1) == (
            None::<CombatStatEffectV1>,
            None::<CombatStatEffectV1>,
        ),
        fired(spec, pos, input, validated, PlayerId::P2) == (
            None::<CombatStatEffectV1>,
            None::<CombatStatEffectV1>,
        ),
    ensures
        resolved_round(spec, pos, input, validated) == match (
            prepared_spec(PlayerId::P1, validated.at(PlayerId::P1), (None, None), (None, None), false),
            prepared_spec(PlayerId::P2, validated.at(PlayerId::P2), (None, None), (None, None), false),
        ) {
            (Err(e), _) => Err(e),
            (Ok(_), Err(e)) => Err(e),
            (Ok(p1), Ok(p2)) => Ok(
                (
                    ByPlayer::pair(p1, p2),
                    ByPlayer::pair(PostRoundPlan::spec_none(), PostRoundPlan::spec_none()),
                ),
            ),
        },
{
    let none: Fired = (None, None);
    let v1 = validated.at(PlayerId::P1);
    let v2 = validated.at(PlayerId::P2);
    assert(live(none, none) == none);
    assert(controlled(v1.card, v2.card, none, none) == v1.card);
    assert(controlled(v2.card, v1.card, none, none) == v2.card);
    assert(ValidatedSelection { card: v1.card, ..v1 } == v1);
    assert(ValidatedSelection { card: v2.card, ..v2 } == v2);
    assert(round_work(none, none) == PostRoundPlan::spec_none());
}

/// A stopped source does no end-of-round work: where the owner's ability is stopped (the
/// opposing card fires `Stop Opp. Ability` and no `Protection: Ability` of the owner's that
/// escaped the Stops holds), the owner's end-of-round work has no ability part; the bonus
/// likewise under `Stop Opp. Bonus`.
pub proof fn law_stopped_source_does_no_work(
    spec: CombatStatDiagnosticMatchSpecV1,
    pos: BaseRulesPosition,
    input: BaseRulesRoundInput,
    validated: ByPlayer<ValidatedSelection>,
)
    ensures
        resolved_round(spec, pos, input, validated) matches Ok((_, plans)) ==> {
            let f1 = fired(spec, pos, input, validated, PlayerId::P1);
            let f2 = fired(spec, pos, input, validated, PlayerId::P2);
            &&& (ability_stopped(f1, f2) ==> plans.at(PlayerId::P1).ability is None)
            &&& (bonus_stopped(f1, f2) ==> plans.at(PlayerId::P1).bonus is None)
            &&& (ability_stopped(f2, f1) ==> plans.at(PlayerId::P2).ability is None)
            &&& (bonus_stopped(f2, f1) ==> plans.at(PlayerId::P2).bonus is None)
        },
{
}

/// The clan compound is exactly the conjunction of its clan gate and its conjunct.
pub proof fn law_clan_compound_is_conjunction(
    set: ClanSetV1,
    conjunct: ClanConjunctV1,
    ctx: PredicateContext,
)
    ensures
        predicate_holds(CombatStatPredicateV1::OwnerClanInAnd(set, conjunct), ctx) == (
        predicate_holds(CombatStatPredicateV1::OwnerClanIn(set), ctx) && predicate_holds(
            conjunct.as_predicate(),
            ctx,
        )),
{
}

/// Each complementary pair of predicates splits every round: exactly one of moving first
/// and moving second holds, of night and day, and of matching and differing slots; and the
/// `Stop:` condition never holds.
pub proof fn law_complementary_predicates(ctx: PredicateContext)
    ensures
        predicate_holds(CombatStatPredicateV1::OwnerMovesFirst, ctx) != predicate_holds(
            CombatStatPredicateV1::OwnerMovesSecond,
            ctx,
        ),
        predicate_holds(CombatStatPredicateV1::MatchIsNight, ctx) != predicate_holds(
            CombatStatPredicateV1::MatchIsDay,
            ctx,
        ),
        predicate_holds(CombatStatPredicateV1::SelectedHandSlotsMatch, ctx) != predicate_holds(
            CombatStatPredicateV1::SelectedHandSlotsDiffer,
            ctx,
        ),
        !predicate_holds(CombatStatPredicateV1::OwnerAbilityStopped, ctx),
{
}

/// Each simple predicate reads exactly the round it names: `Night:` holds exactly in a night
/// match and `Day:` exactly in a day one; moving first or second is the round's first mover;
/// the previous-round gates read the previous round's winner; the hand-slot gates compare the
/// two selected slots; `Unison :` holds exactly when every card of the owner's hand shares the
/// selected card's effective clan; and the `Bet` gates compare the Pillz placed plus the free
/// pill (at most `u16::MAX`).
pub proof fn law_predicates_read_the_round(
    spec: CombatStatDiagnosticMatchSpecV1,
    pos: BaseRulesPosition,
    input: BaseRulesRoundInput,
    validated: ByPlayer<ValidatedSelection>,
    owner: PlayerId,
)
    ensures
        ({
            let ctx = predicate_context(spec, pos, input, validated, owner);
            let night = spec.base_rules.night;
            let slot = validated.at(owner).slot;
            let placed = validated.at(owner).selection.pillz;
            let used: int = if placed == u16::MAX {
                u16::MAX as int
            } else {
                placed + 1
            };
            let clan = spec.cards.at(owner)@[slot.value() as int].effective_clan_id;
            &&& predicate_holds(CombatStatPredicateV1::Always, ctx)
            &&& predicate_holds(CombatStatPredicateV1::MatchIsNight, ctx) == night
            &&& predicate_holds(CombatStatPredicateV1::MatchIsDay, ctx) == !night
            &&& predicate_holds(CombatStatPredicateV1::OwnerMovesFirst, ctx) == (input.first_mover
                == owner)
            &&& predicate_holds(CombatStatPredicateV1::OwnerMovesSecond, ctx) == (input.first_mover
                != owner)
            &&& predicate_holds(CombatStatPredicateV1::OwnerWonPreviousRound, ctx) == (
            pos.previous_round_winner == Some(owner))
            &&& predicate_holds(CombatStatPredicateV1::OwnerLostPreviousRound, ctx) == (
            pos.previous_round_winner == Some(owner.opp()))
            &&& predicate_holds(CombatStatPredicateV1::OwnerWonPreviousRoundAtNight, ctx) == (night
                && pos.previous_round_winner == Some(owner))
            &&& predicate_holds(CombatStatPredicateV1::SelectedHandSlotsMatch, ctx) == (slot
                == validated.at(owner.opp()).slot)
            &&& predicate_holds(CombatStatPredicateV1::SelectedHandSlotsDiffer, ctx) == (slot
                != validated.at(owner.opp()).slot)
            &&& predicate_holds(CombatStatPredicateV1::OwnerHandUnison, ctx) == (forall|i: int|
                0 <= i < 4 ==> #[trigger] spec.cards.at(owner)@[i].effective_clan_id == clan)
            &&& forall|n: u8|
                #[trigger] predicate_holds(CombatStatPredicateV1::OwnerPillzUsedAbove(n), ctx) == (
                used > n)
            &&& forall|n: u8|
                #[trigger] predicate_holds(CombatStatPredicateV1::OwnerPillzUsedBelow(n), ctx) == (
                used < n)
        }),
{
}

/// Whether a clan set holds a clan, read one bit of the mask at a time.
proof fn lemma_mask_meets_clan(mask: u64, clan: u32)
    ensures
        (mask & super::combat_stat_diagnostic::clan_bit(clan) != 0) == ClanSetV1(mask).has(clan),
{
    if clan < 64 {
        let c = clan as u64;
        assert(c < 64);
    } else {
        assert(mask & 0u64 == 0) by (bit_vector);
    }
}

/// The clan gates read the cards they name: `OwnerClanIn` the selected card's effective clan,
/// `OwnerPreviousCardClanIn` the printed clan of the card the owner played last round (and
/// never holds in a first round), `OpponentHandHasClan` the printed clans of the four opposing
/// cards; and the `Stop:` gate never holds.
pub proof fn law_clan_predicates_read_the_cards(
    spec: CombatStatDiagnosticMatchSpecV1,
    pos: BaseRulesPosition,
    input: BaseRulesRoundInput,
    validated: ByPlayer<ValidatedSelection>,
    owner: PlayerId,
    set: ClanSetV1,
)
    ensures
        ({
            let ctx = predicate_context(spec, pos, input, validated, owner);
            let slot = validated.at(owner).slot;
            let clan = spec.cards.at(owner)@[slot.value() as int].effective_clan_id;
            let opposing = spec.base_rules.players.at(owner.opp()).hand;
            &&& !predicate_holds(CombatStatPredicateV1::OwnerAbilityStopped, ctx)
            &&& predicate_holds(CombatStatPredicateV1::OwnerClanIn(set), ctx) == set.has(clan)
            &&& predicate_holds(CombatStatPredicateV1::OwnerPreviousCardClanIn(set), ctx) == (
            match pos.previous_round_slots.at(owner) {
                Some(previous) => set.has(
                    spec.base_rules.players.at(owner).hand@[previous.value() as int].clan_id,
                ),
                None => false,
            })
            &&& predicate_holds(CombatStatPredicateV1::OpponentHandHasClan(set), ctx) == (exists|
                i: int,
            | 0 <= i < 4 && set.has(#[trigger] opposing@[i].clan_id))
        }),
{
    let opposing = spec.base_rules.players.at(owner.opp()).hand;
    let a = set.0;
    let b0 = super::combat_stat_diagnostic::clan_bit(opposing[0].clan_id);
    let b1 = super::combat_stat_diagnostic::clan_bit(opposing[1].clan_id);
    let b2 = super::combat_stat_diagnostic::clan_bit(opposing[2].clan_id);
    let b3 = super::combat_stat_diagnostic::clan_bit(opposing[3].clan_id);
    assert((a & (b0 | b1 | b2 | b3) != 0) == (a & b0 != 0 || a & b1 != 0 || a & b2 != 0 || a
        & b3 != 0)) by (bit_vector);
    lemma_mask_meets_clan(a, opposing[0].clan_id);
    lemma_mask_meets_clan(a, opposing[1].clan_id);
    lemma_mask_meets_clan(a, opposing[2].clan_id);
    lemma_mask_meets_clan(a, opposing[3].clan_id);
    assert(set == ClanSetV1(a));
    assert(opposing@[0] == opposing[0] && opposing@[1] == opposing[1] && opposing@[2]
        == opposing[2] && opposing@[3] == opposing[3]);
}

/// A diagnostic round refuses whatever the base rules refuse before resolution: a finished
/// match, a fifth round, an unknown or replayed slot, and a bet that cannot be paid.
pub proof fn law_base_refusals_carry_over(
    spec: CombatStatDiagnosticMatchSpecV1,
    pos: BaseRulesPosition,
    input: BaseRulesRoundInput,
)
    ensures
        validated_round_spec(spec.base_rules, pos, input) matches Err(e)
            ==> diagnostic_round_spec(spec, pos, input) == Err::<
            (super::BaseRulesRoundReport, BaseRulesPosition),
            CombatStatDiagnosticErrorV1,
        >(CombatStatDiagnosticErrorV1::BaseRules(e)),
{
}

/// A malformed plan always reports the card mismatch first: whenever some plan names another
/// card than its hand slot, construction refuses with that mismatch, whatever else is wrong.
pub proof fn law_card_mismatch_comes_first(spec: CombatStatDiagnosticMatchSpecV1)
    ensures
        first_mismatch_from(spec, 0) matches Some(m) ==> construction_error(spec) == Some(
            CombatStatPlanErrorV1::CardMismatch(m),
        ),
{
}

/// `Night:` and `Day:` read a match constant: they hold in every round of a match or in
/// none, for either owner.
pub proof fn law_night_is_a_match_constant(
    spec: CombatStatDiagnosticMatchSpecV1,
    pos_a: BaseRulesPosition,
    input_a: BaseRulesRoundInput,
    validated_a: ByPlayer<ValidatedSelection>,
    owner_a: PlayerId,
    pos_b: BaseRulesPosition,
    input_b: BaseRulesRoundInput,
    validated_b: ByPlayer<ValidatedSelection>,
    owner_b: PlayerId,
)
    ensures
        predicate_holds(
            CombatStatPredicateV1::MatchIsNight,
            predicate_context(spec, pos_a, input_a, validated_a, owner_a),
        ) == predicate_holds(
            CombatStatPredicateV1::MatchIsNight,
            predicate_context(spec, pos_b, input_b, validated_b, owner_b),
        ),
        predicate_holds(
            CombatStatPredicateV1::MatchIsDay,
            predicate_context(spec, pos_a, input_a, validated_a, owner_a),
        ) == predicate_holds(
            CombatStatPredicateV1::MatchIsDay,
            predicate_context(spec, pos_b, input_b, validated_b, owner_b),
        ),
{
}

/// Nothing of a previous round holds in the first: `After`, `Confid.`, and a won or lost
/// previous round never fire from a match's initial position.
pub proof fn law_first_round_has_no_past(
    spec: CombatStatDiagnosticMatchSpecV1,
    input: BaseRulesRoundInput,
    validated: ByPlayer<ValidatedSelection>,
    owner: PlayerId,
    set: ClanSetV1,
)
    ensures
        ({
            let ctx = predicate_context(
                spec,
                initial_position_spec(spec.base_rules),
                input,
                validated,
                owner,
            );
            &&& !predicate_holds(CombatStatPredicateV1::OwnerPreviousCardClanIn(set), ctx)
            &&& !predicate_holds(CombatStatPredicateV1::OwnerWonPreviousRoundAtNight, ctx)
            &&& !predicate_holds(CombatStatPredicateV1::OwnerWonPreviousRound, ctx)
            &&& !predicate_holds(CombatStatPredicateV1::OwnerLostPreviousRound, ctx)
        }),
{
}

/// Protection holds against the opposing card: where an owner's live sources protect a
/// stat, the opposing modifiers can only raise it, so the stat ends at least where the
/// owner's own changes left it (where the opposing card cancels those, where it began).
pub proof fn law_protection_refuses_opposing_cuts(
    value: int,
    own: Fired,
    opposing: Fired,
    target: CombatStatAttributeV1,
)
    requires
        protects(own, target),
    ensures
        modified(value, own, opposing, target) >= if cancels(opposing, target) {
            value
        } else {
            changed(changed(value, half(own.0, target, false), false), half(own.1, target, false), false)
        },
{
}

/// The effects that act on the combat itself: modifiers, Stops, Protections, cancels,
/// printed-stat controls and `Tune Out`.
pub open spec fn acts_on_combat(effect: CombatStatEffectV1) -> bool {
    ||| effect is ModifyCombatStat
    ||| effect is StopOpponentAbility
    ||| effect is StopOpponentBonus
    ||| effect is CancelOpponentCombatStatModifiers
    ||| effect is ProtectOwnCombatStat
    ||| effect is ProtectOwnAbility
    ||| effect is ProtectOwnBonus
    ||| effect is CopyOpponentPrintedCombatStat
    ||| effect is ExchangePrintedCombatStat
    ||| effect is ImposePrintedCombatStat
    ||| effect is CancelOpponentResourceModifiers
    ||| effect is SimplifyAttackToPillz
}

/// Every effect is either combat work or end-of-round work, never both: a combat effect has
/// no end-of-round work, and every other effect, once its scaled amount is bound for the
/// round, has some.
#[verifier::rlimit(40)]
pub proof fn law_every_other_effect_has_end_of_round_work(
    effect: CombatStatEffectV1,
    support: u16,
    by: Scaling,
)
    ensures
        acts_on_combat(effect) ==> post_round_of(effect) is None,
        !acts_on_combat(effect) ==> (bind_effect(Some(effect), support, by) matches Some(Some(b))
            ==> post_round_of(b) is Some),
{
}

/// Stops and slot Protections decide which sources act: an ability acts as fired when the
/// opposing card fires no `Stop Opp. Ability`; when it does, the ability is silenced unless
/// the owner's bonus is a `Protection: Ability` that the opposing card does not stop in
/// turn. The bonus likewise, under `Stop Opp. Bonus` and `Protection: Bonus` on the ability.
pub proof fn law_stops_silence_unless_protected(own: Fired, opposing: Fired)
    ensures
        !(opposing.0 == Some(CombatStatEffectV1::StopOpponentAbility) || opposing.1 == Some(
            CombatStatEffectV1::StopOpponentAbility,
        )) ==> live(own, opposing).0 == own.0,
        (opposing.0 == Some(CombatStatEffectV1::StopOpponentAbility) || opposing.1 == Some(
            CombatStatEffectV1::StopOpponentAbility,
        )) ==> (live(own, opposing).0 == if own.1 == Some(CombatStatEffectV1::ProtectOwnAbility)
            && !(opposing.0 == Some(CombatStatEffectV1::StopOpponentBonus) || opposing.1 == Some(
            CombatStatEffectV1::StopOpponentBonus,
        )) {
            own.0
        } else {
            None
        }),
        !(opposing.0 == Some(CombatStatEffectV1::StopOpponentBonus) || opposing.1 == Some(
            CombatStatEffectV1::StopOpponentBonus,
        )) ==> live(own, opposing).1 == own.1,
        (opposing.0 == Some(CombatStatEffectV1::StopOpponentBonus) || opposing.1 == Some(
            CombatStatEffectV1::StopOpponentBonus,
        )) ==> (live(own, opposing).1 == if own.0 == Some(CombatStatEffectV1::ProtectOwnBonus)
            && !(opposing.0 == Some(CombatStatEffectV1::StopOpponentAbility) || opposing.1 == Some(
            CombatStatEffectV1::StopOpponentAbility,
        )) {
            own.1
        } else {
            None
        }),
{
}

/// A Copy acts as the opposing selected card's plan of the kind it copies, under the
/// copier's own round, when its own condition holds, and as nothing otherwise.
pub proof fn law_copy_adopts_the_opposing_plan(
    source_id: u32,
    copied: CopiedSourceKindV1,
    predicate: CombatStatPredicateV1,
    opponent: CombatStatCardPlanV1,
    ctx: PredicateContext,
)
    ensures
        acting(
            CombatStatSourcePlanV1::CopyOpponentSource { source_id, copied, predicate },
            opponent,
            ctx,
        ) == if predicate_holds(predicate, ctx) {
            active_effect(
                if copied == CopiedSourceKindV1::Ability {
                    opponent.ability
                } else {
                    opponent.bonus
                },
                ctx,
            )
        } else {
            None
        },
        forall|id: u32, effect: CombatStatEffectV1|
            #[trigger] acting(
                CombatStatSourcePlanV1::Execute { source_id: id, predicate, effect },
                opponent,
                ctx,
            ) == if predicate_holds(predicate, ctx) {
                Some(effect)
            } else {
                None
            },
{
}

/// One fixed modifier changes a stat as printed: an own increase raises it by its value (up
/// to a cap that it leaves a value already at or over alone); an opposing cut lowers it by
/// its value but never under its floor, leaving a value already at or under the floor alone,
/// and does nothing against a Protection of the stat; and an opposing cancel of the stat
/// drops the owner's own modifier.
pub proof fn law_a_fixed_modifier_moves_its_stat(
    value: int,
    amount: u16,
    floor: u16,
    stat: CombatStatAttributeV1,
)
    ensures
        ({
            let up = Some(
                CombatStatEffectV1::ModifyCombatStat {
                    side: CombatStatAffectedSideV1::Player,
                    stat,
                    operation: CombatStatOperationV1::Increase,
                    value: amount,
                    minimum: None,
                    maximum: None,
                    multiplier: CombatStatMagnitudeV1::Fixed,
                },
            );
            let cut = Some(
                CombatStatEffectV1::ModifyCombatStat {
                    side: CombatStatAffectedSideV1::Opponent,
                    stat,
                    operation: CombatStatOperationV1::Decrease,
                    value: amount,
                    minimum: Some(floor),
                    maximum: None,
                    multiplier: CombatStatMagnitudeV1::Fixed,
                },
            );
            let cancel = Some(CombatStatEffectV1::CancelOpponentCombatStatModifiers { stat });
            let protect = Some(CombatStatEffectV1::ProtectOwnCombatStat { stat });
            &&& modified(value, (up, None), (None, None), stat) == value + amount
            &&& modified(value, (None, None), (cut, None), stat) == if value <= floor {
                value
            } else if value - amount < floor {
                floor as int
            } else {
                value - amount
            }
            &&& modified(value, (None, protect), (cut, None), stat) == value
            &&& modified(value, (up, None), (cancel, None), stat) == value
        }),
{
}

/// `Tune Out` makes each Attack the Pillz placed plus the free pill: Power 1, whatever
/// modifiers the two cards carry.
pub proof fn law_tune_out_makes_attack_the_bet(
    player: PlayerId,
    selected: ValidatedSelection,
    own: Fired,
    opposing: Fired,
)
    ensures
        prepared_spec(player, selected, own, opposing, true) matches Ok(p) ==> p.result.power == 1
            && p.result.attack == selected.selection.pillz + 1,
{
    let damage = modified(selected.card.damage as int, own, opposing, CombatStatAttributeV1::Damage);
    if damage <= u16::MAX {
        let card = BaseRulesCardSpec { power: 1u16, damage: damage as u16, ..selected.card };
        let sel = ValidatedSelection { card, ..selected };
        assert(card.power * (sel.selection.pillz + 1) == sel.selection.pillz + 1);
    }
}

/// The printed-stat controls read printed values only: a card's Power (or Damage) is the
/// opposing printed value when its owner copies it, either side exchanges it, or the
/// opposing side imposes it, and its own printed value otherwise.
pub proof fn law_printed_controls_swap_printed_values(
    card: BaseRulesCardSpec,
    opposing_card: BaseRulesCardSpec,
    stat: CombatStatAttributeV1,
)
    requires
        stat == CombatStatAttributeV1::Power || stat == CombatStatAttributeV1::Damage,
    ensures
        ({
            let none: Fired = (None, None);
            let copy: Fired = (Some(CombatStatEffectV1::CopyOpponentPrintedCombatStat { stat }), None);
            let swap: Fired = (Some(CombatStatEffectV1::ExchangePrintedCombatStat { stat }), None);
            let impose: Fired = (Some(CombatStatEffectV1::ImposePrintedCombatStat { stat }), None);
            let pick = |c: BaseRulesCardSpec|
                if stat == CombatStatAttributeV1::Power {
                    c.power
                } else {
                    c.damage
                };
            &&& pick(controlled(card, opposing_card, none, none)) == pick(card)
            &&& pick(controlled(card, opposing_card, copy, none)) == pick(opposing_card)
            &&& pick(controlled(card, opposing_card, swap, none)) == pick(opposing_card)
            &&& pick(controlled(card, opposing_card, none, swap)) == pick(opposing_card)
            &&& pick(controlled(card, opposing_card, none, impose)) == pick(opposing_card)
            &&& pick(controlled(card, opposing_card, impose, none)) == pick(card)
        }),
{
}

/// A scaled magnitude binds to its printed value times what it reads: the owner's Life, its
/// Pillz, the Support count, the anti-support count or the opposing stars, when that fits a
/// `u16`; past it, the round is refused.
pub proof fn law_scaled_magnitudes_multiply(
    side: CombatStatAffectedSideV1,
    stat: CombatStatAttributeV1,
    operation: CombatStatOperationV1,
    value: u16,
    minimum: Option<u16>,
    maximum: Option<u16>,
    multiplier: CombatStatMagnitudeV1,
    support: u16,
    by: Scaling,
)
    requires
        multiplier == CombatStatMagnitudeV1::OwnerLife || multiplier == CombatStatMagnitudeV1::OwnerPillz
            || multiplier == CombatStatMagnitudeV1::SourceBonusSupport || multiplier
            == CombatStatMagnitudeV1::AntiSupport || multiplier == CombatStatMagnitudeV1::OpponentStars,
    ensures
        ({
            let read: int = if multiplier == CombatStatMagnitudeV1::OwnerLife {
                by.life as int
            } else if multiplier == CombatStatMagnitudeV1::OwnerPillz {
                by.pillz as int
            } else if multiplier == CombatStatMagnitudeV1::SourceBonusSupport {
                support as int
            } else if multiplier == CombatStatMagnitudeV1::AntiSupport {
                by.anti as int
            } else {
                by.stars as int
            };
            let effect = CombatStatEffectV1::ModifyCombatStat {
                side,
                stat,
                operation,
                value,
                minimum,
                maximum,
                multiplier,
            };
            &&& value * read <= u16::MAX ==> bind_effect(Some(effect), support, by) == Some(
                Some(
                    CombatStatEffectV1::ModifyCombatStat {
                        side,
                        stat,
                        operation,
                        value: (value * read) as u16,
                        minimum,
                        maximum,
                        multiplier: CombatStatMagnitudeV1::Fixed,
                    },
                ),
            )
            &&& value * read > u16::MAX ==> bind_effect(Some(effect), support, by) is None
        }),
{
}

} // verus!
