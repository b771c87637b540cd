//! The combat-stat diagnostic projection: base-rules rounds in which the selected cards'
//! admitted sources fire under their predicates, Stop one another, and hand their
//! end-of-round work to the atomic commit.

use super::combat_stat_admission::{plan_ratio_ok, post_round_of};
use super::combat_stat_modifiers::{modified, modify, overflow, prepare_modified, prepared_spec, Fired};
use super::combat_stat_resolution::{
    acting, acting_effect, bound_sources, bound_sources_exec, controlled, controlled_exec,
    kept_sources, kept_sources_exec, live, live_exec, round_work, round_work_exec, tuned_out,
    tuned_out_exec, Scaling,
};
use super::combat_stat_construction::{
    clan_character_count, construction_error, effective_clan_character_count,
    lemma_admitted_spec_plans, validate_match_spec,
};
use super::combat_stat_predicate::{
    active_effect, source_active_effect, ClanContext, PredicateContext,
};
use super::combat_stat_types::{
    CombatStatArithmeticStageV1, CombatStatCardPlanV1, CombatStatDiagnosticErrorV1,
    CombatStatDiagnosticMatchSpecV1, CombatStatEffectSourceV1, CombatStatEffectV1,
    CombatStatAttributeV1, CombatStatPlanErrorV1, CombatStatSourcePlanV1,
};
use super::post_round::{plan_well_formed, PostRoundEffect, PostRoundPlan};
use super::round::{
    commit_spec, initial_position_spec, prepare_base_rules_selection, prepare_spec,
    validated_round_spec, PreparedSelection, ValidatedSelection,
};
use super::{
    BaseRulesCardSpec, BaseRulesError, BaseRulesGame, BaseRulesMatchSpec, BaseRulesPosition,
    BaseRulesRoundInput, BaseRulesRoundReport, BaseRulesUndo, ByPlayer, HandSlot, PlayerId,
};
use vstd::prelude::*;

verus! {

broadcast use {vstd::array::group_array_axioms, super::group_hand_slot};

/// The bit of a canonical clan below 64; nothing for a larger id.
pub open spec fn clan_bit(clan: u32) -> u64 {
    if clan < 64 {
        1u64 << (clan as u64)
    } else {
        0
    }
}

/// The canonical clans below 64 of a hand, as a bit mask.
pub open spec fn hand_clan_mask(hand: [BaseRulesCardSpec; 4]) -> u64 {
    clan_bit(hand[0].clan_id) | clan_bit(hand[1].clan_id) | clan_bit(hand[2].clan_id) | clan_bit(
        hand[3].clan_id,
    )
}

/// Every card of the hand has effective clan `clan`.
pub open spec fn hand_unison(cards: [CombatStatCardPlanV1; 4], clan: u32) -> bool {
    forall|i: int| 0 <= i < 4 ==> #[trigger] cards@[i].effective_clan_id == clan
}

/// The Pillz a `Bet` gate compares: paid Pillz plus the free pill, saturating.
pub open spec fn pillz_used(pillz: u16) -> u16 {
    if pillz == u16::MAX {
        u16::MAX
    } else {
        (pillz + 1) as u16
    }
}

/// The plan of the card `owner` selected.
pub open spec fn selected_card(
    spec: CombatStatDiagnosticMatchSpecV1,
    validated: ByPlayer<ValidatedSelection>,
    owner: PlayerId,
) -> CombatStatCardPlanV1 {
    spec.cards.at(owner)@[validated.at(owner).slot.value() as int]
}

/// What `owner`'s predicates read this round.
pub open spec fn predicate_context(
    spec: CombatStatDiagnosticMatchSpecV1,
    pos: BaseRulesPosition,
    input: BaseRulesRoundInput,
    validated: ByPlayer<ValidatedSelection>,
    owner: PlayerId,
) -> PredicateContext {
    let card = selected_card(spec, validated, owner);
    PredicateContext {
        owner,
        first_mover: input.first_mover,
        owner_slot: validated.at(owner).slot,
        opponent_slot: validated.at(owner.opp()).slot,
        previous_round_winner: pos.previous_round_winner,
        night: spec.base_rules.night,
        owner_unison: hand_unison(spec.cards.at(owner), card.effective_clan_id),
        clan: ClanContext {
            owner_effective_clan: card.effective_clan_id,
            owner_previous_clan: match pos.previous_round_slots.at(owner) {
                Some(slot) => Some(spec.base_rules.players.at(owner).hand@[slot.value() as int].clan_id),
                None => None,
            },
            opponent_hand_clans: hand_clan_mask(spec.base_rules.players.at(owner.opp()).hand),
            owner_pillz_used: pillz_used(validated.at(owner).selection.pillz),
        },
    }
}

/// The effects `owner`'s selected ability and bonus fire this round, before any Stop: each
/// source on the plan it acts on (a Copy's adopted plan), under its predicate.
pub open spec fn fired(
    spec: CombatStatDiagnosticMatchSpecV1,
    pos: BaseRulesPosition,
    input: BaseRulesRoundInput,
    validated: ByPlayer<ValidatedSelection>,
    owner: PlayerId,
) -> Fired {
    let card = selected_card(spec, validated, owner);
    let opponent = selected_card(spec, validated, owner.opp());
    let ctx = predicate_context(spec, pos, input, validated, owner);
    (acting(card.ability, opponent, ctx), acting(card.bonus, opponent, ctx))
}

/// `a - b`, or zero where `b` is larger.
pub open spec fn saturating_sub16(a: u16, b: u16) -> u16 {
    if a > b {
        (a - b) as u16
    } else {
        0
    }
}

/// The anti-support count of `owner`'s sources this round: the opposing hand's characters
/// of the opposing selected card's effective clan.
pub open spec fn anti_support(
    spec: CombatStatDiagnosticMatchSpecV1,
    validated: ByPlayer<ValidatedSelection>,
    owner: PlayerId,
) -> u16 {
    clan_character_count(
        spec.cards.at(owner.opp()),
        validated.at(owner.opp()).slot.value() as int,
    ) as u16
}

/// What `owner`'s scaled magnitudes read this round.
pub open spec fn scaling(
    spec: CombatStatDiagnosticMatchSpecV1,
    pos: BaseRulesPosition,
    validated: ByPlayer<ValidatedSelection>,
    owner: PlayerId,
    opposing_power: u64,
    opposing_damage: u64,
    opposing_stats: bool,
) -> Scaling {
    let state = pos.players.at(owner);
    let start = spec.base_rules.players.at(owner);
    Scaling {
        anti: anti_support(spec, validated, owner),
        rounds_played: pos.rounds_played,
        life: state.life,
        pillz: state.pillz,
        pillz_lost: saturating_sub16(start.initial_pillz, state.pillz),
        life_lost: saturating_sub16(start.initial_life, state.life),
        stars: validated.at(owner.opp()).card.key.level,
        opposing_power,
        opposing_damage,
        opposing_stats,
    }
}

pub open spec fn hazard_of(
    player: PlayerId,
    slot: HandSlot,
    source: CombatStatEffectSourceV1,
    plan: CombatStatSourcePlanV1,
) -> Option<CombatStatDiagnosticErrorV1> {
    match plan {
        CombatStatSourcePlanV1::RejectIfSelected { source_id } => Some(
            CombatStatDiagnosticErrorV1::UnsupportedSelectedHazard {
                player,
                hand_slot: slot,
                source,
                source_id,
            },
        ),
        _ => None,
    }
}

/// The first selected source that refuses the round: P1's ability, P1's bonus, then P2's.
pub open spec fn selected_hazard(
    spec: CombatStatDiagnosticMatchSpecV1,
    validated: ByPlayer<ValidatedSelection>,
) -> Option<CombatStatDiagnosticErrorV1> {
    let s1 = validated.at(PlayerId::P1).slot;
    let s2 = validated.at(PlayerId::P2).slot;
    let c1 = selected_card(spec, validated, PlayerId::P1);
    let c2 = selected_card(spec, validated, PlayerId::P2);
    match hazard_of(PlayerId::P1, s1, CombatStatEffectSourceV1::Ability, c1.ability) {
        Some(e) => Some(e),
        None => match hazard_of(PlayerId::P1, s1, CombatStatEffectSourceV1::Bonus, c1.bonus) {
            Some(e) => Some(e),
            None => match hazard_of(PlayerId::P2, s2, CombatStatEffectSourceV1::Ability, c2.ability) {
                Some(e) => Some(e),
                None => hazard_of(PlayerId::P2, s2, CombatStatEffectSourceV1::Bonus, c2.bonus),
            },
        },
    }
}

/// Both selected cards resolved and both players' end-of-round work, P1 first. Each side's
/// sources act as fired unless stopped; the printed-stat phase sets both cards' printed
/// Power and Damage; scaled magnitudes bind, an opposing-stat magnitude reading the
/// opposing card as the other bound modifiers leave it, and an amount past `u16` refuses the
/// round; then the cards resolve under the bound modifiers and `Tune Out`, and each side's
/// end-of-round work is its bound live sources' less what the opposing card cancels.
pub open spec fn resolved_round(
    spec: CombatStatDiagnosticMatchSpecV1,
    pos: BaseRulesPosition,
    input: BaseRulesRoundInput,
    validated: ByPlayer<ValidatedSelection>,
) -> Result<(ByPlayer<PreparedSelection>, ByPlayer<PostRoundPlan>), CombatStatDiagnosticErrorV1> {
    let f1 = fired(spec, pos, input, validated, PlayerId::P1);
    let f2 = fired(spec, pos, input, validated, PlayerId::P2);
    let l1 = live(f1, f2);
    let l2 = live(f2, f1);
    let on = tuned_out(l1, l2);
    let v1 = validated.at(PlayerId::P1);
    let v2 = validated.at(PlayerId::P2);
    let card1 = selected_card(spec, validated, PlayerId::P1);
    let card2 = selected_card(spec, validated, PlayerId::P2);
    let c1 = controlled(v1.card, v2.card, l1, l2);
    let c2 = controlled(v2.card, v1.card, l2, l1);
    let k1 = kept_sources(l1, card1, scaling(spec, pos, validated, PlayerId::P1, 0, 0, false));
    let k2 = kept_sources(l2, card2, scaling(spec, pos, validated, PlayerId::P2, 0, 0, false));
    let power1 = modified(c1.power as int, k1, k2, CombatStatAttributeV1::Power) as u64;
    let damage1 = modified(c1.damage as int, k1, k2, CombatStatAttributeV1::Damage) as u64;
    let power2 = modified(c2.power as int, k2, k1, CombatStatAttributeV1::Power) as u64;
    let damage2 = modified(c2.damage as int, k2, k1, CombatStatAttributeV1::Damage) as u64;
    match bound_sources(l1, card1, scaling(spec, pos, validated, PlayerId::P1, power2, damage2, true)) {
        None => Err(overflow(PlayerId::P1, CombatStatArithmeticStageV1::EffectMagnitude)),
        Some(b1) => match bound_sources(
            l2,
            card2,
            scaling(spec, pos, validated, PlayerId::P2, power1, damage1, true),
        ) {
            None => Err(overflow(PlayerId::P2, CombatStatArithmeticStageV1::EffectMagnitude)),
            Some(b2) => match prepared_spec(
                PlayerId::P1,
                ValidatedSelection { card: c1, ..v1 },
                b1,
                b2,
                on,
            ) {
                Err(e) => Err(e),
                Ok(p1) => match prepared_spec(
                    PlayerId::P2,
                    ValidatedSelection { card: c2, ..v2 },
                    b2,
                    b1,
                    on,
                ) {
                    Err(e) => Err(e),
                    Ok(p2) => Ok(
                        (
                            ByPlayer::pair(p1, p2),
                            ByPlayer::pair(round_work(b1, l2), round_work(b2, l1)),
                        ),
                    ),
                },
            },
        },
    }
}

/// One diagnostic round from `pos`: both selections validated, then the selected hazards,
/// then resolution, then the commit with both players' end-of-round work.
pub open spec fn diagnostic_round_spec(
    spec: CombatStatDiagnosticMatchSpecV1,
    pos: BaseRulesPosition,
    input: BaseRulesRoundInput,
) -> Result<(BaseRulesRoundReport, BaseRulesPosition), CombatStatDiagnosticErrorV1> {
    match validated_round_spec(spec.base_rules, pos, input) {
        Err(e) => Err(CombatStatDiagnosticErrorV1::BaseRules(e)),
        Ok(validated) => match selected_hazard(spec, validated) {
            Some(e) => Err(e),
            None => match resolved_round(spec, pos, input, validated) {
                Err(e) => Err(e),
                Ok((prepared, plans)) => match commit_spec(pos, input, prepared, plans) {
                    Err(e) => Err(CombatStatDiagnosticErrorV1::BaseRules(e)),
                    Ok(done) => Ok(done),
                },
            },
        },
    }
}

/// Whether an effect's end-of-round work, where it has any, is well formed.
pub open spec fn ratio_ok(effect: Option<CombatStatEffectV1>) -> bool {
    effect matches Some(e) ==> (post_round_of(e) matches Some(w) ==> w.well_formed())
}

proof fn lemma_acting_ratio_ok(
    plan: CombatStatSourcePlanV1,
    opponent: CombatStatCardPlanV1,
    ctx: PredicateContext,
)
    requires
        plan_ratio_ok(plan),
        plan_ratio_ok(opponent.ability),
        plan_ratio_ok(opponent.bonus),
    ensures
        ratio_ok(acting(plan, opponent, ctx)),
{
}

proof fn lemma_live_ratio_ok(own: Fired, opposing: Fired)
    requires
        ratio_ok(own.0),
        ratio_ok(own.1),
    ensures
        ratio_ok(live(own, opposing).0),
        ratio_ok(live(own, opposing).1),
{
}

proof fn lemma_bound_ratio_ok(live: Fired, card: CombatStatCardPlanV1, by: Scaling)
    requires
        ratio_ok(live.0),
        ratio_ok(live.1),
    ensures
        bound_sources(live, card, by) matches Some(b) ==> ratio_ok(b.0) && ratio_ok(b.1),
{
}

proof fn lemma_work_well_formed(own: Fired, opposing: Fired)
    requires
        ratio_ok(own.0),
        ratio_ok(own.1),
    ensures
        plan_well_formed(round_work(own, opposing)),
{
}

// ---------------------------------------------------------------------------------------
// Executable round pieces.

fn clan_bit_of(clan: u32) -> (r: u64)
    ensures
        r == clan_bit(clan),
{
    if clan < 64 {
        1u64 << (clan as u64)
    } else {
        0
    }
}

fn clan_mask_of(hand: &[BaseRulesCardSpec; 4]) -> (r: u64)
    ensures
        r == hand_clan_mask(*hand),
{
    clan_bit_of(hand[0].clan_id) | clan_bit_of(hand[1].clan_id) | clan_bit_of(hand[2].clan_id)
        | clan_bit_of(hand[3].clan_id)
}

fn is_unison(cards: &[CombatStatCardPlanV1; 4], clan: u32) -> (r: bool)
    ensures
        r == hand_unison(*cards, clan),
{
    let mut i: usize = 0;
    while i < 4
        invariant
            i <= 4,
            forall|j: int| 0 <= j < i ==> #[trigger] cards@[j].effective_clan_id == clan,
        decreases 4 - i,
    {
        if cards[i].effective_clan_id != clan {
            return false;
        }
        i += 1;
    }
    true
}

fn context_for(
    spec: &CombatStatDiagnosticMatchSpecV1,
    pos: &BaseRulesPosition,
    input: BaseRulesRoundInput,
    validated: &ByPlayer<ValidatedSelection>,
    owner: PlayerId,
) -> (r: PredicateContext)
    ensures
        r == predicate_context(*spec, *pos, input, *validated, owner),
{
    let v = *validated.get(owner);
    let opponent = owner.other();
    let own = spec.cards.get(owner);
    let card = own[v.slot.index()];
    let owner_previous_clan = match *pos.previous_round_slots.get(owner) {
        Some(slot) => Some(spec.base_rules.players.get(owner).hand[slot.index()].clan_id),
        None => None,
    };
    let used = if v.selection.pillz == u16::MAX {
        u16::MAX
    } else {
        v.selection.pillz + 1
    };
    PredicateContext {
        owner,
        first_mover: input.first_mover,
        owner_slot: v.slot,
        opponent_slot: validated.get(opponent).slot,
        previous_round_winner: pos.previous_round_winner,
        night: spec.base_rules.night,
        owner_unison: is_unison(own, card.effective_clan_id),
        clan: ClanContext {
            owner_effective_clan: card.effective_clan_id,
            owner_previous_clan,
            opponent_hand_clans: clan_mask_of(&spec.base_rules.players.get(opponent).hand),
            owner_pillz_used: used,
        },
    }
}

fn fired_effects(
    spec: &CombatStatDiagnosticMatchSpecV1,
    pos: &BaseRulesPosition,
    input: BaseRulesRoundInput,
    validated: &ByPlayer<ValidatedSelection>,
    owner: PlayerId,
) -> (r: Fired)
    ensures
        r == fired(*spec, *pos, input, *validated, owner),
{
    let card = spec.cards.get(owner)[validated.get(owner).slot.index()];
    let opponent = spec.cards.get(owner.other())[validated.get(owner.other()).slot.index()];
    let ctx = context_for(spec, pos, input, validated, owner);
    (acting_effect(card.ability, opponent, &ctx), acting_effect(card.bonus, opponent, &ctx))
}

fn scaling_for(
    spec: &CombatStatDiagnosticMatchSpecV1,
    pos: &BaseRulesPosition,
    validated: &ByPlayer<ValidatedSelection>,
    owner: PlayerId,
    opposing_power: u64,
    opposing_damage: u64,
    opposing_stats: bool,
) -> (r: Scaling)
    ensures
        r == scaling(*spec, *pos, *validated, owner, opposing_power, opposing_damage, opposing_stats),
{
    let state = *pos.players.get(owner);
    let start = spec.base_rules.players.get(owner);
    let opponent = owner.other();
    Scaling {
        anti: effective_clan_character_count(
            validated.get(opponent).slot.index(),
            spec.cards.get(opponent),
        ),
        rounds_played: pos.rounds_played,
        life: state.life,
        pillz: state.pillz,
        pillz_lost: if start.initial_pillz > state.pillz {
            start.initial_pillz - state.pillz
        } else {
            0
        },
        life_lost: if start.initial_life > state.life {
            start.initial_life - state.life
        } else {
            0
        },
        stars: validated.get(opponent).card.key.level,
        opposing_power,
        opposing_damage,
        opposing_stats,
    }
}

fn selected_source_hazard(
    player: PlayerId,
    slot: HandSlot,
    source: CombatStatEffectSourceV1,
    plan: CombatStatSourcePlanV1,
) -> (r: Option<CombatStatDiagnosticErrorV1>)
    ensures
        r == hazard_of(player, slot, source, plan),
{
    match plan {
        CombatStatSourcePlanV1::RejectIfSelected { source_id } => Some(
            CombatStatDiagnosticErrorV1::UnsupportedSelectedHazard {
                player,
                hand_slot: slot,
                source,
                source_id,
            },
        ),
        _ => None,
    }
}

/// A single-use token that returns a diagnostic game to the position before one round.
#[derive(Debug, PartialEq, Eq)]
pub struct CombatStatDiagnosticUndoV1 {
    base_rules: BaseRulesUndo,
}

impl CombatStatDiagnosticUndoV1 {
    /// The position this token restores.
    pub closed spec fn before_view(self) -> BaseRulesPosition {
        self.base_rules.before_view()
    }
}

/// A base-rules game over an admitted combat-stat match spec.
#[derive(Debug, PartialEq, Eq)]
pub struct CombatStatDiagnosticV1 {
    spec: CombatStatDiagnosticMatchSpecV1,
    base_rules: BaseRulesGame,
}

impl CombatStatDiagnosticV1 {
    /// The game runs on the spec's base rules, and the spec is admitted.
    #[verifier::type_invariant]
    spec fn admitted(self) -> bool {
        &&& self.base_rules.spec_view() == self.spec.base_rules
        &&& construction_error(self.spec) is None
    }

    pub closed spec fn spec_view(self) -> CombatStatDiagnosticMatchSpecV1 {
        self.spec
    }

    pub closed spec fn position_view(self) -> BaseRulesPosition {
        self.base_rules.position_view()
    }

    /// A game at the start of the match, or the first reason the spec is refused.
    pub fn new(spec: CombatStatDiagnosticMatchSpecV1) -> (r: Result<Self, CombatStatPlanErrorV1>)
        ensures
            match construction_error(spec) {
                Some(e) => r == Err::<Self, CombatStatPlanErrorV1>(e),
                None => r matches Ok(game) && game.spec_view() == spec && game.position_view()
                    == initial_position_spec(spec.base_rules),
            },
    {
        if let Some(e) = validate_match_spec(&spec) {
            return Err(e);
        }
        let base_rules = BaseRulesGame::new(spec.base_rules);
        Ok(CombatStatDiagnosticV1 { spec, base_rules })
    }

    pub fn match_spec(&self) -> (r: &CombatStatDiagnosticMatchSpecV1)
        ensures
            *r == self.spec_view(),
    {
        &self.spec
    }

    pub fn base_rules_spec(&self) -> (r: &BaseRulesMatchSpec)
        ensures
            *r == self.spec_view().base_rules,
    {
        &self.spec.base_rules
    }

    pub fn position(&self) -> (r: &BaseRulesPosition)
        ensures
            *r == self.position_view(),
    {
        self.base_rules.position()
    }

    pub fn card_plans(&self) -> (r: &ByPlayer<[CombatStatCardPlanV1; 4]>)
        ensures
            *r == self.spec_view().cards,
    {
        &self.spec.cards
    }

    /// Play one round. On success the position advances and the token restores the old
    /// one; on failure nothing changes.
    pub fn make(&mut self, input: BaseRulesRoundInput) -> (r: Result<
        (BaseRulesRoundReport, CombatStatDiagnosticUndoV1),
        CombatStatDiagnosticErrorV1,
    >)
        ensures
            final(self).spec_view() == old(self).spec_view(),
            match diagnostic_round_spec(old(self).spec_view(), old(self).position_view(), input) {
                Ok((report, next)) => r matches Ok((rep, undo)) && rep == report
                    && final(self).position_view() == next && undo.before_view() == old(
                    self,
                ).position_view(),
                Err(e) => r == Err::<
                    (BaseRulesRoundReport, CombatStatDiagnosticUndoV1),
                    CombatStatDiagnosticErrorV1,
                >(e) && final(self).position_view() == old(self).position_view(),
            },
    {
        proof {
            use_type_invariant(&*self);
            lemma_admitted_spec_plans(self.spec);
        }
        let validated = match self.base_rules.validate_round(input) {
            Ok(v) => v,
            Err(e) => return Err(CombatStatDiagnosticErrorV1::BaseRules(e)),
        };
        let v1 = *validated.get(PlayerId::P1);
        let v2 = *validated.get(PlayerId::P2);
        let c1 = self.spec.cards.get(PlayerId::P1)[v1.slot.index()];
        let c2 = self.spec.cards.get(PlayerId::P2)[v2.slot.index()];
        if let Some(e) = selected_source_hazard(
            PlayerId::P1,
            v1.slot,
            CombatStatEffectSourceV1::Ability,
            c1.ability,
        ) {
            return Err(e);
        }
        if let Some(e) = selected_source_hazard(
            PlayerId::P1,
            v1.slot,
            CombatStatEffectSourceV1::Bonus,
            c1.bonus,
        ) {
            return Err(e);
        }
        if let Some(e) = selected_source_hazard(
            PlayerId::P2,
            v2.slot,
            CombatStatEffectSourceV1::Ability,
            c2.ability,
        ) {
            return Err(e);
        }
        if let Some(e) = selected_source_hazard(
            PlayerId::P2,
            v2.slot,
            CombatStatEffectSourceV1::Bonus,
            c2.bonus,
        ) {
            return Err(e);
        }
        let pos = *self.base_rules.position();
        let f1 = fired_effects(&self.spec, &pos, input, &validated, PlayerId::P1);
        let f2 = fired_effects(&self.spec, &pos, input, &validated, PlayerId::P2);
        let l1 = live_exec(f1, f2);
        let l2 = live_exec(f2, f1);
        let on = tuned_out_exec(l1, l2);
        let cc1 = controlled_exec(v1.card, v2.card, l1, l2);
        let cc2 = controlled_exec(v2.card, v1.card, l2, l1);
        let k1 = kept_sources_exec(
            l1,
            c1,
            scaling_for(&self.spec, &pos, &validated, PlayerId::P1, 0, 0, false),
        );
        let k2 = kept_sources_exec(
            l2,
            c2,
            scaling_for(&self.spec, &pos, &validated, PlayerId::P2, 0, 0, false),
        );
        let power1 = modify(cc1.power as u64, k1, k2, CombatStatAttributeV1::Power);
        let damage1 = modify(cc1.damage as u64, k1, k2, CombatStatAttributeV1::Damage);
        let power2 = modify(cc2.power as u64, k2, k1, CombatStatAttributeV1::Power);
        let damage2 = modify(cc2.damage as u64, k2, k1, CombatStatAttributeV1::Damage);
        let b1 = match bound_sources_exec(
            l1,
            c1,
            scaling_for(&self.spec, &pos, &validated, PlayerId::P1, power2, damage2, true),
        ) {
            Some(b) => b,
            None => return Err(
                CombatStatDiagnosticErrorV1::ArithmeticOverflow {
                    player: PlayerId::P1,
                    stage: CombatStatArithmeticStageV1::EffectMagnitude,
                },
            ),
        };
        let b2 = match bound_sources_exec(
            l2,
            c2,
            scaling_for(&self.spec, &pos, &validated, PlayerId::P2, power1, damage1, true),
        ) {
            Some(b) => b,
            None => return Err(
                CombatStatDiagnosticErrorV1::ArithmeticOverflow {
                    player: PlayerId::P2,
                    stage: CombatStatArithmeticStageV1::EffectMagnitude,
                },
            ),
        };
        let p1 = match prepare_modified(PlayerId::P1, ValidatedSelection { card: cc1, ..v1 }, b1, b2, on) {
            Ok(p) => p,
            Err(e) => return Err(e),
        };
        let p2 = match prepare_modified(PlayerId::P2, ValidatedSelection { card: cc2, ..v2 }, b2, b1, on) {
            Ok(p) => p,
            Err(e) => return Err(e),
        };
        let prepared = ByPlayer::new(p1, p2);
        let plans = ByPlayer::new(round_work_exec(b1, l2), round_work_exec(b2, l1));
        proof {
            let spec = self.spec;
            let ctx1 = predicate_context(spec, pos, input, validated, PlayerId::P1);
            let ctx2 = predicate_context(spec, pos, input, validated, PlayerId::P2);
            let slot1 = validated.at(PlayerId::P1).slot.value() as int;
            let slot2 = validated.at(PlayerId::P2).slot.value() as int;
            let sc1 = spec.cards.at(PlayerId::P1)@[slot1];
            let sc2 = spec.cards.at(PlayerId::P2)@[slot2];
            lemma_acting_ratio_ok(sc1.ability, sc2, ctx1);
            lemma_acting_ratio_ok(sc1.bonus, sc2, ctx1);
            lemma_acting_ratio_ok(sc2.ability, sc1, ctx2);
            lemma_acting_ratio_ok(sc2.bonus, sc1, ctx2);
            lemma_live_ratio_ok(f1, f2);
            lemma_live_ratio_ok(f2, f1);
            lemma_bound_ratio_ok(l1, c1, scaling(spec, pos, validated, PlayerId::P1, power2, damage2, true));
            lemma_bound_ratio_ok(l2, c2, scaling(spec, pos, validated, PlayerId::P2, power1, damage1, true));
            lemma_work_well_formed(b1, l2);
            lemma_work_well_formed(b2, l1);
        }
        let mut game = BaseRulesGame::new(self.spec.base_rules);
        std::mem::swap(&mut game, &mut self.base_rules);
        let result = game.commit(input, prepared, plans);
        self.base_rules = game;
        match result {
            Ok((report, undo)) => Ok((report, CombatStatDiagnosticUndoV1 { base_rules: undo })),
            Err(e) => Err(CombatStatDiagnosticErrorV1::BaseRules(e)),
        }
    }

    /// Return to the position `undo` was taken from.
    pub fn unmake(&mut self, undo: CombatStatDiagnosticUndoV1)
        ensures
            final(self).spec_view() == old(self).spec_view(),
            final(self).position_view() == undo.before_view(),
    {
        proof {
            use_type_invariant(&*self);
        }
        let mut game = BaseRulesGame::new(self.spec.base_rules);
        std::mem::swap(&mut game, &mut self.base_rules);
        game.unmake(undo.base_rules);
        self.base_rules = game;
    }
}

} // verus!
