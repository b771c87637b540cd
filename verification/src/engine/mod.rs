//! The replay-grounded engine: base-rules rounds, their exact undo, and the end-of-round
//! effect machinery that the diagnostic projections feed.

pub mod combat_stat_admission;
pub mod combat_stat_construction;
pub mod combat_stat_diagnostic;
pub mod combat_stat_laws;
pub mod combat_stat_modifiers;
pub mod combat_stat_context;
pub mod combat_stat_predicate;
pub mod combat_stat_resolution;
pub mod combat_stat_types;
pub mod laws;
pub mod post_round;
pub mod round;

use crate::card::CardKey;
use vstd::prelude::*;

pub use round::BaseRulesGame;

verus! {

broadcast use vstd::array::group_array_axioms;

pub const HAND_SIZE: usize = 4;

pub const MAX_ROUNDS: u8 = 4;

pub const FURY_COST: u16 = 3;

pub const FURY_DAMAGE: u16 = 2;

#[derive(Clone, Copy, Debug, PartialEq, Eq, Structural, Hash, PartialOrd, Ord)]
pub enum PlayerId {
    P1,
    P2,
}

impl PlayerId {
    /// The array position of this player.
    pub open spec fn idx(self) -> int {
        match self {
            PlayerId::P1 => 0,
            PlayerId::P2 => 1,
        }
    }

    /// The opposing player.
    pub open spec fn opp(self) -> PlayerId {
        match self {
            PlayerId::P1 => PlayerId::P2,
            PlayerId::P2 => PlayerId::P1,
        }
    }

    pub fn index(self) -> (i: usize)
        ensures
            i == self.idx(),
            i < 2,
    {
        match self {
            PlayerId::P1 => 0,
            PlayerId::P2 => 1,
        }
    }

    pub fn other(self) -> (o: Self)
        ensures
            o == self.opp(),
            o != self,
    {
        match self {
            PlayerId::P1 => PlayerId::P2,
            PlayerId::P2 => PlayerId::P1,
        }
    }
}

/// A position in a four-card hand: always below `HAND_SIZE`.
#[derive(Clone, Copy, Debug, PartialEq, Eq, Structural, Hash, PartialOrd, Ord)]
pub struct HandSlot(u8);

impl HandSlot {
    #[verifier::type_invariant]
    spec fn in_hand(self) -> bool {
        self.0 < 4
    }

    /// The zero-based slot number.
    pub closed spec fn value(self) -> u8 {
        self.0
    }

    /// The slot whose number is `index`; only meaningful below `HAND_SIZE`.
    pub closed spec fn spec_slot(index: u8) -> HandSlot {
        HandSlot(index)
    }

    pub broadcast proof fn lemma_spec_slot_value(index: u8)
        ensures
            #[trigger] HandSlot::spec_slot(index).value() == index,
    {
    }

    pub broadcast proof fn lemma_slot_eq(a: HandSlot, b: HandSlot)
        ensures
            #![trigger a.value(), b.value()]
            a.value() == b.value() <==> a == b,
    {
    }

    pub fn index(self) -> (i: usize)
        ensures
            i == self.value(),
            i < 4,
    {
        proof {
            use_type_invariant(&self);
        }
        self.0 as usize
    }

    pub fn get(self) -> (v: u8)
        ensures
            v == self.value(),
            v < 4,
    {
        proof {
            use_type_invariant(&self);
        }
        self.0
    }

    /// The slot numbered `value`, refused outside `0..HAND_SIZE`.
    pub fn try_from_index(value: u8) -> (r: Result<Self, InvalidHandSlot>)
        ensures
            value < 4 ==> r == Ok::<HandSlot, InvalidHandSlot>(HandSlot::spec_slot(value)),
            value >= 4 ==> r == Err::<HandSlot, InvalidHandSlot>(
                InvalidHandSlot { hand_index: value },
            ),
    {
        if value < 4 {
            Ok(HandSlot(value))
        } else {
            Err(InvalidHandSlot { hand_index: value })
        }
    }
}

impl TryFrom<u8> for HandSlot {
    type Error = InvalidHandSlot;

    fn try_from(value: u8) -> (r: Result<Self, InvalidHandSlot>) {
        HandSlot::try_from_index(value)
    }
}

impl vstd::std_specs::convert::TryFromSpecImpl<u8> for HandSlot {
    open spec fn obeys_try_from_spec() -> bool {
        true
    }

    open spec fn try_from_spec(v: u8) -> Result<Self, Self::Error> {
        if v < 4 {
            Ok(HandSlot::spec_slot(v))
        } else {
            Err(InvalidHandSlot { hand_index: v })
        }
    }
}

pub broadcast group group_hand_slot {
    HandSlot::lemma_spec_slot_value,
    HandSlot::lemma_slot_eq,
}

#[derive(Clone, Copy, Debug, PartialEq, Eq, Structural)]
pub struct InvalidHandSlot {
    pub hand_index: u8,
}

/// One value per player, indexed by `PlayerId`.
#[derive(Clone, Copy, Debug, PartialEq, Eq, Hash)]
pub struct ByPlayer<T>(pub [T; 2]);

impl<T> ByPlayer<T> {
    pub open spec fn at(self, player: PlayerId) -> T {
        self.0@[player.idx()]
    }

    /// The same pair with `player`'s value replaced.
    pub open spec fn with(self, player: PlayerId, value: T) -> Self {
        match player {
            PlayerId::P1 => ByPlayer([value, self.at(PlayerId::P2)]),
            PlayerId::P2 => ByPlayer([self.at(PlayerId::P1), value]),
        }
    }

    pub open spec fn pair(p1: T, p2: T) -> Self {
        ByPlayer([p1, p2])
    }

    pub fn new(p1: T, p2: T) -> (r: Self)
        ensures
            r == ByPlayer::pair(p1, p2),
            r.at(PlayerId::P1) == p1,
            r.at(PlayerId::P2) == p2,
    {
        ByPlayer([p1, p2])
    }

    pub fn get(&self, player: PlayerId) -> (r: &T)
        ensures
            *r == self.at(player),
    {
        match player {
            PlayerId::P1 => &self.0[0],
            PlayerId::P2 => &self.0[1],
        }
    }

    pub fn get_mut(&mut self, player: PlayerId) -> (r: &mut T)
        ensures
            *r == old(self).at(player),
            final(self).0@ == old(self).0@.update(player.idx(), *final(r)),
    {
        match player {
            PlayerId::P1 => &mut self.0[0],
            PlayerId::P2 => &mut self.0[1],
        }
    }

    pub fn set(&mut self, player: PlayerId, value: T)
        ensures
            *final(self) == old(self).with(player, value),
    {
        let ghost before = *self;
        match player {
            PlayerId::P1 => {
                self.0[0] = value;
            },
            PlayerId::P2 => {
                self.0[1] = value;
            },
        }
        assert(self.0 =~= before.with(player, value).0);
    }

}

impl<T> std::ops::Index<PlayerId> for ByPlayer<T> {
    type Output = T;

    fn index(&self, player: PlayerId) -> (r: &T)
        ensures
            *r == self.at(player),
    {
        self.get(player)
    }
}

impl<T> std::ops::IndexMut<PlayerId> for ByPlayer<T> {
    fn index_mut(&mut self, player: PlayerId) -> (r: &mut T)
        ensures
            *r == old(self).at(player),
            final(self).0@ == old(self).0@.update(player.idx(), *final(r)),
    {
        self.get_mut(player)
    }
}

impl<T: Copy> ByPlayer<T> {
    /// Apply `map` to each player's value, P1 first.
    pub fn map<U>(self, map: impl Fn(T) -> U) -> (r: ByPlayer<U>)
        requires
            map.requires((self.at(PlayerId::P1),)),
            map.requires((self.at(PlayerId::P2),)),
        ensures
            map.ensures((self.at(PlayerId::P1),), r.at(PlayerId::P1)),
            map.ensures((self.at(PlayerId::P2),), r.at(PlayerId::P2)),
    {
        let first = map(self.0[0]);
        let second = map(self.0[1]);
        ByPlayer([first, second])
    }
}

#[derive(Clone, Copy, Debug, PartialEq, Eq, Structural, Hash)]
pub struct BaseRulesCardSpec {
    pub key: CardKey,
    pub clan_id: u32,
    pub power: u16,
    pub damage: u16,
}

#[derive(Clone, Copy, Debug, PartialEq, Eq, Hash)]
pub struct BaseRulesPlayerSpec {
    pub initial_life: u16,
    pub initial_pillz: u16,
    pub hand: [BaseRulesCardSpec; 4],
}

/// Immutable inputs shared by every branch of a base-rules search.
#[derive(Clone, Copy, Debug, PartialEq, Eq, Hash)]
pub struct BaseRulesMatchSpec {
    pub battle_rule_id: u32,
    pub night: bool,
    pub players: ByPlayer<BaseRulesPlayerSpec>,
}

#[derive(Clone, Copy, Debug, PartialEq, Eq, Structural, Hash)]
pub struct BaseRulesPlayerState {
    pub life: u16,
    pub pillz: u16,
}

/// A permanent effect that a round latched for one player. It applies at the end of every
/// later round for the rest of the match, whatever those rounds' outcomes, whichever card
/// its owner then plays, and even in the round its owner is knocked out. Whether the
/// latching round itself pays is a property of the effect: Heal and Poison wait a round,
/// Regen and Toxin pay at once.
#[derive(Clone, Copy, Debug, PartialEq, Eq, Structural, Hash)]
pub enum LatchedEffectV1 {
    /// `Heal N Max. M`: the owner gains N Life while below M, never past M, and only while
    /// still living.
    HealLife { life: u16, maximum: u16 },
    /// `Regen N, Max. M`: Heal that also pays in the latching round.
    RegenLife { life: u16, maximum: u16 },
    /// `Poison N, Min M`: the opposing player loses N Life while above M, never below M,
    /// from the round after the latch.
    PoisonOpponentLife { life: u16, minimum: u16 },
    /// `Toxin N, Min M`: Poison that also pays in the latching round.
    ToxinOpponentLife { life: u16, minimum: u16 },
    /// `Consume N, Min M`: the opposing player loses N Pillz while above M, never below M,
    /// from the latching round on, living or not.
    ConsumeOpponentPillz { pillz: u16, minimum: u16 },
    /// `Combust N, Min M`: from the round after the latch, the opposing player loses N Life
    /// and then N Pillz, each only while above M and never below it.
    CombustOpponentLifeAndPillz { amount: u16, minimum: u16 },
    /// `Dope N, Max M`: from the latching round on, the owner gains N Pillz while below M,
    /// never past M, living or not.
    DopePillz { pillz: u16, maximum: u16 },
}

impl LatchedEffectV1 {
    pub open spec fn pays_at_once(self) -> bool {
        match self {
            LatchedEffectV1::HealLife { .. } | LatchedEffectV1::PoisonOpponentLife { .. }
            | LatchedEffectV1::CombustOpponentLifeAndPillz { .. } => false,
            LatchedEffectV1::RegenLife { .. } | LatchedEffectV1::ToxinOpponentLife { .. }
            | LatchedEffectV1::ConsumeOpponentPillz { .. } | LatchedEffectV1::DopePillz { .. } => true,
        }
    }

    /// Whether the round that latches this effect also pays it.
    pub fn pays_in_latching_round(self) -> (r: bool)
        ensures
            r == self.pays_at_once(),
    {
        match self {
            LatchedEffectV1::HealLife { .. } | LatchedEffectV1::PoisonOpponentLife { .. }
            | LatchedEffectV1::CombustOpponentLifeAndPillz { .. } => false,
            LatchedEffectV1::RegenLife { .. } | LatchedEffectV1::ToxinOpponentLife { .. }
            | LatchedEffectV1::ConsumeOpponentPillz { .. } | LatchedEffectV1::DopePillz { .. } => true,
        }
    }
}

/// The permanents one player has latched so far, in latch order, which is also the order
/// they are applied in. Each card is played once and at most one source per card latches,
/// so the hand size bounds the list. The occupied slots always form a prefix.
#[derive(Clone, Copy, Debug, PartialEq, Eq, Hash)]
pub struct LatchedEffectsV1 {
    effects: [Option<LatchedEffectV1>; 4],
}

impl LatchedEffectsV1 {
    #[verifier::type_invariant]
    spec fn packed(self) -> bool {
        forall|i: int, j: int|
            0 <= i < j < 4 && (#[trigger] self.effects@[i]) is None ==> (
            #[trigger] self.effects@[j]) is None
    }

    /// How many permanents are latched.
    pub closed spec fn count(self) -> nat {
        if self.effects@[0] is None {
            0
        } else if self.effects@[1] is None {
            1
        } else if self.effects@[2] is None {
            2
        } else if self.effects@[3] is None {
            3
        } else {
            4
        }
    }

    /// The latched permanents in latch order.
    pub closed spec fn items(self) -> Seq<LatchedEffectV1> {
        Seq::new(self.count(), |i: int| self.effects@[i]->Some_0)
    }

    pub proof fn lemma_items_len(self)
        ensures
            self.items().len() == self.count(),
    {
    }

    pub closed spec fn spec_empty() -> Self {
        LatchedEffectsV1 { effects: [None, None, None, None] }
    }

    /// No permanent latched.
    pub fn empty() -> (r: Self)
        ensures
            r == LatchedEffectsV1::spec_empty(),
            r.items() == Seq::<LatchedEffectV1>::empty(),
            r.count() == 0,
    {
        let r = LatchedEffectsV1 { effects: [None, None, None, None] };
        assert(r.items() =~= Seq::<LatchedEffectV1>::empty());
        r
    }

    /// The latched permanents in latch order.
    pub fn iter(&self) -> (r: Vec<LatchedEffectV1>)
        ensures
            r@ == self.items(),
    {
        proof {
            use_type_invariant(self);
        }
        let mut r: Vec<LatchedEffectV1> = Vec::new();
        let mut i: usize = 0;
        while i < 4
            invariant
                i <= 4,
                forall|k: int| 0 <= k < 4 ==> (#[trigger] self.effects@[k] is Some <==> k < self.count()),
                r@ =~= self.items().take(if i <= self.count() { i as int } else { self.count() as int }),
                self.count() <= 4,
            decreases 4 - i,
        {
            if let Some(effect) = self.effects[i] {
                r.push(effect);
            }
            i = i + 1;
        }
        assert(r@ =~= self.items());
        r
    }

    /// The permanent latched `index`-th, if any.
    pub fn get(&self, index: usize) -> (r: Option<LatchedEffectV1>)
        ensures
            index < self.count() ==> r == Some(self.items()[index as int]),
            index >= self.count() ==> r is None,
    {
        proof {
            use_type_invariant(self);
        }
        if index < 4 {
            self.effects[index]
        } else {
            None
        }
    }

    pub fn len(&self) -> (n: usize)
        ensures
            n == self.count(),
            n <= 4,
    {
        proof {
            use_type_invariant(self);
        }
        if self.effects[0].is_none() {
            0
        } else if self.effects[1].is_none() {
            1
        } else if self.effects[2].is_none() {
            2
        } else if self.effects[3].is_none() {
            3
        } else {
            4
        }
    }

    pub fn is_empty(&self) -> (r: bool)
        ensures
            r == (self.count() == 0),
    {
        self.effects[0].is_none()
    }

    /// The list with `effect` appended, in the `None` case of `push`.
    pub closed spec fn spec_pushed(self, effect: LatchedEffectV1) -> Option<LatchedEffectsV1> {
        if self.count() >= 4 {
            None
        } else {
            Some(LatchedEffectsV1 { effects: latched_slot_set(self.effects, self.count(), effect) })
        }
    }

    /// Append in latch order. `Err` returns the effect when the list is already full.
    pub fn push(&mut self, effect: LatchedEffectV1) -> (r: Result<(), LatchedEffectV1>)
        ensures
            old(self).count() < 4 ==> r is Ok && final(self).items() == old(self).items().push(
                effect,
            ) && Some(*final(self)) == old(self).spec_pushed(effect),
            old(self).count() >= 4 ==> r == Err::<(), LatchedEffectV1>(effect) && *final(self)
                == *old(self) && old(self).spec_pushed(effect) is None,
    {
        proof {
            use_type_invariant(&*self);
        }
        let n = self.len();
        if n >= 4 {
            return Err(effect);
        }
        let ghost before = *self;
        let mut effects = self.effects;
        effects[n] = Some(effect);
        let next = LatchedEffectsV1 { effects };
        assert(next.effects =~= latched_slot_set(before.effects, n as nat, effect));
        assert(next.count() == before.count() + 1);
        assert(next.items() =~= before.items().push(effect));
        *self = next;
        Ok(())
    }
}

/// `effects` with slot `index` holding `Some(effect)`.
pub open spec fn latched_slot_set(
    effects: [Option<LatchedEffectV1>; 4],
    index: nat,
    effect: LatchedEffectV1,
) -> [Option<LatchedEffectV1>; 4] {
    let s = effects@.update(index as int, Some(effect));
    [s[0], s[1], s[2], s[3]]
}

#[derive(Clone, Copy, Debug, PartialEq, Eq, Structural, Hash)]
pub enum MatchStatus {
    Playing,
    Won(PlayerId),
    Draw,
}

/// All mutable state. Equality is structural, which is what undo is checked against.
#[derive(Clone, Copy, Debug, PartialEq, Eq, Hash)]
pub struct BaseRulesPosition {
    pub players: ByPlayer<BaseRulesPlayerState>,
    pub played: ByPlayer<[bool; 4]>,
    pub rounds_played: u8,
    /// Winner of the completed round immediately before this position, if any.
    pub previous_round_winner: Option<PlayerId>,
    /// The hand slot each player played in the completed round immediately before this
    /// position, if any.
    pub previous_round_slots: ByPlayer<Option<HandSlot>>,
    /// Permanents latched by completed rounds, per owner.
    pub latched: ByPlayer<LatchedEffectsV1>,
    pub status: MatchStatus,
}

#[derive(Clone, Copy, Debug, PartialEq, Eq, Structural, Hash)]
pub struct BaseRulesSelection {
    pub hand_index: u8,
    /// Paid pillz only. The free attack pill is implicit.
    pub pillz: u16,
    pub fury: bool,
}

impl BaseRulesSelection {
    pub fn new(hand_index: u8, pillz: u16, fury: bool) -> (r: Self)
        ensures
            r == (BaseRulesSelection { hand_index, pillz, fury }),
    {
        BaseRulesSelection { hand_index, pillz, fury }
    }
}

/// One atomic round input. Selections are keyed by player, independent of submission order.
#[derive(Clone, Copy, Debug, PartialEq, Eq, Hash)]
pub struct BaseRulesRoundInput {
    pub first_mover: PlayerId,
    pub selections: ByPlayer<BaseRulesSelection>,
}

#[derive(Clone, Copy, Debug, PartialEq, Eq, Structural)]
pub struct BaseRulesCardResult {
    pub key: CardKey,
    pub hand_slot: HandSlot,
    pub power: u16,
    pub damage: u16,
    pub attack: u32,
    pub won: bool,
}

#[derive(Clone, Copy, Debug, PartialEq, Eq)]
pub struct BaseRulesRoundReport {
    pub round: u8,
    pub first_mover: PlayerId,
    pub selections: ByPlayer<BaseRulesSelection>,
    pub cards: ByPlayer<BaseRulesCardResult>,
    pub players: ByPlayer<BaseRulesPlayerState>,
    pub status: MatchStatus,
}

/// Snapshot undo: the exact position before the round.
///
/// An undo token belongs to the game and branch that produced it. Consume tokens on that
/// game in reverse `make` order.
#[derive(Debug, PartialEq, Eq)]
pub struct BaseRulesUndo {
    before: BaseRulesPosition,
}

impl BaseRulesUndo {
    /// The position this token restores.
    pub closed spec fn before_view(self) -> BaseRulesPosition {
        self.before
    }

    pub(crate) fn from_position(before: BaseRulesPosition) -> (r: Self)
        ensures
            r.before_view() == before,
    {
        BaseRulesUndo { before }
    }

    pub(crate) fn into_position(self) -> (r: BaseRulesPosition)
        ensures
            r == self.before_view(),
    {
        self.before
    }
}

#[derive(Clone, Copy, Debug, PartialEq, Eq, Structural)]
pub enum BaseRulesError {
    MatchFinished { status: MatchStatus },
    RoundLimitReached { rounds_played: u8 },
    InvalidHandSlot { player: PlayerId, hand_index: u8 },
    CardAlreadyPlayed { player: PlayerId, hand_slot: HandSlot },
    CostOverflow { player: PlayerId },
    InsufficientPillz { player: PlayerId, available: u16, required: u16 },
    AttackOverflow { player: PlayerId },
    DamageOverflow { player: PlayerId },
    PillzRecoveryOverflow { player: PlayerId },
    PillzIncreaseOverflow { player: PlayerId },
    LifeIncreaseOverflow { player: PlayerId },
    /// More permanents latched for one player than the hand can play. Unreachable from a
    /// validated plan; kept as an error so the commit stays atomic.
    LatchedEffectOverflow { player: PlayerId },
}

} // verus!
