//! A normalized execution and assertion view of a captured game. It is not a lossless
//! replacement for the capture: timing, end-of-round effects and final rewards stay in the
//! recorded capture.

use crate::card::CardKey;
use vstd::prelude::*;

verus! {

pub const REPLAY_SCHEMA_VERSION: u16 = 1;

/// A source-side identifier, retained even after players are put in engine order.
#[derive(Clone, Copy, Debug, PartialEq, Eq, Structural, Hash, PartialOrd, Ord)]
pub enum SourceSide {
    Side0,
    Side1,
}

impl SourceSide {
    pub open spec fn opp(self) -> SourceSide {
        match self {
            SourceSide::Side0 => SourceSide::Side1,
            SourceSide::Side1 => SourceSide::Side0,
        }
    }

    pub open spec fn idx(self) -> int {
        match self {
            SourceSide::Side0 => 0,
            SourceSide::Side1 => 1,
        }
    }

    pub fn other(self) -> (r: Self)
        ensures
            r == self.opp(),
    {
        match self {
            SourceSide::Side0 => SourceSide::Side1,
            SourceSide::Side1 => SourceSide::Side0,
        }
    }

    pub fn index(self) -> (r: usize)
        ensures
            r == self.idx(),
    {
        match self {
            SourceSide::Side0 => 0,
            SourceSide::Side1 => 1,
        }
    }
}

/// The normalized player identity both engines expect.
#[derive(Clone, Copy, Debug, PartialEq, Eq, Structural, Hash, PartialOrd, Ord)]
pub enum EnginePlayer {
    P1,
    P2,
}

impl EnginePlayer {
    pub open spec fn opp(self) -> EnginePlayer {
        match self {
            EnginePlayer::P1 => EnginePlayer::P2,
            EnginePlayer::P2 => EnginePlayer::P1,
        }
    }

    pub open spec fn idx(self) -> int {
        match self {
            EnginePlayer::P1 => 0,
            EnginePlayer::P2 => 1,
        }
    }

    pub fn other(self) -> (r: Self)
        ensures
            r == self.opp(),
    {
        match self {
            EnginePlayer::P1 => EnginePlayer::P2,
            EnginePlayer::P2 => EnginePlayer::P1,
        }
    }

    pub fn index(self) -> (r: usize)
        ensures
            r == self.idx(),
    {
        match self {
            EnginePlayer::P1 => 0,
            EnginePlayer::P2 => 1,
        }
    }
}

#[derive(Clone, Copy, Debug, PartialEq, Eq, Structural)]
pub enum SourceStatus {
    Done,
    Timeout,
    Left,
}

#[derive(Clone, Debug, PartialEq, Eq)]
pub struct SourceRoom {
    pub id: u64,
    pub name: String,
    pub battle_rule_id: u32,
    pub deck_format_id: u64,
}

#[derive(Clone, Debug, PartialEq, Eq)]
pub struct ReplayMetadata {
    pub battle_id: u64,
    pub captured_at: String,
    pub creation_time: u64,
    pub room: Option<SourceRoom>,
    pub battle_rule_id: u32,
    pub night: bool,
    pub source_status: SourceStatus,
    pub source_first_side: SourceSide,
    pub recording_player_id: Option<u64>,
    pub recording_side: Option<SourceSide>,
    pub source_snapshot_count: u32,
    pub source_issues: Vec<String>,
}

#[derive(Clone, Debug, PartialEq, Eq)]
pub struct SourceClub {
    pub id: u64,
    pub name: String,
}

/// Profile fields from the capture, kept apart from engine resources.
#[derive(Clone, Debug, PartialEq, Eq)]
pub struct SourceProfile {
    pub id: u64,
    pub name: String,
    pub level: u16,
    pub grade: String,
    pub country: String,
    pub club: Option<SourceClub>,
    pub registration_time: u64,
    pub certification_level: u16,
}

#[derive(Clone, Debug, PartialEq, Eq)]
pub struct SourceModifier {
    pub id: u32,
    pub description: String,
}

#[derive(Clone, Debug, PartialEq, Eq)]
pub struct ReplayCard {
    pub key: CardKey,
    pub hand_index: u8,
    pub source_name: String,
    pub source_clan: String,
    pub in_battle_id: u32,
    pub state: String,
    pub source_ability: Option<SourceModifier>,
    pub source_bonus: Option<SourceModifier>,
}

#[derive(Clone, Debug, PartialEq, Eq)]
pub struct ReplayPlayer {
    pub engine_player: EnginePlayer,
    pub source_side: SourceSide,
    pub profile: SourceProfile,
    pub base_life: u16,
    pub base_pillz: u16,
    /// Cards ordered by `hand_index`, which is the set `0..4`.
    pub hand: [ReplayCard; 4],
}

/// A selection, in the order it was submitted during the round.
#[derive(Clone, Copy, Debug, PartialEq, Eq, Structural)]
pub struct ReplayPlay {
    pub engine_player: EnginePlayer,
    pub source_side: SourceSide,
    pub hand_index: u8,
    pub card: CardKey,
    /// Engine convention: excludes the free pill and Fury's three.
    pub pillz: u16,
    pub source_pillz_used: u16,
    pub fury: bool,
    pub source_timestamp_ms: u64,
}

#[derive(Clone, Copy, Debug, PartialEq, Eq, Structural)]
pub struct ExpectedPlayerState {
    pub life: u16,
    pub pillz: u16,
}

#[derive(Clone, Copy, Debug, PartialEq, Eq, Structural)]
pub struct ExpectedCardResult {
    pub power: u16,
    /// The transient damage reported at resolution, before later snapshots revert it.
    pub damage: u16,
    pub attack: u32,
    pub won: bool,
}

#[derive(Clone, Copy, Debug, PartialEq, Eq)]
pub struct ReplayRound {
    pub round: u8,
    pub first_mover: EnginePlayer,
    pub source_first_side: SourceSide,
    /// Actual move order: first mover, then second mover.
    pub plays: [ReplayPlay; 2],
    /// Engine P1, then engine P2.
    pub expected_player_states: [ExpectedPlayerState; 2],
    /// Engine P1, then engine P2. Old captures may lack card results.
    pub expected_card_results: [Option<ExpectedCardResult>; 2],
}

/// Versioned, engine-independent replay input and expected output.
#[derive(Clone, Debug, PartialEq, Eq)]
pub struct ReplayCaseV1 {
    pub schema_version: u16,
    pub metadata: ReplayMetadata,
    /// Engine P1 is the source's first player, then engine P2.
    pub players: [ReplayPlayer; 2],
    /// Only the fully resolved prefix of the embedded testcase.
    pub rounds: Vec<ReplayRound>,
}

} // verus!
