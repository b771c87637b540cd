//! A captured game as the recorder wrote it, before normalization.

use vstd::prelude::*;

verus! {

/// A captured game. Its JSON form is read outside the library.
#[derive(Clone, Debug, PartialEq, Eq)]
pub struct CapturedGame {
    pub id: u64,
    pub captured_at: String,
    pub creation_time: u64,
    pub room: Option<CapturedRoom>,
    pub battle_rule_id: u32,
    pub night: bool,
    pub my_id: Option<u64>,
    pub my_side: Option<i64>,
    pub first_player: Option<i64>,
    pub players: Vec<CapturedPlayer>,
    pub rounds: Vec<CapturedRound>,
    pub final_status: String,
    pub snapshots: u32,
    pub issues: Vec<String>,
    pub testcase: Option<CapturedTestcase>,
}

impl CapturedGame {
    pub fn battle_id(&self) -> (r: u64)
        ensures
            r == self.id,
    {
        self.id
    }
}

#[derive(Clone, Debug, PartialEq, Eq)]
pub struct CapturedRoom {
    pub id: u64,
    pub name: String,
    pub id_battle_rule: u32,
    pub id_deck_format: u64,
}

#[derive(Clone, Debug, PartialEq, Eq)]
pub struct CapturedPlayer {
    pub side: i64,
    pub id: u64,
    pub name: String,
    pub level: i64,
    pub grade: String,
    pub country: String,
    pub club: Option<CapturedClub>,
    pub registration_time: u64,
    pub certification_level: i64,
    pub base_life: i64,
    pub base_pillz: i64,
    pub hand: Vec<CapturedCard>,
}

#[derive(Clone, Debug, PartialEq, Eq)]
pub struct CapturedClub {
    pub id: u64,
    pub name: String,
}

#[derive(Clone, Debug, PartialEq, Eq)]
pub struct CapturedCard {
    pub id: u32,
    pub name: Option<String>,
    pub clan: Option<String>,
    pub level: i64,
    pub index: i64,
    pub in_battle_id: u32,
    pub state: String,
    pub ability: Option<CapturedModifier>,
    pub bonus: Option<CapturedModifier>,
}

#[derive(Clone, Debug, PartialEq, Eq)]
pub struct CapturedModifier {
    pub id: u32,
    pub description: String,
}

#[derive(Clone, Debug, PartialEq, Eq)]
pub struct CapturedRound {
    pub round: i64,
    pub first: Option<i64>,
    pub moves: Vec<CapturedMove>,
    pub resolution: [Option<CapturedResolution>; 2],
    pub life: [Option<i64>; 2],
    pub pillz: [Option<i64>; 2],
}

#[derive(Clone, Copy, Debug, PartialEq, Eq, Structural)]
pub struct CapturedMove {
    pub side: i64,
    pub index: i64,
    pub card_id: u32,
    pub pillz: i64,
    pub pillz_used: i64,
    pub fury: bool,
    pub t: u64,
}

#[derive(Clone, Copy, Debug, PartialEq, Eq, Structural)]
pub struct CapturedResolution {
    pub power: i64,
    pub damage: i64,
    pub damage_after: i64,
    pub attack: i64,
    pub won: bool,
}

#[derive(Clone, Debug, PartialEq, Eq)]
pub struct CapturedTestcase {
    pub cards: Vec<String>,
    pub levels: Vec<i64>,
    pub night: bool,
    pub flip: bool,
    pub life: i64,
    pub pillz: i64,
    pub moves: Vec<CapturedTestcaseMove>,
}

#[derive(Clone, Copy, Debug, PartialEq, Eq)]
pub struct CapturedTestcaseMove {
    pub s1: (i64, i64, bool),
    pub s2: (i64, i64, bool),
    pub p1life: i64,
    pub p2life: i64,
    pub p1pillz: i64,
    pub p2pillz: i64,
    pub r1: Option<CapturedTestcaseResult>,
    pub r2: Option<CapturedTestcaseResult>,
}

#[derive(Clone, Copy, Debug, PartialEq, Eq, Structural)]
pub struct CapturedTestcaseResult {
    pub power: i64,
    pub damage: i64,
    pub attack: i64,
    pub won: bool,
}

} // verus!
