//! A verified rules engine for a two-player, four-round card duel: each round both
//! players commit one card of their hand and a Pillz bet, the larger Attack wins, the
//! loser takes the winner's Damage, and admitted end-of-round effects then settle Life
//! and Pillz.

pub mod card;
pub mod catalog;
pub mod engine;
pub mod replay;
