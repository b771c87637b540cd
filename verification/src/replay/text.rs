//! The text of replay and adapter errors. Each renderer is one call of std's `format!`, and
//! says what it writes where a few lines can: numbers in decimal, texts joined in order.

use super::model::{EnginePlayer, ExpectedCardResult, SourceSide};
use crate::engine::PlayerId;
use vstd::prelude::*;

verus! {

/// The decimal digit `d`, for `d` below ten.
pub open spec fn digit(d: nat) -> char {
    (48 + d) as char
}

/// A number written in decimal, as std's `Display` writes an unsigned integer.
pub open spec fn decimal(n: nat) -> Seq<char>
    decreases n,
{
    if n < 10 {
        seq![digit(n)]
    } else {
        decimal(n / 10).push(digit(n % 10))
    }
}

/// A signed number written in decimal, with a leading `-` below zero.
pub open spec fn signed_decimal(v: int) -> Seq<char> {
    if v < 0 {
        seq!['-'] + decimal((-v) as nat)
    } else {
        decimal(v as nat)
    }
}

/// `[index]` in decimal.
pub open spec fn bracketed(index: nat) -> Seq<char> {
    seq!['['] + decimal(index) + seq![']']
}

/// A flag as `true` or `false`.
pub open spec fn flag_text_spec(value: bool) -> Seq<char> {
    if value {
        "true"@
    } else {
        "false"@
    }
}

pub open spec fn side_text_spec(side: SourceSide) -> Seq<char> {
    match side {
        SourceSide::Side0 => "Side0"@,
        SourceSide::Side1 => "Side1"@,
    }
}

pub open spec fn player_text_spec(player: PlayerId) -> Seq<char> {
    match player {
        PlayerId::P1 => "P1"@,
        PlayerId::P2 => "P2"@,
    }
}

pub open spec fn engine_text_spec(player: EnginePlayer) -> Seq<char> {
    match player {
        EnginePlayer::P1 => "P1"@,
        EnginePlayer::P2 => "P2"@,
    }
}

/// Renders `base[index]rest` with std's `format!`, the index in decimal.
#[verifier::external_body]
pub(crate) fn indexed_text(base: &str, index: usize, rest: &str) -> (r: String)
    ensures
        r@ == base@ + bracketed(index as nat) + rest@,
{
    format!("{base}[{index}]{rest}")
}

/// Renders `base[first]middle[second]rest` with std's `format!`, the indices in decimal.
#[verifier::external_body]
pub(crate) fn twice_indexed_text(
    base: &str,
    first: usize,
    middle: &str,
    second: usize,
    rest: &str,
) -> (r: String)
    ensures
        r@ == base@ + bracketed(first as nat) + middle@ + bracketed(second as nat) + rest@,
{
    format!("{base}[{first}]{middle}[{second}]{rest}")
}

/// Renders `before`, a signed number in decimal, then `after` with std's `format!`.
#[verifier::external_body]
pub(crate) fn number_text(before: &str, value: i64, after: &str) -> (r: String)
    ensures
        r@ == before@ + signed_decimal(value as int) + after@,
{
    format!("{before}{value}{after}")
}

/// Renders `before`, a count in decimal, then `after` with std's `format!`.
#[verifier::external_body]
pub(crate) fn count_text(before: &str, value: u64, after: &str) -> (r: String)
    ensures
        r@ == before@ + decimal(value as nat) + after@,
{
    format!("{before}{value}{after}")
}

/// Renders `before`, a count, `middle`, a second count, then `after` with std's `format!`,
/// the counts in decimal.
#[verifier::external_body]
pub(crate) fn two_numbers_text(
    before: &str,
    first: u64,
    middle: &str,
    second: u64,
    after: &str,
) -> (r: String)
    ensures
        r@ == before@ + decimal(first as nat) + middle@ + decimal(second as nat) + after@,
{
    format!("{before}{first}{middle}{second}{after}")
}

/// Joins six texts in order with std's `format!`.
#[verifier::external_body]
pub(crate) fn joined_text(a: &str, b: &str, c: &str, d: &str, e: &str, f: &str) -> (r: String)
    ensures
        r@ == a@ + b@ + c@ + d@ + e@ + f@,
{
    format!("{a}{b}{c}{d}{e}{f}")
}

/// Renders a flag with std's `format!`: `true` or `false`.
#[verifier::external_body]
pub(crate) fn bool_text(value: bool) -> (r: String)
    ensures
        r@ == flag_text_spec(value),
{
    format!("{value:?}")
}

/// An optional card result as its derived `Debug` form writes it.
pub open spec fn result_text_spec(value: Option<ExpectedCardResult>) -> Seq<char> {
    match value {
        None => "None"@,
        Some(c) => "Some(ExpectedCardResult { power: "@ + decimal(c.power as nat) + ", damage: "@
            + decimal(c.damage as nat) + ", attack: "@ + decimal(c.attack as nat) + ", won: "@
            + flag_text_spec(c.won) + " })"@,
    }
}

/// A text as `Debug` writes it: quoted, with std's escapes.
pub uninterp spec fn debug_quoted(value: Seq<char>) -> Seq<char>;

/// Renders an optional card result with std's `format!` in its derived `Debug` form.
#[verifier::external_body]
pub(crate) fn result_text(value: Option<ExpectedCardResult>) -> (r: String)
    ensures
        r@ == result_text_spec(value),
{
    format!("{value:?}")
}

/// Renders `before` and then a text quoted and escaped with std's `format!`; the quoted part
/// is named, not stated: std's escapes take more than a few lines.
#[verifier::external_body]
pub(crate) fn quoted_text(before: &str, value: &str) -> (r: String)
    ensures
        r@ == before@ + debug_quoted(value@),
{
    format!("{before}{value:?}")
}

pub(crate) fn side_name(side: SourceSide) -> (r: &'static str)
    ensures
        r@ == side_text_spec(side),
{
    match side {
        SourceSide::Side0 => "Side0",
        SourceSide::Side1 => "Side1",
    }
}

pub(crate) fn player_name(player: PlayerId) -> (r: &'static str)
    ensures
        r@ == player_text_spec(player),
{
    match player {
        PlayerId::P1 => "P1",
        PlayerId::P2 => "P2",
    }
}

pub(crate) fn engine_name(player: EnginePlayer) -> (r: &'static str)
    ensures
        r@ == engine_text_spec(player),
{
    match player {
        EnginePlayer::P1 => "P1",
        EnginePlayer::P2 => "P2",
    }
}

} // verus!
