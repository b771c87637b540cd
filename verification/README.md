# pillz_engine

A verified rules engine for a two-player, four-round card duel, and the replay tooling
that checks it against recorded games.

Each round both players commit one card of their hand and a Pillz bet. Attack is the
card's Power times the Pillz placed (the free pill included); the larger Attack wins, ties
going to the lower card level and then to the first mover; the loser takes the winner's
Damage (Fury adds two and costs three Pillz). Admitted end-of-round effects then settle
Life and Pillz.

## Layout

- `src/engine/` - the base-rules game (`round.rs`), end-of-round effects and permanents
  (`post_round.rs`), and the combat-stat diagnostic projection: its vocabulary
  (`combat_stat_types.rs`), which plans it admits (`combat_stat_admission.rs`), the hand
  contexts it refuses (`combat_stat_context.rs`), modifiers (`combat_stat_modifiers.rs`),
  how sources act in a round (`combat_stat_resolution.rs`), match construction
  (`combat_stat_construction.rs`), predicates (`combat_stat_predicate.rs`) and rounds
  (`combat_stat_diagnostic.rs`). `laws.rs` and `combat_stat_laws.rs` hold the proved laws.
- `src/replay/` - the replay model, capture normalization (`adapter.rs`), replay
  validation and effects-disabled execution (`execute.rs`), and the text of their errors
  (`text.rs`).
- `src/catalog.rs` - canonical card stats by identity.
- `app/` - JSON reading and writing, loading a directory of captures, error messages.
- `tests/` - scenario tests.

## How a diagnostic round resolves

Construction (`combat_stat_construction.rs`) refuses a match only for a card mismatch, a
plan that validation (`combat_stat_admission.rs`) refuses, or a hand context the context
checks (`combat_stat_context.rs`) refuse. Every admitted match plays. A round
(`combat_stat_resolution.rs`, `combat_stat_modifiers.rs`, `combat_stat_diagnostic.rs`)
goes in this order:

- A Copy whose own condition holds adopts the opposing selected card's plan of the copied
  kind, which keeps its own predicate; each source then fires under its predicate.
- A source is stopped when the opposing card fires the Stop of its slot, unless a
  `Protection:` of that slot on the owner's other source itself escaped the Stops. Stops
  are simultaneous.
- The printed-stat phase: a card's Power or Damage takes the opposing printed value where
  its owner copies it, either side exchanges it, or the opposing side imposes it.
- Scaled magnitudes bind: the Support count, the round factor, the anti-support count, the
  owner's round-start Life and Pillz and what it has lost of them, the opposing card's
  stars (its level), and the opposing card's Power or Damage as the round's other bound
  modifiers leave it. A bound amount past `u16` refuses the round with
  `ArithmeticOverflow` at the `EffectMagnitude` stage.
- Each card takes its owner's modifiers, ability before bonus, and then the opposing ones.
  A floor leaves a value at or under it alone, and a cap does the same from above. A
  Protection of a stat refuses the opposing cuts of it, and a live cancel of a stat drops
  every modifier of it that the opposing card's sources make. `Tune Out` sets both Powers
  to 1 and ignores Attack modifiers.
- End-of-round work follows `post_round_of` on the bound sources. The opposing card's live
  resource cancel drops the Life, the Pillz, or (for Pillz And Life) both kinds and the
  compounds; both-players work and permanents are kept.

Two limits remain. The identity (source kind) and predicate locks of the reserved Victory
and Equalizer opponent-Life ids are not checked; only their magnitudes are. And a few hand
contexts in which no recorded round shows which of two effects lands first are played by
the order above rather than refused.

Every function in `src/` is verified by Verus against its contract; the only trusted items
are the text-rendering wrappers around std's `format!` in `src/replay/text.rs`.
