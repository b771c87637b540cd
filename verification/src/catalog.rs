//! The canonical card stats a replay binds to: clan, Power and Damage by card identity.

use crate::card::CardKey;
use vstd::prelude::*;

verus! {

/// One card's canonical entry.
#[derive(Clone, Copy, Debug, PartialEq, Eq, Structural, Hash)]
pub struct CanonicalCard {
    pub key: CardKey,
    pub clan_id: u32,
    pub power: u8,
    pub damage: u8,
}

/// The first entry for `key`, if any.
pub open spec fn lookup(entries: Seq<CanonicalCard>, key: CardKey) -> Option<CanonicalCard>
    decreases entries.len(),
{
    if entries.len() == 0 {
        None
    } else if entries[0].key == key {
        Some(entries[0])
    } else {
        lookup(entries.drop_first(), key)
    }
}

/// A card catalog: canonical entries, looked up by identity.
#[derive(Clone, Debug, PartialEq, Eq)]
pub struct CardCatalog {
    cards: Vec<CanonicalCard>,
}

impl CardCatalog {
    pub closed spec fn entries(self) -> Seq<CanonicalCard> {
        self.cards@
    }

    pub fn new(cards: Vec<CanonicalCard>) -> (r: Self)
        ensures
            r.entries() == cards@,
    {
        CardCatalog { cards }
    }

    /// The canonical entry for `key`, if the catalog has one.
    pub fn get(&self, key: CardKey) -> (r: Option<CanonicalCard>)
        ensures
            r == lookup(self.entries(), key),
    {
        let mut i: usize = 0;
        assert(self.cards@.skip(0) =~= self.cards@);
        while i < self.cards.len()
            invariant
                i <= self.cards@.len(),
                lookup(self.cards@, key) == lookup(self.cards@.skip(i as int), key),
            decreases self.cards@.len() - i,
        {
            let entry = self.cards[i];
            assert(self.cards@.skip(i as int)[0] == entry);
            assert(self.cards@.skip(i as int).drop_first() =~= self.cards@.skip(i as int + 1));
            if entry.key == key {
                return Some(entry);
            }
            i += 1;
        }
        assert(self.cards@.skip(i as int).len() == 0);
        None
    }
}

} // verus!
