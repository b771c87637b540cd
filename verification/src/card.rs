//! Card identity.

use vstd::prelude::*;

verus! {

/// A card identity: the character id and its star level.
#[derive(Clone, Copy, Debug, PartialEq, Eq, Structural, Hash)]
pub struct CardKey {
    pub id: u32,
    pub level: u8,
}

impl CardKey {
    pub fn new(id: u32, level: u8) -> (key: Self)
        ensures
            key.id == id,
            key.level == level,
    {
        CardKey { id, level }
    }
}

} // verus!
