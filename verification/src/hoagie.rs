//! A sandwich, measured by its weight.

use vstd::prelude::*;

verus! {

/// A hoagie of a given weight.
pub struct Hoagie {
    pub weight: u32,
}

impl Hoagie {
    /// A hoagie of the given weight.
    pub fn new(weight: u32) -> (h: Hoagie)
        ensures
            h.weight == weight,
    {
        Hoagie { weight }
    }
}

} // verus!
