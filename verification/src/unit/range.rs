//! Steps out of a number of steps.
use crate::unit::{DisplayValue, Kind};
use vstd::prelude::*;

verus! {

/// Steps that are stored from zero and shown from one: step 0 of 3 reads
/// `1 of 3`.
#[derive(Clone, Copy, Debug)]
pub struct Range {
    /// What a step is called.
    pub name: &'static str,
}

impl Range {
    /// A range whose steps are called `name`.
    pub fn new(name: &'static str) -> (range: Range)
        ensures
            range.name == name,
    {
        Range { name }
    }
}

impl DisplayValue for Range {
    open spec fn kind(self) -> Kind {
        Kind::Range(self.name)
    }

    fn into_kind(self) -> (kind: Kind) {
        Kind::Range(self.name)
    }
}

} // verus!
