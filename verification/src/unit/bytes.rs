//! Byte counts.
use crate::unit::{DisplayValue, Kind};
use vstd::prelude::*;

verus! {

/// Byte counts in decimal scales: `B`, `KB`, `MB`, `GB` and so on.
#[derive(Clone, Copy, Debug, Default)]
pub struct Bytes;

impl DisplayValue for Bytes {
    open spec fn kind(self) -> Kind {
        Kind::Bytes
    }

    fn into_kind(self) -> (kind: Kind) {
        Kind::Bytes
    }
}

} // verus!
