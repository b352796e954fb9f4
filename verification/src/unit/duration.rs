//! Spans of time.
use crate::unit::{DisplayValue, Kind};
use vstd::prelude::*;

verus! {

/// Spans of whole seconds, each shown in its own best-fitting time unit.
#[derive(Clone, Copy, Debug, Default)]
pub struct Duration;

impl DisplayValue for Duration {
    open spec fn kind(self) -> Kind {
        Kind::Duration
    }

    fn into_kind(self) -> (kind: Kind) {
        Kind::Duration
    }
}

} // verus!
