//! Counts in decimal scales.
use crate::unit::{DisplayValue, Kind};
use vstd::prelude::*;

verus! {

/// How many decimals a scaled count is shown with.
#[derive(Clone, Copy, Debug)]
pub struct Formatter {
    /// The number of digits after the decimal point.
    pub decimals: u8,
}

impl Formatter {
    /// A formatter that shows one decimal.
    pub fn new() -> (formatter: Formatter)
        ensures
            formatter.decimals == 1,
    {
        Formatter { decimals: 1 }
    }

    /// Sets the number of digits after the decimal point.
    pub fn with_decimals(&mut self, decimals: u8)
        ensures
            final(self).decimals == decimals,
    {
        self.decimals = decimals;
    }
}

/// Counts in decimal scales (`k`, `M`, `G` and so on), followed by a noun.
#[derive(Clone, Copy, Debug)]
pub struct Human {
    /// What is counted.
    pub name: &'static str,
    /// How the count is shown.
    pub formatter: Formatter,
}

impl Human {
    /// Counts of `name`, shown as `formatter` says.
    pub fn new(formatter: Formatter, name: &'static str) -> (human: Human)
        ensures
            human.name == name,
            human.formatter == formatter,
    {
        Human { name, formatter }
    }
}

impl DisplayValue for Human {
    open spec fn kind(self) -> Kind {
        Kind::Human(self.formatter, self.name)
    }

    fn into_kind(self) -> (kind: Kind) {
        Kind::Human(self.formatter, self.name)
    }
}

} // verus!
