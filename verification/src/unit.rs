//! Units of progress and the text they render a value to.
//!
//! A [`Unit`] pairs a [`Kind`], which says how a number reads, with an
//! optional [`Mode`], which says whether a percentage and a rate accompany
//! it. [`Unit::display`] binds a unit to a value; the resulting
//! [`UnitDisplay`] renders the whole text or either of its two segments.
pub mod bytes;
pub mod display;
pub mod duration;
pub mod human;
pub mod range;
pub mod scale;
pub mod text;
pub mod time;

pub use self::bytes::Bytes;
pub use self::display::{Mode, Throughput, UnitDisplay, What};
pub use self::duration::Duration;
pub use self::human::Human;
pub use self::range::Range;

use self::human::Formatter;
use self::scale::{bytes_text, human_text, push_bytes, push_human, thousand_pow, thousands};
use self::text::{decimal, lemma_decimal_nonempty, push_decimal};
use self::time::{push_span, span_text};
use vstd::prelude::*;
use vstd::string::StringExecFns;

verus! {

/// How a unit reads a number.
#[derive(Clone, Copy, Debug)]
pub enum Kind {
    /// The plain number, followed by a fixed label: `123/500 items`.
    Label(&'static str),
    /// A step out of a number of steps, counted from one: `2 of 3 steps`.
    Range(&'static str),
    /// A count in its best-fitting decimal scale, followed by a noun:
    /// `100.0k/7.5M objects`.
    Human(Formatter, &'static str),
    /// A byte count in its best-fitting decimal scale: `1.0KB/10.0GB`.
    Bytes,
    /// Whole seconds, each number in its own best-fitting time unit:
    /// `40s of 5m`.
    Duration,
}

impl Kind {
    /// The text of the current value.
    pub open spec fn value_text(self, value: u64) -> Seq<char> {
        match self {
            Kind::Label(_) => decimal(value as nat),
            Kind::Range(_) => decimal((value + 1) as nat),
            Kind::Human(formatter, _) => human_text(value as nat, formatter.decimals as nat),
            Kind::Bytes => bytes_text(value as nat),
            Kind::Duration => span_text(value as nat),
        }
    }

    /// The text of the upper bound.
    pub open spec fn bound_text(self, upper_bound: u64) -> Seq<char> {
        match self {
            Kind::Label(_) => decimal(upper_bound as nat),
            Kind::Range(_) => decimal(upper_bound as nat),
            Kind::Human(formatter, _) => human_text(upper_bound as nat, formatter.decimals as nat),
            Kind::Bytes => bytes_text(upper_bound as nat),
            Kind::Duration => span_text(upper_bound as nat),
        }
    }

    /// What stands between the current value and the upper bound.
    pub open spec fn separator(self) -> Seq<char> {
        match self {
            Kind::Range(_) => " of "@,
            Kind::Duration => " of "@,
            _ => "/"@,
        }
    }

    /// The current value, followed by separator and upper bound where there
    /// is a bound.
    pub open spec fn values_text(self, value: u64, upper_bound: Option<u64>) -> Seq<char> {
        match upper_bound {
            Some(upper) => self.value_text(value) + self.separator() + self.bound_text(upper),
            None => self.value_text(value),
        }
    }

    /// The text that names the unit; empty for the kinds whose numbers carry
    /// their unit themselves.
    pub open spec fn unit_text(self) -> Seq<char> {
        match self {
            Kind::Label(name) => name@,
            Kind::Range(name) => name@,
            Kind::Human(_, name) => name@,
            Kind::Bytes => Seq::empty(),
            Kind::Duration => Seq::empty(),
        }
    }

    /// The numbers of a unit are never empty: whatever the kind and the
    /// value, at least one digit is shown.
    pub proof fn lemma_values_text_nonempty(self, value: u64, upper_bound: Option<u64>)
        ensures
            self.value_text(value).len() > 0,
            self.values_text(value, upper_bound).len() > 0,
    {
        lemma_decimal_nonempty(value as nat);
        lemma_decimal_nonempty((value + 1) as nat);
        match self {
            Kind::Human(formatter, _) => {
                lemma_decimal_nonempty(value as nat / thousand_pow(thousands(value as nat)));
            },
            Kind::Bytes => {
                lemma_decimal_nonempty(value as nat / thousand_pow(thousands(value as nat)));
            },
            Kind::Duration => {
                lemma_decimal_nonempty(value as nat / 3_600);
                lemma_decimal_nonempty(value as nat / 60);
            },
            _ => {},
        }
    }

    /// Appends the text of the current value.
    pub fn push_value(&self, out: &mut String, value: u64)
        ensures
            final(out)@ == old(out)@ + self.value_text(value),
    {
        match self {
            Kind::Label(_) => push_decimal(out, value as u128),
            Kind::Range(_) => push_decimal(out, value as u128 + 1),
            Kind::Human(formatter, _) => push_human(out, value, formatter.decimals),
            Kind::Bytes => push_bytes(out, value),
            Kind::Duration => push_span(out, value),
        }
    }

    /// Appends the text of the upper bound.
    pub fn push_bound(&self, out: &mut String, upper_bound: u64)
        ensures
            final(out)@ == old(out)@ + self.bound_text(upper_bound),
    {
        match self {
            Kind::Label(_) => push_decimal(out, upper_bound as u128),
            Kind::Range(_) => push_decimal(out, upper_bound as u128),
            Kind::Human(formatter, _) => push_human(out, upper_bound, formatter.decimals),
            Kind::Bytes => push_bytes(out, upper_bound),
            Kind::Duration => push_span(out, upper_bound),
        }
    }

    /// Appends the current value and, where there is one, the upper bound.
    pub fn push_values(&self, out: &mut String, value: u64, upper_bound: Option<u64>)
        ensures
            final(out)@ == old(out)@ + self.values_text(value, upper_bound),
    {
        self.push_value(out, value);
        if let Some(upper) = upper_bound {
            let separator: &'static str = match self {
                Kind::Range(_) => " of ",
                Kind::Duration => " of ",
                _ => "/",
            };
            out.append(separator);
            self.push_bound(out, upper);
        }
        assert(out@ =~= old(out)@ + self.values_text(value, upper_bound));
    }

    /// The text that names the unit.
    pub fn unit_name(&self) -> (name: &'static str)
        ensures
            name@ == self.unit_text(),
    {
        match self {
            Kind::Label(name) => name,
            Kind::Range(name) => name,
            Kind::Human(_, name) => name,
            Kind::Bytes => {
                proof {
                    reveal_strlit("");
                }
                assert(""@ =~= Seq::<char>::empty());
                ""
            },
            Kind::Duration => {
                proof {
                    reveal_strlit("");
                }
                assert(""@ =~= Seq::<char>::empty());
                ""
            },
        }
    }
}

/// A value that stands for one of the dynamic kinds of unit.
pub trait DisplayValue: Sized {
    /// The kind this value stands for.
    spec fn kind(self) -> Kind;

    /// Turns the value into its kind.
    fn into_kind(self) -> (kind: Kind)
        ensures
            kind == self.kind(),
    ;
}

/// A kind of unit together with the way it is displayed.
#[derive(Clone, Copy, Debug)]
pub struct Unit {
    /// How numbers read.
    pub kind: Kind,
    /// What accompanies the numbers; without a mode, nothing does.
    pub mode: Option<Mode>,
}

/// A unit that shows plain numbers followed by `name`.
pub fn label(name: &'static str) -> (unit: Unit)
    ensures
        unit == (Unit { kind: Kind::Label(name), mode: None }),
{
    Unit { kind: Kind::Label(name), mode: None }
}

/// A unit that shows plain numbers followed by `name`, accompanied by what
/// `mode` asks for.
pub fn label_and_mode(name: &'static str, mode: Mode) -> (unit: Unit)
    ensures
        unit == (Unit { kind: Kind::Label(name), mode: Some(mode) }),
{
    Unit { kind: Kind::Label(name), mode: Some(mode) }
}

/// A unit of the dynamic kind that `value` stands for.
pub fn dynamic<D: DisplayValue>(value: D) -> (unit: Unit)
    ensures
        unit == (Unit { kind: value.kind(), mode: None }),
{
    Unit { kind: value.into_kind(), mode: None }
}

/// A unit of the dynamic kind that `value` stands for, accompanied by what
/// `mode` asks for.
pub fn dynamic_and_mode<D: DisplayValue>(value: D, mode: Mode) -> (unit: Unit)
    ensures
        unit == (Unit { kind: value.kind(), mode: Some(mode) }),
{
    Unit { kind: value.into_kind(), mode: Some(mode) }
}

impl Unit {
    /// Binds the unit to a current value, an optional upper bound and an
    /// optional measurement of throughput. The result renders everything
    /// until it is narrowed to one segment.
    pub fn display(
        &self,
        current_value: u64,
        upper_bound: Option<u64>,
        throughput: Option<Throughput>,
    ) -> (shown: UnitDisplay)
        ensures
            shown == (UnitDisplay {
                current_value,
                upper_bound,
                throughput,
                unit: *self,
                what: What::ValuesAndUnit,
            }),
    {
        UnitDisplay {
            current_value,
            upper_bound,
            throughput,
            unit: *self,
            what: What::ValuesAndUnit,
        }
    }
}

} // verus!
