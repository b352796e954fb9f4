//! The text of a unit bound to a value.
//!
//! The text has two segments. The values segment holds the numbers, the unit
//! segment what the numbers are of. A percentage stands in front of the
//! numbers or behind the unit, as the [`Mode`] says; a rate always closes the
//! unit segment. Pieces are joined by single spaces, and a piece that is
//! empty takes no space.
use crate::unit::text::{decimal, lemma_decimal_nonempty, push_decimal};
use crate::unit::time::{interval_text, push_interval};
use crate::unit::Unit;
use vstd::prelude::*;
use vstd::string::StringExecFns;

verus! {

/// What accompanies the numbers of a unit.
#[derive(Clone, Copy, Debug, PartialEq, Eq)]
pub struct Mode {
    /// Whether to show how much of the upper bound is reached.
    pub show_percentage: bool,
    /// Whether the percentage stands in front of the numbers rather than
    /// behind the unit.
    pub percentage_before_value: bool,
    /// Whether to show the rate of change.
    pub show_throughput: bool,
}

impl Mode {
    /// A mode that shows the percentage, behind the unit.
    pub fn with_percentage() -> (mode: Mode)
        ensures
            mode == (Mode {
                show_percentage: true,
                percentage_before_value: false,
                show_throughput: false,
            }),
    {
        Mode { show_percentage: true, percentage_before_value: false, show_throughput: false }
    }

    /// A mode that shows the throughput.
    pub fn with_throughput() -> (mode: Mode)
        ensures
            mode == (Mode {
                show_percentage: false,
                percentage_before_value: false,
                show_throughput: true,
            }),
    {
        Mode { show_percentage: false, percentage_before_value: false, show_throughput: true }
    }

    /// The same mode, with the percentage shown.
    pub fn and_percentage(self) -> (mode: Mode)
        ensures
            mode == (Mode { show_percentage: true, ..self }),
    {
        Mode { show_percentage: true, ..self }
    }

    /// The same mode, with the throughput shown.
    pub fn and_throughput(self) -> (mode: Mode)
        ensures
            mode == (Mode { show_throughput: true, ..self }),
    {
        Mode { show_throughput: true, ..self }
    }

    /// The same mode, with the percentage in front of the numbers.
    pub fn show_before_value(self) -> (mode: Mode)
        ensures
            mode == (Mode { percentage_before_value: true, ..self }),
    {
        Mode { percentage_before_value: true, ..self }
    }
}

/// The whole milliseconds in a span of time, as `Duration::as_millis` counts
/// them.
pub uninterp spec fn duration_millis(timespan: core::time::Duration) -> nat;

/// Calls `Duration::as_millis`, which returns the number of whole
/// milliseconds that the span holds. The span is opaque here, so the
/// contract only gives that number its name.
#[verifier::external_body]
fn whole_millis(timespan: &core::time::Duration) -> (millis: u128)
    ensures
        millis == duration_millis(*timespan),
{
    timespan.as_millis()
}

/// A measurement of throughput: how much a value changed within a span of
/// time.
#[derive(Clone, Copy, Debug)]
pub struct Throughput {
    /// The change of the value between the previous measurement and this
    /// one.
    pub value_change_in_timespan: u64,
    /// The time that passed between the previous measurement and this one.
    pub timespan: core::time::Duration,
}

impl Throughput {
    /// A change of `value_change_in_timespan` within `timespan`.
    pub fn new(value_change_in_timespan: u64, timespan: core::time::Duration) -> (throughput: Throughput)
        ensures
            throughput == (Throughput { value_change_in_timespan, timespan }),
    {
        Throughput { value_change_in_timespan, timespan }
    }
}

/// Which segments of the text are rendered.
#[derive(Clone, Copy, Debug)]
pub enum What {
    /// Both segments, joined.
    ValuesAndUnit,
    /// The unit segment alone.
    Unit,
    /// The values segment alone.
    Values,
}

/// Two pieces of text joined by a single space, which is left out where
/// either piece is empty.
pub open spec fn spaced(a: Seq<char>, b: Seq<char>) -> Seq<char> {
    if a.len() == 0 {
        b
    } else if b.len() == 0 {
        a
    } else {
        a + " "@ + b
    }
}

/// The share of `upper_bound` that `value` has reached, in whole percent,
/// rounded down. There is none where the mode does not ask for it, and none
/// without a bound to measure against: no bound at all, or a bound of zero.
pub open spec fn percentage_of(
    mode: Option<Mode>,
    value: u64,
    upper_bound: Option<u64>,
) -> Option<nat> {
    match (mode, upper_bound) {
        (Some(mode), Some(upper)) => if mode.show_percentage && upper > 0 {
            Some((value * 100 / (upper as int)) as nat)
        } else {
            None
        },
        _ => None,
    }
}

/// The percentage block: the number of percent in square brackets.
pub open spec fn percentage_text(percent: nat) -> Seq<char> {
    "["@ + decimal(percent) + "%]"@
}

/// The throughput block: the change, a slash and the interval it took,
/// between two bars.
pub open spec fn rate_text(value_change: nat, millis: nat) -> Seq<char> {
    "|"@ + decimal(value_change) + "/"@ + interval_text(millis) + "|"@
}

/// Appends the percentage block for `percent`.
pub fn push_percentage(out: &mut String, percent: u128)
    ensures
        final(out)@ == old(out)@ + percentage_text(percent as nat),
{
    out.append("[");
    push_decimal(out, percent);
    out.append("%]");
    assert(out@ =~= old(out)@ + percentage_text(percent as nat));
}

/// Appends the throughput block for a change of `value_change` within
/// `millis` milliseconds.
pub fn push_rate(out: &mut String, value_change: u64, millis: u128)
    ensures
        final(out)@ == old(out)@ + rate_text(value_change as nat, millis as nat),
{
    out.append("|");
    push_decimal(out, value_change as u128);
    out.append("/");
    push_interval(out, millis);
    out.append("|");
    assert(out@ =~= old(out)@ + rate_text(value_change as nat, millis as nat));
}

/// Appends `piece` to `out`, after a single space where both hold text.
pub fn push_spaced(out: &mut String, piece: &str)
    ensures
        final(out)@ == spaced(old(out)@, piece@),
{
    if piece.is_empty() {
        return ;
    }
    if !out.as_str().is_empty() {
        out.append(" ");
    }
    out.append(piece);
    assert(out@ =~= spaced(old(out)@, piece@));
}

/// A unit bound to a value: everything that one rendering needs.
#[derive(Clone, Copy, Debug)]
pub struct UnitDisplay {
    /// The value to show.
    pub current_value: u64,
    /// The value at which the work is done, where it is known.
    pub upper_bound: Option<u64>,
    /// The latest measurement of throughput. There is none until a second
    /// value has been seen, as a single value has no rate.
    pub throughput: Option<Throughput>,
    /// The unit that renders the value.
    pub unit: Unit,
    /// The segments to render.
    pub what: What,
}

impl UnitDisplay {
    /// The percentage to show, if any.
    pub open spec fn percent(&self) -> Option<nat> {
        percentage_of(self.unit.mode, self.current_value, self.upper_bound)
    }

    /// Whether the percentage stands in front of the numbers.
    pub open spec fn percentage_leads(&self) -> bool {
        self.unit.mode is Some && self.unit.mode->0.percentage_before_value
    }

    /// The percentage block in front of the numbers: empty unless there is a
    /// percentage and the mode puts it there.
    pub open spec fn leading_percentage(&self) -> Seq<char> {
        match self.percent() {
            Some(percent) => if self.percentage_leads() {
                percentage_text(percent)
            } else {
                Seq::empty()
            },
            None => Seq::empty(),
        }
    }

    /// The percentage block behind the unit: empty unless there is a
    /// percentage and the mode leaves it there.
    pub open spec fn trailing_percentage(&self) -> Seq<char> {
        match self.percent() {
            Some(percent) => if self.percentage_leads() {
                Seq::empty()
            } else {
                percentage_text(percent)
            },
            None => Seq::empty(),
        }
    }

    /// The throughput block: empty unless the mode asks for the throughput
    /// and a measurement is at hand.
    pub open spec fn throughput_text(&self) -> Seq<char> {
        match (self.unit.mode, self.throughput) {
            (Some(mode), Some(throughput)) => if mode.show_throughput {
                rate_text(
                    throughput.value_change_in_timespan as nat,
                    duration_millis(throughput.timespan),
                )
            } else {
                Seq::empty()
            },
            _ => Seq::empty(),
        }
    }

    /// The values segment: the numbers, behind the percentage where the mode
    /// puts it in front.
    pub open spec fn values_segment(&self) -> Seq<char> {
        spaced(
            self.leading_percentage(),
            self.unit.kind.values_text(self.current_value, self.upper_bound),
        )
    }

    /// The unit segment: the name of the unit, the percentage where the mode
    /// leaves it behind, and the throughput.
    pub open spec fn unit_segment(&self) -> Seq<char> {
        spaced(spaced(self.unit.kind.unit_text(), self.trailing_percentage()), self.throughput_text())
    }

    /// Both segments, joined.
    pub open spec fn full_text(&self) -> Seq<char> {
        spaced(self.values_segment(), self.unit_segment())
    }

    /// The text that is rendered: the segments that `what` selects.
    pub open spec fn text(&self) -> Seq<char> {
        match self.what {
            What::ValuesAndUnit => self.full_text(),
            What::Values => self.values_segment(),
            What::Unit => self.unit_segment(),
        }
    }

    /// Renders both segments from now on.
    pub fn all(self) -> (shown: UnitDisplay)
        ensures
            shown == (UnitDisplay { what: What::ValuesAndUnit, ..self }),
    {
        UnitDisplay { what: What::ValuesAndUnit, ..self }
    }

    /// Renders the values segment alone from now on.
    pub fn values(self) -> (shown: UnitDisplay)
        ensures
            shown == (UnitDisplay { what: What::Values, ..self }),
    {
        UnitDisplay { what: What::Values, ..self }
    }

    /// Renders the unit segment alone from now on.
    pub fn unit(self) -> (shown: UnitDisplay)
        ensures
            shown == (UnitDisplay { what: What::Unit, ..self }),
    {
        UnitDisplay { what: What::Unit, ..self }
    }

    /// The percentage to show: the share of the upper bound that the value
    /// has reached, in whole percent, rounded down. There is one exactly
    /// when the mode asks for it and the bound is known and not zero.
    pub fn percentage(&self) -> (percent: Option<u128>)
        ensures
            percent is Some <==> self.unit.mode is Some && self.unit.mode->0.show_percentage
                && self.upper_bound is Some && self.upper_bound->0 > 0,
            percent is Some ==> percent->0 == self.current_value * 100 / (self.upper_bound->0
                as int),
            percent is Some ==> self.percent() == Some(percent->0 as nat),
            percent is None ==> self.percent() is None,
    {
        match (self.unit.mode, self.upper_bound) {
            (Some(mode), Some(upper)) => {
                if mode.show_percentage && upper > 0 {
                    Some(self.current_value as u128 * 100 / upper as u128)
                } else {
                    None
                }
            },
            _ => None,
        }
    }

    /// The values segment.
    pub fn values_string(&self) -> (s: String)
        ensures
            s@ == self.values_segment(),
    {
        let mut out = String::new();
        if let Some(percent) = self.percentage() {
            if self.leads() {
                push_percentage(&mut out, percent);
            }
        }
        assert(out@ =~= self.leading_percentage());
        let mut values = String::new();
        self.unit.kind.push_values(&mut values, self.current_value, self.upper_bound);
        assert(values@ =~= self.unit.kind.values_text(self.current_value, self.upper_bound));
        push_spaced(&mut out, values.as_str());
        out
    }

    /// The unit segment.
    pub fn unit_string(&self) -> (s: String)
        ensures
            s@ == self.unit_segment(),
    {
        let mut out = String::from_str(self.unit.kind.unit_name());
        let mut percentage = String::new();
        if let Some(percent) = self.percentage() {
            if !self.leads() {
                push_percentage(&mut percentage, percent);
            }
        }
        assert(percentage@ =~= self.trailing_percentage());
        push_spaced(&mut out, percentage.as_str());
        let mut rate = String::new();
        if let (Some(mode), Some(throughput)) = (self.unit.mode, self.throughput) {
            if mode.show_throughput {
                push_rate(
                    &mut rate,
                    throughput.value_change_in_timespan,
                    whole_millis(&throughput.timespan),
                );
            }
        }
        assert(rate@ =~= self.throughput_text());
        push_spaced(&mut out, rate.as_str());
        out
    }

    /// The text of the segments that were asked for.
    pub fn to_string(&self) -> (s: String)
        ensures
            s@ == self.text(),
    {
        match self.what {
            What::ValuesAndUnit => {
                let mut out = self.values_string();
                let unit = self.unit_string();
                push_spaced(&mut out, unit.as_str());
                out
            },
            What::Values => self.values_string(),
            What::Unit => self.unit_string(),
        }
    }

    /// The values segment is never empty.
    pub proof fn lemma_values_segment_nonempty(self)
        ensures
            self.values_segment().len() > 0,
    {
        self.unit.kind.lemma_values_text_nonempty(self.current_value, self.upper_bound);
    }

    /// The values segment, a single space and the unit segment give the
    /// whole text, wherever there is a unit segment to add.
    pub proof fn lemma_segments_compose(self)
        requires
            self.unit_segment().len() > 0,
        ensures
            self.full_text() == self.values_segment() + " "@ + self.unit_segment(),
    {
        self.lemma_values_segment_nonempty();
    }

    /// Where the unit segment is empty, the whole text is the values
    /// segment, with no space behind it.
    pub proof fn lemma_values_alone(self)
        requires
            self.unit_segment().len() == 0,
        ensures
            self.full_text() == self.values_segment(),
    {
        self.lemma_values_segment_nonempty();
    }

    /// The percentage moves between the segments with the mode and is never
    /// shown twice: in front, it opens the values segment and the unit
    /// segment is without it; behind, the values segment is the numbers
    /// alone and the percentage follows the name of the unit.
    pub proof fn lemma_percentage_placement(self, percent: nat)
        requires
            self.percent() == Some(percent),
        ensures
            self.percentage_leads() ==> self.values_segment() == percentage_text(percent) + " "@
                + self.unit.kind.values_text(self.current_value, self.upper_bound),
            self.percentage_leads() ==> self.unit_segment() == spaced(
                self.unit.kind.unit_text(),
                self.throughput_text(),
            ),
            !self.percentage_leads() ==> self.values_segment() == self.unit.kind.values_text(
                self.current_value,
                self.upper_bound,
            ),
            !self.percentage_leads() ==> self.unit_segment() == spaced(
                spaced(self.unit.kind.unit_text(), percentage_text(percent)),
                self.throughput_text(),
            ),
    {
        self.unit.kind.lemma_values_text_nonempty(self.current_value, self.upper_bound);
        lemma_decimal_nonempty(percent);
        assert(spaced(self.unit.kind.unit_text(), Seq::<char>::empty())
            =~= self.unit.kind.unit_text());
    }

    /// Without a percentage there is no percentage block in either segment.
    /// That is so whenever the unit has no mode, the mode does not ask for
    /// the percentage, or the upper bound is missing or zero.
    pub proof fn lemma_no_percentage(self)
        requires
            self.unit.mode is None || !self.unit.mode->0.show_percentage || self.upper_bound
                is None || self.upper_bound == Some(0u64),
        ensures
            self.percent() is None,
            self.values_segment() == self.unit.kind.values_text(
                self.current_value,
                self.upper_bound,
            ),
            self.unit_segment() == spaced(self.unit.kind.unit_text(), self.throughput_text()),
    {
        assert(spaced(self.unit.kind.unit_text(), Seq::<char>::empty())
            =~= self.unit.kind.unit_text());
    }

    /// Narrowing a display to one segment changes neither segment.
    pub proof fn lemma_narrowing_keeps_segments(self, what: What)
        ensures
            (UnitDisplay { what, ..self }).values_segment() == self.values_segment(),
            (UnitDisplay { what, ..self }).unit_segment() == self.unit_segment(),
            (UnitDisplay { what, ..self }).full_text() == self.full_text(),
    {
    }

    fn leads(&self) -> (leads: bool)
        ensures
            leads == self.percentage_leads(),
    {
        match self.unit.mode {
            Some(mode) => mode.percentage_before_value,
            None => false,
        }
    }
}

} // verus!
