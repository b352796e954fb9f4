//! Time magnitudes: a span is shown in the largest time unit that it fills
//! at least once.
use vstd::prelude::*;
use vstd::string::StringExecFns;
use crate::unit::text::{decimal, fixed_point, push_decimal, push_fixed_point};

verus! {

/// Milliseconds in a second.
pub const SECOND: u64 = 1_000;

/// Milliseconds in a minute.
pub const MINUTE: u64 = 60_000;

/// Milliseconds in an hour.
pub const HOUR: u64 = 3_600_000;

/// How often `unit` goes into `amount`: a whole number where it divides
/// evenly, and otherwise the quotient with one decimal, the rest cut off.
pub open spec fn magnitude(amount: nat, unit: nat) -> Seq<char> {
    if amount % unit == 0 {
        decimal(amount / unit)
    } else {
        fixed_point(amount, unit, 1)
    }
}

/// The size in milliseconds of the unit a span of `millis` is shown in: the
/// largest of hour, minute, second and millisecond that the span fills at
/// least once, and the millisecond for an empty span.
pub open spec fn time_unit(millis: nat) -> nat {
    if millis >= HOUR {
        HOUR as nat
    } else if millis >= MINUTE {
        MINUTE as nat
    } else if millis >= SECOND {
        SECOND as nat
    } else {
        1
    }
}

/// The letters of the unit a span of `millis` is shown in.
pub open spec fn time_unit_letters(millis: nat) -> Seq<char> {
    if millis >= HOUR {
        "h"@
    } else if millis >= MINUTE {
        "m"@
    } else if millis >= SECOND {
        "s"@
    } else {
        "ms"@
    }
}

/// The interval a rate is measured over, as it follows the slash of a rate:
/// the span in its unit, where a span of exactly one unit is the unit's
/// letters alone. One second is `s`, ninety seconds are `1.5m`, no time at
/// all is `0ms`.
pub open spec fn interval_text(millis: nat) -> Seq<char> {
    if millis == time_unit(millis) {
        time_unit_letters(millis)
    } else {
        magnitude(millis, time_unit(millis)) + time_unit_letters(millis)
    }
}

/// A span of whole seconds in the largest of hour, minute and second that it
/// fills at least once; an empty span is `0s`.
pub open spec fn span_text(seconds: nat) -> Seq<char> {
    if seconds >= 3_600 {
        magnitude(seconds, 3_600) + "h"@
    } else if seconds >= 60 {
        magnitude(seconds, 60) + "m"@
    } else {
        decimal(seconds) + "s"@
    }
}

/// Appends how often `unit` goes into `amount`.
pub fn push_magnitude(out: &mut String, amount: u128, unit: u64)
    requires
        0 < unit,
    ensures
        final(out)@ == old(out)@ + magnitude(amount as nat, unit as nat),
{
    let unit: u128 = unit as u128;
    if amount % unit == 0 {
        push_decimal(out, amount / unit);
    } else {
        push_fixed_point(out, amount, unit, 1);
    }
}

/// Appends the interval of `millis` milliseconds that a rate is measured
/// over.
pub fn push_interval(out: &mut String, millis: u128)
    ensures
        final(out)@ == old(out)@ + interval_text(millis as nat),
{
    let unit: u64 = if millis >= HOUR as u128 {
        HOUR
    } else if millis >= MINUTE as u128 {
        MINUTE
    } else if millis >= SECOND as u128 {
        SECOND
    } else {
        1
    };
    if millis != unit as u128 {
        push_magnitude(out, millis, unit);
    }
    let letters: &'static str = if millis >= HOUR as u128 {
        "h"
    } else if millis >= MINUTE as u128 {
        "m"
    } else if millis >= SECOND as u128 {
        "s"
    } else {
        "ms"
    };
    out.append(letters);
    assert(out@ =~= old(out)@ + interval_text(millis as nat));
}

/// Appends a span of whole seconds in its best-fitting unit.
pub fn push_span(out: &mut String, seconds: u64)
    ensures
        final(out)@ == old(out)@ + span_text(seconds as nat),
{
    if seconds >= 3_600 {
        push_magnitude(out, seconds as u128, 3_600);
        out.append("h");
    } else if seconds >= 60 {
        push_magnitude(out, seconds as u128, 60);
        out.append("m");
    } else {
        push_decimal(out, seconds as u128);
        out.append("s");
    }
    assert(out@ =~= old(out)@ + span_text(seconds as nat));
}

} // verus!
