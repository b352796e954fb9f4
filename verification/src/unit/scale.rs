//! Decimal magnitudes: a count is shown in the largest power of one thousand
//! that does not exceed it, followed by the prefix of that power.
use vstd::prelude::*;
use vstd::string::StringExecFns;
use crate::unit::text::{decimal, fixed_point, push_decimal, push_fixed_point};

verus! {

/// How many times a count is divided by one thousand before it is shown:
/// the largest exponent `e` with `1000^e <= n`, and 0 for counts below one
/// thousand. The prefixes end at `E`, which is as far as 64 bits reach.
pub open spec fn thousands(n: nat) -> nat {
    if n < 1_000 {
        0
    } else if n < 1_000_000 {
        1
    } else if n < 1_000_000_000 {
        2
    } else if n < 1_000_000_000_000 {
        3
    } else if n < 1_000_000_000_000_000 {
        4
    } else if n < 1_000_000_000_000_000_000 {
        5
    } else {
        6
    }
}

/// One thousand to the power of `e`, for the exponents that [`thousands`]
/// yields.
pub open spec fn thousand_pow(e: nat) -> nat {
    if e == 0 {
        1
    } else if e == 1 {
        1_000
    } else if e == 2 {
        1_000_000
    } else if e == 3 {
        1_000_000_000
    } else if e == 4 {
        1_000_000_000_000
    } else if e == 5 {
        1_000_000_000_000_000
    } else {
        1_000_000_000_000_000_000
    }
}

/// The prefix that follows a count scaled by `1000^e`: nothing for plain
/// counts, then `k`, `M`, `G`, `T`, `P`, `E`.
pub open spec fn human_suffix(e: nat) -> Seq<char> {
    if e == 0 {
        ""@
    } else if e == 1 {
        "k"@
    } else if e == 2 {
        "M"@
    } else if e == 3 {
        "G"@
    } else if e == 4 {
        "T"@
    } else if e == 5 {
        "P"@
    } else {
        "E"@
    }
}

/// The unit that follows a byte count scaled by `1000^e`: `B`, `KB`, `MB`,
/// `GB`, `TB`, `PB`, `EB`.
pub open spec fn bytes_suffix(e: nat) -> Seq<char> {
    if e == 0 {
        "B"@
    } else if e == 1 {
        "KB"@
    } else if e == 2 {
        "MB"@
    } else if e == 3 {
        "GB"@
    } else if e == 4 {
        "TB"@
    } else if e == 5 {
        "PB"@
    } else {
        "EB"@
    }
}

/// A count in its best-fitting decimal scale: the scaled magnitude with a
/// fixed number of decimals, directly followed by the prefix of the scale.
/// Digits beyond the last decimal are cut off.
pub open spec fn human_text(n: nat, decimals: nat) -> Seq<char> {
    fixed_point(n, thousand_pow(thousands(n)), decimals) + human_suffix(thousands(n))
}

/// A byte count in its best-fitting decimal scale. Below one thousand the
/// count is exact and shown as it is; from there on the scaled magnitude has
/// one decimal, the rest cut off.
pub open spec fn bytes_text(n: nat) -> Seq<char> {
    if n < 1_000 {
        decimal(n) + bytes_suffix(0)
    } else {
        fixed_point(n, thousand_pow(thousands(n)), 1) + bytes_suffix(thousands(n))
    }
}

/// The exponent of the scale that `n` is shown in.
pub fn scale_exponent(n: u64) -> (e: u8)
    ensures
        e == thousands(n as nat),
{
    if n < 1_000 {
        0
    } else if n < 1_000_000 {
        1
    } else if n < 1_000_000_000 {
        2
    } else if n < 1_000_000_000_000 {
        3
    } else if n < 1_000_000_000_000_000 {
        4
    } else if n < 1_000_000_000_000_000_000 {
        5
    } else {
        6
    }
}

/// One thousand to the power of `e`, for the exponents that
/// [`scale_exponent`] yields; a larger exponent gives the largest of them.
pub fn scale_divisor(e: u8) -> (scale: u64)
    ensures
        scale == thousand_pow(e as nat),
{
    match e {
        0 => 1,
        1 => 1_000,
        2 => 1_000_000,
        3 => 1_000_000_000,
        4 => 1_000_000_000_000,
        5 => 1_000_000_000_000_000,
        _ => 1_000_000_000_000_000_000,
    }
}

fn human_suffix_str(e: u8) -> (s: &'static str)
    ensures
        s@ == human_suffix(e as nat),
{
    match e {
        0 => "",
        1 => "k",
        2 => "M",
        3 => "G",
        4 => "T",
        5 => "P",
        _ => "E",
    }
}

fn bytes_suffix_str(e: u8) -> (s: &'static str)
    ensures
        s@ == bytes_suffix(e as nat),
{
    match e {
        0 => "B",
        1 => "KB",
        2 => "MB",
        3 => "GB",
        4 => "TB",
        5 => "PB",
        _ => "EB",
    }
}

/// Appends `n` in its best-fitting decimal scale, with `decimals` digits
/// after the point.
pub fn push_human(out: &mut String, n: u64, decimals: u8)
    ensures
        final(out)@ == old(out)@ + human_text(n as nat, decimals as nat),
{
    let e: u8 = scale_exponent(n);
    push_fixed_point(out, n as u128, scale_divisor(e) as u128, decimals);
    out.append(human_suffix_str(e));
    assert(out@ =~= old(out)@ + human_text(n as nat, decimals as nat));
}

/// Appends the byte count `n` in its best-fitting decimal scale.
pub fn push_bytes(out: &mut String, n: u64)
    ensures
        final(out)@ == old(out)@ + bytes_text(n as nat),
{
    let e: u8 = scale_exponent(n);
    if e == 0 {
        push_decimal(out, n as u128);
    } else {
        push_fixed_point(out, n as u128, scale_divisor(e) as u128, 1);
    }
    out.append(bytes_suffix_str(e));
    assert(out@ =~= old(out)@ + bytes_text(n as nat));
}

} // verus!
