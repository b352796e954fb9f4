//! Decimal text of natural numbers, the alphabet every rendering is made of.
use vstd::prelude::*;
use vstd::string::StringExecFns;

verus! {

/// The character of a single decimal digit.
pub open spec fn digit_char(d: nat) -> char
    recommends
        d < 10,
{
    if d == 0 {
        '0'
    } else if d == 1 {
        '1'
    } else if d == 2 {
        '2'
    } else if d == 3 {
        '3'
    } else if d == 4 {
        '4'
    } else if d == 5 {
        '5'
    } else if d == 6 {
        '6'
    } else if d == 7 {
        '7'
    } else if d == 8 {
        '8'
    } else {
        '9'
    }
}

/// The decimal digits of `n`, most significant first, without leading zeros.
/// Zero is the single digit `0`.
pub open spec fn decimal(n: nat) -> Seq<char>
    decreases n,
{
    if n < 10 {
        seq![digit_char(n)]
    } else {
        decimal(n / 10).push(digit_char(n % 10))
    }
}

/// Every number has at least one decimal digit.
pub proof fn lemma_decimal_nonempty(n: nat)
    ensures
        decimal(n).len() > 0,
{
}

/// The one-character text of a decimal digit.
pub fn digit_str(d: u8) -> (s: &'static str)
    requires
        d < 10,
    ensures
        s@ == seq![digit_char(d as nat)],
{
    proof {
        reveal_strlit("0");
        reveal_strlit("1");
        reveal_strlit("2");
        reveal_strlit("3");
        reveal_strlit("4");
        reveal_strlit("5");
        reveal_strlit("6");
        reveal_strlit("7");
        reveal_strlit("8");
        reveal_strlit("9");
    }
    let s: &'static str = match d {
        0 => "0",
        1 => "1",
        2 => "2",
        3 => "3",
        4 => "4",
        5 => "5",
        6 => "6",
        7 => "7",
        8 => "8",
        _ => "9",
    };
    assert(s@ =~= seq![digit_char(d as nat)]);
    s
}

/// Appends the decimal digits of `n` to `out`.
pub fn push_decimal(out: &mut String, n: u128)
    ensures
        final(out)@ == old(out)@ + decimal(n as nat),
    decreases n,
{
    if n >= 10 {
        push_decimal(out, n / 10);
    }
    let d: u8 = (n % 10) as u8;
    out.append(digit_str(d));
    assert(out@ =~= old(out)@ + decimal(n as nat));
}

/// Ten to the power of `e`.
pub open spec fn pow10(e: nat) -> nat
    decreases e,
{
    if e == 0 {
        1
    } else {
        10 * pow10((e - 1) as nat)
    }
}

/// The digit at place `k` after the decimal point of the quotient
/// `n / scale`; place 0 holds the tenths.
pub open spec fn fraction_digit(n: nat, scale: nat, k: nat) -> nat {
    (n * pow10(k + 1) / scale) % 10
}

/// The first `count` digits after the decimal point of `n / scale`. What
/// lies beyond them is cut off, not rounded.
pub open spec fn fraction(n: nat, scale: nat, count: nat) -> Seq<char> {
    Seq::new(count, |k: int| digit_char(fraction_digit(n, scale, k as nat)))
}

/// The quotient `n / scale` written with exactly `decimals` digits after the
/// decimal point, and without the point when there are none.
pub open spec fn fixed_point(n: nat, scale: nat, decimals: nat) -> Seq<char> {
    if decimals == 0 {
        decimal(n / scale)
    } else {
        decimal(n / scale) + seq!['.'] + fraction(n, scale, decimals)
    }
}

/// One step of long division: from `n * 10^k == q * scale + r`, the next
/// digit `d` and remainder `r2` extend the quotient by one decimal place.
proof fn lemma_next_fraction_digit(n: nat, scale: nat, k: nat, q: nat, r: nat, d: nat, r2: nat)
    requires
        0 < scale,
        r < scale,
        n * pow10(k) == q * scale + r,
        r * 10 == d * scale + r2,
        r2 < scale,
    ensures
        d < 10,
        n * pow10(k + 1) == (q * 10 + d) * scale + r2,
        fraction_digit(n, scale, k) == d,
{
    assert(d < 10) by (nonlinear_arith)
        requires
            r < scale,
            r * 10 == d * scale + r2,
            0 < scale,
    ;
    assert(pow10(k + 1) == 10 * pow10(k));
    assert(n * pow10(k + 1) == (q * 10 + d) * scale + r2) by (nonlinear_arith)
        requires
            pow10(k + 1) == 10 * pow10(k),
            n * pow10(k) == q * scale + r,
            r * 10 == d * scale + r2,
    ;
    vstd::arithmetic::div_mod::lemma_fundamental_div_mod_converse(
        (n * pow10(k + 1)) as int,
        scale as int,
        (q * 10 + d) as int,
        r2 as int,
    );
}

/// Appends `n / scale` to `out`, with `decimals` digits after the point.
pub fn push_fixed_point(out: &mut String, n: u128, scale: u128, decimals: u8)
    requires
        0 < scale,
        scale * 10 <= u128::MAX,
    ensures
        final(out)@ == old(out)@ + fixed_point(n as nat, scale as nat, decimals as nat),
{
    push_decimal(out, n / scale);
    if decimals == 0 {
        return ;
    }
    out.append(".");
    proof {
        reveal_strlit(".");
        vstd::arithmetic::div_mod::lemma_fundamental_div_mod(n as int, scale as int);
        assert(pow10(0) == 1);
        assert(n * pow10(0) == (n / scale) * scale + n % scale) by (nonlinear_arith)
            requires
                pow10(0) == 1,
                n as int == scale * (n / scale) + n % scale,
        ;
    }
    let ghost head: Seq<char> = old(out)@ + decimal((n / scale) as nat) + seq!['.'];
    assert(out@ =~= head);
    let ghost mut q: nat = (n / scale) as nat;
    let mut r: u128 = n % scale;
    let mut k: u8 = 0;
    while k < decimals
        invariant
            k <= decimals,
            0 < scale,
            scale * 10 <= u128::MAX,
            r < scale,
            n * pow10(k as nat) == q * scale + r,
            out@ == head + fraction(n as nat, scale as nat, k as nat),
        decreases decimals - k,
    {
        let t: u128 = r * 10;
        let d: u128 = t / scale;
        let r2: u128 = t % scale;
        proof {
            vstd::arithmetic::div_mod::lemma_fundamental_div_mod(t as int, scale as int);
            assert(r * 10 == d * scale + r2) by (nonlinear_arith)
                requires
                    t == r * 10,
                    t as int == scale * d + r2,
            ;
            lemma_next_fraction_digit(
                n as nat,
                scale as nat,
                k as nat,
                q,
                r as nat,
                d as nat,
                r2 as nat,
            );
            q = q * 10 + d as nat;
        }
        out.append(digit_str(d as u8));
        assert(out@ =~= head + fraction(n as nat, scale as nat, (k + 1) as nat));
        r = r2;
        k = k + 1;
    }
    assert(out@ =~= old(out)@ + fixed_point(n as nat, scale as nat, decimals as nat));
}

} // verus!
