//! Decimal text for numbers and fixed-point scalars.

use vstd::prelude::*;
use crate::fixed::{Fixed, abs_int};

verus! {

/// The character for a single decimal digit.
pub open spec fn digit_char(d: int) -> char {
    if d == 0 {
        '0'
    } else if d == 1 {
        '1'
    } else if d == 2 {
        '2'
    } else if d == 3 {
        '3'
    } else if d == 4 {
        '4'
    } else if d == 5 {
        '5'
    } else if d == 6 {
        '6'
    } else if d == 7 {
        '7'
    } else if d == 8 {
        '8'
    } else {
        '9'
    }
}

/// The decimal digits of a natural number, most significant first, without
/// leading zeros (`"0"` for zero).
pub open spec fn decimal(n: nat) -> Seq<char>
    decreases n,
{
    if n < 10 {
        seq![digit_char(n as int)]
    } else {
        decimal(n / 10).push(digit_char((n % 10) as int))
    }
}

/// The last `width` decimal digits of `n`, padded with zeros on the left.
pub open spec fn decimal_padded(n: nat, width: nat) -> Seq<char>
    decreases width,
{
    if width == 0 {
        Seq::empty()
    } else {
        decimal_padded(n / 10, (width - 1) as nat).push(digit_char((n % 10) as int))
    }
}

/// Ten to the power `e`.
pub open spec fn pow10(e: nat) -> int
    decreases e,
{
    if e == 0 {
        1
    } else {
        10 * pow10((e - 1) as nat)
    }
}

/// How many fractional digits it takes to write the fixed-point value `raw`
/// exactly: the least `d` in `0..=6` such that `raw` is a multiple of
/// `10^(6 - d)`.
pub open spec fn decimals_needed(raw: int) -> nat {
    let m = abs_int(raw);
    if m % 1_000_000 == 0 {
        0
    } else if m % 100_000 == 0 {
        1
    } else if m % 10_000 == 0 {
        2
    } else if m % 1_000 == 0 {
        3
    } else if m % 100 == 0 {
        4
    } else if m % 10 == 0 {
        5
    } else {
        6
    }
}

/// The magnitude of the fixed-point value `raw` counted in units of
/// `10^-decimals`, rounded to the nearest, halves away from zero.
pub open spec fn rounded_magnitude(raw: int, decimals: nat) -> nat {
    let unit = pow10((6 - decimals) as nat);
    ((2 * abs_int(raw) + unit) / (2 * unit)) as nat
}

/// The text of the fixed-point value `raw` with exactly `decimals` fractional
/// digits, `decimals <= 6`: a minus sign for a negative value that does not
/// round to zero, the whole part, and after a point the fraction.
pub open spec fn fixed_text(raw: int, decimals: nat) -> Seq<char> {
    let q = rounded_magnitude(raw, decimals);
    let scale = pow10(decimals) as nat;
    let sign = if raw < 0 && q > 0 {
        seq!['-']
    } else {
        Seq::<char>::empty()
    };
    let whole = decimal(q / scale);
    if decimals == 0 {
        sign + whole
    } else {
        sign + whole + seq!['.'] + decimal_padded(q % scale, decimals)
    }
}

/// The default label of the tick `value` on an axis whose ticks are `step`
/// apart: the value with as many fractional digits as it takes to write the
/// step exactly or, for a step of zero, the value itself.
pub open spec fn tick_text(value: int, step: int) -> Seq<char> {
    if step == 0 {
        fixed_text(value, decimals_needed(value))
    } else {
        fixed_text(value, decimals_needed(step))
    }
}

/// The text of one decimal digit.
pub fn digit_str(d: u8) -> (s: &'static str)
    requires
        d < 10,
    ensures
        s@ == seq![digit_char(d as int)],
{
    proof {
        reveal_strlit("0");
        reveal_strlit("1");
        reveal_strlit("2");
        reveal_strlit("3");
        reveal_strlit("4");
        reveal_strlit("5");
        reveal_strlit("6");
        reveal_strlit("7");
        reveal_strlit("8");
        reveal_strlit("9");
    }
    let s: &'static str = match d {
        0 => "0",
        1 => "1",
        2 => "2",
        3 => "3",
        4 => "4",
        5 => "5",
        6 => "6",
        7 => "7",
        8 => "8",
        _ => "9",
    };
    assert(s@ =~= seq![digit_char(d as int)]);
    s
}

/// Appends the decimal digits of `n` to `out`.
pub fn push_decimal(out: &mut String, n: u64)
    ensures
        final(out)@ == old(out)@ + decimal(n as nat),
    decreases n,
{
    if n >= 10 {
        push_decimal(out, n / 10);
    }
    out.append(digit_str((n % 10) as u8));
    assert(out@ =~= old(out)@ + decimal(n as nat));
}

/// Appends the last `width` decimal digits of `n` to `out`, zero-padded.
pub fn push_decimal_padded(out: &mut String, n: u64, width: u8)
    ensures
        final(out)@ == old(out)@ + decimal_padded(n as nat, width as nat),
    decreases width,
{
    if width > 0 {
        push_decimal_padded(out, n / 10, width - 1);
        out.append(digit_str((n % 10) as u8));
    }
    assert(out@ =~= old(out)@ + decimal_padded(n as nat, width as nat));
}

/// The magnitude of a scalar.
pub fn magnitude(raw: Fixed) -> (m: u64)
    ensures
        m == abs_int(raw as int),
{
    if raw < 0 {
        (-(raw as i128)) as u64
    } else {
        raw as u64
    }
}

/// The first seven powers of ten.
pub proof fn lemma_pow10_values()
    ensures
        pow10(0) == 1,
        pow10(1) == 10,
        pow10(2) == 100,
        pow10(3) == 1_000,
        pow10(4) == 10_000,
        pow10(5) == 100_000,
        pow10(6) == 1_000_000,
{
    reveal_with_fuel(pow10, 8);
}

/// Ten to the power `e`, for at most six digits.
pub fn pow10_small(e: u8) -> (p: u64)
    requires
        e <= 6,
    ensures
        p == pow10(e as nat),
        1 <= p <= 1_000_000,
{
    proof {
        lemma_pow10_values();
    }
    match e {
        0 => 1,
        1 => 10,
        2 => 100,
        3 => 1_000,
        4 => 10_000,
        5 => 100_000,
        _ => 1_000_000,
    }
}

/// Computes how many fractional digits it takes to write `raw` exactly.
pub fn decimals_for(raw: Fixed) -> (d: u8)
    ensures
        d == decimals_needed(raw as int),
        d <= 6,
{
    let a: u64 = magnitude(raw);
    let m: u64 = a % 1_000_000;
    proof {
        vstd::arithmetic::div_mod::lemma_mod_mod(a as int, 100_000, 10);
        vstd::arithmetic::div_mod::lemma_mod_mod(a as int, 10_000, 100);
        vstd::arithmetic::div_mod::lemma_mod_mod(a as int, 1_000, 1_000);
        vstd::arithmetic::div_mod::lemma_mod_mod(a as int, 100, 10_000);
        vstd::arithmetic::div_mod::lemma_mod_mod(a as int, 10, 100_000);
    }
    if m == 0 {
        0
    } else if m % 100_000 == 0 {
        1
    } else if m % 10_000 == 0 {
        2
    } else if m % 1_000 == 0 {
        3
    } else if m % 100 == 0 {
        4
    } else if m % 10 == 0 {
        5
    } else {
        6
    }
}

/// Writes a fixed-point value with exactly `decimals` fractional digits.
pub fn format_fixed(raw: Fixed, decimals: u8) -> (text: String)
    requires
        decimals <= 6,
    ensures
        text@ == fixed_text(raw as int, decimals as nat),
{
    let unit: u128 = pow10_small(6 - decimals) as u128;
    let scale: u128 = pow10_small(decimals) as u128;
    let q: u128 = (2 * (magnitude(raw) as u128) + unit) / (2 * unit);
    assert(q == rounded_magnitude(raw as int, decimals as nat));
    assert(q <= 0xffff_ffff_ffff_ffff) by {
        vstd::arithmetic::div_mod::lemma_div_is_ordered_by_denominator(
            2 * abs_int(raw as int) + unit as int,
            2,
            2 * unit as int,
        );
    }
    let mut text = String::new();
    if raw < 0 && q > 0 {
        text.append("-");
        proof {
            reveal_strlit("-");
        }
    }
    let ghost signed = text@;
    assert(signed =~= if raw < 0 && q > 0 {
        seq!['-']
    } else {
        Seq::<char>::empty()
    });
    push_decimal(&mut text, (q / scale) as u64);
    if decimals > 0 {
        text.append(".");
        proof {
            reveal_strlit(".");
        }
        push_decimal_padded(&mut text, (q % scale) as u64, decimals);
    }
    assert(text@ =~= fixed_text(raw as int, decimals as nat));
    text
}

/// Writes the default label of the tick `value` on an axis whose ticks are
/// `step` apart.
pub fn format_tick_with_step(value: Fixed, step: Fixed) -> (label: String)
    ensures
        label@ == tick_text(value as int, step as int),
{
    if step == 0 {
        format_fixed(value, decimals_for(value))
    } else {
        format_fixed(value, decimals_for(step))
    }
}

} // verus!
