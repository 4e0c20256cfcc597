//! Decimal text for integers and for fixed-point quantities.
//!
//! Quantities are integers; where a text shows one with decimal places, the
//! integer is first rounded to the last place shown, half away from zero.

use vstd::prelude::*;
use vstd::string::StringExecFns;

verus! {

/// Ten to the power `e`.
pub open spec fn pow10(e: nat) -> nat
    decreases e,
{
    if e == 0 {
        1
    } else {
        10 * pow10((e - 1) as nat)
    }
}

/// The character of the decimal digit `d`.
pub open spec fn digit_char(d: int) -> char {
    if d == 0 {
        '0'
    } else if d == 1 {
        '1'
    } else if d == 2 {
        '2'
    } else if d == 3 {
        '3'
    } else if d == 4 {
        '4'
    } else if d == 5 {
        '5'
    } else if d == 6 {
        '6'
    } else if d == 7 {
        '7'
    } else if d == 8 {
        '8'
    } else {
        '9'
    }
}

/// The decimal digits of `n`, most significant first, without leading zeros.
pub open spec fn decimal_digits(n: nat) -> Seq<char>
    decreases n,
{
    if n < 10 {
        seq![digit_char(n as int)]
    } else {
        decimal_digits(n / 10).push(digit_char((n % 10) as int))
    }
}

/// The last `width` decimal digits of `n`, with leading zeros.
pub open spec fn padded_digits(n: nat, width: nat) -> Seq<char>
    decreases width,
{
    if width == 0 {
        Seq::<char>::empty()
    } else {
        padded_digits(n / 10, (width - 1) as nat).push(digit_char((n % 10) as int))
    }
}

/// The absolute value of `value`.
pub open spec fn magnitude(value: int) -> nat {
    if value < 0 {
        (-value) as nat
    } else {
        value as nat
    }
}

/// `amount` divided by ten to the power `drop`, rounded to the nearest
/// integer, a half rounded up.
pub open spec fn rounded(amount: nat, drop: nat) -> nat {
    (amount + pow10(drop) / 2) / pow10(drop)
}

/// The text of the fixed-point quantity `value` after its last `drop` digits
/// were rounded away, with the last `decimals` of the remaining digits behind
/// the decimal point.
///
/// A negative quantity keeps its minus sign even where it rounds to zero.
pub open spec fn fixed_text(value: int, drop: nat, decimals: nat) -> Seq<char> {
    let q = rounded(magnitude(value), drop);
    let sign = if value < 0 {
        seq!['-']
    } else {
        Seq::<char>::empty()
    };
    let whole = decimal_digits(q / pow10(decimals));
    if decimals == 0 {
        sign + whole
    } else {
        sign + whole + seq!['.'] + padded_digits(q % pow10(decimals), decimals)
    }
}

/// Every power of ten is positive, and a larger exponent gives no smaller
/// power.
pub proof fn lemma_pow10_monotonic(a: nat, b: nat)
    requires
        a <= b,
    ensures
        1 <= pow10(a) <= pow10(b),
    decreases b,
{
    if b == 0 {
    } else if a == b {
        lemma_pow10_monotonic((a - 1) as nat, (b - 1) as nat);
    } else {
        lemma_pow10_monotonic(a, (b - 1) as nat);
    }
}

/// The largest power of ten that the functions here work with.
pub proof fn lemma_pow10_limit()
    ensures
        pow10(18) == 1_000_000_000_000_000_000,
{
    reveal_with_fuel(pow10, 19);
}

/// Ten to the power `e`.
pub fn power_of_ten(e: u8) -> (p: u64)
    requires
        e <= 18,
    ensures
        p == pow10(e as nat),
{
    let mut p: u64 = 1;
    let mut i: u8 = 0;
    while i < e
        invariant
            i <= e <= 18,
            p == pow10(i as nat),
        decreases e - i,
    {
        proof {
            lemma_pow10_monotonic((i + 1) as nat, 18);
            lemma_pow10_limit();
        }
        p = p * 10;
        i += 1;
    }
    p
}

/// The one-character text of the decimal digit `d`.
fn digit_text(d: u8) -> (text: &'static str)
    requires
        d <= 9,
    ensures
        text@ == seq![digit_char(d as int)],
{
    proof {
        reveal_strlit("0");
        reveal_strlit("1");
        reveal_strlit("2");
        reveal_strlit("3");
        reveal_strlit("4");
        reveal_strlit("5");
        reveal_strlit("6");
        reveal_strlit("7");
        reveal_strlit("8");
        reveal_strlit("9");
    }
    let text: &'static str = if d == 0 {
        "0"
    } else if d == 1 {
        "1"
    } else if d == 2 {
        "2"
    } else if d == 3 {
        "3"
    } else if d == 4 {
        "4"
    } else if d == 5 {
        "5"
    } else if d == 6 {
        "6"
    } else if d == 7 {
        "7"
    } else if d == 8 {
        "8"
    } else {
        "9"
    };
    assert(text@ =~= seq![digit_char(d as int)]);
    text
}

/// Appends the decimal digits of `n` to `out`.
pub fn push_decimal(out: &mut String, n: u128)
    ensures
        final(out)@ == old(out)@ + decimal_digits(n as nat),
    decreases n,
{
    if n >= 10 {
        push_decimal(out, n / 10);
    }
    let d: u8 = (n % 10) as u8;
    out.append(digit_text(d));
    assert(out@ =~= old(out)@ + decimal_digits(n as nat));
}

/// Appends the last `width` decimal digits of `n` to `out`, with leading
/// zeros.
pub fn push_padded(out: &mut String, n: u64, width: u8)
    ensures
        final(out)@ == old(out)@ + padded_digits(n as nat, width as nat),
    decreases width,
{
    if width > 0 {
        push_padded(out, n / 10, width - 1);
        let d: u8 = (n % 10) as u8;
        out.append(digit_text(d));
    }
    assert(out@ =~= old(out)@ + padded_digits(n as nat, width as nat));
}

/// Appends the text of the fixed-point quantity `value` to `out`: its last
/// `drop` digits rounded away, the last `decimals` of the others behind the
/// decimal point.
pub fn push_fixed(out: &mut String, value: i64, drop: u8, decimals: u8)
    requires
        drop <= 18,
        decimals <= 18,
    ensures
        final(out)@ == old(out)@ + fixed_text(value as int, drop as nat, decimals as nat),
{
    let wide: i128 = value as i128;
    let amount: u64 = if wide < 0 {
        (-wide) as u64
    } else {
        wide as u64
    };
    let unit: u64 = power_of_ten(drop);
    let scale: u64 = power_of_ten(decimals);
    proof {
        lemma_pow10_monotonic(drop as nat, 18);
        lemma_pow10_monotonic(decimals as nat, 18);
        lemma_pow10_limit();
    }
    let q: u64 = (amount + unit / 2) / unit;
    if wide < 0 {
        out.append("-");
    }
    push_decimal(out, (q / scale) as u128);
    if decimals > 0 {
        out.append(".");
        push_padded(out, q % scale, decimals);
    }
    proof {
        reveal_strlit("-");
        reveal_strlit(".");
        assert(out@ =~= old(out)@ + fixed_text(value as int, drop as nat, decimals as nat));
    }
}

} // verus!
