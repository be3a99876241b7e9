//! Short human-readable byte counts.

use vstd::prelude::*;
use vstd::string::*;

verus! {

/// Bytes in a binary kilobyte.
pub const KIB: u64 = 1_024;

/// Bytes in a binary megabyte.
pub const MIB: u64 = 1_048_576;

/// Bytes in a binary gigabyte.
pub const GIB: u64 = 1_073_741_824;

/// Every integer below this bound is a double-precision number.
pub const DOUBLE_EXACT: u64 = 0x20_0000_0000_0000;

/// The character of a decimal digit.
pub open spec fn digit_char(d: nat) -> char {
    if d == 0 {
        '0'
    } else if d == 1 {
        '1'
    } else if d == 2 {
        '2'
    } else if d == 3 {
        '3'
    } else if d == 4 {
        '4'
    } else if d == 5 {
        '5'
    } else if d == 6 {
        '6'
    } else if d == 7 {
        '7'
    } else if d == 8 {
        '8'
    } else {
        '9'
    }
}

/// The decimal numeral of `n`, without leading zeros.
pub open spec fn decimal(n: nat) -> Seq<char>
    decreases n,
{
    if n < 10 {
        seq![digit_char(n)]
    } else {
        decimal(n / 10).push(digit_char(n % 10))
    }
}

/// `n / unit` rounded to the nearest integer, a tie going to the even one.
pub open spec fn round_half_even(n: nat, unit: nat) -> nat {
    let quotient = n / unit;
    let rest = n % unit;
    if 2 * rest > unit || (2 * rest == unit && quotient % 2 == 1) {
        quotient + 1
    } else {
        quotient
    }
}

/// The spacing of double-precision numbers around `n`: the least power of
/// two, from `unit` on, that brings `n / unit` below `DOUBLE_EXACT`.
pub open spec fn spec_spacing(n: nat, unit: nat) -> nat
    decreases 4096 - unit,
{
    if unit == 0 || unit >= 2048 || n / unit < DOUBLE_EXACT {
        unit
    } else {
        spec_spacing(n, 2 * unit)
    }
}

/// The double-precision number nearest to `n`, a tie going to the one with
/// an even significand. It is an integer for every `n` below 2^64.
pub open spec fn spec_nearest_double(n: nat) -> nat {
    let unit = spec_spacing(n, 1);
    round_half_even(n, unit) * unit
}

/// `n / unit` with one decimal place, rounded half to even.
pub open spec fn spec_one_decimal(n: nat, unit: nat) -> Seq<char> {
    let tenths = round_half_even(n * 10, unit);
    decimal(tenths / 10) + seq!['.', digit_char(tenths % 10)]
}

/// The short form of a byte count: below 1024 the count itself; from there
/// on the count in binary kilo-, mega- or gigabytes with one decimal place
/// and the letter `K`, `M` or `G`. The division is that of double-precision
/// numbers, so a count of 2^53 or more is first rounded to the nearest one.
pub open spec fn spec_format_bytes_short(bytes: u64) -> Seq<char> {
    if bytes >= GIB {
        spec_one_decimal(spec_nearest_double(bytes as nat), GIB as nat) + seq!['G']
    } else if bytes >= MIB {
        spec_one_decimal(bytes as nat, MIB as nat) + seq!['M']
    } else if bytes >= KIB {
        spec_one_decimal(bytes as nat, KIB as nat) + seq!['K']
    } else {
        decimal(bytes as nat)
    }
}

/// The numeral of one decimal digit.
fn digit_str(d: u8) -> (text: &'static str)
    requires
        d < 10,
    ensures
        text@ == seq![digit_char(d as nat)],
{
    proof {
        reveal_strlit("0");
        reveal_strlit("1");
        reveal_strlit("2");
        reveal_strlit("3");
        reveal_strlit("4");
        reveal_strlit("5");
        reveal_strlit("6");
        reveal_strlit("7");
        reveal_strlit("8");
        reveal_strlit("9");
    }
    let text = if d == 0 {
        "0"
    } else if d == 1 {
        "1"
    } else if d == 2 {
        "2"
    } else if d == 3 {
        "3"
    } else if d == 4 {
        "4"
    } else if d == 5 {
        "5"
    } else if d == 6 {
        "6"
    } else if d == 7 {
        "7"
    } else if d == 8 {
        "8"
    } else {
        "9"
    };
    assert(text@ =~= seq![digit_char(d as nat)]);
    text
}

/// Appends the decimal numeral of `n` to `out`.
fn push_decimal(out: &mut String, n: u128)
    ensures
        final(out)@ == old(out)@ + decimal(n as nat),
    decreases n,
{
    if n >= 10 {
        push_decimal(out, n / 10);
    }
    let digit: u8 = (n % 10) as u8;
    out.append(digit_str(digit));
    assert(out@ =~= old(out)@ + decimal(n as nat));
}

/// `n / unit` rounded to the nearest integer, a tie going to the even one.
fn rounded_quotient(n: u128, unit: u128) -> (q: u128)
    requires
        unit > 0,
        n / unit < u128::MAX,
    ensures
        q == round_half_even(n as nat, unit as nat),
{
    let quotient: u128 = n / unit;
    let rest: u128 = n % unit;
    if rest > unit - rest || (rest == unit - rest && quotient % 2 == 1) {
        quotient + 1
    } else {
        quotient
    }
}

/// The double-precision number nearest to `n`.
fn nearest_double(n: u64) -> (value: u128)
    ensures
        value == spec_nearest_double(n as nat),
        value <= 0x2_0000_0000_0000_0000,
{
    let mut unit: u64 = 1;
    while unit < 2048 && n / unit >= DOUBLE_EXACT
        invariant
            1 <= unit < 4096,
            spec_spacing(n as nat, 1) == spec_spacing(n as nat, unit as nat),
        decreases 4096 - unit,
    {
        unit = unit * 2;
    }
    let rounded: u128 = rounded_quotient(n as u128, unit as u128);
    assert(rounded * unit <= n + unit) by (nonlinear_arith)
        requires
            rounded <= n / unit + 1,
            1 <= unit,
    ;
    rounded * unit as u128
}

/// Appends `n / unit` with one decimal place to `out`.
fn push_one_decimal(out: &mut String, n: u128, unit: u64)
    requires
        unit > 0,
        n <= 0x2_0000_0000_0000_0000,
    ensures
        final(out)@ == old(out)@ + spec_one_decimal(n as nat, unit as nat),
{
    let tenths: u128 = rounded_quotient(n * 10, unit as u128);
    push_decimal(out, tenths / 10);
    out.append(".");
    let digit: u8 = (tenths % 10) as u8;
    out.append(digit_str(digit));
    proof {
        reveal_strlit(".");
        assert("."@ =~= seq!['.']);
        assert(out@ =~= old(out)@ + spec_one_decimal(n as nat, unit as nat));
    }
}

/// Renders a byte count in its short form.
pub fn format_bytes_short(bytes: u64) -> (text: String)
    ensures
        text@ == spec_format_bytes_short(bytes),
{
    let mut text = String::new();
    proof {
        reveal_strlit("G");
        reveal_strlit("M");
        reveal_strlit("K");
        assert("G"@ =~= seq!['G']);
        assert("M"@ =~= seq!['M']);
        assert("K"@ =~= seq!['K']);
    }
    if bytes >= GIB {
        push_one_decimal(&mut text, nearest_double(bytes), GIB);
        text.append("G");
    } else if bytes >= MIB {
        push_one_decimal(&mut text, bytes as u128, MIB);
        text.append("M");
    } else if bytes >= KIB {
        push_one_decimal(&mut text, bytes as u128, KIB);
        text.append("K");
    } else {
        push_decimal(&mut text, bytes as u128);
    }
    assert(text@ =~= spec_format_bytes_short(bytes));
    text
}

} // verus!
