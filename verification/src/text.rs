//! Small text helpers shared by the URL and message builders.

use vstd::prelude::*;
use vstd::string::*;

verus! {

/// The character that writes the decimal digit `d`.
pub open spec fn digit_char(d: nat) -> char {
    if d == 0 {
        '0'
    } else if d == 1 {
        '1'
    } else if d == 2 {
        '2'
    } else if d == 3 {
        '3'
    } else if d == 4 {
        '4'
    } else if d == 5 {
        '5'
    } else if d == 6 {
        '6'
    } else if d == 7 {
        '7'
    } else if d == 8 {
        '8'
    } else {
        '9'
    }
}

/// The decimal numeral of `n`, most significant digit first, without
/// leading zeros (`0` is written "0").
pub open spec fn decimal_digits(n: nat) -> Seq<char>
    decreases n,
{
    if n < 10 {
        seq![digit_char(n)]
    } else {
        decimal_digits(n / 10).push(digit_char(n % 10))
    }
}

/// `s` without its trailing `/` characters.
pub open spec fn trim_end_slashes(s: Seq<char>) -> Seq<char>
    decreases s.len(),
{
    if s.len() > 0 && s.last() == '/' {
        trim_end_slashes(s.drop_last())
    } else {
        s
    }
}

/// `s` without its leading `/` characters.
pub open spec fn trim_start_slashes(s: Seq<char>) -> Seq<char>
    decreases s.len(),
{
    if s.len() > 0 && s.first() == '/' {
        trim_start_slashes(s.drop_first())
    } else {
        s
    }
}

fn digit_str(d: u64) -> (s: &'static str)
    requires
        d < 10,
    ensures
        s@ == seq![digit_char(d as nat)],
{
    proof {
        reveal_strlit("0");
        reveal_strlit("1");
        reveal_strlit("2");
        reveal_strlit("3");
        reveal_strlit("4");
        reveal_strlit("5");
        reveal_strlit("6");
        reveal_strlit("7");
        reveal_strlit("8");
        reveal_strlit("9");
    }
    let s = if d == 0 {
        "0"
    } else if d == 1 {
        "1"
    } else if d == 2 {
        "2"
    } else if d == 3 {
        "3"
    } else if d == 4 {
        "4"
    } else if d == 5 {
        "5"
    } else if d == 6 {
        "6"
    } else if d == 7 {
        "7"
    } else if d == 8 {
        "8"
    } else {
        "9"
    };
    assert(s@ =~= seq![digit_char(d as nat)]);
    s
}

/// Writes `n` in decimal.
pub fn decimal(n: u64) -> (s: String)
    ensures
        s@ == decimal_digits(n as nat),
    decreases n,
{
    if n < 10 {
        let mut s = String::new();
        s.append(digit_str(n));
        assert(s@ =~= decimal_digits(n as nat));
        s
    } else {
        let mut s = decimal(n / 10);
        s.append(digit_str(n % 10));
        assert(s@ =~= decimal_digits(n as nat));
        s
    }
}

/// Removes every trailing `/` from `s`.
pub fn trim_trailing_slashes(s: &str) -> (r: &str)
    ensures
        r@ == trim_end_slashes(s@),
{
    let mut end: usize = s.unicode_len();
    assert(s@.take(end as int) =~= s@);
    while end > 0 && s.get_char(end - 1) == '/'
        invariant
            end <= s@.len(),
            trim_end_slashes(s@) == trim_end_slashes(s@.take(end as int)),
        decreases end,
    {
        assert(s@.take(end as int).drop_last() =~= s@.take(end - 1));
        end = end - 1;
    }
    assert(s@.take(end as int) =~= s@.subrange(0, end as int));
    s.substring_char(0, end)
}

/// Removes every leading `/` from `s`.
pub fn trim_leading_slashes(s: &str) -> (r: &str)
    ensures
        r@ == trim_start_slashes(s@),
{
    let len: usize = s.unicode_len();
    let mut start: usize = 0;
    assert(s@.skip(0) =~= s@);
    while start < len && s.get_char(start) == '/'
        invariant
            start <= len,
            len == s@.len(),
            trim_start_slashes(s@) == trim_start_slashes(s@.skip(start as int)),
        decreases len - start,
    {
        assert(s@.skip(start as int).drop_first() =~= s@.skip(start + 1));
        start = start + 1;
    }
    assert(s@.skip(start as int) =~= s@.subrange(start as int, len as int));
    s.substring_char(start, len)
}

/// The lowest `places` decimal digits of `value`, most significant first,
/// with zeros in front where `value` has fewer.
pub open spec fn low_digits(value: nat, places: nat) -> Seq<char>
    decreases places,
{
    if places == 0 {
        Seq::empty()
    } else {
        low_digits(value / 10, (places - 1) as nat).push(digit_char(value % 10))
    }
}

/// `value` without its lowest `places` decimal digits.
pub open spec fn shifted(value: nat, places: nat) -> nat
    decreases places,
{
    if places == 0 {
        value
    } else {
        shifted(value / 10, (places - 1) as nat)
    }
}

/// `s` without its trailing `0` characters.
pub open spec fn trim_trailing_zeros(s: Seq<char>) -> Seq<char>
    decreases s.len(),
{
    if s.len() > 0 && s.last() == '0' {
        trim_trailing_zeros(s.drop_last())
    } else {
        s
    }
}

/// `value` counted in units of which `places` decimal digits make the
/// fraction, written exactly: the whole part, then, unless the fraction
/// is zero, a point and the fraction without trailing zeros.
pub open spec fn decimal_text(value: nat, places: nat) -> Seq<char> {
    let fraction = trim_trailing_zeros(low_digits(value, places));
    if fraction.len() == 0 {
        decimal_digits(shifted(value, places))
    } else {
        decimal_digits(shifted(value, places)) + seq!['.'] + fraction
    }
}

/// Writes `value`, counted in units with `decimals` fractional digits, as
/// an exact decimal number: `to_decimal(1500000000, 9)` is "1.5".
pub fn to_decimal(value: u64, decimals: u32) -> (text: String)
    ensures
        text@ == decimal_text(value as nat, decimals as nat),
{
    let mut rest: u64 = value;
    let mut places: u32 = decimals;
    while places > 0 && rest % 10 == 0
        invariant
            trim_trailing_zeros(low_digits(rest as nat, places as nat)) == trim_trailing_zeros(
                low_digits(value as nat, decimals as nat),
            ),
            shifted(rest as nat, places as nat) == shifted(value as nat, decimals as nat),
        decreases places,
    {
        assert(low_digits(rest as nat, places as nat).drop_last() =~= low_digits(
            (rest / 10) as nat,
            (places - 1) as nat,
        ));
        rest = rest / 10;
        places = places - 1;
    }
    let ghost kept = low_digits(rest as nat, places as nat);
    assert(trim_trailing_zeros(kept) == kept);
    let ghost whole = shifted(rest as nat, places as nat);
    let mut fraction = String::new();
    let mut left: u32 = places;
    while left > 0
        invariant
            kept == low_digits(rest as nat, left as nat) + fraction@,
            whole == shifted(rest as nat, left as nat),
        decreases left,
    {
        let ghost before = fraction@;
        let digit = String::from_str(digit_str(rest % 10));
        fraction = digit.concat(fraction.as_str());
        assert(low_digits(rest as nat, left as nat) + before =~= low_digits(
            (rest / 10) as nat,
            (left - 1) as nat,
        ) + fraction@);
        rest = rest / 10;
        left = left - 1;
    }
    assert(kept =~= fraction@);
    let mut text = decimal(rest);
    if places > 0 {
        proof {
            reveal_strlit(".");
        }
        text.append(".");
        text.append(fraction.as_str());
        assert(text@ =~= decimal_digits(whole) + seq!['.'] + kept);
    }
    text
}

} // verus!
