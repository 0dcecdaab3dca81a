//! Decimal text of integers: rendering, zero padding and parsing.

use vstd::prelude::*;

use crate::text;

verus! {

/// `value`, or the largest `u64` where it is larger.
pub open spec fn capped_u64(value: int) -> int {
    if value > u64::MAX {
        u64::MAX as int
    } else {
        value
    }
}

/// The decimal digit with value `d`.
pub open spec fn digit(d: nat) -> char {
    (('0' as nat) + d) as char
}

/// The decimal text of a natural number, without leading zeros.
pub open spec fn nat_text(n: nat) -> Seq<char>
    decreases n,
{
    if n < 10 {
        seq![digit(n)]
    } else {
        nat_text(n / 10).push(digit(n % 10))
    }
}

/// The decimal text of an integer, with a leading `-` where it is negative.
pub open spec fn int_text(v: int) -> Seq<char> {
    if v < 0 {
        seq!['-'] + nat_text((-v) as nat)
    } else {
        nat_text(v as nat)
    }
}

/// `count` zeros.
pub open spec fn zeros(count: nat) -> Seq<char> {
    Seq::new(count, |i: int| '0')
}

/// The decimal text of `n`, filled up with zeros on the left to `width` characters.
pub open spec fn padded_text(n: nat, width: nat) -> Seq<char> {
    let plain = nat_text(n);
    if plain.len() >= width {
        plain
    } else {
        zeros((width - plain.len()) as nat) + plain
    }
}

/// Whether `s` holds decimal digits only.
pub open spec fn digits_only(s: Seq<char>) -> bool {
    forall|i: int| 0 <= i < s.len() ==> text::is_ascii_digit(#[trigger] s[i])
}

/// The number that a sequence of digits denotes.
pub open spec fn digits_value(s: Seq<char>) -> nat
    decreases s.len(),
{
    if s.len() == 0 {
        0
    } else {
        digits_value(s.drop_last()) * 10 + (s.last() as nat - '0' as nat) as nat
    }
}

/// The integer that `s` denotes: an optional sign, then at least one digit. A `-` is read only
/// where `signed` holds.
pub open spec fn parsed(s: Seq<char>, signed: bool) -> Option<int> {
    if s.len() > 0 && (s[0] == '+' || (signed && s[0] == '-')) {
        let body = s.drop_first();
        if body.len() == 0 || !digits_only(body) {
            None
        } else if s[0] == '-' {
            Some(-(digits_value(body) as int))
        } else {
            Some(digits_value(body) as int)
        }
    } else if s.len() == 0 || !digits_only(s) {
        None
    } else {
        Some(digits_value(s) as int)
    }
}

/// What a parse into an integer type with the bounds `min` and `max` gives.
pub open spec fn parsed_within(s: Seq<char>, signed: bool, min: int, max: int) -> Option<int> {
    match parsed(s, signed) {
        Some(v) => if min <= v <= max {
            Some(v)
        } else {
            None
        },
        None => None,
    }
}

fn digit_char(d: u8) -> (c: char)
    requires
        d < 10,
    ensures
        c == digit(d as nat),
{
    (48u8 + d) as char
}

/// The decimal text of `n`.
pub fn decimal(n: u128) -> (out: String)
    ensures
        out@ == nat_text(n as nat),
    decreases n,
{
    if n < 10 {
        let mut out = String::new();
        out.push(digit_char(n as u8));
        assert(out@ =~= nat_text(n as nat));
        out
    } else {
        let mut out = decimal(n / 10);
        out.push(digit_char((n % 10) as u8));
        out
    }
}

/// The decimal text of `v`.
pub fn signed_decimal(v: i64) -> (out: String)
    ensures
        out@ == int_text(v as int),
{
    if v < 0 {
        let mut out = String::new();
        out.push('-');
        let size: u128 = (-(v as i128)) as u128;
        let body = decimal(size);
        out.append(body.as_str());
        assert(out@ =~= int_text(v as int));
        out
    } else {
        decimal(v as u128)
    }
}

/// The decimal text of `n`, filled up with zeros on the left to `width` characters.
pub fn padded(n: u128, width: usize) -> (out: String)
    ensures
        out@ == padded_text(n as nat, width as nat),
{
    let plain = decimal(n);
    let chars = text::chars_of(plain.as_str());
    if chars.len() >= width {
        return plain;
    }
    let missing: usize = width - chars.len();
    let mut out = String::new();
    let mut i: usize = 0;
    while i < missing
        invariant
            i <= missing,
            out@ == zeros(i as nat),
        decreases missing - i,
    {
        out.push('0');
        i += 1;
        assert(out@ =~= zeros(i as nat));
    }
    out.append(plain.as_str());
    out
}

fn magnitude(chars: &[char], cap: u128) -> (value: Option<u128>)
    requires
        cap <= 0x1_0000_0000_0000_0000_0000,
    ensures
        match value {
            Some(v) => chars@.len() > 0 && digits_only(chars@) && v == digits_value(chars@) && v <= cap,
            None => chars@.len() == 0 || !digits_only(chars@) || digits_value(chars@) > cap,
        },
{
    if chars.len() == 0 {
        return None;
    }
    let mut value: u128 = 0;
    let mut over: bool = false;
    let mut i: usize = 0;
    while i < chars.len()
        invariant
            i <= chars@.len(),
            cap <= 0x1_0000_0000_0000_0000_0000,
            digits_only(chars@.take(i as int)),
            !over ==> value == digits_value(chars@.take(i as int)) && value <= cap,
            over ==> digits_value(chars@.take(i as int)) > cap,
        decreases chars@.len() - i,
    {
        let c = chars[i];
        let ghost before = chars@.take(i as int);
        assert(chars@.take(i + 1) =~= before.push(c));
        assert(chars@.take(i + 1).drop_last() =~= before);
        if !('0' <= c && c <= '9') {
            assert(!text::is_ascii_digit(chars@[i as int]));
            return None;
        }
        if !over {
            let d: u128 = (c as u32 - '0' as u32) as u128;
            value = value * 10 + d;
            if value > cap {
                over = true;
            }
        }
        i += 1;
    }
    assert(chars@.take(i as int) =~= chars@);
    if over {
        None
    } else {
        Some(value)
    }
}

/// Reads an integer between `min` and `max`: an optional sign, then digits. A `-` is read only
/// where `signed` holds.
pub fn parse(input: &str, signed: bool, min: i64, max: u64) -> (value: Option<i128>)
    requires
        min <= 0,
    ensures
        match value {
            Some(v) => parsed_within(input@, signed, min as int, max as int) == Some(v as int),
            None => parsed_within(input@, signed, min as int, max as int) is None,
        },
{
    let chars = text::chars_of(input);
    let n: usize = chars.len();
    if n > 0 && (chars[0] == '+' || (signed && chars[0] == '-')) {
        let negative: bool = chars[0] == '-';
        let body = text::slice_of(&chars, 1, n);
        assert(body@ =~= input@.drop_first());
        let cap: u128 = if negative {
            (-(min as i128)) as u128
        } else {
            max as u128
        };
        match magnitude(&body, cap) {
            Some(v) => if negative {
                Some(-(v as i128))
            } else {
                Some(v as i128)
            },
            None => None,
        }
    } else {
        match magnitude(&chars, max as u128) {
            Some(v) => Some(v as i128),
            None => None,
        }
    }
}

pub fn parse_u64(input: &str) -> (value: Option<u64>)
    ensures
        match value {
            Some(v) => parsed_within(input@, false, 0, u64::MAX as int) == Some(v as int),
            None => parsed_within(input@, false, 0, u64::MAX as int) is None,
        },
{
    match parse(input, false, 0, u64::MAX) {
        Some(v) => Some(v as u64),
        None => None,
    }
}

pub fn parse_i64(input: &str) -> (value: Option<i64>)
    ensures
        match value {
            Some(v) => parsed_within(input@, true, i64::MIN as int, i64::MAX as int) == Some(v as int),
            None => parsed_within(input@, true, i64::MIN as int, i64::MAX as int) is None,
        },
{
    match parse(input, true, i64::MIN, i64::MAX as u64) {
        Some(v) => Some(v as i64),
        None => None,
    }
}

pub fn parse_i32(input: &str) -> (value: Option<i32>)
    ensures
        match value {
            Some(v) => parsed_within(input@, true, i32::MIN as int, i32::MAX as int) == Some(v as int),
            None => parsed_within(input@, true, i32::MIN as int, i32::MAX as int) is None,
        },
{
    match parse(input, true, i32::MIN as i64, i32::MAX as u64) {
        Some(v) => Some(v as i32),
        None => None,
    }
}

pub fn parse_u32(input: &str) -> (value: Option<u32>)
    ensures
        match value {
            Some(v) => parsed_within(input@, false, 0, u32::MAX as int) == Some(v as int),
            None => parsed_within(input@, false, 0, u32::MAX as int) is None,
        },
{
    match parse(input, false, 0, u32::MAX as u64) {
        Some(v) => Some(v as u32),
        None => None,
    }
}

pub fn parse_usize(input: &str) -> (value: Option<usize>)
    ensures
        match value {
            Some(v) => parsed_within(input@, false, 0, usize::MAX as int) == Some(v as int),
            None => parsed_within(input@, false, 0, usize::MAX as int) is None,
        },
{
    match parse(input, false, 0, usize::MAX as u64) {
        Some(v) => Some(v as usize),
        None => None,
    }
}

/// Decimal text consists of digits, and reading it back gives the number.
pub proof fn decimal_reads_back(n: nat)
    ensures
        nat_text(n).len() > 0,
        digits_only(nat_text(n)),
        digits_value(nat_text(n)) == n,
        parsed(nat_text(n), false) == Some(n as int),
        parsed(nat_text(n), true) == Some(n as int),
    decreases n,
{
    let s = nat_text(n);
    if n < 10 {
        assert(s.drop_last() =~= Seq::<char>::empty());
        assert(digits_value(s.drop_last()) == 0);
        assert(s.last() == digit(n));
    } else {
        decimal_reads_back(n / 10);
        assert(s.drop_last() =~= nat_text(n / 10));
        assert(s.last() == digit(n % 10));
    }
    assert(text::is_ascii_digit(s[0]));
}

/// The decimal text of an integer reads back as that integer.
pub proof fn signed_decimal_reads_back(v: int)
    ensures
        parsed(int_text(v), true) == Some(v),
{
    if v < 0 {
        decimal_reads_back((-v) as nat);
        assert(int_text(v).drop_first() =~= nat_text((-v) as nat));
    } else {
        decimal_reads_back(v as nat);
    }
}

/// A padded number has the width that was asked for, or more where the number needs it, and reads back.
pub proof fn padded_numbers_read_back(n: nat, width: nat)
    ensures
        padded_text(n, width).len() >= width,
        padded_text(n, width).len() == width || padded_text(n, width) == nat_text(n),
        digits_only(padded_text(n, width)),
        digits_value(padded_text(n, width)) == n,
    decreases width,
{
    decimal_reads_back(n);
    let plain = nat_text(n);
    if plain.len() < width {
        let count = (width - plain.len()) as nat;
        leading_zeros_count_for_nothing(plain, count);
        let whole = padded_text(n, width);
        assert forall|i: int| 0 <= i < whole.len() implies text::is_ascii_digit(#[trigger] whole[i]) by {
            if i >= count {
                assert(whole[i] == plain[i - count]);
            }
        }
    }
}

proof fn leading_zeros_count_for_nothing(s: Seq<char>, count: nat)
    ensures
        digits_value(zeros(count) + s) == digits_value(s),
    decreases s.len() + count,
{
    let whole = zeros(count) + s;
    if s.len() > 0 {
        leading_zeros_count_for_nothing(s.drop_last(), count);
        assert(whole.drop_last() =~= zeros(count) + s.drop_last());
        assert(whole.last() == s.last());
    } else if count > 0 {
        let less = (count - 1) as nat;
        leading_zeros_count_for_nothing(s, less);
        assert(whole.drop_last() =~= zeros(less) + s);
        assert(whole.last() == '0');
    }
}

} // verus!
