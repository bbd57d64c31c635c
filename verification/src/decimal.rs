//! Decimal text of integers: how a build id or a timestamp is written
//! and read.

use vstd::prelude::*;

verus! {

/// The character of the decimal digit `d`.
pub open spec fn digit_char(d: int) -> char
    recommends
        0 <= d <= 9,
{
    ((d + 48) as u8) as char
}

/// The decimal text of a natural number, without leading zeros.
pub open spec fn nat_text(n: nat) -> Seq<char>
    decreases n,
{
    if n < 10 {
        seq![digit_char(n as int)]
    } else {
        nat_text(n / 10).push(digit_char((n % 10) as int))
    }
}

/// The decimal text of an integer: a minus sign before the digits of a
/// negative number, no sign otherwise.
pub open spec fn int_text(n: int) -> Seq<char> {
    if n < 0 {
        seq!['-'] + nat_text((-n) as nat)
    } else {
        nat_text(n as nat)
    }
}

/// The one-character text of the digit `d`.
fn digit_str(d: u8) -> (s: &'static str)
    requires
        d <= 9,
    ensures
        s@ == seq![digit_char(d as int)],
{
    proof {
        reveal_strlit("0");
        reveal_strlit("1");
        reveal_strlit("2");
        reveal_strlit("3");
        reveal_strlit("4");
        reveal_strlit("5");
        reveal_strlit("6");
        reveal_strlit("7");
        reveal_strlit("8");
        reveal_strlit("9");
    }
    match d {
        0 => "0",
        1 => "1",
        2 => "2",
        3 => "3",
        4 => "4",
        5 => "5",
        6 => "6",
        7 => "7",
        8 => "8",
        _ => "9",
    }
}

/// Appends the decimal digits of `n` to `out`.
fn append_nat(out: &mut String, n: u64)
    ensures
        final(out)@ == old(out)@ + nat_text(n as nat),
    decreases n,
{
    if n >= 10 {
        append_nat(out, n / 10);
    }
    out.append(digit_str((n % 10) as u8));
}

/// Writes `n` in decimal.
pub fn i64_text(n: i64) -> (text: String)
    ensures
        text@ == int_text(n as int),
{
    let mut text = String::new();
    if n < 0 {
        text.append("-");
        proof {
            reveal_strlit("-");
        }
        // -(n + 1) fits in i64 even for the least i64.
        let magnitude: u64 = (-(n + 1)) as u64 + 1;
        append_nat(&mut text, magnitude);
    } else {
        append_nat(&mut text, n as u64);
    }
    text
}

/// Whether `c` is one of the ten decimal digits.
pub open spec fn is_digit(c: char) -> bool {
    '0' <= c <= '9'
}

/// The value of the decimal digit `c`.
pub open spec fn digit_value(c: char) -> int
    recommends
        is_digit(c),
{
    c as int - 48
}

/// Whether `s` holds decimal digits only.
pub open spec fn all_digits(s: Seq<char>) -> bool {
    forall|i: int| 0 <= i < s.len() ==> is_digit(#[trigger] s[i])
}

/// The number that the digits of `s` write; leading zeros count for
/// nothing.
pub open spec fn digits_value(s: Seq<char>) -> nat
    decreases s.len(),
{
    if s.len() == 0 {
        0
    } else {
        (digits_value(s.drop_last()) * 10 + digit_value(s.last())) as nat
    }
}

/// How many characters of `s` are its sign: one where `s` begins with
/// `+` or `-`, none otherwise.
pub open spec fn sign_len(s: Seq<char>) -> int {
    if s.len() > 0 && (s[0] == '-' || s[0] == '+') {
        1
    } else {
        0
    }
}

/// The integer that `s` writes: an optional `+` or `-`, then one digit
/// or more and nothing else. Any other text writes no integer.
pub open spec fn parse_int(s: Seq<char>) -> Option<int> {
    let digits = s.skip(sign_len(s));
    if digits.len() == 0 || !all_digits(digits) {
        None
    } else if s[0] == '-' {
        Some(-(digits_value(digits) as int))
    } else {
        Some(digits_value(digits) as int)
    }
}

/// The integer that `s` writes, where it lies between `low` and `high`.
pub open spec fn parse_within(s: Seq<char>, low: int, high: int) -> Option<int> {
    match parse_int(s) {
        Some(v) if low <= v <= high => Some(v),
        _ => None,
    }
}

/// What `parse_i64` returns on `s`.
pub open spec fn parse_i64_spec(s: Seq<char>) -> Option<i64> {
    match parse_within(s, i64::MIN as int, i64::MAX as int) {
        Some(v) => Some(v as i64),
        None => None,
    }
}

/// A digit more at the end of a text never makes its value smaller.
proof fn lemma_digits_value_grows(s: Seq<char>, k: int)
    requires
        0 <= k <= s.len(),
        all_digits(s),
    ensures
        digits_value(s.take(k)) <= digits_value(s),
    decreases s.len(),
{
    if k < s.len() {
        lemma_digits_value_grows(s.drop_last(), k);
        assert(s.drop_last().take(k) =~= s.take(k));
    } else {
        assert(s.take(k) =~= s);
    }
}

/// The number that `digits` writes, where it is made of one digit or
/// more and nothing else, and the number is `limit` at most.
fn read_digits(digits: &str, limit: u64) -> (r: Option<u64>)
    ensures
        r == if digits@.len() > 0 && all_digits(digits@) && digits_value(digits@) <= limit {
            Some(digits_value(digits@) as u64)
        } else {
            None
        },
{
    let mut value: u64 = 0;
    let mut any_digit = false;
    for c in it: digits.chars()
        invariant
            it.seq() == digits@,
            any_digit == (it.index() > 0),
            all_digits(digits@.take(it.index() as int)),
            value == digits_value(digits@.take(it.index() as int)),
            value <= limit,
    {
        if !('0' <= c && c <= '9') {
            return None;
        }
        let digit: u64 = (c as u32 - 48) as u64;
        let ghost longer = digits@.take(it.index() + 1);
        assert(longer.drop_last() =~= digits@.take(it.index() as int));
        if digit > limit || value > (limit - digit) / 10 {
            proof {
                if all_digits(digits@) {
                    lemma_digits_value_grows(digits@, it.index() + 1);
                }
            }
            return None;
        }
        value = value * 10 + digit;
        any_digit = true;
    }
    assert(digits@.take(digits@.len() as int) =~= digits@);
    if any_digit {
        Some(value)
    } else {
        None
    }
}

/// Reads a decimal integer: an optional sign, then digits only. `None`
/// where `s` is no such text or the number does not fit in an `i64`.
pub fn parse_i64(s: &str) -> (r: Option<i64>)
    ensures
        r == parse_i64_spec(s@),
{
    let negative = !s.is_empty() && s.get_char(0) == '-';
    let signed = negative || (!s.is_empty() && s.get_char(0) == '+');
    let digits = if signed {
        s.substring_char(1, s.unicode_len())
    } else {
        s
    };
    assert(digits@ =~= s@.skip(sign_len(s@)));
    // Below zero the digits may write 2^63, above it one less.
    let limit: u64 = if negative {
        0x8000_0000_0000_0000
    } else {
        0x7fff_ffff_ffff_ffff
    };
    match read_digits(digits, limit) {
        None => None,
        Some(magnitude) => if !negative {
            Some(magnitude as i64)
        } else if magnitude == 0x8000_0000_0000_0000 {
            Some(i64::MIN)
        } else {
            Some(-(magnitude as i64))
        },
    }
}

/// What `parse_i32` returns on `s`.
pub open spec fn parse_i32_spec(s: Seq<char>) -> Option<i32> {
    match parse_within(s, i32::MIN as int, i32::MAX as int) {
        Some(v) => Some(v as i32),
        None => None,
    }
}

/// Reads a decimal integer as `parse_i64` does. `None` where `s` is no
/// such text or the number does not fit in an `i32`.
pub fn parse_i32(s: &str) -> (r: Option<i32>)
    ensures
        r == parse_i32_spec(s@),
{
    match parse_i64(s) {
        Some(v) => {
            if -0x8000_0000i64 <= v && v <= 0x7fff_ffffi64 {
                Some(v as i32)
            } else {
                None
            }
        },
        None => None,
    }
}

/// The text of a natural number is one digit or more, digits only, and
/// writes that number.
pub proof fn lemma_nat_text_value(n: nat)
    ensures
        nat_text(n).len() > 0,
        all_digits(nat_text(n)),
        digits_value(nat_text(n)) == n,
    decreases n,
{
    let text = nat_text(n);
    let last = digit_char((n % 10) as int);
    assert(text.last() == last);
    assert(is_digit(last) && digit_value(last) == n % 10);
    if n < 10 {
        assert(text.drop_last() =~= Seq::<char>::empty());
        assert(digits_value(text.drop_last()) == 0);
    } else {
        lemma_nat_text_value(n / 10);
        assert(text.drop_last() =~= nat_text(n / 10));
        assert(digits_value(text.drop_last()) == n / 10);
    }
    assert(digits_value(text) == digits_value(text.drop_last()) * 10 + digit_value(last));
}

/// Reading the text of an integer gives the integer back.
pub proof fn lemma_parse_int_text(n: int)
    ensures
        parse_int(int_text(n)) == Some(n),
{
    if n < 0 {
        lemma_nat_text_value((-n) as nat);
        assert(int_text(n).skip(1) =~= nat_text((-n) as nat));
    } else {
        lemma_nat_text_value(n as nat);
        assert(is_digit(int_text(n)[0]));
        assert(int_text(n).skip(0) =~= nat_text(n as nat));
    }
}

/// What `i64_text` writes, `parse_i64` reads back.
pub proof fn lemma_i64_text_parses(n: i64)
    ensures
        parse_i64_spec(int_text(n as int)) == Some(n),
{
    lemma_parse_int_text(n as int);
}

} // verus!
