//! Decimal texts of integers: what a text denotes, how a number is written,
//! and that the two agree.

use vstd::prelude::*;
use vstd::string::*;

verus! {

/// Whether `c` is one of the ten decimal digits.
pub open spec fn is_digit(c: char) -> bool {
    '0' <= c && c <= '9'
}

/// The value of the digit `c`.
pub open spec fn digit_value(c: char) -> int {
    c as int - '0' as int
}

/// The character for the digit `d`, which is below ten.
pub open spec fn digit_char(d: int) -> char {
    (d + '0' as int) as char
}

/// Whether the text consists of decimal digits only.
pub open spec fn all_digits(s: Seq<char>) -> bool {
    forall|i: int| 0 <= i < s.len() ==> is_digit(#[trigger] s[i])
}

/// The number that a text of decimal digits denotes; the empty text denotes
/// zero.
pub open spec fn digits_value(s: Seq<char>) -> nat
    decreases s.len(),
{
    if s.len() == 0 {
        0
    } else {
        (digits_value(s.drop_last()) * 10 + digit_value(s.last())) as nat
    }
}

/// The decimal text of `n`, without leading zeros.
pub open spec fn nat_text(n: nat) -> Seq<char>
    decreases n,
{
    if n < 10 {
        seq![digit_char(n as int)]
    } else {
        nat_text(n / 10).push(digit_char((n % 10) as int))
    }
}

/// The decimal text of `n`, with a minus sign in front of a negative number.
pub open spec fn int_text(n: int) -> Seq<char> {
    if n < 0 {
        seq!['-'] + nat_text((-n) as nat)
    } else {
        nat_text(n as nat)
    }
}

/// The unsigned number that a text denotes: an optional `+`, then at least
/// one digit and nothing else. A text of another shape denotes nothing.
pub open spec fn unsigned_value(s: Seq<char>) -> Option<nat> {
    let digits = if s.len() > 0 && s[0] == '+' {
        s.subrange(1, s.len() as int)
    } else {
        s
    };
    if digits.len() > 0 && all_digits(digits) {
        Some(digits_value(digits))
    } else {
        None
    }
}

/// The signed number that a text denotes: an optional `+` or `-`, then at
/// least one digit and nothing else.
pub open spec fn signed_value(s: Seq<char>) -> Option<int> {
    if s.len() > 0 && s[0] == '-' {
        let digits = s.subrange(1, s.len() as int);
        if digits.len() > 0 && all_digits(digits) {
            Some(-(digits_value(digits) as int))
        } else {
            None
        }
    } else {
        match unsigned_value(s) {
            Some(n) => Some(n as int),
            None => None,
        }
    }
}

/// What parsing a text as a `u32` gives: its unsigned value where it has one
/// that fits.
pub open spec fn u32_of_text(s: Seq<char>) -> Option<u32> {
    match unsigned_value(s) {
        Some(n) => if n <= u32::MAX {
            Some(n as u32)
        } else {
            None
        },
        None => None,
    }
}

/// What parsing a text as an `i64` gives: its signed value where it has one
/// that fits.
pub open spec fn i64_of_text(s: Seq<char>) -> Option<i64> {
    match signed_value(s) {
        Some(n) => if i64::MIN <= n <= i64::MAX {
            Some(n as i64)
        } else {
            None
        },
        None => None,
    }
}

/// Appending a digit to a text multiplies its value by ten and adds the digit.
pub proof fn lemma_digits_value_push(s: Seq<char>, c: char)
    requires
        is_digit(c),
    ensures
        digits_value(s.push(c)) == digits_value(s) * 10 + digit_value(c),
{
    assert(s.push(c).drop_last() =~= s);
}

/// A text of digits is worth at least as much as each of its prefixes.
pub proof fn lemma_digits_value_prefix(s: Seq<char>, i: int)
    requires
        all_digits(s),
        0 <= i <= s.len(),
    ensures
        digits_value(s.take(i)) <= digits_value(s),
    decreases s.len() - i,
{
    if i == s.len() {
        assert(s.take(i) =~= s);
    } else {
        lemma_digits_value_prefix(s, i + 1);
        assert(s.take(i + 1).drop_last() =~= s.take(i));
        assert(is_digit(s[i]));
        assert(s.take(i + 1).last() == s[i]);
    }
}

/// The text of a number consists of digits and denotes that number.
pub proof fn lemma_nat_text_value(n: nat)
    ensures
        nat_text(n).len() > 0,
        all_digits(nat_text(n)),
        digits_value(nat_text(n)) == n,
    decreases n,
{
    if n < 10 {
        let s = nat_text(n);
        assert(s.drop_last() =~= Seq::<char>::empty());
        assert(digits_value(s.drop_last()) == 0);
    } else {
        lemma_nat_text_value(n / 10);
        let c = digit_char((n % 10) as int);
        lemma_digits_value_push(nat_text(n / 10), c);
    }
}

/// Writing a number and reading the text back gives the number.
pub proof fn lemma_unsigned_round_trip(n: nat)
    ensures
        unsigned_value(nat_text(n)) == Some(n),
{
    lemma_nat_text_value(n);
    assert(is_digit(nat_text(n)[0]));
}

/// Writing a signed number and reading the text back gives the number.
pub proof fn lemma_signed_round_trip(n: int)
    ensures
        signed_value(int_text(n)) == Some(n),
{
    if n < 0 {
        let m = (-n) as nat;
        lemma_nat_text_value(m);
        let s = int_text(n);
        assert(s.subrange(1, s.len() as int) =~= nat_text(m));
    } else {
        lemma_unsigned_round_trip(n as nat);
        lemma_nat_text_value(n as nat);
        assert(is_digit(nat_text(n as nat)[0]));
    }
}

fn digit_str(d: u64) -> (s: &'static str)
    requires
        d < 10,
    ensures
        s@ == seq![digit_char(d as int)],
{
    proof {
        reveal_strlit("0");
        reveal_strlit("1");
        reveal_strlit("2");
        reveal_strlit("3");
        reveal_strlit("4");
        reveal_strlit("5");
        reveal_strlit("6");
        reveal_strlit("7");
        reveal_strlit("8");
        reveal_strlit("9");
    }
    let s = if d == 0 {
        "0"
    } else if d == 1 {
        "1"
    } else if d == 2 {
        "2"
    } else if d == 3 {
        "3"
    } else if d == 4 {
        "4"
    } else if d == 5 {
        "5"
    } else if d == 6 {
        "6"
    } else if d == 7 {
        "7"
    } else if d == 8 {
        "8"
    } else {
        "9"
    };
    assert(s@ =~= seq![digit_char(d as int)]);
    s
}

/// Writes `n` in decimal digits.
pub fn render_u64(n: u64) -> (text: String)
    ensures
        text@ == nat_text(n as nat),
    decreases n,
{
    if n < 10 {
        String::from_str(digit_str(n))
    } else {
        let mut text = render_u64(n / 10);
        text.append(digit_str(n % 10));
        assert(text@ =~= nat_text(n as nat));
        text
    }
}

/// Writes `n` in decimal digits.
pub fn render_u32(n: u32) -> (text: String)
    ensures
        text@ == nat_text(n as nat),
{
    render_u64(n as u64)
}

/// Writes `n` in decimal digits, with a minus sign if it is negative.
pub fn render_i64(n: i64) -> (text: String)
    ensures
        text@ == int_text(n as int),
{
    if n < 0 {
        let magnitude: u64 = (-(n as i128)) as u64;
        let digits = render_u64(magnitude);
        let text = String::from_str("-").concat(digits.as_str());
        proof {
            reveal_strlit("-");
            assert(text@ =~= int_text(n as int));
        }
        text
    } else {
        render_u64(n as u64)
    }
}

/// What the characters of `s` from position `start` up to `end` denote,
/// where there is at least one, all are digits and the value is at most
/// `limit`.
pub open spec fn bounded_digits(s: Seq<char>, start: int, end: int, limit: nat) -> Option<nat> {
    let digits = s.subrange(start, end);
    if digits.len() > 0 && all_digits(digits) && digits_value(digits) <= limit {
        Some(digits_value(digits))
    } else {
        None
    }
}

/// Reads the digits of `s` between two positions as a number of at most
/// `limit`.
pub fn parse_digits(s: &str, start: usize, end: usize, limit: u64) -> (value: Option<u64>)
    requires
        start <= end <= s@.len(),
    ensures
        match bounded_digits(s@, start as int, end as int, limit as nat) {
            Some(n) => value == Some(n as u64),
            None => value is None,
        },
{
    if start == end {
        return None;
    }
    let ghost digits = s@.subrange(start as int, end as int);
    let mut acc: u64 = 0;
    let mut i: usize = start;
    while i < end
        invariant
            start <= i <= end <= s@.len(),
            digits == s@.subrange(start as int, end as int),
            all_digits(digits.take(i - start)),
            acc as nat == digits_value(digits.take(i - start)),
            acc <= limit,
        decreases end - i,
    {
        let c = s.get_char(i);
        assert(digits[i - start] == c);
        if !(c >= '0' && c <= '9') {
            assert(!all_digits(digits));
            return None;
        }
        let d: u64 = (c as u32 - '0' as u32) as u64;
        proof {
            assert(digits.take(i - start + 1) =~= digits.take(i - start).push(c));
            lemma_digits_value_push(digits.take(i - start), c);
            assert(all_digits(digits.take(i - start + 1)));
        }
        let wide: u128 = acc as u128 * 10 + d as u128;
        if wide > limit as u128 {
            proof {
                if all_digits(digits) {
                    lemma_digits_value_prefix(digits, i - start + 1);
                }
            }
            return None;
        }
        acc = wide as u64;
        i = i + 1;
    }
    assert(digits.take(i - start) =~= digits);
    Some(acc)
}

/// Reads a `u32` from its decimal text.
pub fn parse_u32(s: &str) -> (value: Option<u32>)
    ensures
        value == u32_of_text(s@),
{
    let len = s.unicode_len();
    let start: usize = if len > 0 && s.get_char(0) == '+' {
        1
    } else {
        0
    };
    assert(s@.subrange(0, s@.len() as int) =~= s@);
    match parse_digits(s, start, len, u32::MAX as u64) {
        Some(n) => Some(n as u32),
        None => None,
    }
}

/// Reads an `i64` from its decimal text.
pub fn parse_i64(s: &str) -> (value: Option<i64>)
    ensures
        value == i64_of_text(s@),
{
    let len = s.unicode_len();
    assert(s@.subrange(0, s@.len() as int) =~= s@);
    if len > 0 && s.get_char(0) == '-' {
        match parse_digits(s, 1, len, 0x8000_0000_0000_0000u64) {
            Some(n) => Some((-(n as i128)) as i64),
            None => None,
        }
    } else {
        let start: usize = if len > 0 && s.get_char(0) == '+' {
            1
        } else {
            0
        };
        match parse_digits(s, start, len, i64::MAX as u64) {
            Some(n) => Some(n as i64),
            None => None,
        }
    }
}

} // verus!
