//! Decimal quantities with one digit after the point, as weights and
//! ratings of perceived exertion are recorded.

use vstd::prelude::*;
use vstd::string::*;
use crate::text::{
    all_digits, digit_char, digit_value, digits_value, is_digit, lemma_nat_text_value, nat_text,
    parse_digits, render_u32,
};

verus! {

/// A non-negative decimal number held as a count of tenths.
#[derive(Clone, Copy, PartialEq, Eq, Debug, Structural)]
pub struct Decimal {
    pub tenths: u32,
}

/// The text without a leading `+`.
pub open spec fn unsigned_part(s: Seq<char>) -> Seq<char> {
    if s.len() > 0 && s[0] == '+' {
        s.subrange(1, s.len() as int)
    } else {
        s
    }
}

/// Whether `body` is a decimal fraction with its point at position `p`:
/// digits, the point, one digit, and then zeros only.
pub open spec fn point_at(body: Seq<char>, p: int) -> bool {
    &&& 0 < p && p + 1 < body.len()
    &&& body[p] == '.'
    &&& all_digits(body.take(p))
    &&& is_digit(body[p + 1])
    &&& forall|j: int| p + 1 < j < body.len() ==> #[trigger] body[j] == '0'
}

/// The count of tenths that a text denotes: an optional `+`, then either
/// digits only, or digits, a point, one digit and any number of zeros.
pub open spec fn tenths_of_text(s: Seq<char>) -> Option<nat> {
    let body = unsigned_part(s);
    if body.len() > 0 && all_digits(body) {
        Some(digits_value(body) * 10)
    } else if exists|p: int| point_at(body, p) {
        let p = choose|p: int| point_at(body, p);
        Some((digits_value(body.take(p)) * 10 + digit_value(body[p + 1])) as nat)
    } else {
        None
    }
}

/// What parsing a text as a decimal gives: its count of tenths where it has
/// one that fits.
pub open spec fn decimal_of_text(s: Seq<char>) -> Option<Decimal> {
    match tenths_of_text(s) {
        Some(n) => if n <= u32::MAX {
            Some(Decimal { tenths: n as u32 })
        } else {
            None
        },
        None => None,
    }
}

/// The text of a decimal: its whole part and, unless that is all of it, a
/// point and the digit of tenths.
pub open spec fn decimal_text(d: Decimal) -> Seq<char> {
    if d.tenths % 10 == 0 {
        nat_text((d.tenths / 10) as nat)
    } else {
        nat_text((d.tenths / 10) as nat) + seq!['.', digit_char((d.tenths % 10) as int)]
    }
}

/// A text has its decimal point in one place at most.
pub proof fn lemma_point_unique(body: Seq<char>, p: int, q: int)
    requires
        point_at(body, p),
        point_at(body, q),
    ensures
        p == q,
{
    if p < q {
        assert(body.take(q)[p] == body[p]);
        assert(is_digit(body.take(q)[p]));
    } else if q < p {
        assert(body.take(p)[q] == body[q]);
        assert(is_digit(body.take(p)[q]));
    }
}

/// Writing a decimal and reading the text back gives the decimal.
pub proof fn lemma_decimal_round_trip(d: Decimal)
    ensures
        decimal_of_text(decimal_text(d)) == Some(d),
        decimal_text(d).len() > 0,
{
    let whole = nat_text((d.tenths / 10) as nat);
    lemma_nat_text_value((d.tenths / 10) as nat);
    assert(is_digit(whole[0]));
    let s = decimal_text(d);
    if d.tenths % 10 == 0 {
        assert(unsigned_part(s) == s);
    } else {
        let p = whole.len() as int;
        assert(s[0] == whole[0]);
        assert(unsigned_part(s) == s);
        assert(s[p] == '.');
        assert(!is_digit(s[p]));
        assert(!all_digits(s));
        assert(s.take(p) =~= whole);
        assert(point_at(s, p));
        let q = choose|q: int| point_at(s, q);
        lemma_point_unique(s, p, q);
    }
}

impl Decimal {
    pub fn from_tenths(tenths: u32) -> (d: Decimal)
        ensures
            d.tenths == tenths,
    {
        Decimal { tenths }
    }

    /// Writes the decimal: `7`, `72.5`, `0.5`.
    pub fn render(&self) -> (text: String)
        ensures
            text@ == decimal_text(*self),
    {
        let mut text = render_u32(self.tenths / 10);
        if self.tenths % 10 != 0 {
            let digit = render_u32(self.tenths % 10);
            text.append(".");
            text.append(digit.as_str());
            proof {
                reveal_strlit(".");
                assert(text@ =~= decimal_text(*self));
            }
        }
        text
    }

    /// Reads a decimal from its text.
    pub fn parse(s: &str) -> (value: Option<Decimal>)
        ensures
            value == decimal_of_text(s@),
    {
        let len = s.unicode_len();
        let start: usize = if len > 0 && s.get_char(0) == '+' {
            1
        } else {
            0
        };
        let ghost body = unsigned_part(s@);
        assert(s@.subrange(0, s@.len() as int) =~= s@);
        assert(body == s@.subrange(start as int, len as int));
        let mut p: usize = start;
        while p < len && is_digit_char(s.get_char(p))
            invariant
                start <= p <= len,
                len == s@.len(),
                body == s@.subrange(start as int, len as int),
                all_digits(body.take(p - start)),
            decreases len - p,
        {
            assert(body.take(p - start + 1) =~= body.take(p - start).push(s@[p as int]));
            p = p + 1;
        }
        if p == len {
            assert(body.take(p - start) =~= body);
            return match parse_digits(s, start, len, u32::MAX as u64) {
                Some(n) => if n * 10 <= u32::MAX as u64 {
                    Some(Decimal { tenths: (n * 10) as u32 })
                } else {
                    None
                },
                None => None,
            };
        }
        assert(!is_digit(body[p - start]));
        assert(!all_digits(body));
        let ghost cut = (p - start) as int;
        assert forall|q: int| point_at(body, q) implies q == cut by {
            if q < cut {
                assert(body.take(cut)[q] == body[q]);
            } else if q > cut {
                assert(body.take(q)[cut] == body[cut]);
            }
        }
        if s.get_char(p) != '.' || p == start || p + 1 >= len {
            return None;
        }
        let tenth = s.get_char(p + 1);
        if !is_digit_char(tenth) {
            return None;
        }
        let mut j: usize = p + 2;
        while j < len
            invariant
                p + 2 <= j <= len,
                len == s@.len(),
                body == s@.subrange(start as int, len as int),
                start <= p,
                body == unsigned_part(s@),
                !all_digits(body),
                forall|q: int| point_at(body, q) ==> q == p - start,
                forall|k: int| p + 1 < k < j ==> s@[k] == '0',
            decreases len - j,
        {
            if s.get_char(j) != '0' {
                assert(body[j - start] != '0');
                return None;
            }
            j = j + 1;
        }
        assert(point_at(body, cut));
        assert(s@.subrange(start as int, p as int) =~= body.take(cut));
        match parse_digits(s, start, p, u32::MAX as u64) {
            Some(n) => {
                let wide: u64 = n * 10 + (tenth as u32 - '0' as u32) as u64;
                if wide <= u32::MAX as u64 {
                    Some(Decimal { tenths: wide as u32 })
                } else {
                    None
                }
            },
            None => None,
        }
    }
}

fn is_digit_char(c: char) -> (b: bool)
    ensures
        b == is_digit(c),
{
    c >= '0' && c <= '9'
}

} // verus!
