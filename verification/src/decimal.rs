//! Decimal numbers as the fields of a sentence write them, held exactly.

use crate::text::{
    all_digits, ascii_len, digits_value, find_char, first_index, parse_digits, push_text, substring,
};
use vstd::prelude::*;
use vstd::string::*;

verus! {

broadcast use vstd::string::group_string_axioms;

/// A decimal number: `digits` over ten to the `scale`, negative where
/// `negative` is set. Zero keeps the sign that it was written with.
#[derive(Clone, Copy, Debug, PartialEq, Eq)]
pub struct Decimal {
    /// Whether the number was written with a minus sign.
    pub negative: bool,
    /// All digits of the number, those after the point included.
    pub digits: u64,
    /// How many of the digits stand after the point.
    pub scale: u8,
}

impl Decimal {
    /// The same number with the other sign.
    pub fn negated(self) -> (r: Decimal)
        ensures
            r == (Decimal { negative: !self.negative, digits: self.digits, scale: self.scale }),
    {
        Decimal { negative: !self.negative, digits: self.digits, scale: self.scale }
    }
}

/// A text without the sign that it starts with, if it starts with one.
pub open spec fn unsigned_part(s: Seq<char>) -> Seq<char> {
    if s.len() > 0 && (s[0] == '+' || s[0] == '-') {
        s.subrange(1, s.len() as int)
    } else {
        s
    }
}

/// The digits before the point of an unsigned decimal text.
pub open spec fn whole_part(u: Seq<char>) -> Seq<char> {
    match first_index(u, '.') {
        Some(i) => if 0 <= i <= u.len() {
            u.subrange(0, i)
        } else {
            u
        },
        None => u,
    }
}

/// The digits after the point of an unsigned decimal text.
pub open spec fn fraction_part(u: Seq<char>) -> Seq<char> {
    match first_index(u, '.') {
        Some(i) => if 0 <= i < u.len() {
            u.subrange(i + 1, u.len() as int)
        } else {
            Seq::empty()
        },
        None => Seq::empty(),
    }
}

/// Whether a text writes a decimal number: an optional sign, digits, and
/// optionally a point and more digits, with a digit on at least one side
/// of the point.
pub open spec fn is_decimal(s: Seq<char>) -> bool {
    let u = unsigned_part(s);
    &&& all_digits(whole_part(u))
    &&& all_digits(fraction_part(u))
    &&& whole_part(u).len() + fraction_part(u).len() > 0
}

/// The decimal number that a text writes, where it writes one that can be
/// held: with at most 255 digits after the point and all its digits
/// together below 2 to the 64.
pub open spec fn decimal_of(s: Seq<char>) -> Option<Decimal> {
    let u = unsigned_part(s);
    let all = whole_part(u) + fraction_part(u);
    if is_decimal(s) && fraction_part(u).len() <= 255 && digits_value(all) <= u64::MAX {
        Some(
            Decimal {
                negative: s[0] == '-',
                digits: digits_value(all) as u64,
                scale: fraction_part(u).len() as u8,
            },
        )
    } else {
        None
    }
}

/// Reads an ASCII string as a decimal number.
pub fn parse_decimal(s: &str) -> (r: Option<Decimal>)
    requires
        s.is_ascii(),
    ensures
        r == decimal_of(s@),
{
    let n: usize = ascii_len(s);
    if n == 0 {
        assert(whole_part(s@).len() == 0);
        assert(fraction_part(s@).len() == 0);
        return None;
    }
    let first: char = s.get_ascii(0) as char;
    let negative: bool = first == '-';
    let start: usize = if first == '+' || first == '-' {
        1
    } else {
        0
    };
    let rest: String = substring(s, start, n);
    assert(rest@ == unsigned_part(s@)) by {
        if start == 0 {
            assert(s@.subrange(0, n as int) =~= s@);
        }
    }
    let m: usize = n - start;
    let (whole, fraction): (String, String) = match find_char(rest.as_str(), '.') {
        Some(i) => (substring(rest.as_str(), 0, i), substring(rest.as_str(), i + 1, m)),
        None => (substring(rest.as_str(), 0, m), substring(rest.as_str(), 0, 0)),
    };
    proof {
        assert(rest@.subrange(0, m as int) =~= rest@);
        assert(whole@ == whole_part(rest@));
        assert(fraction@ =~= fraction_part(rest@));
    }
    let scale: usize = ascii_len(fraction.as_str());
    if scale > 255 {
        return None;
    }
    let mut all: String = whole;
    push_text(&mut all, fraction.as_str());
    proof {
        let w = whole_part(rest@);
        let f = fraction_part(rest@);
        assert(all@ == w + f);
        assert(all@.subrange(0, all@.len() as int) =~= all@);
        if all_digits(w) && all_digits(f) {
            assert forall|i: int| 0 <= i < all@.len() implies crate::text::is_digit(
                #[trigger] all@[i],
            ) by {
                if i < w.len() {
                    assert(all@[i] == w[i]);
                } else {
                    assert(all@[i] == f[i - w.len()]);
                }
            }
        }
        if all_digits(all@) {
            assert forall|i: int| 0 <= i < w.len() implies crate::text::is_digit(
                #[trigger] w[i],
            ) by {
                assert(all@[i] == w[i]);
            }
            assert forall|i: int| 0 <= i < f.len() implies crate::text::is_digit(
                #[trigger] f[i],
            ) by {
                assert(all@[i + w.len()] == f[i]);
            }
        }
        crate::text::lemma_ascii_concat(w, f);
    }
    match parse_digits(all.as_str(), 0, u64::MAX) {
        Some(digits) => Some(Decimal { negative, digits, scale: scale as u8 }),
        None => None,
    }
}

} // verus!
