//! Helpers on ASCII text: searching, slicing, splitting, and reading and
//! writing whole numbers.

use crate::error::ParseError;
use vstd::prelude::*;
use vstd::string::*;

verus! {

broadcast use vstd::string::group_string_axioms;

/// `String::push`: appends one character at the end.
#[verifier::external_body]
pub(crate) fn push_char(s: &mut String, c: char)
    ensures
        final(s)@ == old(s)@.push(c),
{
    s.push(c)
}

/// Every character of `s` is below 128.
pub open spec fn ascii(s: Seq<char>) -> bool {
    vstd::utf8::is_ascii_chars(s)
}

/// No position of `s` holds `c`.
pub open spec fn free_of(s: Seq<char>, c: char) -> bool {
    forall|j: int| 0 <= j < s.len() ==> s[j] != c
}

/// `i` is the first position of `s` that holds `c`.
pub open spec fn is_first(s: Seq<char>, c: char, i: int) -> bool {
    &&& 0 <= i < s.len()
    &&& s[i] == c
    &&& forall|j: int| 0 <= j < i ==> s[j] != c
}

/// `i` is the last position of `s` that holds `c`.
pub open spec fn is_last(s: Seq<char>, c: char, i: int) -> bool {
    &&& 0 <= i < s.len()
    &&& s[i] == c
    &&& forall|j: int| i < j < s.len() ==> s[j] != c
}

/// The first position of `c` in `s`, or `None` where `s` is free of it.
pub open spec fn first_index(s: Seq<char>, c: char) -> Option<int> {
    if free_of(s, c) {
        None
    } else {
        Some(choose|i: int| is_first(s, c, i))
    }
}

/// The last position of `c` in `s`, or `None` where `s` is free of it.
pub open spec fn last_index(s: Seq<char>, c: char) -> Option<int> {
    if free_of(s, c) {
        None
    } else {
        Some(choose|i: int| is_last(s, c, i))
    }
}

/// A first position is the only one, and is what `first_index` names.
pub proof fn lemma_first_index(s: Seq<char>, c: char, i: int)
    requires
        is_first(s, c, i),
    ensures
        first_index(s, c) == Some(i),
{
    let k = choose|k: int| is_first(s, c, k);
    assert(is_first(s, c, k));
    if k < i {
        assert(s[k] != c);
    }
    if i < k {
        assert(s[i] != c);
    }
}

/// A last position is the only one, and is what `last_index` names.
pub proof fn lemma_last_index(s: Seq<char>, c: char, i: int)
    requires
        is_last(s, c, i),
    ensures
        last_index(s, c) == Some(i),
{
    let k = choose|k: int| is_last(s, c, k);
    assert(is_last(s, c, k));
    if k < i {
        assert(s[i] != c);
    }
    if i < k {
        assert(s[k] != c);
    }
}

/// A text that holds `c` has a last position that does.
proof fn lemma_exists_last(s: Seq<char>, c: char)
    requires
        !free_of(s, c),
    ensures
        exists|k: int| is_last(s, c, k),
    decreases s.len(),
{
    if s.last() == c {
        assert(is_last(s, c, s.len() - 1));
    } else {
        let j = choose|j: int| 0 <= j < s.len() && s[j] == c;
        assert(s.drop_last()[j] == c);
        lemma_exists_last(s.drop_last(), c);
        let k = choose|k: int| is_last(s.drop_last(), c, k);
        assert forall|m: int| k < m < s.len() implies s[m] != c by {
            if m < s.len() - 1 {
                assert(s.drop_last()[m] != c);
            }
        }
        assert(is_last(s, c, k));
    }
}

/// A text that holds `c` has a first position that does.
proof fn lemma_exists_first(s: Seq<char>, c: char)
    requires
        !free_of(s, c),
    ensures
        exists|k: int| is_first(s, c, k),
    decreases s.len(),
{
    let j = choose|j: int| 0 <= j < s.len() && s[j] == c;
    if free_of(s.drop_last(), c) {
        assert forall|m: int| 0 <= m < s.len() - 1 implies s[m] != c by {
            assert(s.drop_last()[m] != c);
        }
        assert(is_first(s, c, s.len() - 1));
    } else {
        lemma_exists_first(s.drop_last(), c);
        let k = choose|k: int| is_first(s.drop_last(), c, k);
        assert(s[k] == s.drop_last()[k]);
        assert forall|m: int| 0 <= m < k implies s[m] != c by {
            assert(s.drop_last()[m] != c);
        }
        assert(is_first(s, c, k));
    }
}

/// What `first_index` names is a first position.
pub proof fn lemma_first_index_is_first(s: Seq<char>, c: char)
    requires
        first_index(s, c) is Some,
    ensures
        is_first(s, c, first_index(s, c).unwrap()),
{
    lemma_exists_first(s, c);
}

/// What `last_index` names is a last position.
pub proof fn lemma_last_index_is_last(s: Seq<char>, c: char)
    requires
        last_index(s, c) is Some,
    ensures
        is_last(s, c, last_index(s, c).unwrap()),
{
    lemma_exists_last(s, c);
}

/// The number of characters of an ASCII string.
pub fn ascii_len(s: &str) -> (n: usize)
    requires
        s.is_ascii(),
    ensures
        n == s@.len(),
{
    proof {
        is_ascii_spec_bytes(s);
    }
    s.as_bytes().len()
}

/// Finds the first `c` of an ASCII string.
pub fn find_char(s: &str, c: char) -> (r: Option<usize>)
    requires
        s.is_ascii(),
    ensures
        r.is_some() == first_index(s@, c).is_some(),
        r.is_some() ==> first_index(s@, c) == Some(r.unwrap() as int) && r.unwrap() < s@.len(),
{
    let n: usize = ascii_len(s);
    let mut i: usize = 0;
    while i < n
        invariant
            s.is_ascii(),
            n == s@.len(),
            i <= n,
            forall|j: int| 0 <= j < i ==> s@[j] != c,
        decreases n - i,
    {
        if s.get_ascii(i) as char == c {
            proof {
                lemma_first_index(s@, c, i as int);
            }
            return Some(i);
        }
        i += 1;
    }
    None
}

/// Finds the last `c` of an ASCII string.
pub fn rfind_char(s: &str, c: char) -> (r: Option<usize>)
    requires
        s.is_ascii(),
    ensures
        r.is_some() == last_index(s@, c).is_some(),
        r.is_some() ==> last_index(s@, c) == Some(r.unwrap() as int) && r.unwrap() < s@.len(),
{
    let n: usize = ascii_len(s);
    let mut i: usize = n;
    while i > 0
        invariant
            s.is_ascii(),
            n == s@.len(),
            i <= n,
            forall|j: int| i <= j < n ==> s@[j] != c,
        decreases i,
    {
        i -= 1;
        if s.get_ascii(i) as char == c {
            proof {
                lemma_last_index(s@, c, i as int);
            }
            return Some(i);
        }
    }
    None
}

/// Copies the characters `from..to` of an ASCII string into a new string.
pub fn substring(s: &str, from: usize, to: usize) -> (r: String)
    requires
        s.is_ascii(),
        from <= to <= s@.len(),
    ensures
        r@ == s@.subrange(from as int, to as int),
        ascii(r@),
{
    String::from_str(s.substring_ascii(from, to))
}

/// The characters of a text that may be absent.
pub open spec fn text_view(s: Option<String>) -> Option<Seq<char>> {
    match s {
        Some(t) => Some(t@),
        None => None,
    }
}

/// Whether two ASCII strings hold the same characters.
pub fn same_text(a: &str, b: &str) -> (r: bool)
    requires
        a.is_ascii(),
        b.is_ascii(),
    ensures
        r == (a@ == b@),
{
    let n: usize = ascii_len(a);
    if ascii_len(b) != n {
        return false;
    }
    let mut i: usize = 0;
    while i < n
        invariant
            a.is_ascii(),
            b.is_ascii(),
            n == a@.len(),
            n == b@.len(),
            i <= n,
            forall|j: int| 0 <= j < i ==> a@[j] == b@[j],
        decreases n - i,
    {
        if a.get_ascii(i) != b.get_ascii(i) {
            return false;
        }
        i += 1;
    }
    assert(a@ =~= b@);
    true
}

/// The fields of `s`: the pieces between its commas, in order. A text
/// without a comma is one field; an empty text is one empty field.
pub open spec fn split_fields(s: Seq<char>) -> Seq<Seq<char>>
    decreases s.len(),
{
    match first_index(s, ',') {
        None => seq![s],
        Some(i) => if 0 <= i < s.len() {
            seq![s.subrange(0, i)] + split_fields(s.subrange(i + 1, s.len() as int))
        } else {
            seq![s]
        },
    }
}

/// The views of a vector of strings.
pub open spec fn views(v: Seq<String>) -> Seq<Seq<char>> {
    Seq::new(v.len(), |i: int| v[i]@)
}

/// Every string of the vector is ASCII.
pub open spec fn all_ascii(v: Seq<String>) -> bool {
    forall|i: int| 0 <= i < v.len() ==> ascii(#[trigger] v[i]@)
}

/// Splits an ASCII string at its commas.
pub fn split_commas(s: &str) -> (out: Vec<String>)
    requires
        s.is_ascii(),
    ensures
        views(out@) == split_fields(s@),
        all_ascii(out@),
        out@.len() >= 1,
{
    let n: usize = ascii_len(s);
    let mut out: Vec<String> = Vec::new();
    let mut start: usize = 0;
    let mut i: usize = 0;
    proof {
        assert(s@.subrange(0, n as int) =~= s@);
        assert(views(out@) + split_fields(s@) =~= split_fields(s@));
    }
    while i < n
        invariant
            s.is_ascii(),
            n == s@.len(),
            start <= i <= n,
            all_ascii(out@),
            free_of(s@.subrange(start as int, i as int), ','),
            split_fields(s@) == views(out@) + split_fields(s@.subrange(start as int, n as int)),
        decreases n - i,
    {
        if s.get_ascii(i) as char == ',' {
            let field: String = substring(s, start, i);
            proof {
                let rest = s@.subrange(start as int, n as int);
                let k: int = i - start;
                assert forall|j: int| 0 <= j < k implies rest[j] != ',' by {
                    assert(s@.subrange(start as int, i as int)[j] == rest[j]);
                }
                lemma_first_index(rest, ',', k);
                assert(rest.subrange(0, k) =~= s@.subrange(start as int, i as int));
                assert(rest.subrange(k + 1, rest.len() as int) =~= s@.subrange(
                    i as int + 1,
                    n as int,
                ));
                assert(views(out@.push(field)) =~= views(out@) + seq![field@]);
            }
            out.push(field);
            start = i + 1;
            assert(s@.subrange(start as int, start as int) =~= Seq::<char>::empty());
        } else {
            proof {
                let old_part = s@.subrange(start as int, i as int);
                let new_part = s@.subrange(start as int, i as int + 1);
                assert forall|j: int| 0 <= j < new_part.len() implies new_part[j] != ',' by {
                    if j < old_part.len() {
                        assert(old_part[j] == new_part[j]);
                    }
                }
            }
        }
        i += 1;
    }
    let field: String = substring(s, start, n);
    proof {
        assert(views(out@.push(field)) =~= views(out@) + seq![field@]);
    }
    out.push(field);
    out
}

/// `c` is one of the ten decimal digits.
pub open spec fn is_digit(c: char) -> bool {
    '0' <= c <= '9'
}

/// Every character of `s` is a decimal digit.
pub open spec fn all_digits(s: Seq<char>) -> bool {
    forall|i: int| 0 <= i < s.len() ==> is_digit(#[trigger] s[i])
}

/// The number that the decimal digits `s` write; 0 for the empty text.
pub open spec fn digits_value(s: Seq<char>) -> nat
    decreases s.len(),
{
    if s.len() == 0 {
        0
    } else {
        (10 * digits_value(s.drop_last()) + (s.last() as u8 - 48)) as nat
    }
}

/// What a text writes as an unsigned whole number: an optional `+` and at
/// least one digit, nothing else.
pub open spec fn unsigned_value(s: Seq<char>) -> Option<nat> {
    let d = if s.len() > 0 && s[0] == '+' {
        s.subrange(1, s.len() as int)
    } else {
        s
    };
    if d.len() > 0 && all_digits(d) {
        Some(digits_value(d))
    } else {
        None
    }
}

/// What a text writes as a signed whole number: an optional `+` or `-` and
/// at least one digit, nothing else.
pub open spec fn signed_value(s: Seq<char>) -> Option<int> {
    if s.len() > 0 && s[0] == '-' {
        let d = s.subrange(1, s.len() as int);
        if d.len() > 0 && all_digits(d) {
            Some(-(digits_value(d) as int))
        } else {
            None
        }
    } else {
        match unsigned_value(s) {
            Some(v) => Some(v as int),
            None => None,
        }
    }
}

/// Field `i` of a sentence, or the empty text where it has no such field.
pub open spec fn field_or_empty(fields: Seq<Seq<char>>, i: int) -> Seq<char> {
    if 0 <= i < fields.len() {
        fields[i]
    } else {
        Seq::empty()
    }
}

/// Field `i` of a sentence, or the empty text where it has no such field.
pub fn field(fields: &Vec<String>, i: usize) -> (r: &str)
    requires
        all_ascii(fields@),
    ensures
        r@ == field_or_empty(views(fields@), i as int),
        r.is_ascii(),
{
    if i < fields.len() {
        assert(ascii(fields@[i as int]@));
        fields[i].as_str()
    } else {
        let empty: &str = "";
        proof {
            reveal_strlit("");
        }
        empty
    }
}

/// The value of a run of digits is at least that of each of its prefixes.
pub proof fn lemma_digits_value_prefix(s: Seq<char>, k: int)
    requires
        0 <= k <= s.len(),
        all_digits(s),
    ensures
        digits_value(s.subrange(0, k)) <= digits_value(s),
    decreases s.len() - k,
{
    if k == s.len() {
        assert(s.subrange(0, k) =~= s);
    } else {
        lemma_digits_value_prefix(s, k + 1);
        let p = s.subrange(0, k + 1);
        assert(p.drop_last() =~= s.subrange(0, k));
        assert(is_digit(s[k]));
        assert(p.last() == s[k]);
    }
}

/// Reads the digits `from..` of an ASCII string as a number up to `max`.
pub fn parse_digits(s: &str, from: usize, max: u64) -> (r: Option<u64>)
    requires
        s.is_ascii(),
        from <= s@.len(),
    ensures
        r == (if s@.len() > from && all_digits(s@.subrange(from as int, s@.len() as int))
            && digits_value(s@.subrange(from as int, s@.len() as int)) <= max {
            Some(digits_value(s@.subrange(from as int, s@.len() as int)) as u64)
        } else {
            None
        }),
{
    let n: usize = ascii_len(s);
    if n == from {
        return None;
    }
    let ghost d = s@.subrange(from as int, n as int);
    let mut acc: u64 = 0;
    let mut i: usize = from;
    while i < n
        invariant
            s.is_ascii(),
            n == s@.len(),
            from <= i <= n,
            d == s@.subrange(from as int, n as int),
            all_digits(d.subrange(0, i - from)),
            acc == digits_value(d.subrange(0, i - from)),
            acc <= max,
        decreases n - i,
    {
        let b: u8 = s.get_ascii(i);
        if b < 48 || b > 57 {
            assert(d[i - from] == s@[i as int]);
            assert(!is_digit(d[i - from]));
            return None;
        }
        let v: u64 = (b - 48) as u64;
        proof {
            let p = d.subrange(0, i - from + 1);
            assert(p.drop_last() =~= d.subrange(0, i - from));
            assert(p.last() == s@[i as int]);
            assert(digits_value(p) == 10 * acc + v);
            assert forall|j: int| 0 <= j < p.len() implies is_digit(#[trigger] p[j]) by {
                if j < p.len() - 1 {
                    assert(d.subrange(0, i - from)[j] == p[j]);
                }
            }
        }
        if acc > max / 10 || v > max - acc * 10 {
            proof {
                let p = d.subrange(0, i - from + 1);
                assert(digits_value(p) > max);
                if all_digits(d) {
                    lemma_digits_value_prefix(d, i - from + 1);
                }
            }
            return None;
        }
        acc = acc * 10 + v;
        i += 1;
    }
    assert(d.subrange(0, n - from) =~= d);
    Some(acc)
}

/// The unsigned value of `s` where it is at most `max`.
pub open spec fn unsigned_up_to(s: Seq<char>, max: nat) -> Option<nat> {
    match unsigned_value(s) {
        Some(v) => if v <= max {
            Some(v)
        } else {
            None
        },
        None => None,
    }
}

/// Reads an ASCII string as an unsigned whole number that fits in 64 bits.
pub fn parse_u64(s: &str) -> (r: Option<u64>)
    requires
        s.is_ascii(),
    ensures
        r.is_some() == unsigned_up_to(s@, u64::MAX as nat).is_some(),
        r.is_some() ==> unsigned_up_to(s@, u64::MAX as nat) == Some(r.unwrap() as nat),
{
    parse_bounded(s, u64::MAX)
}

/// Reads an ASCII string as an unsigned whole number that is at most `max`.
pub fn parse_bounded(s: &str, max: u64) -> (r: Option<u64>)
    requires
        s.is_ascii(),
    ensures
        r.is_some() == unsigned_up_to(s@, max as nat).is_some(),
        r.is_some() ==> unsigned_up_to(s@, max as nat) == Some(r.unwrap() as nat),
{
    let n: usize = ascii_len(s);
    if n > 0 && s.get_ascii(0) as char == '+' {
        parse_digits(s, 1, max)
    } else {
        assert(s@.subrange(0, n as int) =~= s@);
        parse_digits(s, 0, max)
    }
}

/// Reads an ASCII string as an unsigned whole number that fits in 8 bits.
pub fn parse_u8(s: &str) -> (r: Option<u8>)
    requires
        s.is_ascii(),
    ensures
        r.is_some() == unsigned_up_to(s@, 255).is_some(),
        r.is_some() ==> unsigned_up_to(s@, 255) == Some(r.unwrap() as nat),
{
    match parse_bounded(s, 255) {
        Some(v) => Some(v as u8),
        None => None,
    }
}

/// Reads an ASCII string as an unsigned whole number that fits in 32 bits.
pub fn parse_u32(s: &str) -> (r: Option<u32>)
    requires
        s.is_ascii(),
    ensures
        r.is_some() == unsigned_up_to(s@, 0xffff_ffff).is_some(),
        r.is_some() ==> unsigned_up_to(s@, 0xffff_ffff) == Some(r.unwrap() as nat),
{
    match parse_bounded(s, 0xffff_ffff) {
        Some(v) => Some(v as u32),
        None => None,
    }
}

/// The signed value of `s` where it fits in 32 bits.
pub open spec fn signed_i32(s: Seq<char>) -> Option<int> {
    match signed_value(s) {
        Some(v) => if -0x8000_0000 <= v <= 0x7fff_ffff {
            Some(v)
        } else {
            None
        },
        None => None,
    }
}

/// Reads an ASCII string as a signed whole number that fits in 32 bits.
pub fn parse_i32(s: &str) -> (r: Option<i32>)
    requires
        s.is_ascii(),
    ensures
        r.is_some() == signed_i32(s@).is_some(),
        r.is_some() ==> signed_i32(s@) == Some(r.unwrap() as int),
{
    let n: usize = ascii_len(s);
    if n > 0 && s.get_ascii(0) as char == '-' {
        match parse_digits(s, 1, 0x8000_0000) {
            Some(v) => Some((0 - (v as i64)) as i32),
            None => None,
        }
    } else {
        match parse_bounded(s, 0x7fff_ffff) {
            Some(v) => Some(v as i32),
            None => None,
        }
    }
}

/// The character that writes the decimal digit `d`.
pub open spec fn digit_char(d: nat) -> char {
    ((48 + d) as u8) as char
}

/// The decimal digits that write `n`, without leading zeros.
pub open spec fn decimal_chars(n: nat) -> Seq<char>
    decreases n,
{
    if n < 10 {
        seq![digit_char(n)]
    } else {
        decimal_chars(n / 10).push(digit_char(n % 10))
    }
}

/// What a signed number is written as: a `-` before the digits of a
/// negative one.
pub open spec fn signed_decimal_chars(n: int) -> Seq<char> {
    if n < 0 {
        seq!['-'] + decimal_chars((-n) as nat)
    } else {
        decimal_chars(n as nat)
    }
}

/// Appends the decimal digits of `n`.
pub fn push_decimal(s: &mut String, n: u64)
    ensures
        final(s)@ == old(s)@ + decimal_chars(n as nat),
        ascii(old(s)@) ==> ascii(final(s)@),
    decreases n,
{
    if n >= 10 {
        push_decimal(s, n / 10);
    }
    let d: u8 = (n % 10) as u8;
    push_char(s, (48 + d) as char);
    proof {
        if n < 10 {
            assert(old(s)@.push(digit_char(n as nat)) =~= old(s)@ + seq![digit_char(n as nat)]);
        } else {
            assert((old(s)@ + decimal_chars((n / 10) as nat)).push(digit_char((n % 10) as nat))
                =~= old(s)@ + decimal_chars((n / 10) as nat).push(digit_char((n % 10) as nat)));
        }
    }
}

/// Appends a signed number in decimal.
pub fn push_signed_decimal(s: &mut String, n: i64)
    ensures
        final(s)@ == old(s)@ + signed_decimal_chars(n as int),
        ascii(old(s)@) ==> ascii(final(s)@),
{
    if n < 0 {
        push_char(s, '-');
        let m: u64 = if n == i64::MIN {
            0x8000_0000_0000_0000u64
        } else {
            (0 - n) as u64
        };
        let ghost mid = s@;
        push_decimal(s, m);
        assert(mid =~= old(s)@ + seq!['-']);
        assert(s@ =~= old(s)@ + (seq!['-'] + decimal_chars((-n) as nat)));
    } else {
        push_decimal(s, n as u64);
    }
}

/// The character that writes the hexadecimal digit `d` in upper case.
pub open spec fn hex_char(d: nat) -> char {
    if d < 10 {
        ((48 + d) as u8) as char
    } else {
        ((55 + d) as u8) as char
    }
}

/// The two upper-case hexadecimal digits that write a byte.
pub open spec fn hex2(b: u8) -> Seq<char> {
    seq![hex_char((b / 16) as nat), hex_char((b % 16) as nat)]
}

/// Two bytes with the same two hexadecimal digits are one byte.
pub proof fn lemma_hex2_injective(a: u8, b: u8)
    requires
        hex2(a) == hex2(b),
    ensures
        a == b,
{
    assert(hex2(a)[0] == hex2(b)[0]);
    assert(hex2(a)[1] == hex2(b)[1]);
}

/// The two upper-case hexadecimal digits of a byte, as a string.
pub fn hex2_string(b: u8) -> (r: String)
    ensures
        r@ == hex2(b),
        ascii(r@),
{
    let hi: u8 = b / 16;
    let lo: u8 = b % 16;
    let mut r: String = String::new();
    push_char(&mut r, if hi < 10 { (48 + hi) as char } else { (55 + hi) as char });
    push_char(&mut r, if lo < 10 { (48 + lo) as char } else { (55 + lo) as char });
    assert(r@ =~= hex2(b));
    r
}

/// Appends an ASCII string.
pub fn push_text(s: &mut String, t: &str)
    ensures
        final(s)@ == old(s)@ + t@,
{
    s.append(t);
}

/// The message of the error for a text that is no whole number: as std
/// words it.
pub open spec fn int_error_text(s: Seq<char>, signed: bool) -> Seq<char> {
    let d = if s.len() > 0 && (s[0] == '+' || (signed && s[0] == '-')) {
        s.subrange(1, s.len() as int)
    } else {
        s
    };
    if s.len() == 0 {
        "cannot parse integer from empty string"@
    } else if d.len() == 0 || !all_digits(d) {
        "invalid digit found in string"@
    } else if signed && s[0] == '-' {
        "number too small to fit in target type"@
    } else {
        "number too large to fit in target type"@
    }
}

/// Reads a text as a number of 32 bits. Fails on a text that is no whole
/// number, or one that does not fit.
pub fn read_u32(s: &str) -> (r: Result<u32, ParseError>)
    requires
        s.is_ascii(),
    ensures
        r is Ok <==> unsigned_up_to(s@, 0xffff_ffff) is Some,
        r is Ok ==> r.unwrap() == unsigned_up_to(s@, 0xffff_ffff).unwrap(),
        r is Err ==> r.unwrap_err() is InvalidSentence && r.unwrap_err().text() == int_error_text(
            s@,
            false,
        ),
{
    match parse_u32(s) {
        Some(v) => Ok(v),
        None => {
            let n: usize = ascii_len(s);
            let from: usize = if n > 0 && s.get_ascii(0) as char == '+' {
                1
            } else {
                0
            };
            let msg: &str = if n == 0 {
                "cannot parse integer from empty string"
            } else if n == from || !digits_only(s, from) {
                "invalid digit found in string"
            } else {
                "number too large to fit in target type"
            };
            proof {
                if from == 0 {
                    assert(s@.subrange(0, n as int) =~= s@);
                }
            }
            Err(ParseError::InvalidSentence(String::from_str(msg)))
        },
    }
}

/// Reads a text as a signed number of 32 bits. Fails on a text that is
/// no whole number, or one that does not fit.
pub fn read_i32(s: &str) -> (r: Result<i32, ParseError>)
    requires
        s.is_ascii(),
    ensures
        r is Ok <==> signed_i32(s@) is Some,
        r is Ok ==> r.unwrap() == signed_i32(s@).unwrap(),
        r is Err ==> r.unwrap_err() is InvalidSentence && r.unwrap_err().text() == int_error_text(
            s@,
            true,
        ),
{
    match parse_i32(s) {
        Some(v) => Ok(v),
        None => {
            let n: usize = ascii_len(s);
            let negative: bool = n > 0 && s.get_ascii(0) as char == '-';
            let from: usize = if n > 0 && (s.get_ascii(0) as char == '+' || negative) {
                1
            } else {
                0
            };
            let msg: &str = if n == 0 {
                "cannot parse integer from empty string"
            } else if n == from || !digits_only(s, from) {
                "invalid digit found in string"
            } else if negative {
                "number too small to fit in target type"
            } else {
                "number too large to fit in target type"
            };
            proof {
                if from == 0 {
                    assert(s@.subrange(0, n as int) =~= s@);
                }
            }
            Err(ParseError::InvalidSentence(String::from_str(msg)))
        },
    }
}

/// Whether the characters of `s` from `from` on are all digits.
pub fn digits_only(s: &str, from: usize) -> (r: bool)
    requires
        s.is_ascii(),
        from <= s@.len(),
    ensures
        r == all_digits(s@.subrange(from as int, s@.len() as int)),
{
    let n: usize = ascii_len(s);
    let ghost d = s@.subrange(from as int, n as int);
    let mut i: usize = from;
    while i < n
        invariant
            s.is_ascii(),
            n == s@.len(),
            from <= i <= n,
            d == s@.subrange(from as int, n as int),
            forall|j: int| 0 <= j < i - from ==> is_digit(#[trigger] d[j]),
        decreases n - i,
    {
        let b: u8 = s.get_ascii(i);
        if b < 48 || b > 57 {
            assert(d[i - from] == s@[i as int]);
            assert(!is_digit(d[i - from]));
            return false;
        }
        assert(d[i - from] == s@[i as int]);
        i += 1;
    }
    true
}

/// Up to three digits write a number below 1000.
pub proof fn lemma_digits_bound(s: Seq<char>)
    requires
        all_digits(s),
        s.len() <= 3,
    ensures
        digits_value(s) <= 999,
    decreases s.len(),
{
    reveal_with_fuel(digits_value, 4);
    if s.len() > 0 {
        assert(is_digit(s[s.len() - 1]));
        if s.len() > 1 {
            assert(is_digit(s[s.len() - 2]));
            assert(s.drop_last().last() == s[s.len() - 2]);
            if s.len() > 2 {
                assert(is_digit(s[0]));
                assert(s.drop_last().drop_last().last() == s[0]);
            }
        }
    }
}

/// Whether a text is the one character `c`.
pub fn is_char(s: &str, c: char) -> (r: bool)
    requires
        s.is_ascii(),
    ensures
        r == (s@ == seq![c]),
{
    if ascii_len(s) != 1 {
        return false;
    }
    let r: bool = s.get_ascii(0) as char == c;
    proof {
        if r {
            assert(s@ =~= seq![c]);
        }
    }
    r
}

/// Two ASCII texts joined are ASCII.
pub proof fn lemma_ascii_concat(a: Seq<char>, b: Seq<char>)
    requires
        ascii(a),
        ascii(b),
    ensures
        ascii(a + b),
{
    assert forall|i: int| 0 <= i < (a + b).len() implies '\0' <= #[trigger] (a + b)[i]
        <= '\u{7f}' by {
        if i < a.len() {
            assert((a + b)[i] == a[i]);
        } else {
            assert((a + b)[i] == b[i - a.len()]);
        }
    }
}

} // verus!
