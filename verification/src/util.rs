//! The bit-level payload codec: armored text to bits, and bits to numbers
//! and text.

use crate::bitseq::{
    bit_seq, bits_get, bits_len, bits_push, bits_with_capacity, max_bits, BitSequence,
};
use crate::datetime::{
    is_within_180_days, parse_valid_utc, utc_error_text, within_180_days, UtcDateTime,
};
use crate::error::ParseError;
use crate::text::{ascii, ascii_len, decimal_chars, push_char, push_decimal, push_text, text_view};
use vstd::arithmetic::power2::*;
use vstd::prelude::*;
use vstd::string::*;

verus! {

broadcast use vstd::string::group_string_axioms;

/// The six-bit value that an armored character stands for: its code less
/// 48, wrapping within a byte; less 8 more where that exceeds 40; of that
/// the low six bits.
pub open spec fn armor_value(c: char) -> nat {
    let r: int = ((c as u8) as int + 256 - 48) % 256;
    let r2: int = if r > 40 {
        r - 8
    } else {
        r
    };
    (r2 % 64) as nat
}

/// Bit `k` of a six-bit value, counted from the most significant.
pub open spec fn six_bit(v: nat, k: int) -> bool {
    let weight: int = if k == 0 {
        32
    } else if k == 1 {
        16
    } else if k == 2 {
        8
    } else if k == 3 {
        4
    } else if k == 4 {
        2
    } else {
        1
    };
    (v as int / weight) % 2 == 1
}

/// The bits that an armored text decodes to: six for each character, the
/// most significant first.
pub open spec fn armor_bits(s: Seq<char>) -> Seq<bool> {
    Seq::new(6 * s.len(), |i: int| six_bit(armor_value(s[i / 6]), i % 6))
}

/// The six bits of a six-bit value, the most significant first.
pub open spec fn six_bits(v: nat) -> Seq<bool> {
    Seq::new(6, |k: int| six_bit(v, k))
}

/// One more armored character adds its six bits at the end.
pub proof fn lemma_armor_bits_push(s: Seq<char>, c: char)
    ensures
        armor_bits(s.push(c)) == armor_bits(s) + six_bits(armor_value(c)),
{
    let a = armor_bits(s.push(c));
    let b = armor_bits(s) + six_bits(armor_value(c));
    assert(a.len() == b.len());
    assert forall|j: int| 0 <= j < a.len() implies a[j] == b[j] by {
        if j < 6 * s.len() {
            assert(j / 6 < s.len());
            assert(s.push(c)[j / 6] == s[j / 6]);
        } else {
            assert(j / 6 == s.len());
            assert(j % 6 == j - 6 * s.len());
        }
    }
    assert(a =~= b);
}

/// The bit at `pos` as a number; 0 past the end.
pub open spec fn bit_at(bits: Seq<bool>, pos: int) -> nat {
    if 0 <= pos < bits.len() && bits[pos] {
        1
    } else {
        0
    }
}

/// The number that the `len` bits from `start` write, the most
/// significant first; bits past the end count as 0.
pub open spec fn bits_value(bits: Seq<bool>, start: int, len: nat) -> nat
    decreases len,
{
    if len == 0 {
        0
    } else {
        2 * bits_value(bits, start, (len - 1) as nat) + bit_at(bits, start + len - 1)
    }
}

/// `bits_value` taken as a two's-complement number of `len` bits.
pub open spec fn bits_signed_value(bits: Seq<bool>, start: int, len: nat) -> int {
    let v = bits_value(bits, start, len);
    if len > 0 && v >= pow2((len - 1) as nat) {
        v - pow2(len)
    } else {
        v as int
    }
}

/// The number that `len` bits write is below 2 to the `len`.
pub proof fn lemma_bits_value_bound(bits: Seq<bool>, start: int, len: nat)
    ensures
        bits_value(bits, start, len) < pow2(len),
    decreases len,
{
    if len == 0 {
        lemma2_to64();
    } else {
        lemma_bits_value_bound(bits, start, (len - 1) as nat);
        lemma_pow2_unfold(len);
    }
}

/// Decoding undoes armoring: the six bits that character `i` of an armored
/// text decodes to write the six-bit value of that character.
pub proof fn lemma_armor_round_trip(s: Seq<char>, i: int)
    requires
        0 <= i < s.len(),
    ensures
        bits_value(armor_bits(s), 6 * i, 6) == armor_value(s[i]),
{
    let bits = armor_bits(s);
    let v = armor_value(s[i]);
    lemma2_to64();
    assert forall|j: int| 6 * i <= j < 6 * i + 6 implies #[trigger] bits[j] == six_bit(
        v,
        j - 6 * i,
    ) by {
        assert(j / 6 == i);
        assert(j % 6 == j - 6 * i);
    }
    assert(bits[6 * i] == six_bit(v, 0));
    assert(bits[6 * i + 1] == six_bit(v, 1));
    assert(bits[6 * i + 2] == six_bit(v, 2));
    assert(bits[6 * i + 3] == six_bit(v, 3));
    assert(bits[6 * i + 4] == six_bit(v, 4));
    assert(bits[6 * i + 5] == six_bit(v, 5));
    assert(bit_at(bits, 6 * i + 0) == (v / 32) % 2);
    assert(bit_at(bits, 6 * i + 1) == (v / 16) % 2);
    assert(bit_at(bits, 6 * i + 2) == (v / 8) % 2);
    assert(bit_at(bits, 6 * i + 3) == (v / 4) % 2);
    assert(bit_at(bits, 6 * i + 4) == (v / 2) % 2);
    assert(bit_at(bits, 6 * i + 5) == v % 2);
    reveal_with_fuel(bits_value, 7);
    assert(v < 64);
}

/// Reading `a + b` bits is reading `a` bits, shifting them up by `b`
/// places, and adding the `b` bits that follow.
pub proof fn lemma_bits_value_split(bits: Seq<bool>, start: int, a: nat, b: nat)
    ensures
        bits_value(bits, start, a + b) == bits_value(bits, start, a) * pow2(b) + bits_value(
            bits,
            start + a,
            b,
        ),
    decreases b,
{
    if b == 0 {
        lemma2_to64();
    } else {
        lemma_bits_value_split(bits, start, a, (b - 1) as nat);
        lemma_pow2_unfold(b);
        let x = bits_value(bits, start, a) as int;
        let p = pow2((b - 1) as nat) as int;
        assert(2 * (x * p) == x * (2 * p)) by (nonlinear_arith);
    }
}

/// A field whose bits are all 0 writes 0.
pub proof fn lemma_bits_value_zeros(bits: Seq<bool>, start: int, len: nat)
    requires
        forall|k: int| start <= k < start + len ==> bit_at(bits, k) == 0,
    ensures
        bits_value(bits, start, len) == 0,
    decreases len,
{
    if len > 0 {
        lemma_bits_value_zeros(bits, start, (len - 1) as nat);
    }
}

/// A field whose bits are all 1 writes 2 to the `len`, less 1.
pub proof fn lemma_bits_value_ones(bits: Seq<bool>, start: int, len: nat)
    requires
        forall|k: int| start <= k < start + len ==> bit_at(bits, k) == 1,
    ensures
        bits_value(bits, start, len) == pow2(len) - 1,
    decreases len,
{
    if len == 0 {
        lemma2_to64();
    } else {
        lemma_bits_value_ones(bits, start, (len - 1) as nat);
        lemma_pow2_unfold(len);
    }
}

/// A signed field of `w` bits that are all 0 reads as 0.
pub proof fn lemma_signed_all_zero(bits: Seq<bool>, start: int, w: nat)
    requires
        w >= 1,
        0 <= start,
        start + w <= bits.len(),
        forall|k: int| start <= k < start + w ==> !bits[k],
    ensures
        bits_signed_value(bits, start, w) == 0,
{
    lemma_bits_value_zeros(bits, start, w);
    lemma_pow2_pos((w - 1) as nat);
}

/// A signed field of `w` bits that are all 1 reads as -1.
pub proof fn lemma_signed_all_one(bits: Seq<bool>, start: int, w: nat)
    requires
        w >= 1,
        0 <= start,
        start + w <= bits.len(),
        forall|k: int| start <= k < start + w ==> bits[k],
    ensures
        bits_signed_value(bits, start, w) == -1,
{
    lemma_bits_value_ones(bits, start, w);
    lemma_pow2_unfold(w);
    lemma_pow2_pos((w - 1) as nat);
}

/// A signed field of `w` bits, the first 1 and the others 0, reads as
/// minus 2 to the `w - 1`.
pub proof fn lemma_signed_top_bit_only(bits: Seq<bool>, start: int, w: nat)
    requires
        w >= 1,
        0 <= start,
        start + w <= bits.len(),
        bits[start],
        forall|k: int| start < k < start + w ==> !bits[k],
    ensures
        bits_signed_value(bits, start, w) == -pow2((w - 1) as nat),
{
    lemma_bits_value_split(bits, start, 1, (w - 1) as nat);
    lemma_bits_value_zeros(bits, start + 1, (w - 1) as nat);
    reveal_with_fuel(bits_value, 2);
    assert(bits_value(bits, start, 1) == 1);
    lemma_pow2_unfold(w);
    assert(1 * pow2((w - 1) as nat) == pow2((w - 1) as nat));
}

/// A signed field of `w` bits, the first 0 and the others 1, reads as
/// 2 to the `w - 1`, less 1.
pub proof fn lemma_signed_all_but_top_bit(bits: Seq<bool>, start: int, w: nat)
    requires
        w >= 1,
        0 <= start,
        start + w <= bits.len(),
        !bits[start],
        forall|k: int| start < k < start + w ==> bits[k],
    ensures
        bits_signed_value(bits, start, w) == pow2((w - 1) as nat) - 1,
{
    lemma_bits_value_split(bits, start, 1, (w - 1) as nat);
    lemma_bits_value_ones(bits, start + 1, (w - 1) as nat);
    reveal_with_fuel(bits_value, 2);
    assert(bits_value(bits, start, 1) == 0);
    assert(0 * pow2((w - 1) as nat) == 0);
}

/// The six-bit value of an armored character.
fn armor_byte(c: u8) -> (v: u8)
    requires
        c < 128,
    ensures
        v as nat == armor_value(c as char),
        v < 64,
{
    let mut ci: u8 = c.wrapping_sub(48);
    if ci > 40 {
        ci = ci - 8;
    }
    ci % 64
}

/// Appends the six bits of `v`, the most significant first.
fn push_six_bits(bv: &mut BitSequence, v: u8)
    requires
        v < 64,
        bit_seq(old(bv)).len() + 6 <= max_bits(),
    ensures
        bit_seq(final(bv)) == bit_seq(old(bv)) + six_bits(v as nat),
{
    let b0: bool = v / 32 % 2 == 1;
    let b1: bool = v / 16 % 2 == 1;
    let b2: bool = v / 8 % 2 == 1;
    let b3: bool = v / 4 % 2 == 1;
    let b4: bool = v / 2 % 2 == 1;
    let b5: bool = v % 2 == 1;
    bits_push(bv, b0);
    bits_push(bv, b1);
    bits_push(bv, b2);
    bits_push(bv, b3);
    bits_push(bv, b4);
    bits_push(bv, b5);
    proof {
        let sb = six_bits(v as nat);
        assert(sb[0] == b0 && sb[1] == b1 && sb[2] == b2);
        assert(sb[3] == b3 && sb[4] == b4 && sb[5] == b5);
        assert(bit_seq(bv) =~= bit_seq(old(bv)) + sb);
    }
}

/// Decodes an armored payload into its bits. Fails only where the
/// payload has more bits than a bit sequence can hold.
pub fn parse_payload(payload: &str) -> (r: Result<BitSequence, String>)
    requires
        payload.is_ascii(),
    ensures
        r is Ok <==> 6 * payload@.len() <= max_bits(),
        r is Ok ==> bit_seq(&r.unwrap()) == armor_bits(payload@),
        r is Err ==> r.unwrap_err()@ == "payload too long"@,
{
    let n: usize = ascii_len(payload);
    if n > (usize::MAX / 8) / 6 {
        return Err(String::from_str("payload too long"));
    }
    let mut bv: BitSequence = bits_with_capacity(n * 6);
    let mut i: usize = 0;
    assert(payload@.subrange(0, 0) =~= Seq::<char>::empty());
    assert(armor_bits(Seq::<char>::empty()) =~= Seq::<bool>::empty());
    while i < n
        invariant
            payload.is_ascii(),
            n == payload@.len(),
            i <= n,
            6 * n <= max_bits(),
            bit_seq(&bv) == armor_bits(payload@.subrange(0, i as int)),
        decreases n - i,
    {
        let v: u8 = armor_byte(payload.get_ascii(i));
        push_six_bits(&mut bv, v);
        proof {
            lemma_armor_bits_push(payload@.subrange(0, i as int), payload@[i as int]);
            assert(payload@.subrange(0, i as int + 1) =~= payload@.subrange(0, i as int).push(
                payload@[i as int],
            ));
        }
        i += 1;
    }
    assert(payload@.subrange(0, n as int) =~= payload@);
    Ok(bv)
}

/// Reads `len` bits from `index` as an unsigned number, the most
/// significant bit first. Bits past the end of the sequence read as 0;
/// of a field wider than 64 bits the low 64 are returned.
pub fn pick_u64(bv: &BitSequence, index: usize, len: usize) -> (r: u64)
    requires
        index + len <= usize::MAX,
    ensures
        r as nat == bits_value(bit_seq(bv), index as int, len as nat) % 0x1_0000_0000_0000_0000,
        len <= 64 ==> r as nat == bits_value(bit_seq(bv), index as int, len as nat),
{
    let mut res: u64 = 0;
    let mut k: usize = 0;
    while k < len
        invariant
            k <= len,
            index + len <= usize::MAX,
            res as nat == bits_value(bit_seq(bv), index as int, k as nat) % 0x1_0000_0000_0000_0000,
        decreases len - k,
    {
        let b: u64 = match bits_get(bv, index + k) {
            Some(true) => 1,
            _ => 0,
        };
        assert(b == bit_at(bit_seq(bv), index + k));
        if res >= 0x8000_0000_0000_0000 {
            res = res - 0x8000_0000_0000_0000;
        }
        res = res * 2 + b;
        k += 1;
    }
    proof {
        if len <= 64 {
            lemma_bits_value_bound(bit_seq(bv), index as int, len as nat);
            lemma2_to64();
            lemma2_to64_rest();
            if len < 64 {
                lemma_pow2_strictly_increases(len as nat, 64);
            }
        }
    }
    res
}

/// Two to the `k`, for `k` below 64.
fn power_of_two(k: usize) -> (r: u64)
    requires
        k < 64,
    ensures
        r == pow2(k as nat),
{
    let mut r: u64 = 1;
    let mut i: usize = 0;
    proof {
        lemma2_to64();
    }
    while i < k
        invariant
            i <= k < 64,
            r == pow2(i as nat),
        decreases k - i,
    {
        proof {
            lemma_pow2_unfold((i + 1) as nat);
            lemma2_to64_rest();
            if i < 62 {
                lemma_pow2_strictly_increases(i as nat, 62);
            }
        }
        r = r * 2;
        i += 1;
    }
    r
}

/// Reads `len` bits from `index` as a signed number in two's complement:
/// where the first bit read is set, the value is what the other bits write
/// less 2 to the `len - 1`.
pub fn pick_i64(bv: &BitSequence, index: usize, len: usize) -> (r: i64)
    requires
        index + len <= usize::MAX,
        1 <= len <= 64,
    ensures
        r as int == bits_signed_value(bit_seq(bv), index as int, len as nat),
{
    let raw: u64 = pick_u64(bv, index, len);
    let sign_bit: u64 = power_of_two(len - 1);
    proof {
        lemma_bits_value_bound(bit_seq(bv), index as int, len as nat);
        lemma_pow2_unfold(len as nat);
        lemma2_to64_rest();
        if len < 64 {
            lemma_pow2_strictly_increases((len - 1) as nat, 63);
        }
    }
    if raw >= sign_bit {
        let low: u64 = raw - sign_bit;
        if len == 64 {
            (low as i64) + i64::MIN
        } else {
            (low as i64) - (sign_bit as i64)
        }
    } else {
        raw as i64
    }
}

/// The character that a six-bit value stands for in AIS text: 1 to 31 are
/// the codes 65 to 95, 32 to 63 are their own codes.
pub open spec fn sixbit_char(v: nat) -> char {
    if v < 32 {
        ((64 + v) as u8) as char
    } else {
        (v as u8) as char
    }
}

/// The value of the six-bit group number `j`, counted from the group at
/// `start`.
pub open spec fn group_value(bits: Seq<bool>, start: int, j: int) -> nat {
    bits_value(bits, start + 6 * j, 6)
}

/// The characters of `count` six-bit groups from `start`, up to the first
/// group that is 0.
pub open spec fn sixbit_text(bits: Seq<bool>, start: int, count: nat) -> Seq<char>
    decreases count,
{
    if count == 0 {
        Seq::empty()
    } else {
        let v = bits_value(bits, start, 6);
        if v == 0 {
            Seq::empty()
        } else {
            seq![sixbit_char(v)] + sixbit_text(bits, start + 6, (count - 1) as nat)
        }
    }
}

/// `s` without the spaces at its end.
pub open spec fn trim_end_spaces(s: Seq<char>) -> Seq<char>
    decreases s.len(),
{
    if s.len() > 0 && s.last() == ' ' {
        trim_end_spaces(s.drop_last())
    } else {
        s
    }
}

/// The text of a field of `count` six-bit characters from `start`: its
/// characters up to the first 0 group, without the spaces at the end.
pub open spec fn bits_text(bits: Seq<bool>, start: int, count: nat) -> Seq<char> {
    trim_end_spaces(sixbit_text(bits, start, count))
}

/// Unfolds `sixbit_text` at its end: the text of `k + 1` groups, none of
/// the first `k` being 0, is the text of `k` groups and one more.
proof fn lemma_sixbit_text_step(bits: Seq<bool>, start: int, k: nat)
    requires
        forall|j: int| 0 <= j < k ==> group_value(bits, start, j) != 0,
    ensures
        sixbit_text(bits, start, k).len() == k,
        sixbit_text(bits, start, k + 1) == if bits_value(bits, start + 6 * k, 6) == 0 {
            sixbit_text(bits, start, k)
        } else {
            sixbit_text(bits, start, k).push(sixbit_char(bits_value(bits, start + 6 * k, 6)))
        },
        forall|m: nat| m >= k && bits_value(bits, start + 6 * k, 6) == 0 ==> sixbit_text(
            bits,
            start,
            m,
        ) == sixbit_text(bits, start, k),
    decreases k,
{
    if k == 0 {
        assert(sixbit_text(bits, start + 6, 0) =~= Seq::<char>::empty());
        assert(seq![sixbit_char(bits_value(bits, start, 6))] + Seq::<char>::empty()
            =~= Seq::<char>::empty().push(sixbit_char(bits_value(bits, start, 6))));
    } else {
        assert(group_value(bits, start, 0) != 0);
        let next: int = start + 6;
        assert forall|j: int| 0 <= j < k - 1 implies group_value(bits, next, j) != 0 by {
            assert(group_value(bits, start, j + 1) != 0);
            assert(start + 6 + 6 * j == start + 6 * (j + 1));
        }
        lemma_sixbit_text_step(bits, next, (k - 1) as nat);
        let head = seq![sixbit_char(bits_value(bits, start, 6))];
        let tail = sixbit_text(bits, start + 6, (k - 1) as nat);
        assert(start + 6 + 6 * (k - 1) == start + 6 * k);
        assert(sixbit_text(bits, start, k) == head + tail);
        let v = bits_value(bits, start + 6 * k, 6);
        if v != 0 {
            assert(head + tail.push(sixbit_char(v)) =~= (head + tail).push(sixbit_char(v)));
        }
        assert forall|m: nat| m >= k && v == 0 implies sixbit_text(bits, start, m)
            == sixbit_text(bits, start, k) by {
            assert(sixbit_text(bits, start + 6, (m - 1) as nat) == tail);
        }
    }
}

/// Reads a text field of `char_count` six-bit characters from `index`. A
/// group that is 0 ends the text; spaces at the end are dropped.
pub fn pick_string(bv: &BitSequence, index: usize, char_count: usize) -> (r: String)
    requires
        index + 6 * char_count <= usize::MAX,
    ensures
        r@ == bits_text(bit_seq(bv), index as int, char_count as nat),
        ascii(r@),
{
    let ghost bits = bit_seq(bv);
    let mut chars: Vec<u8> = Vec::new();
    let mut keep: usize = 0;
    let mut i: usize = 0;
    let mut done: bool = false;
    while i < char_count && !done
        invariant
            i <= char_count,
            index + 6 * char_count <= usize::MAX,
            bits == bit_seq(bv),
            chars@.len() == (if done { i - 1 } else { i as int }),
            keep <= chars@.len(),
            forall|j: int| 0 <= j < chars@.len() ==> group_value(bits, index as int, j) != 0,
            done ==> i >= 1 && bits_value(bits, index + 6 * (i - 1), 6) == 0,
            forall|j: int| 0 <= j < chars@.len() ==> 32 <= #[trigger] chars@[j] < 96,
            sixbit_text(bits, index as int, chars@.len()) == Seq::new(
                chars@.len(),
                |j: int| chars@[j] as char,
            ),
            keep > 0 ==> chars@[keep - 1] != 32,
            forall|j: int| keep <= j < chars@.len() ==> chars@[j] == 32,
        decreases char_count - i, if done { 0int } else { 1int },
    {
        let v: u64 = pick_u64(bv, index + i * 6, 6);
        proof {
            lemma_bits_value_bound(bits, index + 6 * i, 6);
            lemma2_to64();
            lemma_sixbit_text_step(bits, index as int, i as nat);
        }
        if v == 0 {
            done = true;
        } else {
            let c: u8 = if v < 32 {
                (64 + v) as u8
            } else {
                v as u8
            };
            let ghost before = chars@;
            chars.push(c);
            if c != 32 {
                keep = chars.len();
            }
            proof {
                assert(c as char == sixbit_char(v as nat));
                assert(Seq::new(before.len(), |j: int| before[j] as char).push(c as char)
                    =~= Seq::new(chars@.len(), |j: int| chars@[j] as char));
            }
        }
        i += 1;
    }
    let ghost raw = sixbit_text(bits, index as int, chars@.len());
    proof {
        if done {
            lemma_sixbit_text_step(bits, index as int, (i - 1) as nat);
        }
        assert(sixbit_text(bits, index as int, char_count as nat) == raw);
    }
    let mut r: String = String::new();
    let mut j: usize = 0;
    while j < keep
        invariant
            j <= keep <= chars@.len(),
            forall|m: int| 0 <= m < chars@.len() ==> 32 <= #[trigger] chars@[m] < 96,
            r@ == Seq::new(j as nat, |m: int| chars@[m] as char),
        decreases keep - j,
    {
        let ghost before = r@;
        push_char(&mut r, chars[j] as char);
        proof {
            assert(before.push(chars@[j as int] as char) =~= Seq::new(
                (j + 1) as nat,
                |m: int| chars@[m] as char,
            ));
        }
        j += 1;
    }
    proof {
        lemma_trim(raw, keep as int);
        assert(raw.subrange(0, keep as int) =~= r@);
    }
    r
}

/// Where every character from `keep` on is a space and the one before
/// `keep` is none, trimming leaves the first `keep` characters.
proof fn lemma_trim(s: Seq<char>, keep: int)
    requires
        0 <= keep <= s.len(),
        keep > 0 ==> s[keep - 1] != ' ',
        forall|j: int| keep <= j < s.len() ==> s[j] == ' ',
    ensures
        trim_end_spaces(s) == s.subrange(0, keep),
    decreases s.len(),
{
    if s.len() == keep {
        assert(s.subrange(0, keep) =~= s);
    } else {
        lemma_trim(s.drop_last(), keep);
        assert(s.drop_last().subrange(0, keep) =~= s.subrange(0, keep));
    }
}

/// A text where it has a character, else nothing.
pub open spec fn non_empty(s: Seq<char>) -> Option<Seq<char>> {
    if s.len() == 0 {
        None
    } else {
        Some(s)
    }
}

/// Reads a text field of `char_count` six-bit characters; `None` where it
/// is empty.
pub fn pick_text(bv: &BitSequence, index: usize, char_count: usize) -> (r: Option<String>)
    requires
        index + 6 * char_count <= usize::MAX,
    ensures
        text_view(r) == non_empty(
            bits_text(bit_seq(bv), index as int, char_count as nat),
        ),
{
    let raw: String = pick_string(bv, index, char_count);
    if raw.as_str().is_empty() {
        None
    } else {
        Some(raw)
    }
}

/// Whether the bit at `pos` is set; a bit past the end is not.
pub open spec fn flag(bits: Seq<bool>, pos: int) -> bool {
    bits_value(bits, pos, 1) != 0
}

/// Reads one bit as a truth value.
pub fn pick_flag(bv: &BitSequence, index: usize) -> (r: bool)
    requires
        index < usize::MAX,
    ensures
        r == flag(bit_seq(bv), index as int),
{
    pick_u64(bv, index, 1) != 0
}

/// Reads an unsigned field of at most 32 bits.
pub fn pick_u32(bv: &BitSequence, index: usize, len: usize) -> (r: u32)
    requires
        index + len <= usize::MAX,
        len <= 32,
    ensures
        r == bits_value(bit_seq(bv), index as int, len as nat),
        r < pow2(len as nat),
{
    proof {
        lemma_bits_value_bound(bit_seq(bv), index as int, len as nat);
        lemma2_to64();
        if len < 32 {
            lemma_pow2_strictly_increases(len as nat, 32);
        }
    }
    pick_u64(bv, index, len) as u32
}

/// Reads an unsigned field of at most 16 bits.
pub fn pick_u16(bv: &BitSequence, index: usize, len: usize) -> (r: u16)
    requires
        index + len <= usize::MAX,
        len <= 16,
    ensures
        r == bits_value(bit_seq(bv), index as int, len as nat),
        r < pow2(len as nat),
{
    proof {
        lemma_bits_value_bound(bit_seq(bv), index as int, len as nat);
        lemma2_to64();
        if len < 16 {
            lemma_pow2_strictly_increases(len as nat, 16);
        }
    }
    pick_u64(bv, index, len) as u16
}

/// Reads an unsigned field of at most 8 bits.
pub fn pick_u8(bv: &BitSequence, index: usize, len: usize) -> (r: u8)
    requires
        index + len <= usize::MAX,
        len <= 8,
    ensures
        r == bits_value(bit_seq(bv), index as int, len as nat),
        r < pow2(len as nat),
{
    proof {
        lemma_bits_value_bound(bit_seq(bv), index as int, len as nat);
        lemma2_to64();
        if len < 8 {
            lemma_pow2_strictly_increases(len as nat, 8);
        }
    }
    pick_u64(bv, index, len) as u8
}

/// Reads a signed field of at most 32 bits.
pub fn pick_i32(bv: &BitSequence, index: usize, len: usize) -> (r: i32)
    requires
        index + len <= usize::MAX,
        1 <= len <= 32,
    ensures
        r == bits_signed_value(bit_seq(bv), index as int, len as nat),
        -pow2((len - 1) as nat) <= r < pow2((len - 1) as nat),
{
    proof {
        lemma_bits_value_bound(bit_seq(bv), index as int, len as nat);
        lemma_pow2_unfold(len as nat);
        lemma2_to64();
        if len < 32 {
            lemma_pow2_strictly_increases(len as nat, 32);
            lemma_pow2_strictly_increases((len - 1) as nat, 31);
        }
    }
    pick_i64(bv, index, len) as i32
}

/// The bits from `from` up to `to`, as far as the sequence has them.
pub open spec fn bits_range(bits: Seq<bool>, from: int, to: int) -> Seq<bool> {
    if 0 <= from <= to {
        if to <= bits.len() {
            bits.subrange(from, to)
        } else if from <= bits.len() {
            bits.subrange(from, bits.len() as int)
        } else {
            Seq::empty()
        }
    } else {
        Seq::empty()
    }
}

/// Copies the bits from `from` up to `to`, as far as the sequence has
/// them.
pub fn pick_bits(bv: &BitSequence, from: usize, to: usize) -> (r: Vec<bool>)
    ensures
        r@ == bits_range(bit_seq(bv), from as int, to as int),
{
    let n: usize = bits_len(bv);
    let end: usize = if to < n {
        to
    } else {
        n
    };
    let mut r: Vec<bool> = Vec::new();
    if from >= end {
        assert(bits_range(bit_seq(bv), from as int, to as int) =~= Seq::<bool>::empty());
        return r;
    }
    let mut i: usize = from;
    while i < end
        invariant
            from <= i <= end <= n,
            n == bit_seq(bv).len(),
            r@ == bit_seq(bv).subrange(from as int, i as int),
        decreases end - i,
    {
        let b: bool = match bits_get(bv, i) {
            Some(b) => b,
            None => false,
        };
        r.push(b);
        assert(r@ =~= bit_seq(bv).subrange(from as int, i as int + 1));
        i += 1;
    }
    r
}

/// The key under which a fragment of a message in several sentences is
/// kept: the sentence type, the number of fragments, the number of this
/// fragment, the message id and the radio channel, with commas between.
pub open spec fn fragment_key(
    sentence_type: Seq<char>,
    message_id: u64,
    fragment_count: u8,
    fragment_number: u8,
    radio_channel_code: Seq<char>,
) -> Seq<char> {
    sentence_type + seq![','] + decimal_chars(fragment_count as nat) + seq![','] + decimal_chars(
        fragment_number as nat,
    ) + seq![','] + decimal_chars(message_id as nat) + seq![','] + radio_channel_code
}

/// Makes the key under which a fragment is kept.
pub fn make_fragment_key(
    sentence_type: &str,
    message_id: u64,
    fragment_count: u8,
    fragment_number: u8,
    radio_channel_code: &str,
) -> (key: String)
    ensures
        key@ == fragment_key(
            sentence_type@,
            message_id,
            fragment_count,
            fragment_number,
            radio_channel_code@,
        ),
{
    let mut key: String = String::from_str(sentence_type);
    push_char(&mut key, ',');
    push_decimal(&mut key, fragment_count as u64);
    push_char(&mut key, ',');
    push_decimal(&mut key, fragment_number as u64);
    push_char(&mut key, ',');
    push_decimal(&mut key, message_id);
    push_char(&mut key, ',');
    push_text(&mut key, radio_channel_code);
    proof {
        let a = sentence_type@;
        assert(a.push(',') =~= a + seq![',']);
        let b = a + seq![','] + decimal_chars(fragment_count as nat);
        assert(b.push(',') =~= b + seq![',']);
        let c = b + seq![','] + decimal_chars(fragment_number as nat);
        assert(c.push(',') =~= c + seq![',']);
        let d = c + seq![','] + decimal_chars(message_id as nat);
        assert(d.push(',') =~= d + seq![',']);
    }
    key
}

/// Which year an estimated time of arrival falls in.
#[derive(Clone, Copy, Debug, PartialEq, Eq, Structural)]
pub enum EtaYear {
    /// The year of the reference time.
    This,
    /// The year after it.
    Next,
    /// Neither: the day exists in neither year.
    Neither,
}

/// The year of an arrival whose month and day are known: this year where
/// the day exists in it and either not in the next, or lies no more than
/// 180 days back; else the next year where the day exists in that.
pub open spec fn eta_year(this_valid: bool, next_valid: bool, recent: bool) -> EtaYear {
    if !this_valid && !next_valid {
        EtaYear::Neither
    } else if !this_valid {
        EtaYear::Next
    } else if !next_valid {
        EtaYear::This
    } else if recent {
        EtaYear::This
    } else {
        EtaYear::Next
    }
}

/// Picks the year of an arrival whose month and day are known.
pub fn choose_eta_year(this_valid: bool, next_valid: bool, recent: bool) -> (r: EtaYear)
    ensures
        r == eta_year(this_valid, next_valid, recent),
{
    if !this_valid && !next_valid {
        EtaYear::Neither
    } else if !this_valid {
        EtaYear::Next
    } else if !next_valid {
        EtaYear::This
    } else if recent {
        EtaYear::This
    } else {
        EtaYear::Next
    }
}

/// The month, day, hour and minute of an arrival field at `index`, with
/// what is not given filled in: month and day from `now`, the hour 24 as
/// 23:59, the minute 60 as 59.
pub open spec fn eta_fields(bits: Seq<bool>, index: int, now: UtcDateTime) -> (u32, u32, u32, u32) {
    let month = bits_value(bits, index, 4) as u32;
    let day = bits_value(bits, index + 4, 5) as u32;
    let hour = bits_value(bits, index + 9, 5) as u32;
    let minute = bits_value(bits, index + 14, 6) as u32;
    (
        if month == 0 {
            now.month
        } else {
            month
        },
        if day == 0 {
            now.day
        } else {
            day
        },
        if hour == 24 {
            23u32
        } else {
            hour
        },
        if hour == 24 || minute == 60 {
            59u32
        } else {
            minute
        },
    )
}

/// Whether the arrival field at `index` says that no time is given.
pub open spec fn eta_absent(bits: Seq<bool>, index: int) -> bool {
    &&& bits_value(bits, index, 4) == 0
    &&& bits_value(bits, index + 4, 5) == 0
    &&& bits_value(bits, index + 9, 5) == 24
    &&& bits_value(bits, index + 14, 6) == 60
}

/// The time of arrival in year `year`, 30 seconds into its minute.
pub open spec fn eta_in_year(
    bits: Seq<bool>,
    index: int,
    now: UtcDateTime,
    year: i32,
) -> UtcDateTime {
    let f = eta_fields(bits, index, now);
    UtcDateTime {
        year,
        month: f.0,
        day: f.1,
        hour: f.2,
        minute: f.3,
        second: 30,
        nanosecond: 0,
    }
}

/// The estimated time of arrival that the field at `index` gives, seen
/// from `now`.
pub open spec fn eta_of(bits: Seq<bool>, index: int, now: UtcDateTime) -> Option<UtcDateTime> {
    let this = eta_in_year(bits, index, now, now.year);
    let next = eta_in_year(bits, index, now, (now.year + 1) as i32);
    if eta_absent(bits, index) {
        None
    } else {
        match eta_year(this.wf(), next.wf(), within_180_days(now, this)) {
            EtaYear::This => Some(this),
            EtaYear::Next => Some(next),
            EtaYear::Neither => None,
        }
    }
}

/// Whether the arrival field at `index` names a day that neither the
/// year of `now` nor the next has.
pub open spec fn eta_invalid(bits: Seq<bool>, index: int, now: UtcDateTime) -> bool {
    &&& !eta_absent(bits, index)
    &&& !eta_in_year(bits, index, now, now.year).wf()
    &&& !eta_in_year(bits, index, now, (now.year + 1) as i32).wf()
}

/// The message of the error for an arrival on a day that neither year
/// has: it names the day in the year of `now`.
pub open spec fn eta_error_text(bits: Seq<bool>, index: int, now: UtcDateTime) -> Seq<char> {
    let f = eta_fields(bits, index, now);
    utc_error_text(now.year as int, f.0 as nat, f.1 as nat, f.2 as nat, f.3 as nat, 30)
}

/// Reads an estimated time of arrival: month, day, hour and minute, in 20
/// bits from `index`. The year is that of `now`, or the next where the
/// day exists only in that or lies more than 180 days back.
pub fn pick_eta_with_now(
    bv: &BitSequence,
    index: usize,
    now: UtcDateTime,
) -> (r: Result<Option<UtcDateTime>, ParseError>)
    requires
        index + 20 <= usize::MAX,
        now.wf(),
    ensures
        r is Err <==> eta_invalid(bit_seq(bv), index as int, now),
        r is Ok ==> r.unwrap() == eta_of(bit_seq(bv), index as int, now),
        r is Err ==> r.unwrap_err() is InvalidSentence && r.unwrap_err().text() == eta_error_text(
            bit_seq(bv),
            index as int,
            now,
        ),
{
    let mut month: u32 = pick_u32(bv, index, 4);
    let mut day: u32 = pick_u32(bv, index + 4, 5);
    let mut hour: u32 = pick_u32(bv, index + 4 + 5, 5);
    let mut minute: u32 = pick_u32(bv, index + 4 + 5 + 5, 6);
    if month == 0 && day == 0 && hour == 24 && minute == 60 {
        return Ok(None);
    }
    if month == 0 {
        month = now.month;
    }
    if day == 0 {
        day = now.day;
    }
    if hour == 24 {
        hour = 23;
        minute = 59;
    }
    if minute == 60 {
        minute = 59;
    }
    let res_this = parse_valid_utc(now.year, month, day, hour, minute, 30, 0);
    let res_next = parse_valid_utc(now.year + 1, month, day, hour, minute, 30, 0);
    let recent: bool = match &res_this {
        Ok(this_eta) => is_within_180_days(&now, this_eta),
        Err(_) => false,
    };
    match choose_eta_year(res_this.is_ok(), res_next.is_ok(), recent) {
        EtaYear::This => Ok(res_this.ok()),
        EtaYear::Next => Ok(res_next.ok()),
        EtaYear::Neither => match res_this {
            Ok(_) => Ok(None),
            Err(e) => Err(e),
        },
    }
}

/// The reference time of `pick_eta`: the first instant of the year 2000.
pub open spec fn eta_epoch() -> UtcDateTime {
    UtcDateTime { year: 2000, month: 1, day: 1, hour: 0, minute: 0, second: 0, nanosecond: 0 }
}

/// Reads an estimated time of arrival, seen from the start of the year
/// 2000.
pub fn pick_eta(bv: &BitSequence, index: usize) -> (r: Result<Option<UtcDateTime>, ParseError>)
    requires
        index + 20 <= usize::MAX,
    ensures
        r is Err <==> eta_invalid(bit_seq(bv), index as int, eta_epoch()),
        r is Ok ==> r.unwrap() == eta_of(bit_seq(bv), index as int, eta_epoch()),
        r is Err ==> r.unwrap_err() is InvalidSentence && r.unwrap_err().text() == eta_error_text(
            bit_seq(bv),
            index as int,
            eta_epoch(),
        ),
{
    let now = UtcDateTime {
        year: 2000,
        month: 1,
        day: 1,
        hour: 0,
        minute: 0,
        second: 0,
        nanosecond: 0,
    };
    pick_eta_with_now(bv, index, now)
}

} // verus!
