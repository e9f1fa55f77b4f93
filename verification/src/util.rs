//! Byte-level helpers shared by the codecs: big-endian field access, the
//! `Serialize` trait, and the RFC 1071 Internet checksum.

use vstd::prelude::*;

verus! {

/// Big-endian byte pair of a 16-bit value.
pub open spec fn be16(x: u16) -> Seq<u8> {
    seq![(x / 256) as u8, (x % 256) as u8]
}

/// Big-endian bytes of a 32-bit value.
pub open spec fn be32(x: u32) -> Seq<u8> {
    seq![
        (x / 0x100_0000) as u8,
        ((x / 0x1_0000) % 256) as u8,
        ((x / 256) % 256) as u8,
        (x % 256) as u8,
    ]
}

/// The 16-bit big-endian value stored at position `i` of `b`.
pub open spec fn word16_at(b: Seq<u8>, i: int) -> u16 {
    ((b[i] as int) * 256 + (b[i + 1] as int)) as u16
}

/// The 32-bit big-endian value stored at position `i` of `b`.
pub open spec fn word32_at(b: Seq<u8>, i: int) -> u32 {
    ((b[i] as int) * 0x100_0000 + (b[i + 1] as int) * 0x1_0000 + (b[i + 2] as int) * 256
        + (b[i + 3] as int)) as u32
}

/// Reading a 16-bit field and re-emitting it big-endian reproduces its bytes.
pub proof fn lemma_be16_of_word16(b: Seq<u8>, i: int)
    requires
        0 <= i,
        i + 1 < b.len(),
    ensures
        word16_at(b, i) == (b[i] as int) * 256 + (b[i + 1] as int),
        be16(word16_at(b, i)) == seq![b[i], b[i + 1]],
{
    let a = b[i] as int;
    let c = b[i + 1] as int;
    assert(0 <= a < 256 && 0 <= c < 256);
    assert(0 <= a * 256 + c <= 65535) by (nonlinear_arith)
        requires 0 <= a < 256 && 0 <= c < 256;
    let w = word16_at(b, i);
    assert(w == a * 256 + c);
    assert((a * 256 + c) / 256 == a && (a * 256 + c) % 256 == c) by (nonlinear_arith)
        requires 0 <= a < 256 && 0 <= c < 256;
    assert(be16(w) =~= seq![b[i], b[i + 1]]);
}

/// Reading a 32-bit field and re-emitting it big-endian reproduces its bytes.
pub proof fn lemma_be32_of_word32(b: Seq<u8>, i: int)
    requires
        0 <= i,
        i + 3 < b.len(),
    ensures
        word32_at(b, i) == (b[i] as int) * 0x100_0000 + (b[i + 1] as int) * 0x1_0000
            + (b[i + 2] as int) * 256 + (b[i + 3] as int),
        be32(word32_at(b, i)) == seq![b[i], b[i + 1], b[i + 2], b[i + 3]],
{
    let a0 = b[i] as int;
    let a1 = b[i + 1] as int;
    let a2 = b[i + 2] as int;
    let a3 = b[i + 3] as int;
    let v = a0 * 0x100_0000 + a1 * 0x1_0000 + a2 * 256 + a3;
    assert(0 <= v <= 0xFFFF_FFFF) by (nonlinear_arith)
        requires 0 <= a0 < 256 && 0 <= a1 < 256 && 0 <= a2 < 256 && 0 <= a3 < 256
            && v == a0 * 0x100_0000 + a1 * 0x1_0000 + a2 * 256 + a3;
    let w = word32_at(b, i);
    assert(w == v);
    assert(v / 0x100_0000 == a0 && (v / 0x1_0000) % 256 == a1 && (v / 256) % 256 == a2
        && v % 256 == a3) by (nonlinear_arith)
        requires 0 <= a0 < 256 && 0 <= a1 < 256 && 0 <= a2 < 256 && 0 <= a3 < 256
            && v == a0 * 0x100_0000 + a1 * 0x1_0000 + a2 * 256 + a3;
    assert(be32(w) =~= seq![b[i], b[i + 1], b[i + 2], b[i + 3]]);
}

/// Reads the 16-bit big-endian field at `i`.
pub fn read_u16(b: &[u8], i: usize) -> (r: u16)
    requires
        i + 1 < b@.len(),
    ensures
        r == word16_at(b@, i as int),
{
    let hi = b[i] as u16;
    let lo = b[i + 1] as u16;
    hi * 256 + lo
}

/// Reads the 32-bit big-endian field at `i`.
pub fn read_u32(b: &[u8], i: usize) -> (r: u32)
    requires
        i + 3 < b@.len(),
    ensures
        r == word32_at(b@, i as int),
{
    let b0 = b[i] as u32;
    let b1 = b[i + 1] as u32;
    let b2 = b[i + 2] as u32;
    let b3 = b[i + 3] as u32;
    b0 * 0x100_0000 + b1 * 0x1_0000 + b2 * 256 + b3
}

/// Appends the big-endian bytes of `x` to `out`.
pub fn push_be16(out: &mut Vec<u8>, x: u16)
    ensures
        final(out)@ == old(out)@ + be16(x),
{
    out.push((x / 256) as u8);
    out.push((x % 256) as u8);
    assert(out@ =~= old(out)@ + be16(x));
}

/// Appends the big-endian bytes of `x` to `out`.
pub fn push_be32(out: &mut Vec<u8>, x: u32)
    ensures
        final(out)@ == old(out)@ + be32(x),
{
    out.push((x / 0x100_0000) as u8);
    out.push(((x / 0x1_0000) % 256) as u8);
    out.push(((x / 256) % 256) as u8);
    out.push((x % 256) as u8);
    assert(out@ =~= old(out)@ + be32(x));
}

/// Appends a copy of `b` to `out`.
pub fn push_bytes(out: &mut Vec<u8>, b: &Vec<u8>)
    ensures
        final(out)@ == old(out)@ + b@,
{
    let mut i: usize = 0;
    while i < b.len()
        invariant
            i <= b@.len(),
            out@ == old(out)@ + b@.take(i as int),
        decreases b@.len() - i,
    {
        out.push(b[i]);
        i = i + 1;
        assert(b@.take(i as int) =~= b@.take(i as int - 1).push(b@[i as int - 1]));
    }
    assert(old(out)@ + b@.take(b@.len() as int) =~= old(out)@ + b@);
}

/// Why a decode call rejected its input. Both kinds are local to one
/// datagram: the caller discards it and goes on.
#[derive(Debug, Clone, Copy, PartialEq, Eq, Structural)]
pub enum ParseError {
    /// The buffer ends before a fixed-width field does.
    InsufficientInput,
    /// The declared header length is below five words or promises more
    /// option bytes than the buffer holds.
    InvalidOptionsLength,
}

/// A value with a wire form.
pub trait Serialize {
    /// Field-width bounds under which the wire form is meaningful.
    spec fn wf(&self) -> bool;

    /// The wire form, as a mathematical byte sequence.
    spec fn spec_serialize(&self) -> Seq<u8>;

    /// Produces the wire form.
    fn serialize(&self) -> (r: Vec<u8>)
        requires
            self.wf(),
        ensures
            r@ == self.spec_serialize(),
    ;
}

impl Serialize for Vec<u8> {
    open spec fn wf(&self) -> bool {
        true
    }

    open spec fn spec_serialize(&self) -> Seq<u8> {
        self@
    }

    fn serialize(&self) -> (r: Vec<u8>) {
        let mut r: Vec<u8> = Vec::new();
        let mut i: usize = 0;
        while i < self.len()
            invariant
                i <= self@.len(),
                r@ == self@.take(i as int),
            decreases self@.len() - i,
        {
            r.push(self[i]);
            i = i + 1;
            assert(r@ =~= self@.take(i as int));
        }
        assert(r@ =~= self@);
        r
    }
}

/// The sum of `b` taken as 16-bit big-endian words; a trailing odd byte is
/// padded with a zero low byte.
pub open spec fn sum_words(b: Seq<u8>) -> int
    decreases b.len(),
{
    if b.len() == 0 {
        0
    } else if b.len() == 1 {
        (b[0] as int) * 256
    } else {
        (b[0] as int) * 256 + (b[1] as int) + sum_words(b.skip(2))
    }
}

/// One end-around-carry step: fold the bits above 16 back into the low 16.
pub open spec fn fold_carry(n: int) -> int {
    n % 0x1_0000 + n / 0x1_0000
}

/// The word sum of `b` after two end-around-carry folds.
pub open spec fn folded_sum(b: Seq<u8>) -> int {
    fold_carry(fold_carry(sum_words(b)))
}

/// The RFC 1071 Internet checksum of `b`: the one's complement of the folded
/// 16-bit word sum.
pub open spec fn checksum16_spec(b: Seq<u8>) -> u16 {
    (0xFFFF - folded_sum(b)) as u16
}

proof fn lemma_sum_words_bound(b: Seq<u8>)
    ensures
        0 <= sum_words(b),
        2 * sum_words(b) <= 0xFFFF * (b.len() + 1),
    decreases b.len(),
{
    if b.len() == 0 {
    } else if b.len() == 1 {
    } else {
        lemma_sum_words_bound(b.skip(2));
    }
}

proof fn lemma_fold_carry_shape(n: int)
    requires
        n >= 0,
    ensures
        0 <= fold_carry(n) <= n,
        n - fold_carry(n) == 0xFFFF * (n / 0x1_0000),
        n > 0 ==> fold_carry(n) > 0,
{
    vstd::arithmetic::div_mod::lemma_fundamental_div_mod(n, 0x1_0000);
    vstd::arithmetic::div_mod::lemma_mod_bound(n, 0x1_0000);
}

proof fn lemma_fold2_small(n: int)
    requires
        0 <= n <= 0xFFFF_FFFF,
    ensures
        0 <= fold_carry(fold_carry(n)) <= 0xFFFF,
{
    vstd::arithmetic::div_mod::lemma_fundamental_div_mod(n, 0x1_0000);
    vstd::arithmetic::div_mod::lemma_mod_bound(n, 0x1_0000);
    let f1 = fold_carry(n);
    vstd::arithmetic::div_mod::lemma_fundamental_div_mod(f1, 0x1_0000);
    vstd::arithmetic::div_mod::lemma_mod_bound(f1, 0x1_0000);
}

/// Replacing the aligned 16-bit word at `2 * k` changes the word sum by
/// exactly the difference of the two words.
proof fn lemma_sum_words_update2(b: Seq<u8>, k: int, x: u8, y: u8)
    requires
        0 <= k,
        2 * k + 1 < b.len(),
    ensures
        sum_words(b.update(2 * k, x).update(2 * k + 1, y)) == sum_words(b)
            - (b[2 * k] as int) * 256 - (b[2 * k + 1] as int) + (x as int) * 256 + (y as int),
    decreases k,
{
    let b2 = b.update(2 * k, x).update(2 * k + 1, y);
    if k == 0 {
        assert(b2.skip(2) =~= b.skip(2));
    } else {
        assert(b2.skip(2) =~= b.skip(2).update(2 * (k - 1), x).update(2 * (k - 1) + 1, y));
        lemma_sum_words_update2(b.skip(2), k - 1, x, y);
        assert(b.skip(2)[2 * (k - 1)] == b[2 * k]);
        assert(b.skip(2)[2 * (k - 1) + 1] == b[2 * k + 1]);
    }
}

/// The checksum written back into a zeroed, 16-bit-aligned field makes the
/// buffer verify: its folded word sum becomes the all-ones sentinel 0xFFFF,
/// so checksumming the buffer as transmitted (field included) returns 0.
/// This is how a receiver checks integrity without re-zeroing the field.
pub proof fn lemma_checksum_self_verifying(b: Seq<u8>, k: int)
    requires
        b.len() <= 65535,
        0 <= k,
        2 * k + 1 < b.len(),
        b[2 * k] == 0,
        b[2 * k + 1] == 0,
    ensures
        ({
            let cs = checksum16_spec(b);
            let filled = b.update(2 * k, (cs / 256) as u8).update(2 * k + 1, (cs % 256) as u8);
            folded_sum(filled) == 0xFFFF && checksum16_spec(filled) == 0
        }),
{
    let s = sum_words(b);
    lemma_sum_words_bound(b);
    assert(s <= 0xFFFF * 32768) by (nonlinear_arith)
        requires 2 * s <= 0xFFFF * (b.len() + 1) && b.len() + 1 <= 65536;
    let f1 = fold_carry(s);
    let f2 = fold_carry(f1);
    lemma_fold_carry_shape(s);
    lemma_fold_carry_shape(f1);
    lemma_fold2_small(s);
    let cs = checksum16_spec(b);
    assert(cs == 0xFFFF - f2);
    let hi = (cs / 256) as u8;
    let lo = (cs % 256) as u8;
    assert(hi as int == cs as int / 256 && lo as int == cs as int % 256);
    let filled = b.update(2 * k, hi).update(2 * k + 1, lo);
    lemma_sum_words_update2(b, k, hi, lo);
    vstd::arithmetic::div_mod::lemma_fundamental_div_mod(cs as int, 256);
    let s2 = sum_words(filled);
    assert(s2 == s + cs);
    // s - f2 is a multiple of 0xFFFF, so s2 = s + 0xFFFF - f2 is a positive one
    let j = s / 0x1_0000 + f1 / 0x1_0000 + 1;
    assert(s2 == 0xFFFF * j);
    assert(s2 >= 0xFFFF) by (nonlinear_arith)
        requires s2 == 0xFFFF * j && j >= 1;
    let g1 = fold_carry(s2);
    let g2 = fold_carry(g1);
    lemma_fold_carry_shape(s2);
    lemma_fold_carry_shape(g1);
    lemma_fold2_small(s2);
    let jj = j - s2 / 0x1_0000 - g1 / 0x1_0000;
    assert(g2 == 0xFFFF * jj);
    assert(g2 > 0);
    assert(jj == 1) by (nonlinear_arith)
        requires g2 == 0xFFFF * jj && 0 < g2 <= 0xFFFF;
    assert(folded_sum(filled) == 0xFFFF);
}

/// Computes the RFC 1071 Internet checksum: the input is summed as 16-bit
/// big-endian words (a trailing odd byte is padded with a zero low byte), the
/// carry beyond 16 bits is folded back in twice, and the result is
/// complemented.
pub fn checksum_16(data: &[u8]) -> (r: u16)
    requires
        data@.len() <= 65535,
    ensures
        r == checksum16_spec(data@),
{
    proof {
        lemma_sum_words_bound(data@);
    }
    let ghost s = data@;
    assert(s.skip(0) =~= s);
    let mut sum: u32 = 0;
    let mut i: usize = 0;
    while i < data.len()
        invariant
            data@ =~= s,
            s.len() <= 65535,
            i % 2 == 0,
            i <= s.len() + 1,
            i <= s.len() ==> sum == sum_words(s) - sum_words(s.skip(i as int)),
            i > s.len() ==> sum == sum_words(s),
            2 * sum <= 0xFFFF * (i as int),
        decreases s.len() + 1 - i,
    {
        let high = data[i] as u32;
        let low: u32 = if i + 1 < data.len() {
            data[i + 1] as u32
        } else {
            0
        };
        proof {
            let rest = s.skip(i as int);
            lemma_sum_words_bound(rest);
            if i + 1 < s.len() {
                assert(rest.len() >= 2);
                assert(rest[0] == s[i as int] && rest[1] == s[i as int + 1]);
                assert(rest.skip(2) =~= s.skip(i as int + 2));
                if i as int + 2 > s.len() {
                    assert(s.skip(i as int + 2).len() == 0);
                }
            } else {
                assert(rest.len() == 1);
                assert(rest[0] == s[i as int]);
            }
        }
        sum = sum + (high * 256 + low);
        i = i + 2;
    }
    assert(sum == sum_words(s));
    // 65535 bytes make at most 32768 words, so the accumulator stays below
    // 0xFFFF * 32768 < 2^31; two folds then bring it under 0x1_0000.
    assert(sum < 0x8000_0000);
    let ghost sum0 = sum as int;
    assert(sum >> 16u32 == sum / 0x1_0000 && sum & 0xFFFF == sum % 0x1_0000) by (bit_vector);
    let carry = sum >> 16u32;
    let rem = sum & 0xFFFF;
    sum = rem + carry;
    assert(sum == fold_carry(sum0));
    let ghost sum1 = sum as int;
    assert(sum >> 16u32 == sum / 0x1_0000 && sum & 0xFFFF == sum % 0x1_0000) by (bit_vector);
    let carry = sum >> 16u32;
    let rem = sum & 0xFFFF;
    sum = rem + carry;
    assert(sum == fold_carry(sum1));
    assert(sum <= 0xFFFF);
    // the one's complement of a value below 0x1_0000, kept in 16 bits
    (0xFFFF - sum) as u16
}

} // verus!
