//! The digest engine: a deterministic map from a byte sequence to a 128-bit
//! value, built as an MD5-family construction.  It is the work function of
//! the proof-of-work puzzle, not a security primitive.
//!
//! The message is padded with a `0x80` byte and zeros up to 56 modulo 64,
//! followed by the original bit length as a 64-bit little-endian value; each
//! 64-byte chunk is mixed into four 32-bit accumulators over 64 rounds, and
//! the accumulators are packed little-endian into the 128-bit result.

use vstd::prelude::*;

verus! {

use vstd::arithmetic::div_mod::lemma_fundamental_div_mod;
use vstd::arithmetic::div_mod::lemma_mod_multiples_basic;
use vstd::bytes::spec_u32_from_le_bytes;
use vstd::bytes::spec_u64_from_le_bytes;
use vstd::bytes::spec_u64_to_le_bytes;
use vstd::bytes::u32_from_le_bytes;
use vstd::bytes::u64_to_le_bytes;
use vstd::slice::slice_subrange;
use vstd::slice::slice_to_vec;

/// Inputs must leave the bit length representable in 64 bits.
pub const MAX_INPUT_LEN: u64 = 0x1fff_ffff_ffff_ffff;

/// The per-round additive constants, in round order.
pub open spec fn sine_table() -> Seq<u32> {
    seq![
        0xd76aa478u32, 0xe8c7b756, 0x242070db, 0xc1bdceee, 0xf57c0faf, 0x4787c62a, 0xa8304613,
        0xfd469501, 0x698098d8, 0x8b44f7af, 0xffff5bb1, 0x895cd7be, 0x6b901122, 0xfd987193,
        0xa679438e, 0x49b40821, 0xf61e2562, 0xc040b340, 0x265e5a51, 0xe9b6c7aa, 0xd62f105d,
        0x02441453, 0xd8a1e681, 0xe7d3fbc8, 0x21e1cde6, 0xc33707d6, 0xf4d50d87, 0x455a14ed,
        0xa9e3e905, 0xfcefa3f8, 0x676f02d9, 0x8d2a4c8a, 0xfffa3942, 0x8771f681, 0x6d9d6122,
        0xfde5380c, 0xa4beea44, 0x4bdecfa9, 0xf6bb4b60, 0xbebfbc70, 0x289b7ec6, 0xeaa127fa,
        0xd4ef3085, 0x04881d05, 0xd9d4d039, 0xe6db99e5, 0x1fa27cf8, 0xc4ac5665, 0xf4292244,
        0x432aff97, 0xab9423a7, 0xfc93a039, 0x655b59c3, 0x8f0ccc92, 0xffeff47d, 0x85845dd1,
        0x6fa87e4f, 0xfe2ce6e0, 0xa3014314, 0x4e0811a1, 0xf7537e82, 0xbd3af235, 0x2ad7d2bb,
        0xeb86d391,
    ]
}

/// The left-rotate amount of round `i`: one of four values per group of
/// sixteen rounds, cycling with period four.
pub open spec fn shift_amount(i: int) -> u32 {
    let group = i / 16;
    let pos = i % 4;
    if group == 0 {
        if pos == 0 { 7 } else if pos == 1 { 12 } else if pos == 2 { 17 } else { 22 }
    } else if group == 1 {
        if pos == 0 { 5 } else if pos == 1 { 9 } else if pos == 2 { 14 } else { 20 }
    } else if group == 2 {
        if pos == 0 { 4 } else if pos == 1 { 11 } else if pos == 2 { 16 } else { 23 }
    } else {
        if pos == 0 { 6 } else if pos == 1 { 10 } else if pos == 2 { 15 } else { 21 }
    }
}

/// The nonlinear mixing function of round `i` over three of the four
/// working registers.
pub open spec fn spec_mix(i: int, b: u32, c: u32, d: u32) -> u32 {
    if i < 16 {
        (b & c) | (!b & d)
    } else if i < 32 {
        (d & b) | (!d & c)
    } else if i < 48 {
        b ^ c ^ d
    } else {
        c ^ (b | !d)
    }
}

/// The index into the chunk's sixteen words read by round `i`.
pub open spec fn spec_word_index(i: int) -> int {
    if i < 16 {
        i
    } else if i < 32 {
        (5 * i + 1) % 16
    } else if i < 48 {
        (3 * i + 5) % 16
    } else {
        (7 * i) % 16
    }
}

/// Circular left rotation of a 32-bit value.
pub open spec fn rotl32(x: u32, s: u32) -> u32
    recommends
        0 < s < 32,
{
    (x << s) | (x >> ((32 - s) as u32))
}

/// One round over the working state `(a, b, c, d)` with the chunk's words `w`.
pub open spec fn spec_round(w: Seq<u32>, i: int, st: (u32, u32, u32, u32)) -> (u32, u32, u32, u32)
    recommends
        w.len() == 16,
        0 <= i < 64,
{
    let f = spec_mix(i, st.1, st.2, st.3).wrapping_add(st.0).wrapping_add(
        sine_table()[i],
    ).wrapping_add(w[spec_word_index(i)]);
    (st.3, st.1.wrapping_add(rotl32(f, shift_amount(i))), st.1, st.2)
}

/// The working state after the first `i` rounds.
pub open spec fn spec_rounds(w: Seq<u32>, st: (u32, u32, u32, u32), i: int) -> (u32, u32, u32, u32)
    decreases i,
{
    if i <= 0 {
        st
    } else {
        spec_round(w, i - 1, spec_rounds(w, st, i - 1))
    }
}

/// A 64-byte chunk read as sixteen 32-bit little-endian words.
pub open spec fn spec_words(chunk: Seq<u8>) -> Seq<u32> {
    Seq::new(16, |j: int| spec_u32_from_le_bytes(chunk.subrange(4 * j, 4 * j + 4)))
}

/// One chunk folded into the accumulators: 64 rounds, then a wrapping add
/// of the post-round state.
pub open spec fn spec_compress(st: (u32, u32, u32, u32), chunk: Seq<u8>) -> (u32, u32, u32, u32)
    recommends
        chunk.len() == 64,
{
    let e = spec_rounds(spec_words(chunk), st, 64);
    (st.0.wrapping_add(e.0), st.1.wrapping_add(e.1), st.2.wrapping_add(e.2), st.3.wrapping_add(
        e.3,
    ))
}

/// The accumulators after the first `n` 64-byte chunks of `data`.
pub open spec fn spec_chunks(st: (u32, u32, u32, u32), data: Seq<u8>, n: int) -> (
    u32,
    u32,
    u32,
    u32,
)
    decreases n,
{
    if n <= 0 {
        st
    } else {
        spec_compress(spec_chunks(st, data, n - 1), data.subrange(64 * (n - 1), 64 * n))
    }
}

/// The fixed initial accumulators.
pub open spec fn init_state() -> (u32, u32, u32, u32) {
    (0x67452301u32, 0xefcdab89u32, 0x98badcfeu32, 0x10325476u32)
}

/// How many zero bytes follow the `0x80` byte so that the padded length,
/// including the trailing 8-byte bit count, is a multiple of 64.
pub open spec fn pad_zero_count(l: int) -> int {
    if l % 64 <= 55 {
        55 - l % 64
    } else {
        119 - l % 64
    }
}

/// A run of `n` zero bytes.
pub open spec fn zero_seq(n: int) -> Seq<u8> {
    Seq::new(n as nat, |i: int| 0u8)
}

/// The padded message: the data, a `0x80` byte, zeros up to 56 modulo 64,
/// and the original length in bits as a 64-bit little-endian value.
pub open spec fn spec_padded(data: Seq<u8>) -> Seq<u8>
    recommends
        data.len() <= MAX_INPUT_LEN,
{
    data + seq![0x80u8] + zero_seq(pad_zero_count(data.len() as int)) + spec_u64_to_le_bytes(
        (data.len() * 8) as u64,
    )
}

/// The four accumulators packed little-endian into a 128-bit value.
pub open spec fn spec_pack(st: (u32, u32, u32, u32)) -> u128 {
    (st.0 as u128) | ((st.1 as u128) << 32) | ((st.2 as u128) << 64) | ((st.3 as u128) << 96)
}

/// The digest of a byte sequence.
pub open spec fn spec_digest(data: Seq<u8>) -> u128
    recommends
        data.len() <= MAX_INPUT_LEN,
{
    let p = spec_padded(data);
    spec_pack(spec_chunks(init_state(), p, p.len() as int / 64))
}

/// The digest is a function of the bytes alone: equal inputs give equal
/// outputs, so repeated calls on one input are stable.
pub proof fn lemma_digest_deterministic(b1: Seq<u8>, b2: Seq<u8>)
    requires
        b1 == b2,
    ensures
        spec_digest(b1) == spec_digest(b2),
{
}

/// The padded length is a multiple of 64 and at least one chunk.
pub proof fn lemma_padded_length(data: Seq<u8>)
    ensures
        spec_padded(data).len() == data.len() + 9 + pad_zero_count(data.len() as int),
        spec_padded(data).len() % 64 == 0,
        spec_padded(data).len() >= 64,
{
    vstd::bytes::lemma_auto_spec_u64_to_from_le_bytes();
    let l = data.len() as int;
    lemma_fundamental_div_mod(l, 64);
    let q = l / 64;
    if l % 64 <= 55 {
        assert(spec_padded(data).len() == 64 * (q + 1));
        lemma_mod_multiples_basic(q + 1, 64);
    } else {
        assert(spec_padded(data).len() == 64 * (q + 2));
        lemma_mod_multiples_basic(q + 2, 64);
    }
}

/// The trailing 8 bytes of the padded message decode, little-endian, to
/// eight times the original length, modulo 2^64.
pub proof fn lemma_padding_correct(data: Seq<u8>)
    requires
        data.len() <= MAX_INPUT_LEN,
    ensures
        spec_padded(data).len() % 64 == 0,
        spec_u64_from_le_bytes(
            spec_padded(data).subrange(
                spec_padded(data).len() - 8,
                spec_padded(data).len() as int,
            ),
        ) == (data.len() * 8) % 0x1_0000_0000_0000_0000,
{
    lemma_padded_length(data);
    vstd::bytes::lemma_auto_spec_u64_to_from_le_bytes();
    let p = spec_padded(data);
    assert(p.subrange(p.len() - 8, p.len() as int) =~= spec_u64_to_le_bytes(
        (data.len() * 8) as u64,
    ));
}

/// The per-round additive constants as an indexable table.
#[verifier::rlimit(100)]
fn sine_table_exec() -> (v: Vec<u32>)
    ensures
        v@ == sine_table(),
{
    let mut v: Vec<u32> = Vec::with_capacity(64);
    v.push(0xd76aa478); v.push(0xe8c7b756); v.push(0x242070db); v.push(0xc1bdceee);
    v.push(0xf57c0faf); v.push(0x4787c62a); v.push(0xa8304613); v.push(0xfd469501);
    v.push(0x698098d8); v.push(0x8b44f7af); v.push(0xffff5bb1); v.push(0x895cd7be);
    v.push(0x6b901122); v.push(0xfd987193); v.push(0xa679438e); v.push(0x49b40821);
    v.push(0xf61e2562); v.push(0xc040b340); v.push(0x265e5a51); v.push(0xe9b6c7aa);
    v.push(0xd62f105d); v.push(0x02441453); v.push(0xd8a1e681); v.push(0xe7d3fbc8);
    v.push(0x21e1cde6); v.push(0xc33707d6); v.push(0xf4d50d87); v.push(0x455a14ed);
    v.push(0xa9e3e905); v.push(0xfcefa3f8); v.push(0x676f02d9); v.push(0x8d2a4c8a);
    v.push(0xfffa3942); v.push(0x8771f681); v.push(0x6d9d6122); v.push(0xfde5380c);
    v.push(0xa4beea44); v.push(0x4bdecfa9); v.push(0xf6bb4b60); v.push(0xbebfbc70);
    v.push(0x289b7ec6); v.push(0xeaa127fa); v.push(0xd4ef3085); v.push(0x04881d05);
    v.push(0xd9d4d039); v.push(0xe6db99e5); v.push(0x1fa27cf8); v.push(0xc4ac5665);
    v.push(0xf4292244); v.push(0x432aff97); v.push(0xab9423a7); v.push(0xfc93a039);
    v.push(0x655b59c3); v.push(0x8f0ccc92); v.push(0xffeff47d); v.push(0x85845dd1);
    v.push(0x6fa87e4f); v.push(0xfe2ce6e0); v.push(0xa3014314); v.push(0x4e0811a1);
    v.push(0xf7537e82); v.push(0xbd3af235); v.push(0x2ad7d2bb); v.push(0xeb86d391);
    assert(v@ == sine_table());
    v
}

/// The left-rotate amount of round `i`.
fn shift_amount_exec(i: usize) -> (s: u32)
    requires
        i < 64,
    ensures
        s == shift_amount(i as int),
        0 < s < 32,
{
    let group = i / 16;
    let pos = i % 4;
    if group == 0 {
        if pos == 0 { 7 } else if pos == 1 { 12 } else if pos == 2 { 17 } else { 22 }
    } else if group == 1 {
        if pos == 0 { 5 } else if pos == 1 { 9 } else if pos == 2 { 14 } else { 20 }
    } else if group == 2 {
        if pos == 0 { 4 } else if pos == 1 { 11 } else if pos == 2 { 16 } else { 23 }
    } else {
        if pos == 0 { 6 } else if pos == 1 { 10 } else if pos == 2 { 15 } else { 21 }
    }
}

/// Computes the digest of `data`.  Deterministic: the result is exactly
/// `spec_digest(data@)`, whatever the call site.
pub fn digest(data: &[u8]) -> (r: u128)
    requires
        data@.len() <= MAX_INPUT_LEN,
    ensures
        r == spec_digest(data@),
{
    let n = data.len();
    let mut buf: Vec<u8> = slice_to_vec(data);
    buf.push(0x80);
    let rem = n % 64;
    let zeros: usize = if rem <= 55 {
        55 - rem
    } else {
        119 - rem
    };
    let mut i: usize = 0;
    while i < zeros
        invariant
            i <= zeros,
            buf@ =~= data@ + seq![0x80u8] + zero_seq(i as int),
        decreases zeros - i,
    {
        buf.push(0);
        assert(zero_seq(i + 1 as int) =~= zero_seq(i as int).push(0u8));
        i += 1;
    }
    let len_bits: u64 = (n as u64) * 8;
    let mut lb = u64_to_le_bytes(len_bits);
    buf.append(&mut lb);
    assert(buf@ =~= spec_padded(data@));
    proof {
        lemma_padded_length(data@);
        lemma_fundamental_div_mod(buf@.len() as int, 64);
    }
    let total = buf.len();
    let num_chunks = total / 64;
    assert(64 * num_chunks == total);

    let k = sine_table_exec();
    let mut a0: u32 = 0x67452301;
    let mut b0: u32 = 0xefcdab89;
    let mut c0: u32 = 0x98badcfe;
    let mut d0: u32 = 0x10325476;
    let mut c: usize = 0;
    while c < num_chunks
        invariant
            c <= num_chunks,
            total == buf@.len(),
            64 * num_chunks == total,
            k@ == sine_table(),
            (a0, b0, c0, d0) == spec_chunks(init_state(), buf@, c as int),
        decreases num_chunks - c,
    {
        assert(c * 64 + 64 <= total);
        let base = c * 64;
        let ghost chunk = buf@.subrange(base as int, base as int + 64);
        let mut w: Vec<u32> = Vec::with_capacity(16);
        let mut j: usize = 0;
        while j < 16
            invariant
                j <= 16,
                base == c * 64,
                total == buf@.len(),
                base + 64 <= total,
                chunk == buf@.subrange(base as int, base as int + 64),
                w@.len() == j,
                forall|t: int| 0 <= t < j ==> w@[t] == spec_words(chunk)[t],
            decreases 16 - j,
        {
            assert(base + 4 * j + 4 <= total);
            let word = u32_from_le_bytes(
                slice_subrange(buf.as_slice(), base + 4 * j, base + 4 * j + 4),
            );
            assert(buf@.subrange(base + 4 * j as int, base + 4 * j + 4 as int) =~= chunk.subrange(
                4 * j as int,
                4 * j + 4 as int,
            ));
            w.push(word);
            j += 1;
        }
        assert(w@ =~= spec_words(chunk));
        let ghost st0 = (a0, b0, c0, d0);
        let mut a = a0;
        let mut b = b0;
        let mut cc = c0;
        let mut dd = d0;
        let mut i: usize = 0;
        while i < 64
            invariant
                i <= 64,
                w@ == spec_words(chunk),
                k@ == sine_table(),
                st0 == (a0, b0, c0, d0),
                (a, b, cc, dd) == spec_rounds(w@, st0, i as int),
            decreases 64 - i,
        {
            let mut f: u32;
            let g: usize;
            if i < 16 {
                f = (b & cc) | (!b & dd);
                g = i;
            } else if i < 32 {
                f = (dd & b) | (!dd & cc);
                g = (5 * i + 1) % 16;
            } else if i < 48 {
                f = b ^ cc ^ dd;
                g = (3 * i + 5) % 16;
            } else {
                f = cc ^ (b | !dd);
                g = (7 * i) % 16;
            }
            assert(f == spec_mix(i as int, b, cc, dd));
            assert(g == spec_word_index(i as int));
            f = f.wrapping_add(a).wrapping_add(k[i]).wrapping_add(w[g]);
            let s = shift_amount_exec(i);
            let rot = (f << s) | (f >> (32 - s));
            assert(rot == rotl32(f, s));
            let ta = dd;
            let td = cc;
            let tc = b;
            let tb = b.wrapping_add(rot);
            assert((ta, tb, tc, td) == spec_round(w@, i as int, (a, b, cc, dd)));
            a = ta;
            b = tb;
            cc = tc;
            dd = td;
            i += 1;
        }
        a0 = a0.wrapping_add(a);
        b0 = b0.wrapping_add(b);
        c0 = c0.wrapping_add(cc);
        d0 = d0.wrapping_add(dd);
        assert((a0, b0, c0, d0) == spec_compress(st0, chunk));
        assert(chunk =~= buf@.subrange(64 * (c + 1 as int) - 64, 64 * (c + 1 as int)));
        c += 1;
    }
    let r: u128 = (a0 as u128) | ((b0 as u128) << 32) | ((c0 as u128) << 64) | ((d0 as u128)
        << 96);
    r
}

} // verus!
