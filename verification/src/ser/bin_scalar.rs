//! The binary-compact scalar layout: a fixed-width little-endian integer,
//! and text as an eight-byte little-endian length followed by the UTF-8
//! bytes. This is the layout that bincode's default configuration writes
//! for an `i64` and a `String`; the whole layout is small enough to state
//! directly, so these scalar encoders are implemented and proved here
//! rather than called.
//!
//! Decoding is strict: an integer payload must be exactly eight bytes, a
//! text payload exactly its stated length. bincode's own reader tolerates
//! trailing bytes after a value; the stricter reading here is deliberate,
//! so that a payload of the wrong kind is a reliable silent miss.

use vstd::prelude::*;

use vstd::arithmetic::div_mod::lemma_fundamental_div_mod;
use vstd::utf8::decode_utf8;
use vstd::utf8::encode_utf8;
use vstd::utf8::valid_utf8;

verus! {

pub open spec fn pow256(n: nat) -> nat
    decreases n,
{
    if n == 0 {
        1
    } else {
        256 * pow256((n - 1) as nat)
    }
}

/// The `n` little-endian bytes of `x`.
pub open spec fn le_bytes(x: nat, n: nat) -> Seq<u8>
    decreases n,
{
    if n == 0 {
        Seq::empty()
    } else {
        seq![(x % 256) as u8] + le_bytes(x / 256, (n - 1) as nat)
    }
}

/// The value of a little-endian byte sequence.
pub open spec fn le_val(s: Seq<u8>) -> nat
    decreases s.len(),
{
    if s.len() == 0 {
        0
    } else {
        (s[0] + 256 * le_val(s.drop_first())) as nat
    }
}

/// The two's-complement representative of `i` below `2^64`.
pub open spec fn i64_rep(i: i64) -> nat {
    if i >= 0 {
        i as nat
    } else {
        (i + 0x1_0000_0000_0000_0000) as nat
    }
}

/// The signed reading of a representative below `2^64`.
pub open spec fn rep_i64(x: nat) -> int {
    if x <= i64::MAX {
        x as int
    } else {
        x - 0x1_0000_0000_0000_0000
    }
}

/// The payload of an integer value: its eight little-endian bytes.
pub open spec fn int_payload(i: i64) -> Seq<u8> {
    le_bytes(i64_rep(i), 8)
}

/// The integer a payload decodes to, if it is exactly eight bytes.
pub open spec fn int_payload_value(s: Seq<u8>) -> Option<i64> {
    if s.len() == 8 {
        Some(rep_i64(le_val(s)) as i64)
    } else {
        None
    }
}

/// The payload of a text value: length, then UTF-8 bytes.
pub open spec fn text_payload(s: Seq<char>) -> Seq<u8> {
    le_bytes(encode_utf8(s).len(), 8) + encode_utf8(s)
}

/// The text a payload decodes to, if its length header matches and the
/// body is valid UTF-8.
pub open spec fn text_payload_value(b: Seq<u8>) -> Option<Seq<char>> {
    if b.len() >= 8 && le_val(b.take(8)) == b.len() - 8 && valid_utf8(b.skip(8)) {
        Some(decode_utf8(b.skip(8)))
    } else {
        None
    }
}

pub proof fn lemma_pow256_8()
    ensures
        pow256(8) == 0x1_0000_0000_0000_0000,
{
    assert(pow256(8) == 0x1_0000_0000_0000_0000) by {
        reveal_with_fuel(pow256, 9);
    }
}

pub proof fn lemma_pow256_mono(m: nat, n: nat)
    requires
        m <= n,
    ensures
        pow256(m) <= pow256(n),
    decreases n,
{
    if m < n {
        lemma_pow256_mono(m, (n - 1) as nat);
    }
}

pub proof fn lemma_le_bytes_len(x: nat, n: nat)
    ensures
        le_bytes(x, n).len() == n,
    decreases n,
{
    if n > 0 {
        lemma_le_bytes_len(x / 256, (n - 1) as nat);
    }
}

pub proof fn lemma_le_val_bound(s: Seq<u8>)
    ensures
        le_val(s) < pow256(s.len()),
    decreases s.len(),
{
    if s.len() > 0 {
        lemma_le_val_bound(s.drop_first());
    }
}

pub proof fn lemma_le_round_trip(x: nat, n: nat)
    requires
        x < pow256(n),
    ensures
        le_bytes(x, n).len() == n,
        le_val(le_bytes(x, n)) == x,
    decreases n,
{
    lemma_le_bytes_len(x, n);
    if n > 0 {
        assert(x / 256 < pow256((n - 1) as nat)) by {
            lemma_fundamental_div_mod(x as int, 256);
        }
        lemma_le_round_trip(x / 256, (n - 1) as nat);
        assert(le_bytes(x, n).drop_first() =~= le_bytes(x / 256, (n - 1) as nat));
        lemma_fundamental_div_mod(x as int, 256);
    }
}

/// Law: decoding an encoded integer gives the integer back.
pub proof fn lemma_int_payload_round_trip(i: i64)
    ensures
        int_payload_value(int_payload(i)) == Some(i),
{
    lemma_pow256_8();
    lemma_le_round_trip(i64_rep(i), 8);
}

/// Law: decoding an encoded text gives the text back.
pub proof fn lemma_text_payload_round_trip(s: Seq<char>)
    requires
        encode_utf8(s).len() < pow256(8),
    ensures
        text_payload_value(text_payload(s)) == Some(s),
{
    let bytes = encode_utf8(s);
    lemma_le_round_trip(bytes.len(), 8);
    let b = text_payload(s);
    assert(b.take(8) =~= le_bytes(bytes.len(), 8));
    assert(b.skip(8) =~= bytes);
    broadcast use vstd::utf8::encode_utf8_valid_utf8;
    broadcast use vstd::utf8::encode_utf8_decode_utf8;

}

/// Appends the eight little-endian bytes of `x`.
fn push_u64_le(x: u64, out: &mut Vec<u8>)
    ensures
        final(out)@ == old(out)@ + le_bytes(x as nat, 8),
{
    let mut v: u64 = x;
    let mut k: usize = 0;
    while k < 8
        invariant
            k <= 8,
            out@ + le_bytes(v as nat, (8 - k) as nat) =~= old(out)@ + le_bytes(x as nat, 8),
        decreases 8 - k,
    {
        let ghost before = out@;
        let ghost vv = v as nat;
        out.push((v % 256) as u8);
        v = v / 256;
        proof {
            assert(le_bytes(vv, (8 - k) as nat) =~= seq![(vv % 256) as u8] + le_bytes(
                vv / 256,
                (8 - k - 1) as nat,
            ));
            assert(out@ + le_bytes(v as nat, (8 - (k + 1)) as nat) =~= before + le_bytes(
                vv,
                (8 - k) as nat,
            ));
        }
        k = k + 1;
    }
    proof {
        assert(out@ =~= old(out)@ + le_bytes(x as nat, 8));
    }
}

/// Reads the eight little-endian bytes at the start of `b`.
fn read_u64_le(b: &Vec<u8>) -> (r: u64)
    requires
        b@.len() >= 8,
    ensures
        r as nat == le_val(b@.take(8)),
{
    proof {
        lemma_pow256_8();
    }
    let mut acc: u64 = 0;
    let mut k: usize = 8;
    while k > 0
        invariant
            k <= 8,
            b@.len() >= 8,
            acc as nat == le_val(b@.take(8).skip(k as int)),
            acc < pow256((8 - k) as nat),
        decreases k,
    {
        proof {
            lemma_pow256_8();
            lemma_le_val_bound(b@.take(8).skip(k - 1));
            assert(b@.take(8).skip(k - 1).drop_first() =~= b@.take(8).skip(k as int));
            assert(b@.take(8).skip(k - 1)[0] == b@[k - 1]);
            assert(b@.take(8).skip(k - 1).len() == 8 - (k - 1));
            assert(pow256((9 - k) as nat) == 256 * pow256((8 - k) as nat));
            lemma_pow256_mono((9 - k) as nat, 8);
            assert(acc * 256 + 255 < pow256((9 - k) as nat)) by {
                assert(acc <= pow256((8 - k) as nat) - 1);
                assert(acc * 256 <= (pow256((8 - k) as nat) - 1) * 256) by (nonlinear_arith)
                    requires
                        acc <= pow256((8 - k) as nat) - 1,
                ;
            }
        }
        acc = acc * 256 + (b[k - 1] as u64);
        k = k - 1;
    }
    proof {
        assert(b@.take(8).skip(0) =~= b@.take(8));
    }
    acc
}

/// Encodes an integer value.
pub fn encode_int(i: i64) -> (r: Vec<u8>)
    ensures
        r@ == int_payload(i),
{
    let x: u64 = if i >= 0 {
        i as u64
    } else {
        u64::MAX - ((-(i + 1)) as u64)
    };
    proof {
        assert(x as nat == i64_rep(i));
    }
    let mut out: Vec<u8> = Vec::new();
    push_u64_le(x, &mut out);
    out
}

/// Decodes an integer value; `None` unless the payload is exactly eight
/// bytes.
pub fn decode_int(b: &Vec<u8>) -> (r: Option<i64>)
    ensures
        r == int_payload_value(b@),
{
    if b.len() != 8 {
        return None;
    }
    proof {
        assert(b@.take(8) =~= b@);
        lemma_pow256_8();
        lemma_le_val_bound(b@);
    }
    let x = read_u64_le(b);
    if x <= i64::MAX as u64 {
        Some(x as i64)
    } else {
        Some(-((u64::MAX - x) as i64) - 1)
    }
}

/// Turns bytes into the text they spell, if they are valid UTF-8.
///
/// Relies on `String::from_utf8`, which succeeds exactly on valid UTF-8
/// and decodes it.
#[verifier::external_body]
fn bytes_to_string(b: Vec<u8>) -> (r: Option<String>)
    ensures
        match r {
            Some(s) => valid_utf8(b@) && s@ == decode_utf8(b@),
            None => !valid_utf8(b@),
        },
{
    String::from_utf8(b).ok()
}

/// Encodes a text value.
pub fn encode_text(s: &String) -> (r: Vec<u8>)
    ensures
        r@ == text_payload(s@),
{
    let mut bytes = s.as_str().as_bytes_vec();
    let mut out: Vec<u8> = Vec::new();
    push_u64_le(bytes.len() as u64, &mut out);
    out.append(&mut bytes);
    out
}

/// Decodes a text value; `None` unless the length header matches and the
/// body is valid UTF-8.
pub fn decode_text(b: &Vec<u8>) -> (r: Option<String>)
    ensures
        match r {
            Some(s) => text_payload_value(b@) == Some(s@),
            None => text_payload_value(b@) is None,
        },
{
    if b.len() < 8 {
        return None;
    }
    let n = read_u64_le(b);
    if n != (b.len() - 8) as u64 {
        return None;
    }
    let mut rest: Vec<u8> = Vec::new();
    let mut i: usize = 8;
    while i < b.len()
        invariant
            8 <= i <= b@.len(),
            rest@ =~= b@.subrange(8, i as int),
        decreases b@.len() - i,
    {
        rest.push(b[i]);
        i = i + 1;
    }
    proof {
        assert(rest@ =~= b@.skip(8));
    }
    bytes_to_string(rest)
}

} // verus!
