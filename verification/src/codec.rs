//! Fixed-width big-endian byte encodings for every persisted field.
//!
//! One canonical scheme is used uniformly: unsigned counters and scalar
//! fixed-point values take 4 bytes, wide fixed-point values take 8 bytes,
//! the session status takes 1 byte, and the optional sensitivity override
//! is length-prefixed (a leading `0` for absent, a leading `8` followed by
//! the wide encoding of the value for present). Decoding accepts exactly
//! the canonical encodings and reports anything else as malformed.

use vstd::prelude::*;
use crate::fixed::{Fixed, WideFixed, fits_fixed};

verus! {

/// The 4-byte big-endian encoding of `v`.
pub open spec fn be4(v: u32) -> Seq<u8> {
    seq![(v >> 24) as u8, (v >> 16) as u8, (v >> 8) as u8, v as u8]
}

/// The value whose 4-byte big-endian encoding is `s`.
pub open spec fn from_be4(s: Seq<u8>) -> u32
    recommends
        s.len() == 4,
{
    ((s[0] as u32) << 24) | ((s[1] as u32) << 16) | ((s[2] as u32) << 8) | (s[3] as u32)
}

/// The 8-byte big-endian encoding of `v`.
pub open spec fn be8(v: u64) -> Seq<u8> {
    seq![
        (v >> 56) as u8,
        (v >> 48) as u8,
        (v >> 40) as u8,
        (v >> 32) as u8,
        (v >> 24) as u8,
        (v >> 16) as u8,
        (v >> 8) as u8,
        v as u8,
    ]
}

/// The value whose 8-byte big-endian encoding is `s`.
pub open spec fn from_be8(s: Seq<u8>) -> u64
    recommends
        s.len() == 8,
{
    ((s[0] as u64) << 56) | ((s[1] as u64) << 48) | ((s[2] as u64) << 40) | ((s[3] as u64)
        << 32) | ((s[4] as u64) << 24) | ((s[5] as u64) << 16) | ((s[6] as u64) << 8) | (
    s[7] as u64)
}

/// The encoding of a scalar fixed-point value: its two's-complement
/// representation, big-endian.
pub open spec fn fixed_be(x: Fixed) -> Seq<u8> {
    be4(x.raw as u32)
}

/// The scalar fixed-point value encoded by `s`.
pub open spec fn fixed_from_be(s: Seq<u8>) -> Fixed
    recommends
        s.len() == 4,
{
    Fixed { raw: from_be4(s) as i32 }
}

/// The encoding of a wide fixed-point value: its two's-complement
/// representation, big-endian.
pub open spec fn wide_be(x: WideFixed) -> Seq<u8> {
    be8(x.raw as u64)
}

/// The wide fixed-point value encoded by `s`.
pub open spec fn wide_from_be(s: Seq<u8>) -> WideFixed
    recommends
        s.len() == 8,
{
    WideFixed { raw: from_be8(s) as i64 }
}

/// The length-prefixed encoding of the optional sensitivity override: one
/// byte `0` when absent, one byte `8` followed by the wide encoding of the
/// (exactly widened) value when present.
pub open spec fn opt_sens_be(s: Option<Fixed>) -> Seq<u8> {
    match s {
        None => seq![0u8],
        Some(x) => seq![8u8] + be8((x.raw as i64 * 0x10000) as u64),
    }
}

/// Decoding then encoding a 4-byte sequence gives it back.
pub proof fn lemma_be4_of_from(s: Seq<u8>)
    requires
        s.len() == 4,
    ensures
        be4(from_be4(s)) =~= s,
{
    let b0 = s[0];
    let b1 = s[1];
    let b2 = s[2];
    let b3 = s[3];
    let v = ((b0 as u32) << 24) | ((b1 as u32) << 16) | ((b2 as u32) << 8) | (b3 as u32);
    assert((v >> 24) as u8 == b0 && (v >> 16) as u8 == b1 && (v >> 8) as u8 == b2 && v as u8
        == b3) by (bit_vector)
        requires
            v == ((b0 as u32) << 24) | ((b1 as u32) << 16) | ((b2 as u32) << 8) | (b3 as u32),
    ;
}

/// Encoding then decoding a 32-bit value gives it back.
pub proof fn lemma_from_of_be4(v: u32)
    ensures
        from_be4(be4(v)) == v,
{
    assert((((v >> 24) as u8) as u32) << 24 | (((v >> 16) as u8) as u32) << 16 | (((v
        >> 8) as u8) as u32) << 8 | ((v as u8) as u32) == v) by (bit_vector);
}

/// Decoding then encoding an 8-byte sequence gives it back.
pub proof fn lemma_be8_of_from(s: Seq<u8>)
    requires
        s.len() == 8,
    ensures
        be8(from_be8(s)) =~= s,
{
    let b0 = s[0];
    let b1 = s[1];
    let b2 = s[2];
    let b3 = s[3];
    let b4 = s[4];
    let b5 = s[5];
    let b6 = s[6];
    let b7 = s[7];
    let v = ((b0 as u64) << 56) | ((b1 as u64) << 48) | ((b2 as u64) << 40) | ((b3 as u64)
        << 32) | ((b4 as u64) << 24) | ((b5 as u64) << 16) | ((b6 as u64) << 8) | (b7 as u64);
    assert((v >> 56) as u8 == b0 && (v >> 48) as u8 == b1 && (v >> 40) as u8 == b2 && (v
        >> 32) as u8 == b3 && (v >> 24) as u8 == b4 && (v >> 16) as u8 == b5 && (v >> 8) as u8
        == b6 && v as u8 == b7) by (bit_vector)
        requires
            v == ((b0 as u64) << 56) | ((b1 as u64) << 48) | ((b2 as u64) << 40) | ((b3 as u64)
                << 32) | ((b4 as u64) << 24) | ((b5 as u64) << 16) | ((b6 as u64) << 8) | (
            b7 as u64),
    ;
}

/// Encoding then decoding a 64-bit value gives it back.
pub proof fn lemma_from_of_be8(v: u64)
    ensures
        from_be8(be8(v)) == v,
{
    assert((((v >> 56) as u8) as u64) << 56 | (((v >> 48) as u8) as u64) << 48 | (((v
        >> 40) as u8) as u64) << 40 | (((v >> 32) as u8) as u64) << 32 | (((v
        >> 24) as u8) as u64) << 24 | (((v >> 16) as u8) as u64) << 16 | (((v
        >> 8) as u8) as u64) << 8 | ((v as u8) as u64) == v) by (bit_vector);
}

/// Encoding then decoding a scalar fixed-point value gives the identical
/// value.
pub proof fn lemma_fixed_round_trip(x: Fixed)
    ensures
        fixed_from_be(fixed_be(x)) == x,
{
    let r = x.raw;
    lemma_from_of_be4(r as u32);
    assert((r as u32) as i32 == r) by (bit_vector);
}

/// Encoding then decoding a wide fixed-point value gives the identical
/// value.
pub proof fn lemma_wide_round_trip(x: WideFixed)
    ensures
        wide_from_be(wide_be(x)) == x,
{
    let r = x.raw;
    lemma_from_of_be8(r as u64);
    assert((r as u64) as i64 == r) by (bit_vector);
}

/// Encode `v` as 4 big-endian bytes.
pub fn encode_u32(v: u32) -> (r: Vec<u8>)
    ensures
        r@ =~= be4(v),
{
    let b0: u8 = #[verifier::truncate] ((v >> 24) as u8);
    let b1: u8 = #[verifier::truncate] ((v >> 16) as u8);
    let b2: u8 = #[verifier::truncate] ((v >> 8) as u8);
    let b3: u8 = #[verifier::truncate] (v as u8);
    let mut out: Vec<u8> = Vec::new();
    out.push(b0);
    out.push(b1);
    out.push(b2);
    out.push(b3);
    out
}

/// Decode 4 big-endian bytes; any other length is malformed.
pub fn decode_u32(bytes: &Vec<u8>) -> (r: Option<u32>)
    ensures
        r is Some <==> bytes@.len() == 4,
        r matches Some(v) ==> v == from_be4(bytes@),
{
    if bytes.len() == 4 {
        let v: u32 = ((bytes[0] as u32) << 24) | ((bytes[1] as u32) << 16) | ((
        bytes[2] as u32) << 8) | (bytes[3] as u32);
        Some(v)
    } else {
        None
    }
}

/// Read 8 big-endian bytes starting at `off`.
fn read_be8(bytes: &Vec<u8>, off: usize) -> (r: u64)
    requires
        off + 8 <= bytes@.len(),
    ensures
        r == from_be8(bytes@.subrange(off as int, off as int + 8)),
{
    let n: usize = bytes.len();
    proof {
        assert(off + 8 <= n);
    }
    let v: u64 = ((bytes[off] as u64) << 56) | ((bytes[off + 1] as u64) << 48) | ((bytes[off
        + 2] as u64) << 40) | ((bytes[off + 3] as u64) << 32) | ((bytes[off + 4] as u64)
        << 24) | ((bytes[off + 5] as u64) << 16) | ((bytes[off + 6] as u64) << 8) | (bytes[off
        + 7] as u64);
    proof {
        let s = bytes@.subrange(off as int, off as int + 8);
        assert(s[0] == bytes@[off as int] && s[1] == bytes@[off as int + 1] && s[2]
            == bytes@[off as int + 2] && s[3] == bytes@[off as int + 3] && s[4] == bytes@[off
            as int + 4] && s[5] == bytes@[off as int + 5] && s[6] == bytes@[off as int + 6]
            && s[7] == bytes@[off as int + 7]);
    }
    v
}

/// Encode a scalar fixed-point value as 4 big-endian bytes.
pub fn encode_fixed(x: &Fixed) -> (r: Vec<u8>)
    ensures
        r@ =~= fixed_be(*x),
{
    let u: u32 = #[verifier::truncate] (x.raw as u32);
    encode_u32(u)
}

/// Decode a scalar fixed-point value from 4 big-endian bytes; any other
/// length is malformed.
pub fn decode_fixed(bytes: &Vec<u8>) -> (r: Option<Fixed>)
    ensures
        r is Some <==> bytes@.len() == 4,
        r matches Some(v) ==> v == fixed_from_be(bytes@),
{
    match decode_u32(bytes) {
        Some(u) => Some(Fixed { raw: #[verifier::truncate] (u as i32) }),
        None => None,
    }
}

/// Encode a wide fixed-point value as 8 big-endian bytes.
pub fn encode_wide(x: &WideFixed) -> (r: Vec<u8>)
    ensures
        r@ =~= wide_be(*x),
{
    let v: u64 = #[verifier::truncate] (x.raw as u64);
    let b0: u8 = #[verifier::truncate] ((v >> 56) as u8);
    let b1: u8 = #[verifier::truncate] ((v >> 48) as u8);
    let b2: u8 = #[verifier::truncate] ((v >> 40) as u8);
    let b3: u8 = #[verifier::truncate] ((v >> 32) as u8);
    let b4: u8 = #[verifier::truncate] ((v >> 24) as u8);
    let b5: u8 = #[verifier::truncate] ((v >> 16) as u8);
    let b6: u8 = #[verifier::truncate] ((v >> 8) as u8);
    let b7: u8 = #[verifier::truncate] (v as u8);
    let mut out: Vec<u8> = Vec::new();
    out.push(b0);
    out.push(b1);
    out.push(b2);
    out.push(b3);
    out.push(b4);
    out.push(b5);
    out.push(b6);
    out.push(b7);
    out
}

/// Decode a wide fixed-point value from 8 big-endian bytes; any other
/// length is malformed.
pub fn decode_wide(bytes: &Vec<u8>) -> (r: Option<WideFixed>)
    ensures
        r is Some <==> bytes@.len() == 8,
        r matches Some(v) ==> v == wide_from_be(bytes@),
{
    if bytes.len() == 8 {
        let v: u64 = read_be8(bytes, 0);
        proof {
            assert(bytes@.subrange(0, 8) =~= bytes@);
        }
        Some(WideFixed { raw: #[verifier::truncate] (v as i64) })
    } else {
        None
    }
}

/// Encode the optional sensitivity override, length-prefixed.
pub fn encode_opt_sensitivity(s: &Option<Fixed>) -> (r: Vec<u8>)
    ensures
        r@ =~= opt_sens_be(*s),
{
    match s {
        None => {
            let mut out: Vec<u8> = Vec::new();
            out.push(0u8);
            out
        },
        Some(x) => {
            let wide = x.widen();
            let tail = encode_wide(&wide);
            let mut out: Vec<u8> = Vec::new();
            out.push(8u8);
            let mut i: usize = 0;
            while i < tail.len()
                invariant
                    i <= tail@.len(),
                    out@ =~= seq![8u8] + tail@.take(i as int),
                decreases tail@.len() - i,
            {
                out.push(tail[i]);
                i = i + 1;
            }
            proof {
                assert(tail@.take(tail@.len() as int) =~= tail@);
                assert((x.raw as i64 * 0x10000) as u64 == wide.raw as u64);
            }
            out
        },
    }
}

/// What an override encoding decodes to: the absent marker, or a wide
/// payload that is the exact widening of a scalar; anything else is
/// malformed.
pub open spec fn opt_sens_from_be(s: Seq<u8>) -> Option<Option<Fixed>> {
    if s.len() == 1 && s[0] == 0u8 {
        Some(None)
    } else if s.len() == 9 && s[0] == 8u8 {
        match wide_from_be(s.subrange(1, 9)).exact_scalar() {
            Some(f) => Some(Some(f)),
            None => None,
        }
    } else {
        None
    }
}

/// Decode the optional sensitivity override; exactly the canonical
/// length-prefixed encodings are accepted.
pub fn decode_opt_sensitivity(bytes: &Vec<u8>) -> (r: Option<Option<Fixed>>)
    ensures
        r == opt_sens_from_be(bytes@),
{
    if bytes.len() == 1 && bytes[0] == 0u8 {
        Some(None)
    } else if bytes.len() == 9 && bytes[0] == 8u8 {
        let v: u64 = read_be8(bytes, 1);
        let w = WideFixed { raw: #[verifier::truncate] (v as i64) };
        match w.exact_narrow() {
            Some(f) => Some(Some(f)),
            None => None,
        }
    } else {
        None
    }
}

/// Encoding then decoding the optional sensitivity override gives the
/// identical value.
pub proof fn lemma_opt_sens_round_trip(s: Option<Fixed>)
    ensures
        opt_sens_from_be(opt_sens_be(s)) == Some(s),
{
    match s {
        None => {
            assert(opt_sens_be(s).len() == 1 && opt_sens_be(s)[0] == 0u8);
        },
        Some(f) => {
            let fr = f.raw;
            let enc = ((fr as i64) * 0x10000) as u64;
            let b = opt_sens_be(s);
            assert(b.len() == 9 && b[0] == 8u8);
            assert(b.subrange(1, 9) =~= be8(enc));
            lemma_from_of_be8(enc);
            let w = wide_from_be(b.subrange(1, 9));
            assert(w.raw == enc as i64);
            assert(enc as i64 == (fr as i64) * 0x10000) by (bit_vector)
                requires
                    enc == ((fr as i64) * 0x10000) as u64,
            ;
            assert(w@ == fr * 0x10000);
            crate::fixed::lemma_tdiv_exact(fr as int, 0x10000);
            assert(w.narrowed() == fr);
            assert(w.exact_scalar() == Some(f));
        },
    }
}

} // verus!
