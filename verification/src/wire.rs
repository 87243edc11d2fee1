//! Little-endian byte layout of integers, and the framing of service
//! replies: one tag byte telling a successful reply from a negative one,
//! then the payload.

use vstd::prelude::*;

verus! {

/// The four little-endian bytes of a 32-bit value.
pub open spec fn spec_le32(x: u32) -> Seq<u8> {
    seq![
        (x & 0xff) as u8,
        ((x >> 8) & 0xff) as u8,
        ((x >> 16) & 0xff) as u8,
        ((x >> 24) & 0xff) as u8,
    ]
}

/// The 32-bit value read from four little-endian bytes.
pub open spec fn spec_u32_of_le(b0: u8, b1: u8, b2: u8, b3: u8) -> u32 {
    (b0 as u32) | ((b1 as u32) << 8) | ((b2 as u32) << 16) | ((b3 as u32) << 24)
}

/// Reading back the little-endian bytes of a value yields the value.
pub proof fn lemma_le32_round_trip(x: u32)
    ensures
        spec_u32_of_le(
            (x & 0xff) as u8,
            ((x >> 8) & 0xff) as u8,
            ((x >> 16) & 0xff) as u8,
            ((x >> 24) & 0xff) as u8,
        ) == x,
{
    assert(((x & 0xff) as u8 as u32) | ((((x >> 8) & 0xff) as u8 as u32) << 8) | ((((x >> 16)
        & 0xff) as u8 as u32) << 16) | ((((x >> 24) & 0xff) as u8 as u32) << 24) == x)
        by (bit_vector);
}

/// A 32-bit signed value survives the round trip through its bit pattern.
pub proof fn lemma_i32_bits_round_trip(x: i32)
    ensures
        (x as u32) as i32 == x,
{
    assert((x as u32) as i32 == x) by (bit_vector);
}

/// A 32-bit unsigned value survives the round trip through the signed view.
pub proof fn lemma_u32_bits_round_trip(x: u32)
    ensures
        ((x as i32) as u32) == x,
{
    assert(((x as i32) as u32) == x) by (bit_vector);
}

/// Writing back the value read from four bytes yields the four bytes.
pub proof fn lemma_le32_of_u32_of_le(b0: u8, b1: u8, b2: u8, b3: u8)
    ensures
        spec_le32(spec_u32_of_le(b0, b1, b2, b3)) =~= seq![b0, b1, b2, b3],
{
    let x = spec_u32_of_le(b0, b1, b2, b3);
    assert((((b0 as u32) | ((b1 as u32) << 8) | ((b2 as u32) << 16) | ((b3 as u32) << 24)) & 0xff)
        as u8 == b0) by (bit_vector);
    assert(((((b0 as u32) | ((b1 as u32) << 8) | ((b2 as u32) << 16) | ((b3 as u32) << 24)) >> 8)
        & 0xff) as u8 == b1) by (bit_vector);
    assert(((((b0 as u32) | ((b1 as u32) << 8) | ((b2 as u32) << 16) | ((b3 as u32) << 24)) >> 16)
        & 0xff) as u8 == b2) by (bit_vector);
    assert(((((b0 as u32) | ((b1 as u32) << 8) | ((b2 as u32) << 16) | ((b3 as u32) << 24)) >> 24)
        & 0xff) as u8 == b3) by (bit_vector);
}

/// Appends the four little-endian bytes of `x`.
pub fn push_le32(out: &mut Vec<u8>, x: u32)
    ensures
        final(out)@ == old(out)@ + spec_le32(x),
{
    out.push((x & 0xff) as u8);
    out.push(((x >> 8) & 0xff) as u8);
    out.push(((x >> 16) & 0xff) as u8);
    out.push(((x >> 24) & 0xff) as u8);
    proof {
        assert(out@ =~= old(out)@ + spec_le32(x));
    }
}

/// Reads the 32-bit value at position `at`.
pub fn read_le32(bytes: &[u8], at: usize) -> (r: u32)
    requires
        at + 4 <= bytes@.len(),
    ensures
        r == spec_u32_of_le(
            bytes@[at as int],
            bytes@[at as int + 1],
            bytes@[at as int + 2],
            bytes@[at as int + 3],
        ),
{
    let b0 = bytes[at];
    let b1 = bytes[at + 1];
    let b2 = bytes[at + 2];
    let b3 = bytes[at + 3];
    (b0 as u32) | ((b1 as u32) << 8) | ((b2 as u32) << 16) | ((b3 as u32) << 24)
}

/// A service reply carried over the transport: either the encoded response
/// of a successful call, or the text of a failure.
pub enum Reply {
    /// The handler succeeded; the payload is the encoded response.
    Payload(Vec<u8>),
    /// The handler or the dispatcher failed; the payload is the reason text.
    Negative(Vec<u8>),
}

/// The framed bytes of a successful reply.
pub open spec fn spec_frame_ok(payload: Seq<u8>) -> Seq<u8> {
    seq![1u8] + payload
}

/// The framed bytes of a negative reply.
pub open spec fn spec_frame_err(text: Seq<u8>) -> Seq<u8> {
    seq![0u8] + text
}

/// Frames the encoded response of a successful call.
pub fn frame_ok(payload: Vec<u8>) -> (r: Vec<u8>)
    ensures
        r@ == spec_frame_ok(payload@),
{
    let mut out: Vec<u8> = Vec::new();
    out.push(1u8);
    let mut rest = payload;
    out.append(&mut rest);
    proof {
        assert(out@ =~= spec_frame_ok(payload@));
    }
    out
}

/// Frames the reason text of a failed call.
pub fn frame_err(text: Vec<u8>) -> (r: Vec<u8>)
    ensures
        r@ == spec_frame_err(text@),
{
    let mut out: Vec<u8> = Vec::new();
    out.push(0u8);
    let mut rest = text;
    out.append(&mut rest);
    proof {
        assert(out@ =~= spec_frame_err(text@));
    }
    out
}

/// Splits framed bytes into a reply. Fails on an empty frame and on an
/// unknown tag.
pub fn parse_frame(bytes: &[u8]) -> (r: Option<Reply>)
    ensures
        match r {
            Some(Reply::Payload(p)) => bytes@.len() >= 1 && bytes@[0] == 1u8 && p@ == bytes@.skip(
                1,
            ),
            Some(Reply::Negative(t)) => bytes@.len() >= 1 && bytes@[0] == 0u8 && t@ == bytes@.skip(
                1,
            ),
            None => bytes@.len() == 0 || (bytes@[0] != 0u8 && bytes@[0] != 1u8),
        },
{
    if bytes.len() == 0 {
        return None;
    }
    let tag = bytes[0];
    if tag != 0 && tag != 1 {
        return None;
    }
    let mut payload: Vec<u8> = Vec::new();
    let mut i: usize = 1;
    let n = bytes.len();
    while i < n
        invariant
            1 <= i <= n,
            n == bytes@.len(),
            payload@ == bytes@.subrange(1, i as int),
        decreases n - i,
    {
        payload.push(bytes[i]);
        proof {
            assert(payload@ =~= bytes@.subrange(1, i as int + 1));
        }
        i = i + 1;
    }
    proof {
        assert(payload@ =~= bytes@.skip(1));
    }
    if tag == 1 {
        Some(Reply::Payload(payload))
    } else {
        Some(Reply::Negative(payload))
    }
}

} // verus!
