//! The sampling task's computation.
//!
//! Each tick the task draws random bytes from the engine, maps two of them
//! into the simulated raw domain `[-2000, 13000)` (tenths of a degree; the
//! runtime divides by ten into a 32-bit float before encoding), and
//! publishes the 4-byte little-endian encoding of the float's bits into the
//! shared store. The float division itself is the runtime's step; this
//! module fixes the raw value and the byte-level encoding, which
//! round-trips bit for bit.

use vstd::prelude::*;

verus! {

/// The raw sample two random bytes map to: `(b0 * 256 + b1) % 15000 - 2000`.
pub open spec fn spec_sample_raw(b0: u8, b1: u8) -> int {
    (b0 * 256 + b1) % 15000 - 2000
}

/// Maps two random bytes into the simulated raw domain.
pub fn sample_raw(b0: u8, b1: u8) -> (r: i32)
    ensures
        r == spec_sample_raw(b0, b1),
        -2000 <= r < 13000,
{
    let nn: u16 = ((b0 as u16) << 8) | (b1 as u16);
    proof {
        assert(((b0 as u16) << 8) | (b1 as u16) == (b0 as u16) * 256 + (b1 as u16))
            by (bit_vector);
    }
    ((nn % 15000) as i32) - 2000
}

/// The 4-byte little-endian encoding of a 32-bit value.
pub open spec fn spec_le_bytes(x: u32) -> Seq<u8> {
    seq![
        (x & 0xff) as u8,
        ((x >> 8) & 0xff) as u8,
        ((x >> 16) & 0xff) as u8,
        ((x >> 24) & 0xff) as u8,
    ]
}

/// The 32-bit value a 4-byte little-endian payload decodes to.
pub open spec fn spec_u32_of_le(s: Seq<u8>) -> u32
    recommends
        s.len() == 4,
{
    (s[0] as u32) | (s[1] as u32) << 8 | (s[2] as u32) << 16 | (s[3] as u32) << 24
}

/// Encodes the bits of a reading as the 4-byte little-endian payload.
pub fn encode_reading(bits: u32) -> (r: [u8; 4])
    ensures
        r@ == spec_le_bytes(bits),
{
    proof {
        assert((bits & 0xff) < 256 && ((bits >> 8) & 0xff) < 256 && ((bits >> 16) & 0xff) < 256
            && ((bits >> 24) & 0xff) < 256) by (bit_vector);
    }
    let r: [u8; 4] = [
        (bits & 0xff) as u8,
        ((bits >> 8) & 0xff) as u8,
        ((bits >> 16) & 0xff) as u8,
        ((bits >> 24) & 0xff) as u8,
    ];
    proof {
        assert(r@ =~= spec_le_bytes(bits));
    }
    r
}

/// Decodes a 4-byte little-endian payload back into the reading's bits.
pub fn decode_reading(bytes: &[u8; 4]) -> (r: u32)
    ensures
        r == spec_u32_of_le(bytes@),
{
    (bytes[0] as u32) | (bytes[1] as u32) << 8 | (bytes[2] as u32) << 16 | (bytes[3] as u32) << 24
}

/// Encoding round-trips: decoding the 4-byte payload recovers the original
/// bits exactly.
pub proof fn lemma_reading_round_trip(bits: u32)
    ensures
        spec_u32_of_le(spec_le_bytes(bits)) == bits,
{
    assert(((((bits & 0xff) as u8) as u32) | ((((bits >> 8) & 0xff) as u8) as u32) << 8 | ((((bits
        >> 16) & 0xff) as u8) as u32) << 16 | ((((bits >> 24) & 0xff) as u8) as u32) << 24) as u32
        == bits) by (bit_vector);
    assert(spec_le_bytes(bits)[0] == ((bits & 0xff) as u8));
    assert(spec_le_bytes(bits)[1] == (((bits >> 8) & 0xff) as u8));
    assert(spec_le_bytes(bits)[2] == (((bits >> 16) & 0xff) as u8));
    assert(spec_le_bytes(bits)[3] == (((bits >> 24) & 0xff) as u8));
}

} // verus!
