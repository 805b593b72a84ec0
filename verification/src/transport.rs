//! Length-prefixed framing.
//!
//! On the wire a frame is a 4-byte big-endian unsigned length followed by
//! exactly that many payload bytes. The arithmetic of the prefix lives
//! here; the embedding binary moves the bytes.

use vstd::prelude::*;

verus! {

/// The big-endian 4-byte encoding of `n`.
pub open spec fn be_u32_bytes(n: u32) -> Seq<u8> {
    seq![
        (n / 0x1000000) as u8,
        ((n / 0x10000) % 0x100) as u8,
        ((n / 0x100) % 0x100) as u8,
        (n % 0x100) as u8,
    ]
}

/// The value of a big-endian 4-byte length prefix.
pub open spec fn be_u32_value(b: Seq<u8>) -> nat
    recommends
        b.len() == 4,
{
    b[0] as nat * 0x1000000 + b[1] as nat * 0x10000 + b[2] as nat * 0x100 + b[3] as nat
}

/// Encode a payload as one frame: its length as a big-endian 32-bit
/// prefix, then the payload itself.
pub fn encode_frame(payload: &Vec<u8>) -> (r: Vec<u8>)
    requires
        payload@.len() <= u32::MAX,
    ensures
        r@ == be_u32_bytes(payload@.len() as u32) + payload@,
        r@.len() == payload@.len() + 4,
{
    let n: u32 = payload.len() as u32;
    let mut out: Vec<u8> = Vec::new();
    out.push((n / 0x1000000) as u8);
    out.push(((n / 0x10000) % 0x100) as u8);
    out.push(((n / 0x100) % 0x100) as u8);
    out.push((n % 0x100) as u8);
    let mut i: usize = 0;
    while i < payload.len()
        invariant
            0 <= i <= payload@.len(),
            payload@.len() <= u32::MAX,
            out@.len() == 4 + i,
            out@ == be_u32_bytes(payload@.len() as u32) + payload@.subrange(0, i as int),
        decreases payload@.len() - i,
    {
        let b = payload[i];
        out.push(b);
        proof {
            assert(out@ =~= be_u32_bytes(payload@.len() as u32) + payload@.subrange(
                0,
                i as int + 1,
            ));
        }
        i += 1;
    }
    proof {
        assert(payload@.subrange(0, payload@.len() as int) =~= payload@);
    }
    out
}

/// Read a frame's length from its 4-byte big-endian prefix.
pub fn decode_frame_length(header: &Vec<u8>) -> (r: u32)
    requires
        header@.len() == 4,
    ensures
        r as nat == be_u32_value(header@),
        be_u32_bytes(r) == header@,
{
    let b0 = header[0];
    let b1 = header[1];
    let b2 = header[2];
    let b3 = header[3];
    let x0: u32 = b0 as u32;
    let x1: u32 = b1 as u32;
    let x2: u32 = b2 as u32;
    let x3: u32 = b3 as u32;
    let r: u32 = x0 * 0x1000000 + x1 * 0x10000 + x2 * 0x100 + x3;
    proof {
        assert(r / 0x1000000 == x0 && (r / 0x10000) % 0x100 == x1 && (r / 0x100) % 0x100 == x2
            && r % 0x100 == x3) by (bit_vector)
            requires
                r == x0 * 0x1000000 + x1 * 0x10000 + x2 * 0x100 + x3,
                x0 < 0x100 && x1 < 0x100 && x2 < 0x100 && x3 < 0x100,
        ;
        assert(be_u32_bytes(r) =~= header@);
    }
    r
}

/// Encoding a length and reading it back round-trips.
pub proof fn lemma_frame_length_round_trip(n: u32)
    ensures
        be_u32_value(be_u32_bytes(n)) == n,
{
}

} // verus!
