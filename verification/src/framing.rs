//! The 4-byte length header that precedes every message on the connection.

use vstd::prelude::*;

verus! {

/// The big-endian bytes of `n`.
pub open spec fn be_bytes(n: u32) -> Seq<u8> {
    seq![(n >> 24u32) as u8, (n >> 16u32) as u8, (n >> 8u32) as u8, n as u8]
}

/// The number whose big-endian bytes are `b0 b1 b2 b3`.
pub open spec fn be_value(b0: u8, b1: u8, b2: u8, b3: u8) -> u32 {
    ((b0 as u32) << 24u32) | ((b1 as u32) << 16u32) | ((b2 as u32) << 8u32) | (b3 as u32)
}

/// The header of a frame whose payload is `len` bytes long.
pub fn length_header(len: u32) -> (r: [u8; 4])
    ensures
        r@ == be_bytes(len),
{
    let r = [(len >> 24u32) as u8, (len >> 16u32) as u8, (len >> 8u32) as u8, len as u8];
    assert(r@ =~= be_bytes(len));
    r
}

/// The payload length that a frame's header announces.
pub fn payload_length(header: [u8; 4]) -> (r: u32)
    ensures
        r == be_value(header@[0], header@[1], header@[2], header@[3]),
{
    ((header[0] as u32) << 24u32) | ((header[1] as u32) << 16u32) | ((header[2] as u32) << 8u32)
        | (header[3] as u32)
}

/// Reading a header gives back the length that was written into it.
pub proof fn lemma_header_roundtrip(n: u32)
    ensures
        be_value(be_bytes(n)[0], be_bytes(n)[1], be_bytes(n)[2], be_bytes(n)[3]) == n,
{
    let b0 = (n >> 24u32) as u8;
    let b1 = (n >> 16u32) as u8;
    let b2 = (n >> 8u32) as u8;
    let b3 = n as u8;
    assert(((b0 as u32) << 24u32) | ((b1 as u32) << 16u32) | ((b2 as u32) << 8u32) | (b3 as u32)
        == n) by (bit_vector)
        requires
            b0 == (n >> 24u32) as u8,
            b1 == (n >> 16u32) as u8,
            b2 == (n >> 8u32) as u8,
            b3 == n as u8,
    ;
}

/// A header is read most significant byte first: `b0 b1 b2 b3` stand for
/// `b0·2^24 + b1·2^16 + b2·2^8 + b3`.
pub proof fn lemma_header_value(b0: u8, b1: u8, b2: u8, b3: u8)
    ensures
        be_value(b0, b1, b2, b3) as int == b0 as int * 16777216 + b1 as int * 65536 + b2 as int * 256
            + b3 as int,
{
    let x0 = b0 as u32;
    let x1 = b1 as u32;
    let x2 = b2 as u32;
    let x3 = b3 as u32;
    assert(((x0 << 24u32) | (x1 << 16u32) | (x2 << 8u32) | x3) as int == x0 * 16777216 + x1 * 65536 + x2
        * 256 + x3) by (bit_vector)
        requires
            x0 < 256,
            x1 < 256,
            x2 < 256,
            x3 < 256,
    ;
}

} // verus!
