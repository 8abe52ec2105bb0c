//! Length-delimited framing of network messages: each frame is a four-byte big-endian length
//! followed by that many payload bytes.

use vstd::prelude::*;

verus! {

/// Default maximum size of a single network message: 22 MiB.
pub const MAXIMUM_NET_MESSAGE_SIZE: u32 = 23068672;

/// The length a frame header announces.
pub open spec fn header_value(h: [u8; 4]) -> u32 {
    ((h[0] as u32) << 24u32) | ((h[1] as u32) << 16u32) | ((h[2] as u32) << 8u32) | (h[3] as u32)
}

/// Why a frame header was refused.
#[derive(Clone, Copy, Debug, PartialEq, Eq, Structural)]
pub enum FrameError {
    /// The announced payload is larger than allowed.
    TooLarge { length: u32, maximum: u32 },
}

/// The header of a frame whose payload is `len` bytes long.
pub fn encode_header(len: u32) -> (r: [u8; 4])
    ensures
        header_value(r) == len,
{
    let r = [(len >> 24u32) as u8, (len >> 16u32) as u8, (len >> 8u32) as u8, len as u8];
    let (b0, b1, b2, b3) = (r[0], r[1], r[2], r[3]);
    assert(((b0 as u32) << 24u32) | ((b1 as u32) << 16u32) | ((b2 as u32) << 8u32) | (b3 as u32)
        == len) by (bit_vector)
        requires
            b0 == (len >> 24u32) as u8,
            b1 == (len >> 16u32) as u8,
            b2 == (len >> 8u32) as u8,
            b3 == len as u8,
    ;
    r
}

/// The payload length a frame header announces, refused if it exceeds `maximum`.
pub fn decode_header(h: [u8; 4], maximum: u32) -> (r: Result<u32, FrameError>)
    ensures
        header_value(h) <= maximum ==> r == Ok::<u32, FrameError>(header_value(h)),
        header_value(h) > maximum ==> r == Err::<u32, FrameError>(
            FrameError::TooLarge { length: header_value(h), maximum },
        ),
{
    let len = ((h[0] as u32) << 24u32) | ((h[1] as u32) << 16u32) | ((h[2] as u32) << 8u32) | (
    h[3] as u32);
    if len > maximum {
        Err(FrameError::TooLarge { length: len, maximum })
    } else {
        Ok(len)
    }
}

/// A header read back gives the length it was written for, and a length written out gives the
/// header it was read from.
pub proof fn lemma_header_round_trip(len: u32, h: [u8; 4])
    ensures
        header_value(h) == len <==> h@ == seq![
            (len >> 24u32) as u8,
            (len >> 16u32) as u8,
            (len >> 8u32) as u8,
            len as u8,
        ],
{
    let (b0, b1, b2, b3) = (h[0], h[1], h[2], h[3]);
    assert((((b0 as u32) << 24u32) | ((b1 as u32) << 16u32) | ((b2 as u32) << 8u32) | (b3 as u32)
        == len) <==> (b0 == (len >> 24u32) as u8 && b1 == (len >> 16u32) as u8 && b2 == (len
        >> 8u32) as u8 && b3 == len as u8)) by (bit_vector);
    assert(h@.len() == 4);
    if header_value(h) == len {
        assert(h@ =~= seq![
            (len >> 24u32) as u8,
            (len >> 16u32) as u8,
            (len >> 8u32) as u8,
            len as u8,
        ]);
    }
    if h@ == seq![(len >> 24u32) as u8, (len >> 16u32) as u8, (len >> 8u32) as u8, len as u8] {
        assert(h@[0] == b0 && h@[1] == b1 && h@[2] == b2 && h@[3] == b3);
    }
}

} // verus!
