//! Decoder for the fixed 12-byte RTP header (RFC 3550).
//!
//! `RtpPacket` is a read-only, zero-copy view over a received datagram's
//! byte buffer. Each accessor extracts one wire-format field: the bit
//! fields of bytes 0 and 1 and the big-endian integers at bytes 2..12.
//! Construction rejects an empty buffer and a datagram whose declared
//! length is shorter than the fixed header, so no accessor ever reads
//! past the bytes the transport reported as valid.

use vstd::prelude::*;
use vstd::slice::slice_index_get;

verus! {

/// The fixed RTP header occupies this many bytes at the start of a datagram.
pub const HEADER_LEN: usize = 12;

/// Why wrapping a buffer in an `RtpPacket` view can fail.
#[derive(Clone, Copy, Debug, PartialEq, Eq)]
pub enum RtpError {
    /// The buffer holds no bytes at all.
    Empty,
    /// The declared datagram length is shorter than the fixed header.
    Truncated,
}

/// The 2-bit version field: bits 7-6 of byte 0.
pub open spec fn version_of(b0: u8) -> u8 {
    (b0 & 0xc0) >> 6
}

/// The padding flag: bit 5 of byte 0.
pub open spec fn padding_of(b0: u8) -> bool {
    b0 & 0x20 != 0
}

/// The extension flag: bit 4 of byte 0.
pub open spec fn extension_of(b0: u8) -> bool {
    b0 & 0x10 != 0
}

/// The 4-bit CSRC count: the low nibble of byte 0.
pub open spec fn csrc_count_of(b0: u8) -> u8 {
    b0 & 0x0f
}

/// The marker flag: bit 7 of byte 1.
pub open spec fn marker_of(b1: u8) -> bool {
    b1 & 0x80 != 0
}

/// The 7-bit payload type: the low 7 bits of byte 1.
pub open spec fn payload_type_of(b1: u8) -> u8 {
    b1 & 0x7f
}

/// The value of two bytes read as a big-endian 16-bit integer.
pub open spec fn be16(hi: u8, lo: u8) -> int {
    hi * 0x100 + lo
}

/// The value of four bytes read as a big-endian 32-bit integer.
pub open spec fn be32(b0: u8, b1: u8, b2: u8, b3: u8) -> int {
    ((b0 * 0x100 + b1) * 0x100 + b2) * 0x100 + b3
}

/// The bit masks alone bound the packed fields of bytes 0 and 1:
/// every byte value yields a version in 0..=3, a CSRC count in 0..=15
/// and a payload type in 0..=127, with no validation involved.
pub proof fn lemma_field_ranges(b0: u8, b1: u8)
    ensures
        version_of(b0) <= 3,
        csrc_count_of(b0) <= 15,
        payload_type_of(b1) <= 127,
{
    assert((b0 & 0xc0) >> 6 <= 3) by (bit_vector);
    assert(b0 & 0x0f <= 15) by (bit_vector);
    assert(b1 & 0x7f <= 127) by (bit_vector);
}

/// Read-only view of the RTP header at the start of a datagram.
/// Borrows the caller's buffer; copies nothing and mutates nothing.
#[derive(Debug)]
pub struct RtpPacket<'a> {
    buf: &'a [u8],
    size: usize,
}

impl<'a> RtpPacket<'a> {
    /// The bytes of the borrowed buffer.
    pub closed spec fn bytes(self) -> Seq<u8> {
        self.buf@
    }

    /// The declared datagram length, as the transport reported it.
    pub closed spec fn declared_len(self) -> usize {
        self.size
    }

    /// A view is well formed when the whole fixed header lies inside both
    /// the buffer and the declared length.
    pub open spec fn wf(self) -> bool {
        self.bytes().len() >= HEADER_LEN && self.declared_len() >= HEADER_LEN
    }

    /// Wraps a received buffer. `len` is the number of valid bytes the
    /// transport reported, never more than the buffer holds. An empty
    /// buffer is refused, as is a datagram too short to carry the fixed
    /// header; a short datagram is an expected per-packet condition that
    /// the caller skips.
    pub fn new(buf: &'a [u8], len: usize) -> (r: Result<RtpPacket<'a>, RtpError>)
        requires
            len <= buf@.len(),
        ensures
            match r {
                Ok(p) => len >= HEADER_LEN && p.wf() && p.bytes() == buf@
                    && p.declared_len() == len,
                Err(e) => len < HEADER_LEN
                    && ((e == RtpError::Empty && buf@.len() == 0)
                        || (e == RtpError::Truncated && buf@.len() > 0)),
            },
    {
        if buf.is_empty() {
            Err(RtpError::Empty)
        } else if len < HEADER_LEN {
            Err(RtpError::Truncated)
        } else {
            Ok(RtpPacket { buf, size: len })
        }
    }

    /// The declared datagram length, verbatim.
    pub fn length(&self) -> (r: usize)
        ensures
            r == self.declared_len(),
    {
        self.size
    }

    /// The 2-bit protocol version.
    pub fn ver(&self) -> (r: u8)
        requires
            self.wf(),
        ensures
            r == version_of(self.bytes()[0]),
            r <= 3,
    {
        let b0: u8 = *slice_index_get(self.buf, 0);
        proof {
            lemma_field_ranges(b0, b0);
        }
        (b0 & 0xc0) >> 6
    }

    /// The padding flag.
    pub fn padding(&self) -> (r: bool)
        requires
            self.wf(),
        ensures
            r == padding_of(self.bytes()[0]),
    {
        (*slice_index_get(self.buf, 0) & 0x20) != 0
    }

    /// The extension flag.
    pub fn extension(&self) -> (r: bool)
        requires
            self.wf(),
        ensures
            r == extension_of(self.bytes()[0]),
    {
        (*slice_index_get(self.buf, 0) & 0x10) != 0
    }

    /// The number of contributing-source identifiers that follow the
    /// fixed header.
    pub fn csrc_count(&self) -> (r: u8)
        requires
            self.wf(),
        ensures
            r == csrc_count_of(self.bytes()[0]),
            r <= 15,
    {
        let b0: u8 = *slice_index_get(self.buf, 0);
        proof {
            lemma_field_ranges(b0, b0);
        }
        b0 & 0x0f
    }

    /// The marker flag.
    pub fn maker(&self) -> (r: bool)
        requires
            self.wf(),
        ensures
            r == marker_of(self.bytes()[1]),
    {
        (*slice_index_get(self.buf, 1) & 0x80) != 0
    }

    /// The 7-bit payload type.
    pub fn payload_type(&self) -> (r: u8)
        requires
            self.wf(),
        ensures
            r == payload_type_of(self.bytes()[1]),
            r <= 127,
    {
        let b1: u8 = *slice_index_get(self.buf, 1);
        proof {
            lemma_field_ranges(b1, b1);
        }
        b1 & 0x7f
    }

    /// The big-endian 16-bit sequence number at bytes 2-3.
    pub fn seq(&self) -> (r: u16)
        requires
            self.wf(),
        ensures
            r == be16(self.bytes()[2], self.bytes()[3]),
    {
        let hi: u8 = *slice_index_get(self.buf, 2);
        let lo: u8 = *slice_index_get(self.buf, 3);
        assert(((hi as u16) << 8 | (lo as u16)) == hi * 0x100 + lo) by (bit_vector);
        (hi as u16) << 8 | lo as u16
    }

    /// The big-endian 32-bit timestamp at bytes 4-7.
    pub fn timestamp(&self) -> (r: u32)
        requires
            self.wf(),
        ensures
            r == be32(self.bytes()[4], self.bytes()[5], self.bytes()[6], self.bytes()[7]),
    {
        read_be32(
            *slice_index_get(self.buf, 4),
            *slice_index_get(self.buf, 5),
            *slice_index_get(self.buf, 6),
            *slice_index_get(self.buf, 7),
        )
    }

    /// The big-endian 32-bit synchronization-source identifier at bytes 8-11.
    pub fn ssrc(&self) -> (r: u32)
        requires
            self.wf(),
        ensures
            r == be32(self.bytes()[8], self.bytes()[9], self.bytes()[10], self.bytes()[11]),
    {
        read_be32(
            *slice_index_get(self.buf, 8),
            *slice_index_get(self.buf, 9),
            *slice_index_get(self.buf, 10),
            *slice_index_get(self.buf, 11),
        )
    }
}

/// Shifting each byte into place yields the big-endian value.
proof fn lemma_be32_shift(a: u8, b: u8, c: u8, d: u8)
    by (bit_vector)
    ensures
        (((a as u32) << 24) | ((b as u32) << 16) | ((c as u32) << 8) | (d as u32))
            == ((a * 0x100 + b) * 0x100 + c) * 0x100 + d,
{
}

/// Assembles four bytes into the big-endian 32-bit value they encode.
fn read_be32(a: u8, b: u8, c: u8, d: u8) -> (r: u32)
    ensures
        r == be32(a, b, c, d),
{
    proof {
        lemma_be32_shift(a, b, c, d);
    }
    ((a as u32) << 24) | ((b as u32) << 16) | ((c as u32) << 8) | (d as u32)
}

} // verus!

