//! Header of the ClockErrorBound shared memory segment and its byte layout.
//!
//! ```text
//! offset 0    magic[0..2]   two u32
//! offset 8    segsize       u32, total segment size
//! offset 12   version       u16
//! offset 14   generation    u16, sequence counter
//! ```
//! All integers are little-endian.

use vstd::prelude::*;
use vstd::bytes::{
    spec_u16_from_le_bytes, spec_u16_to_le_bytes, spec_u32_from_le_bytes, spec_u32_to_le_bytes,
    u16_from_le_bytes, u16_to_le_bytes, u32_from_le_bytes, u32_to_le_bytes,
};
use vstd::slice::slice_subrange;

use crate::ceb::ShmError;

verus! {

/// First word of the magic number that identifies a ClockErrorBound segment.
pub const SHM_MAGIC_0: u32 = 0x414D5A4E;

/// Second word of the magic number that identifies a ClockErrorBound segment.
pub const SHM_MAGIC_1: u32 = 0x43420200;

/// Version of the segment layout supported by this implementation.
pub const CLOCKBOUND_SHM_SUPPORTED_VERSION: u16 = 2;

/// Size of the header, in bytes.
pub const SHM_HEADER_SIZE: usize = 16;

/// Header of the shared memory segment holding the ClockErrorBound data.
#[derive(Debug, Clone, Copy)]
pub struct ShmHeader {
    /// Magic number to uniquely identify the content of the memory segment.
    pub magic: [u32; 2],
    /// Size of the segment written by the writer.
    pub segsize: u32,
    /// Version identifying the layout of the data in the segment.
    pub version: u16,
    /// Generation number, incremented by the writer on every update.
    pub generation: u16,
}

/// The header that the first 16 bytes of `b` encode.
pub open spec fn header_of(b: Seq<u8>) -> ShmHeader {
    ShmHeader {
        magic: [spec_u32_from_le_bytes(b.subrange(0, 4)), spec_u32_from_le_bytes(b.subrange(4, 8))],
        segsize: spec_u32_from_le_bytes(b.subrange(8, 12)),
        version: spec_u16_from_le_bytes(b.subrange(12, 14)),
        generation: spec_u16_from_le_bytes(b.subrange(14, 16)),
    }
}

/// The 16 bytes that encode a header.
pub open spec fn header_bytes(h: ShmHeader) -> Seq<u8> {
    spec_u32_to_le_bytes(h.magic[0]) + spec_u32_to_le_bytes(h.magic[1]) + spec_u32_to_le_bytes(
        h.segsize,
    ) + spec_u16_to_le_bytes(h.version) + spec_u16_to_le_bytes(h.generation)
}

impl ShmHeader {
    /// Whether the magic number matches `magic`.
    pub open spec fn spec_matches_magic(&self, magic: [u32; 2]) -> bool {
        self.magic[0] == magic[0] && self.magic[1] == magic[1]
    }

    /// What validating the header gives.
    pub open spec fn validity(&self) -> Result<(), ShmError> {
        if !(self.magic[0] == SHM_MAGIC_0 && self.magic[1] == SHM_MAGIC_1) {
            Err(ShmError::SegmentMalformed)
        } else if self.version == 0 || self.generation == 0 {
            Err(ShmError::SegmentNotInitialized)
        } else if self.version != CLOCKBOUND_SHM_SUPPORTED_VERSION {
            Err(ShmError::SegmentVersionNotSupported)
        } else if (self.segsize as int) < SHM_HEADER_SIZE {
            Err(ShmError::SegmentMalformed)
        } else {
            Ok(())
        }
    }

    /// Check whether the magic number matches `magic`.
    pub fn matches_magic(&self, magic: &[u32; 2]) -> (r: bool)
        ensures
            r == self.spec_matches_magic(*magic),
    {
        self.magic[0] == magic[0] && self.magic[1] == magic[1]
    }

    /// Check whether the header is marked with a valid (non zero) version.
    pub fn has_valid_version(&self) -> (r: bool)
        ensures
            r == (self.version > 0),
    {
        self.version > 0
    }

    /// Check whether the header is initialized (non zero generation).
    pub fn is_initialized(&self) -> (r: bool)
        ensures
            r == (self.generation > 0),
    {
        self.generation > 0
    }

    /// Check whether the segment is at least as large as the header.
    pub fn is_well_formed(&self) -> (r: bool)
        ensures
            r == (self.segsize as int >= SHM_HEADER_SIZE),
    {
        self.segsize as usize >= SHM_HEADER_SIZE
    }

    /// Check whether the header is valid: the magic number matches, the segment is initialized
    /// with the supported version, and it is large enough to hold the header.
    pub fn is_valid(&self) -> (r: Result<(), ShmError>)
        ensures
            r == self.validity(),
    {
        let magic: [u32; 2] = [SHM_MAGIC_0, SHM_MAGIC_1];
        if !self.matches_magic(&magic) {
            return Err(ShmError::SegmentMalformed);
        }
        if !self.has_valid_version() {
            return Err(ShmError::SegmentNotInitialized);
        }
        if !self.is_initialized() {
            return Err(ShmError::SegmentNotInitialized);
        }
        if self.version != CLOCKBOUND_SHM_SUPPORTED_VERSION {
            return Err(ShmError::SegmentVersionNotSupported);
        }
        if !self.is_well_formed() {
            return Err(ShmError::SegmentMalformed);
        }
        Ok(())
    }

    /// Decode the header held in the first 16 bytes of `bytes`.
    pub fn from_bytes(bytes: &[u8]) -> (r: ShmHeader)
        requires
            bytes@.len() >= SHM_HEADER_SIZE,
        ensures
            r == header_of(bytes@),
    {
        let m0 = u32_from_le_bytes(slice_subrange(bytes, 0, 4));
        let m1 = u32_from_le_bytes(slice_subrange(bytes, 4, 8));
        let segsize = u32_from_le_bytes(slice_subrange(bytes, 8, 12));
        let version = u16_from_le_bytes(slice_subrange(bytes, 12, 14));
        let generation = u16_from_le_bytes(slice_subrange(bytes, 14, 16));
        ShmHeader { magic: [m0, m1], segsize, version, generation }
    }

    /// Read a header from the start of a segment and check that it is valid.
    ///
    /// A segment shorter than the header is not initialized.
    pub fn read(bytes: &[u8]) -> (r: Result<ShmHeader, ShmError>)
        ensures
            bytes@.len() < SHM_HEADER_SIZE ==> r == Err::<ShmHeader, ShmError>(
                ShmError::SegmentNotInitialized,
            ),
            bytes@.len() >= SHM_HEADER_SIZE ==> match header_of(bytes@).validity() {
                Ok(_) => r == Ok::<ShmHeader, ShmError>(header_of(bytes@)),
                Err(e) => r == Err::<ShmHeader, ShmError>(e),
            },
    {
        if bytes.len() < SHM_HEADER_SIZE {
            return Err(ShmError::SegmentNotInitialized);
        }
        let header = ShmHeader::from_bytes(bytes);
        header.is_valid()?;
        Ok(header)
    }

    /// Encode the header as 16 bytes.
    pub fn to_bytes(&self) -> (r: Vec<u8>)
        ensures
            r@ == header_bytes(*self),
    {
        let mut out = u32_to_le_bytes(self.magic[0]);
        let mut b = u32_to_le_bytes(self.magic[1]);
        out.append(&mut b);
        let mut b = u32_to_le_bytes(self.segsize);
        out.append(&mut b);
        let mut b = u16_to_le_bytes(self.version);
        out.append(&mut b);
        let mut b = u16_to_le_bytes(self.generation);
        out.append(&mut b);
        out
    }
}

/// Decoding the bytes of a header gives the header back.
pub proof fn lemma_header_round_trip(h: ShmHeader)
    ensures
        header_bytes(h).len() == SHM_HEADER_SIZE,
        header_of(header_bytes(h)) == h,
{
    vstd::bytes::lemma_auto_spec_u32_to_from_le_bytes();
    vstd::bytes::lemma_auto_spec_u16_to_from_le_bytes();
    let b = header_bytes(h);
    assert(b.subrange(0, 4) == spec_u32_to_le_bytes(h.magic[0]));
    assert(b.subrange(4, 8) == spec_u32_to_le_bytes(h.magic[1]));
    assert(b.subrange(8, 12) == spec_u32_to_le_bytes(h.segsize));
    assert(b.subrange(12, 14) == spec_u16_to_le_bytes(h.version));
    assert(b.subrange(14, 16) == spec_u16_to_le_bytes(h.generation));
    let g = header_of(b);
    assert(g.magic[0] == h.magic[0]);
    assert(g.magic[1] == h.magic[1]);
    assert(g.magic == h.magic);
}

} // verus!
