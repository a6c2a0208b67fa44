//! Byte layout of the `ClockErrorBound` record in the shared memory segment.
//!
//! ```text
//! offset 0    as_of.tv_sec          i64
//! offset 8    as_of.tv_nsec         i64
//! offset 16   void_after.tv_sec     i64
//! offset 24   void_after.tv_nsec    i64
//! offset 32   bound_nsec            i64
//! offset 40   disruption_marker     u64
//! offset 48   max_drift_ppb         u32
//! offset 52   clock_status          u32 (0 Unknown, 1 Synchronized, 2 FreeRunning, 3 Disrupted)
//! offset 56   clock_disruption_support_enabled   u8, then 7 bytes of padding
//! ```
//! All integers are little-endian.

use vstd::prelude::*;
use vstd::bytes::{
    spec_u32_from_le_bytes, spec_u32_to_le_bytes, spec_u64_from_le_bytes, spec_u64_to_le_bytes,
    u32_from_le_bytes, u32_to_le_bytes, u64_from_le_bytes, u64_to_le_bytes,
};
use vstd::slice::slice_subrange;

use crate::ceb::{ClockErrorBound, ShmError, Timespec};
use crate::shm_header::SHM_HEADER_SIZE;
use crate::status::ClockStatus;

verus! {

/// Size of the record, in bytes.
pub const CEB_RECORD_SIZE: usize = 64;

/// Size of the whole segment: the header followed by the record, padded to 8 bytes.
pub const CEB_SEGMENT_SIZE: usize = 80;

/// `n` zero bytes.
pub open spec fn zeros(n: nat) -> Seq<u8> {
    Seq::new(n, |_i: int| 0u8)
}

/// The code a clock status is stored as.
pub open spec fn status_code(s: ClockStatus) -> u32 {
    match s {
        ClockStatus::Unknown => 0,
        ClockStatus::Synchronized => 1,
        ClockStatus::FreeRunning => 2,
        ClockStatus::Disrupted => 3,
    }
}

/// The clock status a stored code stands for, if any.
pub open spec fn status_of_code(code: u32) -> Option<ClockStatus> {
    if code == 0 {
        Some(ClockStatus::Unknown)
    } else if code == 1 {
        Some(ClockStatus::Synchronized)
    } else if code == 2 {
        Some(ClockStatus::FreeRunning)
    } else if code == 3 {
        Some(ClockStatus::Disrupted)
    } else {
        None
    }
}

/// The little-endian bytes of a signed 64-bit integer.
pub open spec fn i64_bytes(x: i64) -> Seq<u8> {
    spec_u64_to_le_bytes(x as u64)
}

/// The signed 64-bit integer held in 8 little-endian bytes.
pub open spec fn i64_of(b: Seq<u8>) -> i64 {
    spec_u64_from_le_bytes(b) as i64
}

/// The 64 bytes that encode a record.
pub open spec fn record_bytes(c: ClockErrorBound) -> Seq<u8> {
    i64_bytes(c.as_of.tv_sec) + i64_bytes(c.as_of.tv_nsec) + i64_bytes(c.void_after.tv_sec)
        + i64_bytes(c.void_after.tv_nsec) + i64_bytes(c.bound_nsec) + spec_u64_to_le_bytes(
        c.disruption_marker,
    ) + spec_u32_to_le_bytes(c.max_drift_ppb) + spec_u32_to_le_bytes(status_code(c.clock_status))
        + seq![if c.clock_disruption_support_enabled { 1u8 } else { 0u8 }] + zeros(7)
}

/// The record that the first 64 bytes of `b` encode: a segment too short, or a status code out
/// of range, makes it malformed.
pub open spec fn record_of(b: Seq<u8>) -> Result<ClockErrorBound, ShmError> {
    if b.len() < CEB_RECORD_SIZE {
        Err(ShmError::SegmentMalformed)
    } else {
        match status_of_code(spec_u32_from_le_bytes(b.subrange(52, 56))) {
            None => Err(ShmError::SegmentMalformed),
            Some(clock_status) => Ok(
                ClockErrorBound {
                    as_of: Timespec {
                        tv_sec: i64_of(b.subrange(0, 8)),
                        tv_nsec: i64_of(b.subrange(8, 16)),
                    },
                    void_after: Timespec {
                        tv_sec: i64_of(b.subrange(16, 24)),
                        tv_nsec: i64_of(b.subrange(24, 32)),
                    },
                    bound_nsec: i64_of(b.subrange(32, 40)),
                    disruption_marker: spec_u64_from_le_bytes(b.subrange(40, 48)),
                    max_drift_ppb: spec_u32_from_le_bytes(b.subrange(48, 52)),
                    clock_status,
                    clock_disruption_support_enabled: b[56] != 0,
                },
            ),
        }
    }
}

fn status_to_code(s: ClockStatus) -> (r: u32)
    ensures
        r == status_code(s),
{
    match s {
        ClockStatus::Unknown => 0,
        ClockStatus::Synchronized => 1,
        ClockStatus::FreeRunning => 2,
        ClockStatus::Disrupted => 3,
    }
}

fn status_from_code(code: u32) -> (r: Option<ClockStatus>)
    ensures
        r == status_of_code(code),
{
    if code == 0 {
        Some(ClockStatus::Unknown)
    } else if code == 1 {
        Some(ClockStatus::Synchronized)
    } else if code == 2 {
        Some(ClockStatus::FreeRunning)
    } else if code == 3 {
        Some(ClockStatus::Disrupted)
    } else {
        None
    }
}

fn read_i64(bytes: &[u8], at: usize) -> (r: i64)
    requires
        at <= 56,
        at + 8 <= bytes@.len(),
    ensures
        r == i64_of(bytes@.subrange(at as int, at + 8)),
{
    #[verifier::truncate] (u64_from_le_bytes(slice_subrange(bytes, at, at + 8)) as i64)
}

impl ClockErrorBound {
    /// Encode the record as 64 bytes.
    pub fn to_bytes(&self) -> (r: Vec<u8>)
        ensures
            r@ == record_bytes(*self),
    {
        let mut out = u64_to_le_bytes(#[verifier::truncate] (self.as_of.tv_sec as u64));
        let mut b = u64_to_le_bytes(#[verifier::truncate] (self.as_of.tv_nsec as u64));
        out.append(&mut b);
        let mut b = u64_to_le_bytes(#[verifier::truncate] (self.void_after.tv_sec as u64));
        out.append(&mut b);
        let mut b = u64_to_le_bytes(#[verifier::truncate] (self.void_after.tv_nsec as u64));
        out.append(&mut b);
        let mut b = u64_to_le_bytes(#[verifier::truncate] (self.bound_nsec as u64));
        out.append(&mut b);
        let mut b = u64_to_le_bytes(self.disruption_marker);
        out.append(&mut b);
        let mut b = u32_to_le_bytes(self.max_drift_ppb);
        out.append(&mut b);
        let mut b = u32_to_le_bytes(status_to_code(self.clock_status));
        out.append(&mut b);
        let flag: u8 = if self.clock_disruption_support_enabled {
            1
        } else {
            0
        };
        let mut tail: Vec<u8> = vec![flag, 0, 0, 0, 0, 0, 0, 0];
        assert(tail@ == seq![flag] + zeros(7));
        out.append(&mut tail);
        out
    }

    /// Decode the record held in the first 64 bytes of `bytes`.
    pub fn from_bytes(bytes: &[u8]) -> (r: Result<ClockErrorBound, ShmError>)
        ensures
            r == record_of(bytes@),
    {
        if bytes.len() < CEB_RECORD_SIZE {
            return Err(ShmError::SegmentMalformed);
        }
        let code = u32_from_le_bytes(slice_subrange(bytes, 52, 56));
        let clock_status = match status_from_code(code) {
            Some(s) => s,
            None => return Err(ShmError::SegmentMalformed),
        };
        Ok(
            ClockErrorBound {
                as_of: Timespec { tv_sec: read_i64(bytes, 0), tv_nsec: read_i64(bytes, 8) },
                void_after: Timespec { tv_sec: read_i64(bytes, 16), tv_nsec: read_i64(bytes, 24) },
                bound_nsec: read_i64(bytes, 32),
                disruption_marker: u64_from_le_bytes(slice_subrange(bytes, 40, 48)),
                max_drift_ppb: u32_from_le_bytes(slice_subrange(bytes, 48, 52)),
                clock_status,
                clock_disruption_support_enabled: bytes[56] != 0,
            },
        )
    }
}

/// The size of the segment: the header and the record, padded to a multiple of 8 bytes.
pub fn segment_size() -> (r: usize)
    ensures
        r == CEB_SEGMENT_SIZE,
        r % 8 == 0,
        r >= SHM_HEADER_SIZE + CEB_RECORD_SIZE,
{
    let size = SHM_HEADER_SIZE + CEB_RECORD_SIZE;
    if size % 8 == 0 {
        size
    } else {
        size + (8 - size % 8)
    }
}

/// The bytes of a whole segment as the writer lays it out when wiping it: a header with
/// version 0 and generation 0, followed by zeros.
pub open spec fn wiped_segment_bytes() -> Seq<u8> {
    spec_u32_to_le_bytes(crate::shm_header::SHM_MAGIC_0) + spec_u32_to_le_bytes(
        crate::shm_header::SHM_MAGIC_1,
    ) + spec_u32_to_le_bytes(CEB_SEGMENT_SIZE as u32) + zeros(4) + zeros((CEB_SEGMENT_SIZE - SHM_HEADER_SIZE) as nat)
}

/// The content of a freshly wiped segment.
pub fn wiped_segment() -> (r: Vec<u8>)
    ensures
        r@ == wiped_segment_bytes(),
        r@.len() == CEB_SEGMENT_SIZE,
{
    let mut out = u32_to_le_bytes(crate::shm_header::SHM_MAGIC_0);
    let mut b = u32_to_le_bytes(crate::shm_header::SHM_MAGIC_1);
    out.append(&mut b);
    let mut b = u32_to_le_bytes(CEB_SEGMENT_SIZE as u32);
    out.append(&mut b);
    let mut i: usize = 0;
    while i < CEB_SEGMENT_SIZE - 12
        invariant
            0 <= i <= CEB_SEGMENT_SIZE - 12,
            out@ == spec_u32_to_le_bytes(crate::shm_header::SHM_MAGIC_0) + spec_u32_to_le_bytes(
                crate::shm_header::SHM_MAGIC_1,
            ) + spec_u32_to_le_bytes(CEB_SEGMENT_SIZE as u32) + zeros(i as nat),
        decreases CEB_SEGMENT_SIZE - 12 - i,
    {
        out.push(0);
        assert(zeros(i as nat).push(0) == zeros((i + 1) as nat));
        i = i + 1;
    }
    assert(zeros(4) + zeros((CEB_SEGMENT_SIZE - SHM_HEADER_SIZE) as nat) == zeros(
        (CEB_SEGMENT_SIZE - 12) as nat,
    ));
    out
}

/// Decoding the bytes of a record gives the record back.
pub proof fn lemma_record_round_trip(c: ClockErrorBound)
    ensures
        record_bytes(c).len() == CEB_RECORD_SIZE,
        record_of(record_bytes(c)) == Ok::<ClockErrorBound, ShmError>(c),
{
    vstd::bytes::lemma_auto_spec_u32_to_from_le_bytes();
    vstd::bytes::lemma_auto_spec_u64_to_from_le_bytes();
    let b = record_bytes(c);
    assert(b.subrange(0, 8) == i64_bytes(c.as_of.tv_sec));
    assert(b.subrange(8, 16) == i64_bytes(c.as_of.tv_nsec));
    assert(b.subrange(16, 24) == i64_bytes(c.void_after.tv_sec));
    assert(b.subrange(24, 32) == i64_bytes(c.void_after.tv_nsec));
    assert(b.subrange(32, 40) == i64_bytes(c.bound_nsec));
    assert(b.subrange(40, 48) == spec_u64_to_le_bytes(c.disruption_marker));
    assert(b.subrange(48, 52) == spec_u32_to_le_bytes(c.max_drift_ppb));
    assert(b.subrange(52, 56) == spec_u32_to_le_bytes(status_code(c.clock_status)));
    lemma_i64_round_trip(c.as_of.tv_sec);
    lemma_i64_round_trip(c.as_of.tv_nsec);
    lemma_i64_round_trip(c.void_after.tv_sec);
    lemma_i64_round_trip(c.void_after.tv_nsec);
    lemma_i64_round_trip(c.bound_nsec);
}

proof fn lemma_i64_round_trip(x: i64)
    ensures
        i64_of(i64_bytes(x)) == x,
{
    vstd::bytes::lemma_auto_spec_u64_to_from_le_bytes();
    assert(((x as u64) as i64) == x) by (bit_vector);
}

} // verus!
