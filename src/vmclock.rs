//! The VMClock shared memory segment written by the hypervisor, and its reader.
//!
//! ```text
//! header (16 bytes)                    body (88 bytes)
//! offset 0    magic        u32         offset 0    disruption_marker   u64
//! offset 4    size         u32         offset 8    flags               u64
//! offset 8    version      u16         offset 16   padding             2 bytes
//! offset 10   counter_id   u8          offset 18   clock_status        u8
//! offset 11   time_type    u8          offset 19   leap_second_smearing_hint  u8
//! offset 12   seq_count    u32         offset 20   tai_offset_sec      i16
//!                                      offset 22   leap_indicator      u8
//!                                      offset 23   counter_period_shift  u8
//!                                      offset 24.. eight u64 counter and time fields
//! ```
//! All integers are little-endian. The body is stable when `seq_count` is even and reads the
//! same before and after a copy.

use vstd::prelude::*;
use vstd::bytes::{
    spec_u16_from_le_bytes, spec_u16_to_le_bytes, spec_u32_from_le_bytes, spec_u64_from_le_bytes,
    spec_u64_to_le_bytes, u16_from_le_bytes, u16_to_le_bytes, u32_from_le_bytes,
    u64_from_le_bytes, u64_to_le_bytes, u32_to_le_bytes,
};
use vstd::slice::slice_subrange;
use vstd::string::StringSliceAdditionalSpecFns;

use crate::access::{bytes_read, counter_loaded, version_loaded, Event, VMClockAccess, VMClockStoreAccess, bytes_stored, counter_stored};
use crate::ceb::ShmError;
use crate::status::bytes_equal;

verus! {

/// The magic number that identifies a VMClock segment.
pub const VMCLOCK_SHM_MAGIC: u32 = 0x4B4C4356;

/// Version of the VMClock segment layout supported by this implementation.
pub const VMCLOCK_SUPPORTED_VERSION: u16 = 1;

/// Size of the VMClock header, in bytes.
pub const VMCLOCK_HEADER_SIZE: usize = 16;

/// Size of the VMClock body, in bytes.
pub const VMCLOCK_BODY_SIZE: usize = 88;

/// Number of attempts at a consistent read before giving up.
pub const VMCLOCK_SNAPSHOT_RETRIES: u32 = 0xFFFF_FFFF;

/// Header of the VMClock segment.
#[derive(Debug, Clone, Copy, PartialEq, Eq, Structural)]
pub struct VMClockShmHeader {
    /// Magic number identifying the segment.
    pub magic: u32,
    /// Size of the segment.
    pub size: u32,
    /// Version of the segment layout.
    pub version: u16,
    /// Identifier of the counter the hypervisor uses.
    pub counter_id: u8,
    /// Type of time the hypervisor exposes.
    pub time_type: u8,
    /// Sequence counter, odd while the hypervisor updates the segment.
    pub seq_count: u32,
}

/// The VMClock header that the first 16 bytes of `b` encode.
pub open spec fn vmclock_header_of(b: Seq<u8>) -> VMClockShmHeader {
    VMClockShmHeader {
        magic: spec_u32_from_le_bytes(b.subrange(0, 4)),
        size: spec_u32_from_le_bytes(b.subrange(4, 8)),
        version: spec_u16_from_le_bytes(b.subrange(8, 10)),
        counter_id: b[10],
        time_type: b[11],
        seq_count: spec_u32_from_le_bytes(b.subrange(12, 16)),
    }
}

impl VMClockShmHeader {
    /// What validating the header gives.
    pub open spec fn validity(&self) -> Result<(), ShmError> {
        if self.magic != VMCLOCK_SHM_MAGIC {
            Err(ShmError::SegmentMalformed)
        } else if self.version == 0 {
            Err(ShmError::SegmentNotInitialized)
        } else if (self.size as int) < VMCLOCK_HEADER_SIZE {
            Err(ShmError::SegmentMalformed)
        } else {
            Ok(())
        }
    }

    /// Check whether the magic number matches the VMClock one.
    pub fn matches_magic(&self) -> (r: bool)
        ensures
            r == (self.magic == VMCLOCK_SHM_MAGIC),
    {
        self.magic == VMCLOCK_SHM_MAGIC
    }

    /// Check whether the header is marked with a valid (non zero) version.
    pub fn has_valid_version(&self) -> (r: bool)
        ensures
            r == (self.version > 0),
    {
        self.version > 0
    }

    /// Check whether the segment is at least as large as the header.
    pub fn is_well_formed(&self) -> (r: bool)
        ensures
            r == (self.size as int >= VMCLOCK_HEADER_SIZE),
    {
        self.size as usize >= VMCLOCK_HEADER_SIZE
    }

    /// Check whether the header is valid.
    pub fn is_valid(&self) -> (r: Result<(), ShmError>)
        ensures
            r == self.validity(),
    {
        if !self.matches_magic() {
            return Err(ShmError::SegmentMalformed);
        }
        if !self.has_valid_version() {
            return Err(ShmError::SegmentNotInitialized);
        }
        if !self.is_well_formed() {
            return Err(ShmError::SegmentMalformed);
        }
        Ok(())
    }

    /// Encode the header as 16 bytes.
    pub fn to_bytes(&self) -> (r: Vec<u8>)
        ensures
            r@.len() == VMCLOCK_HEADER_SIZE,
            vmclock_header_of(r@) == *self,
    {
        let mut out = u32_to_le_bytes(self.magic);
        let mut b = u32_to_le_bytes(self.size);
        out.append(&mut b);
        let mut b = u16_to_le_bytes(self.version);
        out.append(&mut b);
        out.push(self.counter_id);
        out.push(self.time_type);
        let mut b = u32_to_le_bytes(self.seq_count);
        out.append(&mut b);
        proof {
            vstd::bytes::lemma_auto_spec_u16_to_from_le_bytes();
            vstd::bytes::lemma_auto_spec_u32_to_from_le_bytes();
            assert(out@.subrange(0, 4) == vstd::bytes::spec_u32_to_le_bytes(self.magic));
            assert(out@.subrange(4, 8) == vstd::bytes::spec_u32_to_le_bytes(self.size));
            assert(out@.subrange(8, 10) == spec_u16_to_le_bytes(self.version));
            assert(out@.subrange(12, 16) == vstd::bytes::spec_u32_to_le_bytes(self.seq_count));
        }
        out
    }

    /// Read the header at the start of `bytes` and check that it is valid. An empty segment is
    /// not initialized; a segment shorter than the header is malformed.
    pub fn read(bytes: &Vec<u8>) -> (r: Result<VMClockShmHeader, ShmError>)
        ensures
            bytes@.len() == 0 ==> r == Err::<VMClockShmHeader, ShmError>(
                ShmError::SegmentNotInitialized,
            ),
            0 < bytes@.len() < VMCLOCK_HEADER_SIZE ==> r == Err::<VMClockShmHeader, ShmError>(
                ShmError::SegmentMalformed,
            ),
            bytes@.len() >= VMCLOCK_HEADER_SIZE ==> match vmclock_header_of(bytes@).validity() {
                Ok(_) => r == Ok::<VMClockShmHeader, ShmError>(vmclock_header_of(bytes@)),
                Err(e) => r == Err::<VMClockShmHeader, ShmError>(e),
            },
    {
        if bytes.len() == 0 {
            return Err(ShmError::SegmentNotInitialized);
        }
        if bytes.len() < VMCLOCK_HEADER_SIZE {
            return Err(ShmError::SegmentMalformed);
        }
        let slice = bytes.as_slice();
        let header = VMClockShmHeader {
            magic: u32_from_le_bytes(slice_subrange(slice, 0, 4)),
            size: u32_from_le_bytes(slice_subrange(slice, 4, 8)),
            version: u16_from_le_bytes(slice_subrange(slice, 8, 10)),
            counter_id: slice[10],
            time_type: slice[11],
            seq_count: u32_from_le_bytes(slice_subrange(slice, 12, 16)),
        };
        header.is_valid()?;
        Ok(header)
    }
}

/// The hypervisor's view of the clock status.
#[derive(Debug, Clone, Copy, PartialEq, Eq, Structural)]
pub enum VMClockClockStatus {
    /// The status of the clock is unknown.
    Unknown,
    /// The clock is being initialized.
    Initializing,
    /// The clock is synchronized.
    Synchronized,
    /// The clock is free running.
    FreeRunning,
    /// The clock is unreliable.
    Unreliable,
}

/// The VMClock status a stored code stands for, if any.
pub open spec fn vmclock_status_of_code(code: u8) -> Option<VMClockClockStatus> {
    if code == 0 {
        Some(VMClockClockStatus::Unknown)
    } else if code == 1 {
        Some(VMClockClockStatus::Initializing)
    } else if code == 2 {
        Some(VMClockClockStatus::Synchronized)
    } else if code == 3 {
        Some(VMClockClockStatus::FreeRunning)
    } else if code == 4 {
        Some(VMClockClockStatus::Unreliable)
    } else {
        None
    }
}

/// Error returned when a string names no VMClock status.
#[derive(Debug, Clone, Copy, PartialEq, Eq, Hash, Structural)]
pub struct ParseError;

/// The UTF-8 bytes of each status name, in declaration order.
pub open spec fn vmclock_status_name(s: VMClockClockStatus) -> Seq<u8> {
    match s {
        VMClockClockStatus::Unknown => seq![85u8, 110, 107, 110, 111, 119, 110],
        VMClockClockStatus::Initializing => seq![73u8, 110, 105, 116, 105, 97, 108, 105, 122, 105, 110, 103],
        VMClockClockStatus::Synchronized => seq![83u8, 121, 110, 99, 104, 114, 111, 110, 105, 122, 101, 100],
        VMClockClockStatus::FreeRunning => seq![70u8, 114, 101, 101, 82, 117, 110, 110, 105, 110, 103],
        VMClockClockStatus::Unreliable => seq![85u8, 110, 114, 101, 108, 105, 97, 98, 108, 101],
    }
}

/// The VMClock status a name stands for: the exact variant name.
pub open spec fn vmclock_status_named(name: Seq<u8>) -> Result<VMClockClockStatus, ParseError> {
    if name == vmclock_status_name(VMClockClockStatus::Unknown) {
        Ok(VMClockClockStatus::Unknown)
    } else if name == vmclock_status_name(VMClockClockStatus::Initializing) {
        Ok(VMClockClockStatus::Initializing)
    } else if name == vmclock_status_name(VMClockClockStatus::Synchronized) {
        Ok(VMClockClockStatus::Synchronized)
    } else if name == vmclock_status_name(VMClockClockStatus::FreeRunning) {
        Ok(VMClockClockStatus::FreeRunning)
    } else if name == vmclock_status_name(VMClockClockStatus::Unreliable) {
        Ok(VMClockClockStatus::Unreliable)
    } else {
        Err(ParseError)
    }
}

impl VMClockClockStatus {
    /// The status stored as `code`, if any.
    pub fn from_code(code: u8) -> (r: Option<VMClockClockStatus>)
        ensures
            r == vmclock_status_of_code(code),
    {
        if code == 0 {
            Some(VMClockClockStatus::Unknown)
        } else if code == 1 {
            Some(VMClockClockStatus::Initializing)
        } else if code == 2 {
            Some(VMClockClockStatus::Synchronized)
        } else if code == 3 {
            Some(VMClockClockStatus::FreeRunning)
        } else if code == 4 {
            Some(VMClockClockStatus::Unreliable)
        } else {
            None
        }
    }

    /// Parse a status from its exact variant name.
    pub fn parse(input: &str) -> (r: Result<VMClockClockStatus, ParseError>)
        ensures
            r == vmclock_status_named(input.spec_bytes()),
    {
        let b = input.as_bytes();
        let unknown: [u8; 7] = [85, 110, 107, 110, 111, 119, 110];
        let initializing: [u8; 12] = [73, 110, 105, 116, 105, 97, 108, 105, 122, 105, 110, 103];
        let synchronized: [u8; 12] = [83, 121, 110, 99, 104, 114, 111, 110, 105, 122, 101, 100];
        let free_running: [u8; 11] = [70, 114, 101, 101, 82, 117, 110, 110, 105, 110, 103];
        let unreliable: [u8; 10] = [85, 110, 114, 101, 108, 105, 97, 98, 108, 101];
        assert(unknown@ == vmclock_status_name(VMClockClockStatus::Unknown));
        assert(initializing@ == vmclock_status_name(VMClockClockStatus::Initializing));
        assert(synchronized@ == vmclock_status_name(VMClockClockStatus::Synchronized));
        assert(free_running@ == vmclock_status_name(VMClockClockStatus::FreeRunning));
        assert(unreliable@ == vmclock_status_name(VMClockClockStatus::Unreliable));
        if bytes_equal(b, unknown.as_slice()) {
            Ok(VMClockClockStatus::Unknown)
        } else if bytes_equal(b, initializing.as_slice()) {
            Ok(VMClockClockStatus::Initializing)
        } else if bytes_equal(b, synchronized.as_slice()) {
            Ok(VMClockClockStatus::Synchronized)
        } else if bytes_equal(b, free_running.as_slice()) {
            Ok(VMClockClockStatus::FreeRunning)
        } else if bytes_equal(b, unreliable.as_slice()) {
            Ok(VMClockClockStatus::Unreliable)
        } else {
            Err(ParseError)
        }
    }
}

impl std::str::FromStr for VMClockClockStatus {
    type Err = ParseError;

    fn from_str(input: &str) -> Result<VMClockClockStatus, ParseError> {
        VMClockClockStatus::parse(input)
    }
}

/// Body of the VMClock segment.
#[derive(Debug, Clone, Copy, PartialEq, Eq)]
pub struct VMClockShmBody {
    /// Counter incremented by the hypervisor on each disruption of the clock.
    pub disruption_marker: u64,
    pub flags: u64,
    pub _padding: [u8; 2],
    /// The hypervisor's view of the clock status.
    pub clock_status: VMClockClockStatus,
    pub leap_second_smearing_hint: u8,
    pub tai_offset_sec: i16,
    pub leap_indicator: u8,
    pub counter_period_shift: u8,
    pub counter_value: u64,
    pub counter_period_frac_sec: u64,
    pub counter_period_esterror_rate_frac_sec: u64,
    pub counter_period_maxerror_rate_frac_sec: u64,
    pub time_sec: u64,
    pub time_frac_sec: u64,
    pub time_esterror_nanosec: u64,
    pub time_maxerror_nanosec: u64,
}

/// The body that the first 88 bytes of `b` encode: too few bytes, or a status code out of
/// range, makes it malformed.
pub open spec fn vmclock_body_of(b: Seq<u8>) -> Result<VMClockShmBody, ShmError> {
    if b.len() < VMCLOCK_BODY_SIZE {
        Err(ShmError::SegmentMalformed)
    } else {
        match vmclock_status_of_code(b[18]) {
            None => Err(ShmError::SegmentMalformed),
            Some(clock_status) => Ok(
                VMClockShmBody {
                    disruption_marker: spec_u64_from_le_bytes(b.subrange(0, 8)),
                    flags: spec_u64_from_le_bytes(b.subrange(8, 16)),
                    _padding: [b[16], b[17]],
                    clock_status,
                    leap_second_smearing_hint: b[19],
                    tai_offset_sec: spec_u16_from_le_bytes(b.subrange(20, 22)) as i16,
                    leap_indicator: b[22],
                    counter_period_shift: b[23],
                    counter_value: spec_u64_from_le_bytes(b.subrange(24, 32)),
                    counter_period_frac_sec: spec_u64_from_le_bytes(b.subrange(32, 40)),
                    counter_period_esterror_rate_frac_sec: spec_u64_from_le_bytes(b.subrange(40, 48)),
                    counter_period_maxerror_rate_frac_sec: spec_u64_from_le_bytes(b.subrange(48, 56)),
                    time_sec: spec_u64_from_le_bytes(b.subrange(56, 64)),
                    time_frac_sec: spec_u64_from_le_bytes(b.subrange(64, 72)),
                    time_esterror_nanosec: spec_u64_from_le_bytes(b.subrange(72, 80)),
                    time_maxerror_nanosec: spec_u64_from_le_bytes(b.subrange(80, 88)),
                },
            ),
        }
    }
}

fn read_u64(bytes: &[u8], at: usize) -> (r: u64)
    requires
        at <= 80,
        at + 8 <= bytes@.len(),
    ensures
        r == spec_u64_from_le_bytes(bytes@.subrange(at as int, at + 8)),
{
    u64_from_le_bytes(slice_subrange(bytes, at, at + 8))
}

impl VMClockShmBody {
    /// The body of a zeroed segment.
    pub open spec fn zeroed_spec() -> VMClockShmBody {
        VMClockShmBody {
            disruption_marker: 0,
            flags: 0,
            _padding: [0, 0],
            clock_status: VMClockClockStatus::Unknown,
            leap_second_smearing_hint: 0,
            tai_offset_sec: 0,
            leap_indicator: 0,
            counter_period_shift: 0,
            counter_value: 0,
            counter_period_frac_sec: 0,
            counter_period_esterror_rate_frac_sec: 0,
            counter_period_maxerror_rate_frac_sec: 0,
            time_sec: 0,
            time_frac_sec: 0,
            time_esterror_nanosec: 0,
            time_maxerror_nanosec: 0,
        }
    }

    /// A body equivalent to a zeroed segment.
    pub fn zeroed() -> (r: VMClockShmBody)
        ensures
            r == VMClockShmBody::zeroed_spec(),
    {
        VMClockShmBody {
            disruption_marker: 0,
            flags: 0,
            _padding: [0, 0],
            clock_status: VMClockClockStatus::Unknown,
            leap_second_smearing_hint: 0,
            tai_offset_sec: 0,
            leap_indicator: 0,
            counter_period_shift: 0,
            counter_value: 0,
            counter_period_frac_sec: 0,
            counter_period_esterror_rate_frac_sec: 0,
            counter_period_maxerror_rate_frac_sec: 0,
            time_sec: 0,
            time_frac_sec: 0,
            time_esterror_nanosec: 0,
            time_maxerror_nanosec: 0,
        }
    }

    /// Decode the body held in the first 88 bytes of `bytes`.
    pub fn from_bytes(bytes: &[u8]) -> (r: Result<VMClockShmBody, ShmError>)
        ensures
            r == vmclock_body_of(bytes@),
    {
        if bytes.len() < VMCLOCK_BODY_SIZE {
            return Err(ShmError::SegmentMalformed);
        }
        let clock_status = match VMClockClockStatus::from_code(bytes[18]) {
            Some(s) => s,
            None => return Err(ShmError::SegmentMalformed),
        };
        let tai = u16_from_le_bytes(slice_subrange(bytes, 20, 22));
        Ok(
            VMClockShmBody {
                disruption_marker: read_u64(bytes, 0),
                flags: read_u64(bytes, 8),
                _padding: [bytes[16], bytes[17]],
                clock_status,
                leap_second_smearing_hint: bytes[19],
                tai_offset_sec: #[verifier::truncate] (tai as i16),
                leap_indicator: bytes[22],
                counter_period_shift: bytes[23],
                counter_value: read_u64(bytes, 24),
                counter_period_frac_sec: read_u64(bytes, 32),
                counter_period_esterror_rate_frac_sec: read_u64(bytes, 40),
                counter_period_maxerror_rate_frac_sec: read_u64(bytes, 48),
                time_sec: read_u64(bytes, 56),
                time_frac_sec: read_u64(bytes, 64),
                time_esterror_nanosec: read_u64(bytes, 72),
                time_maxerror_nanosec: read_u64(bytes, 80),
            },
        )
    }
}

/// The code a VMClock status is stored as.
pub open spec fn vmclock_status_code(s: VMClockClockStatus) -> u8 {
    match s {
        VMClockClockStatus::Unknown => 0,
        VMClockClockStatus::Initializing => 1,
        VMClockClockStatus::Synchronized => 2,
        VMClockClockStatus::FreeRunning => 3,
        VMClockClockStatus::Unreliable => 4,
    }
}

/// The 88 bytes that encode a body.
pub open spec fn vmclock_body_bytes(b: VMClockShmBody) -> Seq<u8> {
    spec_u64_to_le_bytes(b.disruption_marker) + spec_u64_to_le_bytes(b.flags) + seq![
        b._padding[0],
        b._padding[1],
        vmclock_status_code(b.clock_status),
        b.leap_second_smearing_hint,
    ] + spec_u16_to_le_bytes(b.tai_offset_sec as u16) + seq![
        b.leap_indicator,
        b.counter_period_shift,
    ] + spec_u64_to_le_bytes(b.counter_value) + spec_u64_to_le_bytes(b.counter_period_frac_sec)
        + spec_u64_to_le_bytes(b.counter_period_esterror_rate_frac_sec) + spec_u64_to_le_bytes(
        b.counter_period_maxerror_rate_frac_sec,
    ) + spec_u64_to_le_bytes(b.time_sec) + spec_u64_to_le_bytes(b.time_frac_sec)
        + spec_u64_to_le_bytes(b.time_esterror_nanosec) + spec_u64_to_le_bytes(
        b.time_maxerror_nanosec,
    )
}

fn vmclock_status_to_code(s: VMClockClockStatus) -> (r: u8)
    ensures
        r == vmclock_status_code(s),
{
    match s {
        VMClockClockStatus::Unknown => 0,
        VMClockClockStatus::Initializing => 1,
        VMClockClockStatus::Synchronized => 2,
        VMClockClockStatus::FreeRunning => 3,
        VMClockClockStatus::Unreliable => 4,
    }
}

impl VMClockShmBody {
    /// Encode the body as 88 bytes.
    pub fn to_bytes(&self) -> (r: Vec<u8>)
        ensures
            r@ == vmclock_body_bytes(*self),
    {
        let mut out = u64_to_le_bytes(self.disruption_marker);
        let mut b = u64_to_le_bytes(self.flags);
        out.append(&mut b);
        let mut b = vec![
            self._padding[0],
            self._padding[1],
            vmclock_status_to_code(self.clock_status),
            self.leap_second_smearing_hint,
        ];
        out.append(&mut b);
        let mut b = u16_to_le_bytes(#[verifier::truncate] (self.tai_offset_sec as u16));
        out.append(&mut b);
        let mut b = vec![self.leap_indicator, self.counter_period_shift];
        out.append(&mut b);
        let mut b = u64_to_le_bytes(self.counter_value);
        out.append(&mut b);
        let mut b = u64_to_le_bytes(self.counter_period_frac_sec);
        out.append(&mut b);
        let mut b = u64_to_le_bytes(self.counter_period_esterror_rate_frac_sec);
        out.append(&mut b);
        let mut b = u64_to_le_bytes(self.counter_period_maxerror_rate_frac_sec);
        out.append(&mut b);
        let mut b = u64_to_le_bytes(self.time_sec);
        out.append(&mut b);
        let mut b = u64_to_le_bytes(self.time_frac_sec);
        out.append(&mut b);
        let mut b = u64_to_le_bytes(self.time_esterror_nanosec);
        out.append(&mut b);
        let mut b = u64_to_le_bytes(self.time_maxerror_nanosec);
        out.append(&mut b);
        out
    }
}

/// Decoding the bytes of a body gives the body back.
pub proof fn lemma_vmclock_body_round_trip(body: VMClockShmBody)
    ensures
        vmclock_body_bytes(body).len() == VMCLOCK_BODY_SIZE,
        vmclock_body_of(vmclock_body_bytes(body)) == Ok::<VMClockShmBody, ShmError>(body),
{
    vstd::bytes::lemma_auto_spec_u16_to_from_le_bytes();
    vstd::bytes::lemma_auto_spec_u64_to_from_le_bytes();
    let b = vmclock_body_bytes(body);
    assert(b.subrange(0, 8) == spec_u64_to_le_bytes(body.disruption_marker));
    assert(b.subrange(8, 16) == spec_u64_to_le_bytes(body.flags));
    assert(b.subrange(20, 22) == spec_u16_to_le_bytes(body.tai_offset_sec as u16));
    assert(b.subrange(24, 32) == spec_u64_to_le_bytes(body.counter_value));
    assert(b.subrange(32, 40) == spec_u64_to_le_bytes(body.counter_period_frac_sec));
    assert(b.subrange(40, 48) == spec_u64_to_le_bytes(body.counter_period_esterror_rate_frac_sec));
    assert(b.subrange(48, 56) == spec_u64_to_le_bytes(body.counter_period_maxerror_rate_frac_sec));
    assert(b.subrange(56, 64) == spec_u64_to_le_bytes(body.time_sec));
    assert(b.subrange(64, 72) == spec_u64_to_le_bytes(body.time_frac_sec));
    assert(b.subrange(72, 80) == spec_u64_to_le_bytes(body.time_esterror_nanosec));
    assert(b.subrange(80, 88) == spec_u64_to_le_bytes(body.time_maxerror_nanosec));
    let t = body.tai_offset_sec;
    assert(((t as u16) as i16) == t) by (bit_vector);
    let d = vmclock_body_of(b)->Ok_0;
    assert(d._padding[0] == body._padding[0]);
    assert(d._padding[1] == body._padding[1]);
    assert(d._padding == body._padding);
}

/// The sequence counters stored by one update of the VMClock segment from counter `s`: the odd
/// value entering the update (an odd counter is kept), then the next (even) value, wrapping.
pub open spec fn vmclock_update_counters(s: u32) -> (u32, u32) {
    let entering = if s % 2 == 0 {
        ((s + 1) % 0x1_0000_0000) as u32
    } else {
        s
    };
    (entering, ((entering + 1) % 0x1_0000_0000) as u32)
}

/// The sequence counters to store around one update of the VMClock segment.
pub fn vmclock_update_seq_counts(s: u32) -> (r: (u32, u32))
    ensures
        r == vmclock_update_counters(s),
        r.0 % 2 == 1,
        r.1 % 2 == 0,
{
    let entering = if s % 2 == 0 {
        s.wrapping_add(1)
    } else {
        s
    };
    (entering, entering.wrapping_add(1))
}

/// Access to the memory of a VMClock segment, as a writer needs it.
pub trait VMClockStore {
    /// Load the sequence counter, with acquire ordering.
    fn load_seq_count(&self) -> u32;

    /// Store the sequence counter, with release ordering.
    fn store_seq_count(&mut self, seq_count: u32);

    /// Copy the encoded body into place.
    fn store_body(&mut self, body: &[u8]);
}

/// Publication of a VMClock body.
pub trait VMClockShmWrite {
    /// Publish a body.
    fn write(&mut self, vmclock_shm_body: &VMClockShmBody);
}

/// The accesses of one update of the VMClock segment that loaded counter `s`: the load, the odd
/// counter entering the update, the body, then the even counter completing it.
pub open spec fn vmclock_update_events(s: u32, body: VMClockShmBody) -> Seq<Event> {
    seq![
        counter_loaded(s),
        counter_stored(vmclock_update_counters(s).0),
        bytes_stored(vmclock_body_bytes(body)),
        counter_stored(vmclock_update_counters(s).1),
    ]
}

/// Writer of a VMClock segment, standing in for the hypervisor.
pub struct VMClockShmWriter<S: VMClockStore> {
    store: VMClockStoreAccess<S>,
}

impl<S: VMClockStore> VMClockShmWriter<S> {
    /// Every access the writer made to its segment, in order.
    pub closed spec fn log(&self) -> Seq<Event> {
        self.store.log()
    }

    /// Take hold of a mapped segment.
    pub fn new(store: S) -> (r: VMClockShmWriter<S>)
        ensures
            r.log() == Seq::<Event>::empty(),
    {
        VMClockShmWriter { store: VMClockStoreAccess::new(store) }
    }

    /// Publish a body: load the counter, store an odd counter, copy the body, then store the
    /// next even counter.
    pub fn publish(&mut self, vmclock_shm_body: &VMClockShmBody)
        ensures
            exists|s: u32| final(self).log() == old(self).log() + vmclock_update_events(
                s,
                *vmclock_shm_body,
            ),
    {
        let s = self.store.load_seq_count();
        let (entering, completed) = vmclock_update_seq_counts(s);
        self.store.store_seq_count(entering);
        let body = vmclock_shm_body.to_bytes();
        self.store.store_body(body.as_slice());
        self.store.store_seq_count(completed);
        assert(self.store.log() =~= old(self).store.log() + vmclock_update_events(s, *vmclock_shm_body));
    }
}

impl<S: VMClockStore> VMClockShmWrite for VMClockShmWriter<S> {
    fn write(&mut self, vmclock_shm_body: &VMClockShmBody) {
        self.publish(vmclock_shm_body);
    }
}

/// Access to the memory of a mapped VMClock segment.
pub trait VMClockSegment {
    /// Load the version, with acquire ordering.
    fn load_version(&self) -> u16;

    /// Load the sequence counter, with acquire ordering.
    fn load_seq_count(&self) -> u32;

    /// Copy the bytes of the body (volatile read).
    fn read_body(&self) -> Vec<u8>;
}

/// What opening a VMClock segment whose content starts with `bytes` gives.
pub open spec fn vmclock_open_outcome(bytes: Seq<u8>) -> Result<(), ShmError> {
    if bytes.len() == 0 {
        Err(ShmError::SegmentNotInitialized)
    } else if bytes.len() < VMCLOCK_HEADER_SIZE {
        Err(ShmError::SegmentMalformed)
    } else if vmclock_header_of(bytes).validity() is Err {
        vmclock_header_of(bytes).validity()
    } else if vmclock_header_of(bytes).version != VMCLOCK_SUPPORTED_VERSION {
        Err(ShmError::SegmentVersionNotSupported)
    } else if (vmclock_header_of(bytes).size as int) < VMCLOCK_HEADER_SIZE + VMCLOCK_BODY_SIZE {
        Err(ShmError::SegmentMalformed)
    } else {
        Ok(())
    }
}

/// Reader of the VMClock segment. Not thread safe: each thread holds its own reader.
pub struct VMClockShmReader<S: VMClockSegment> {
    segment: VMClockAccess<S>,
    vmclock_shm_body_snapshot: VMClockShmBody,
    seq_count_snapshot: u32,
    /// What the last snapshot loaded: the version, the first counter, and its attempts.
    observed: Ghost<(u16, u32, Seq<(Seq<u8>, u32)>)>,
}

/// The counter a VMClock reader follows after an attempt whose second load gave `second`: a
/// completed update (even) is followed, an update in progress leaves the current counter.
pub open spec fn follow_seq_count(current: u32, second: u32) -> u32 {
    if second % 2 == 0 {
        second
    } else {
        current
    }
}

/// The counter followed before attempt `k`, starting from the first load `first`; each attempt
/// is the bytes copied and the counter loaded after the copy.
pub open spec fn followed_seq_count(first: u32, attempts: Seq<(Seq<u8>, u32)>, k: nat) -> u32
    decreases k,
{
    if k == 0 {
        first
    } else {
        follow_seq_count(followed_seq_count(first, attempts, (k - 1) as nat), attempts[k - 1].1)
    }
}

/// Whether attempt `k` is a consistent read: the counter loaded after the copy is even and the
/// one followed before it.
pub open spec fn vmclock_attempt_consistent(first: u32, attempts: Seq<(Seq<u8>, u32)>, k: nat) -> bool {
    attempts[k as int].1 % 2 == 0 && followed_seq_count(first, attempts, k) == attempts[k as int].1
}

/// The attempts a VMClock snapshot makes: none unless the counter moved; otherwise attempts
/// until the first consistent one, and no more than `VMCLOCK_SNAPSHOT_RETRIES`.
pub open spec fn vmclock_attempts_shape(
    cached_seq_count: u32,
    version: u16,
    first: u32,
    attempts: Seq<(Seq<u8>, u32)>,
) -> bool {
    if version == VMCLOCK_SUPPORTED_VERSION && first != cached_seq_count {
        &&& 1 <= attempts.len() <= VMCLOCK_SNAPSHOT_RETRIES
        &&& forall|k: nat|
            k + 1 < attempts.len() ==> !#[trigger] vmclock_attempt_consistent(first, attempts, k)
        &&& !vmclock_attempt_consistent(first, attempts, (attempts.len() - 1) as nat)
            ==> attempts.len() == VMCLOCK_SNAPSHOT_RETRIES
    } else {
        attempts.len() == 0
    }
}

/// What a VMClock snapshot returns, and the body and counter it leaves cached, from the cache it
/// started with and what it loaded.
pub open spec fn vmclock_snapshot_outcome(
    cached: VMClockShmBody,
    cached_seq_count: u32,
    version: u16,
    first: u32,
    attempts: Seq<(Seq<u8>, u32)>,
) -> (Result<VMClockShmBody, ShmError>, VMClockShmBody, u32) {
    if version != VMCLOCK_SUPPORTED_VERSION {
        (Err(ShmError::SegmentVersionNotSupported), cached, cached_seq_count)
    } else if first == cached_seq_count {
        (Ok(cached), cached, cached_seq_count)
    } else if attempts.len() > 0 && vmclock_attempt_consistent(
        first,
        attempts,
        (attempts.len() - 1) as nat,
    ) {
        match vmclock_body_of(attempts.last().0) {
            Ok(b) => (Ok(b), b, attempts.last().1),
            Err(e) => (Err(e), cached, cached_seq_count),
        }
    } else {
        (Err(ShmError::SegmentNotInitialized), cached, cached_seq_count)
    }
}

/// The loads a VMClock snapshot makes for the attempts `attempts`: for each, the copy of the
/// body, then the counter.
pub open spec fn vmclock_attempt_events(attempts: Seq<(Seq<u8>, u32)>) -> Seq<Event>
    decreases attempts.len(),
{
    if attempts.len() == 0 {
        Seq::empty()
    } else {
        vmclock_attempt_events(attempts.drop_last()) + seq![
            bytes_read(attempts.last().0),
            counter_loaded(attempts.last().1),
        ]
    }
}

/// The loads a VMClock snapshot makes, in order: the version; then, for the supported version,
/// the first counter and the attempts.
pub open spec fn vmclock_snapshot_events(version: u16, first: u32, attempts: Seq<(Seq<u8>, u32)>) -> Seq<
    Event,
> {
    if version == VMCLOCK_SUPPORTED_VERSION {
        seq![version_loaded(version), counter_loaded(first)] + vmclock_attempt_events(attempts)
    } else {
        seq![version_loaded(version)]
    }
}

proof fn lemma_followed_seq_count_prefix(
    first: u32,
    a: Seq<(Seq<u8>, u32)>,
    x: (Seq<u8>, u32),
    k: nat,
)
    requires
        k <= a.len(),
    ensures
        followed_seq_count(first, a.push(x), k) == followed_seq_count(first, a, k),
    decreases k,
{
    if k > 0 {
        lemma_followed_seq_count_prefix(first, a, x, (k - 1) as nat);
        assert(a.push(x)[k - 1] == a[k - 1]);
    }
}

impl<S: VMClockSegment> VMClockShmReader<S> {
    /// The body last read consistently (a zeroed body before the first one).
    pub closed spec fn cached(&self) -> VMClockShmBody {
        self.vmclock_shm_body_snapshot
    }

    /// What the last snapshot loaded: the version, the first counter (0 if not loaded), and for
    /// each attempt at a consistent read the bytes copied and the counter loaded after.
    pub closed spec fn observed(&self) -> (u16, u32, Seq<(Seq<u8>, u32)>) {
        self.observed@
    }

    /// Every load the reader made of its segment, in order.
    pub closed spec fn log(&self) -> Seq<Event> {
        self.segment.log()
    }

    /// The sequence counter at which the cached body was read (0 before the first one).
    pub closed spec fn cached_seq_count(&self) -> u32 {
        self.seq_count_snapshot
    }

    /// Open a reader on a mapped segment, given the bytes the segment held when opened.
    ///
    /// The header must be valid, of the supported version, and declare a segment large enough
    /// to hold the header and the body.
    pub fn new(segment: S, bytes: &Vec<u8>) -> (r: Result<VMClockShmReader<S>, ShmError>)
        ensures
            r is Ok <==> vmclock_open_outcome(bytes@) is Ok,
            r is Err ==> vmclock_open_outcome(bytes@) == Err::<(), ShmError>(r->Err_0),
            r is Ok ==> r->Ok_0.cached_seq_count() == 0 && r->Ok_0.cached()
                == VMClockShmBody::zeroed_spec(),
    {
        let header = VMClockShmHeader::read(bytes)?;
        if header.version != VMCLOCK_SUPPORTED_VERSION {
            return Err(ShmError::SegmentVersionNotSupported);
        }
        if (header.size as usize) < VMCLOCK_HEADER_SIZE + VMCLOCK_BODY_SIZE {
            return Err(ShmError::SegmentMalformed);
        }
        Ok(
            VMClockShmReader {
                segment: VMClockAccess::new(segment),
                vmclock_shm_body_snapshot: VMClockShmBody::zeroed(),
                seq_count_snapshot: 0,
                observed: Ghost((0, 0, Seq::empty())),
            },
        )
    }

    /// What a loaded version tells a snapshot: only the supported version can be read.
    pub fn check_version(version: u16) -> (r: Result<(), ShmError>)
        ensures
            version == VMCLOCK_SUPPORTED_VERSION ==> r is Ok,
            version != VMCLOCK_SUPPORTED_VERSION ==> r == Err::<(), ShmError>(
                ShmError::SegmentVersionNotSupported,
            ),
    {
        if version == VMCLOCK_SUPPORTED_VERSION {
            Ok(())
        } else {
            Err(ShmError::SegmentVersionNotSupported)
        }
    }

    /// Take the body read between two loads of the sequence counter, `first` before the copy
    /// and `second` after it. The copy is consistent only if both loads saw the same, even,
    /// counter: only then is it decoded and cached, at that counter.
    pub fn install_if_consistent(&mut self, first: u32, body: &[u8], second: u32) -> (r: Result<
        bool,
        ShmError,
    >)
        ensures
            (first != second || second % 2 == 1) ==> r == Ok::<bool, ShmError>(false),
            (first == second && second % 2 == 0) ==> match vmclock_body_of(body@) {
                Ok(c) => r == Ok::<bool, ShmError>(true),
                Err(e) => r == Err::<bool, ShmError>(e),
            },
            r == Ok::<bool, ShmError>(true) ==> final(self).cached() == vmclock_body_of(
                body@,
            )->Ok_0 && final(self).cached_seq_count() == first,
            r != Ok::<bool, ShmError>(true) ==> final(self).cached() == old(self).cached()
                && final(self).cached_seq_count() == old(self).cached_seq_count(),
            final(self).log() == old(self).log(),
    {
        if first != second || second % 2 == 1 {
            return Ok(false);
        }
        let b = VMClockShmBody::from_bytes(body)?;
        self.vmclock_shm_body_snapshot = b;
        self.seq_count_snapshot = first;
        Ok(true)
    }

    /// Return a consistent snapshot of the body.
    ///
    /// A version other than the supported one is an error. An unchanged sequence counter gives
    /// the cached body. Otherwise the body is copied until two loads of the counter around the
    /// copy agree on an even value, following the hypervisor's completed updates, for at most
    /// `VMCLOCK_SNAPSHOT_RETRIES` attempts; running out of attempts means the segment is not
    /// initialized.
    pub fn snapshot(&mut self) -> (r: Result<VMClockShmBody, ShmError>)
        ensures
            final(self).log() == old(self).log() + vmclock_snapshot_events(
                final(self).observed().0,
                final(self).observed().1,
                final(self).observed().2,
            ),
            vmclock_attempts_shape(
                old(self).cached_seq_count(),
                final(self).observed().0,
                final(self).observed().1,
                final(self).observed().2,
            ),
            (r, final(self).cached(), final(self).cached_seq_count()) == vmclock_snapshot_outcome(
                old(self).cached(),
                old(self).cached_seq_count(),
                final(self).observed().0,
                final(self).observed().1,
                final(self).observed().2,
            ),
    {
        let ghost log0 = self.segment.log();
        let version = self.segment.load_version();
        if let Err(e) = Self::check_version(version) {
            self.observed = Ghost((version, 0, Seq::empty()));
            assert(self.segment.log() =~= log0 + vmclock_snapshot_events(version, 0, Seq::empty()));
            return Err(e);
        }
        let first = self.segment.load_seq_count();
        assert(self.segment.log() =~= log0 + vmclock_snapshot_events(version, first, Seq::empty()));
        if first == self.seq_count_snapshot {
            self.observed = Ghost((version, first, Seq::empty()));
            return Ok(self.vmclock_shm_body_snapshot);
        }
        let mut current = first;
        let ghost mut attempts: Seq<(Seq<u8>, u32)> = Seq::empty();
        let mut retries: u32 = VMCLOCK_SNAPSHOT_RETRIES;
        while retries > 0
            invariant
                version == VMCLOCK_SUPPORTED_VERSION,
                first != old(self).seq_count_snapshot,
                0 <= retries <= VMCLOCK_SNAPSHOT_RETRIES,
                attempts.len() == VMCLOCK_SNAPSHOT_RETRIES - retries,
                current == followed_seq_count(first, attempts, attempts.len()),
                forall|k: nat|
                    k < attempts.len() ==> !#[trigger] vmclock_attempt_consistent(first, attempts, k),
                self.vmclock_shm_body_snapshot == old(self).vmclock_shm_body_snapshot,
                self.seq_count_snapshot == old(self).seq_count_snapshot,
                self.segment.log() == log0 + vmclock_snapshot_events(version, first, attempts),
                log0 == old(self).segment.log(),
            decreases retries,
        {
            let body = self.segment.read_body();
            let second = self.segment.load_seq_count();
            let ghost before = attempts;
            proof {
                attempts = attempts.push((body@, second));
                assert(attempts.drop_last() == before);
                assert(self.segment.log() =~= log0 + vmclock_snapshot_events(version, first, attempts));
                lemma_followed_seq_count_prefix(first, before, (body@, second), before.len());
                assert forall|k: nat| k < before.len() implies !#[trigger] vmclock_attempt_consistent(
                    first,
                    attempts,
                    k,
                ) by {
                    lemma_followed_seq_count_prefix(first, before, (body@, second), k);
                    assert(attempts[k as int] == before[k as int]);
                    assert(!vmclock_attempt_consistent(first, before, k));
                }
            }
            match self.install_if_consistent(current, body.as_slice(), second) {
                Ok(true) => {
                    self.observed = Ghost((version, first, attempts));
                    return Ok(self.vmclock_shm_body_snapshot);
                },
                Ok(false) => {},
                Err(e) => {
                    self.observed = Ghost((version, first, attempts));
                    return Err(e);
                },
            }
            current = Self::follow(current, second);
            retries = retries - 1;
        }
        self.observed = Ghost((version, first, attempts));
        Err(ShmError::SegmentNotInitialized)
    }

    /// The counter to follow after an attempt whose second load gave `second`.
    pub fn follow(current: u32, second: u32) -> (r: u32)
        ensures
            r == follow_seq_count(current, second),
    {
        if second % 2 == 0 {
            second
        } else {
            current
        }
    }
}

} // verus!
