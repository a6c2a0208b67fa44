//! Status values shared by the daemon and the clients.

use vstd::prelude::*;
use vstd::string::StringSliceAdditionalSpecFns;
use vstd::utf8::encode_utf8;

verus! {

/// Definition of mutually exclusive clock status exposed to the reader.
#[derive(Debug, Clone, Copy, PartialEq, Eq, Structural)]
pub enum ClockStatus {
    /// The status of the clock is unknown.
    Unknown,
    /// The clock is kept accurate by the synchronization daemon.
    Synchronized,
    /// The clock is free running and not updated by the synchronization daemon.
    FreeRunning,
    /// The clock has been disrupted and the bound on clock error must not be trusted.
    Disrupted,
}

/// The status of the clock as reported by the synchronization daemon (chronyd).
#[derive(Debug, Clone, Copy, PartialEq, Eq, Structural)]
pub enum ChronyClockStatus {
    /// The status of the clock is unknown.
    Unknown,
    /// The clock is kept accurate by chronyd.
    Synchronized,
    /// The clock is free running and not updated by chronyd.
    FreeRunning,
}

/// The state of the clock with regards to disruption events (e.g. a live migration).
#[derive(Debug, Clone, Copy, PartialEq, Eq, Structural)]
pub enum ClockDisruptionState {
    /// No information on clock disruption.
    Unknown,
    /// No disruption was detected.
    Reliable,
    /// A disruption was detected.
    Disrupted,
}

/// The chrony status that a `leap_status` value of the tracking data stands for.
pub open spec fn chrony_status_of_leap(leap_status: u16) -> ChronyClockStatus {
    if leap_status <= 2 {
        ChronyClockStatus::Synchronized
    } else if leap_status == 3 {
        ChronyClockStatus::FreeRunning
    } else {
        ChronyClockStatus::Unknown
    }
}

impl ChronyClockStatus {
    /// Map chronyd's leap status to a clock status: 0 to 2 are synchronized, 3 is unsynchronized
    /// (free running), anything else is unknown.
    pub fn from_leap_status(leap_status: u16) -> (r: ChronyClockStatus)
        ensures
            r == chrony_status_of_leap(leap_status),
    {
        if leap_status <= 2 {
            ChronyClockStatus::Synchronized
        } else if leap_status == 3 {
            ChronyClockStatus::FreeRunning
        } else {
            ChronyClockStatus::Unknown
        }
    }
}

impl From<u16> for ChronyClockStatus {
    fn from(value: u16) -> (r: ChronyClockStatus) {
        ChronyClockStatus::from_leap_status(value)
    }
}

impl vstd::std_specs::convert::FromSpecImpl<u16> for ChronyClockStatus {
    open spec fn obeys_from_spec() -> bool {
        true
    }

    open spec fn from_spec(v: u16) -> ChronyClockStatus {
        chrony_status_of_leap(v)
    }
}

/// Error returned when a string does not name a supported value.
#[derive(Debug, Clone, Copy, PartialEq, Eq, Hash, Structural)]
pub struct ParseError;

/// The source of the bound on clock error.
#[derive(Debug, Clone, Copy, PartialEq, Eq, Hash, Structural)]
pub enum ClockErrorBoundSource {
    /// The bound is derived from chronyd tracking data.
    Chrony,
    /// The bound is read from the VMClock segment.
    VMClock,
}

/// Name of what `str::to_lowercase` returns on a string.
pub uninterp spec fn lowercase_of(s: Seq<char>) -> Seq<char>;

/// Relies on `str::to_lowercase`: the lowercase form of a string depends on its characters alone.
#[verifier::external_body]
fn to_lowercase(s: &str) -> (r: String)
    ensures
        r@ == lowercase_of(s@),
{
    s.to_lowercase()
}

/// The UTF-8 bytes of "chrony".
pub open spec fn chrony_name() -> Seq<u8> {
    seq![99u8, 104u8, 114u8, 111u8, 110u8, 121u8]
}

/// The UTF-8 bytes of "vmclock".
pub open spec fn vmclock_name() -> Seq<u8> {
    seq![118u8, 109u8, 99u8, 108u8, 111u8, 99u8, 107u8]
}

/// The source that a lowercase name stands for.
pub open spec fn source_named(name: Seq<u8>) -> Result<ClockErrorBoundSource, ParseError> {
    if name == chrony_name() {
        Ok(ClockErrorBoundSource::Chrony)
    } else if name == vmclock_name() {
        Ok(ClockErrorBoundSource::VMClock)
    } else {
        Err(ParseError)
    }
}

/// Whether two byte slices hold the same bytes.
pub fn bytes_equal(a: &[u8], b: &[u8]) -> (r: bool)
    ensures
        r == (a@ == b@),
{
    if a.len() != b.len() {
        return false;
    }
    let mut i: usize = 0;
    while i < a.len()
        invariant
            a@.len() == b@.len(),
            0 <= i <= a@.len(),
            a@.subrange(0, i as int) == b@.subrange(0, i as int),
        decreases a@.len() - i,
    {
        if a[i] != b[i] {
            assert(a@[i as int] != b@[i as int]);
            return false;
        }
        assert(a@.subrange(0, i + 1) == a@.subrange(0, i as int).push(a@[i as int]));
        assert(b@.subrange(0, i + 1) == b@.subrange(0, i as int).push(b@[i as int]));
        i = i + 1;
    }
    assert(a@ == a@.subrange(0, a@.len() as int));
    assert(b@ == b@.subrange(0, b@.len() as int));
    true
}

impl ClockErrorBoundSource {
    /// The source named by an already lowercase string: "chrony" or "vmclock".
    pub fn from_lowercase(name: &str) -> (r: Result<ClockErrorBoundSource, ParseError>)
        ensures
            r == source_named(name.spec_bytes()),
    {
        let bytes = name.as_bytes();
        let chrony: [u8; 6] = [99, 104, 114, 111, 110, 121];
        let vmclock: [u8; 7] = [118, 109, 99, 108, 111, 99, 107];
        if bytes_equal(bytes, chrony.as_slice()) {
            assert(chrony@ == chrony_name());
            Ok(ClockErrorBoundSource::Chrony)
        } else if bytes_equal(bytes, vmclock.as_slice()) {
            assert(vmclock@ == vmclock_name());
            Ok(ClockErrorBoundSource::VMClock)
        } else {
            assert(chrony@ == chrony_name());
            assert(vmclock@ == vmclock_name());
            Err(ParseError)
        }
    }

    /// Parse the source of the bound on clock error, ignoring case.
    pub fn parse(input: &str) -> (r: Result<ClockErrorBoundSource, ParseError>)
        ensures
            r == source_named(encode_utf8(lowercase_of(input@))),
    {
        let lower = to_lowercase(input);
        ClockErrorBoundSource::from_lowercase(lower.as_str())
    }
}

impl std::str::FromStr for ClockErrorBoundSource {
    type Err = ParseError;

    fn from_str(input: &str) -> Result<ClockErrorBoundSource, ParseError> {
        ClockErrorBoundSource::parse(input)
    }
}

} // verus!
