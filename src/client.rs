//! Client side: open the segments, read the current bound, and surface errors and status.

use vstd::prelude::*;

use crate::ceb::{ClockErrorBound, ShmError, SyscallOrigin, Timespec};
use crate::reader::{CebSegment, ShmReader};
use crate::status::ClockStatus;
use crate::vmclock::{VMClockSegment, VMClockShmReader};

verus! {

/// The status a client reports: when the daemon has not yet seen the latest VMClock disruption
/// (the markers differ), the status is `Unknown`; otherwise the daemon's status stands.
pub open spec fn reconciled_status(status: ClockStatus, ceb_marker: u64, vmclock_marker: u64) -> ClockStatus {
    if ceb_marker == vmclock_marker {
        status
    } else {
        ClockStatus::Unknown
    }
}

/// Reconcile the daemon's status with the VMClock disruption marker.
pub fn reconcile_clock_status(status: ClockStatus, ceb_marker: u64, vmclock_marker: u64) -> (r:
    ClockStatus)
    ensures
        r == reconciled_status(status, ceb_marker, vmclock_marker),
{
    if ceb_marker == vmclock_marker {
        status
    } else {
        ClockStatus::Unknown
    }
}

/// A client reports `Unknown` exactly while the daemon lags behind a disruption, and passes the
/// daemon's status through once the daemon has caught up with the marker.
pub proof fn lemma_status_overridden_until_daemon_catches_up(
    status: ClockStatus,
    ceb_marker: u64,
    vmclock_marker: u64,
)
    ensures
        ceb_marker != vmclock_marker ==> reconciled_status(status, ceb_marker, vmclock_marker)
            == ClockStatus::Unknown,
        reconciled_status(status, vmclock_marker, vmclock_marker) == status,
{
}

/// The kinds of error a client can get.
#[derive(Debug, Clone, Copy, PartialEq, Eq, Hash, Structural)]
pub enum ClockBoundErrorKind {
    Syscall,
    SegmentNotInitialized,
    SegmentMalformed,
    CausalityBreach,
    SegmentVersionNotSupported,
}

/// The kind of error a segment error is.
pub open spec fn error_kind_of(e: ShmError) -> ClockBoundErrorKind {
    match e {
        ShmError::SyscallError(_, _) => ClockBoundErrorKind::Syscall,
        ShmError::SegmentNotInitialized => ClockBoundErrorKind::SegmentNotInitialized,
        ShmError::SegmentMalformed => ClockBoundErrorKind::SegmentMalformed,
        ShmError::CausalityBreach => ClockBoundErrorKind::CausalityBreach,
        ShmError::SegmentVersionNotSupported => ClockBoundErrorKind::SegmentVersionNotSupported,
    }
}

/// The errno a segment error carries (0 but for failed system calls).
pub open spec fn errno_of(e: ShmError) -> i32 {
    match e {
        ShmError::SyscallError(errno, _) => errno,
        _ => 0,
    }
}

/// An error reported to a client: its kind, the OS errno, and a detail.
#[derive(Debug, Clone, PartialEq, Eq)]
pub struct ClockBoundError {
    pub kind: ClockBoundErrorKind,
    pub errno: i32,
    pub detail: String,
}

/// The name of a failing system call.
pub fn syscall_name(origin: SyscallOrigin) -> (r: &'static str) {
    match origin {
        SyscallOrigin::ClockGettime => "clock_gettime",
        SyscallOrigin::Open => "open",
        SyscallOrigin::Fstat => "fstat",
        SyscallOrigin::Read => "read",
        SyscallOrigin::Write => "write",
        SyscallOrigin::Mmap => "mmap",
    }
}

impl ClockBoundError {
    /// The client error for a segment error: a failed system call keeps its errno and names the
    /// call; other errors carry errno 0 and no detail.
    pub fn from_shm_error(e: ShmError) -> (r: ClockBoundError)
        ensures
            r.kind == error_kind_of(e),
            r.errno == errno_of(e),
            !(e is SyscallError) ==> r.detail@.len() == 0,
    {
        match e {
            ShmError::SyscallError(errno, origin) => ClockBoundError {
                kind: ClockBoundErrorKind::Syscall,
                errno,
                detail: syscall_name(origin).to_owned(),
            },
            ShmError::SegmentNotInitialized => ClockBoundError {
                kind: ClockBoundErrorKind::SegmentNotInitialized,
                errno: 0,
                detail: String::new(),
            },
            ShmError::SegmentMalformed => ClockBoundError {
                kind: ClockBoundErrorKind::SegmentMalformed,
                errno: 0,
                detail: String::new(),
            },
            ShmError::CausalityBreach => ClockBoundError {
                kind: ClockBoundErrorKind::CausalityBreach,
                errno: 0,
                detail: String::new(),
            },
            ShmError::SegmentVersionNotSupported => ClockBoundError {
                kind: ClockBoundErrorKind::SegmentVersionNotSupported,
                errno: 0,
                detail: String::new(),
            },
        }
    }
}

/// Result of `ClockBoundClient::now()`.
#[derive(Debug, Clone, Copy, PartialEq, Eq, Structural)]
pub struct ClockBoundNowResult {
    pub earliest: Timespec,
    pub latest: Timespec,
    pub clock_status: ClockStatus,
}

/// The status a client reports for a record and a status computed from it, given the VMClock
/// reader's cached body (only consulted when disruption support is enabled).
pub open spec fn client_status(c: ClockErrorBound, status: ClockStatus, vmclock_marker: u64) -> ClockStatus {
    if c.clock_disruption_support_enabled {
        reconciled_status(status, c.disruption_marker, vmclock_marker)
    } else {
        status
    }
}

/// The disruption marker of the VMClock reader's cached body (0 with no reader).
pub open spec fn vmclock_marker<V: VMClockSegment>(reader: Option<VMClockShmReader<V>>) -> u64 {
    match reader {
        Some(r) => r.cached().disruption_marker,
        None => 0,
    }
}

/// What the last snapshot of a reader (from the reader `before` it to the reader `after` it)
/// returned, as its loads determine it.
pub open spec fn ceb_snapshot_result<C: CebSegment>(before: ShmReader<C>, after: ShmReader<C>) -> Result<
    ClockErrorBound,
    ShmError,
> {
    crate::reader::snapshot_outcome(
        before.cached(),
        before.cached_generation(),
        after.observed().0,
        after.observed().1,
        after.observed().2,
    ).0
}

/// What the last snapshot of a VMClock reader (from the reader `before` it to the reader `after`
/// it) returned, as its loads determine it.
pub open spec fn vmclock_snapshot_result<V: VMClockSegment>(
    before: VMClockShmReader<V>,
    after: VMClockShmReader<V>,
) -> Result<crate::vmclock::VMClockShmBody, ShmError> {
    crate::vmclock::vmclock_snapshot_outcome(
        before.cached(),
        before.cached_seq_count(),
        after.observed().0,
        after.observed().1,
        after.observed().2,
    ).0
}

/// Whether `e` is an error that `now` may give, from the client `before` it to the client
/// `after` it: the error of the daemon segment's snapshot; `SegmentNotInitialized` when
/// disruption support is on and no VMClock reader is attached; a failed clock read; the error of
/// the bound computation at some pair of readings; or the error of the VMClock snapshot.
pub open spec fn now_error<C: CebSegment, V: VMClockSegment>(
    before: VMClock<C, V>,
    after: VMClock<C, V>,
    e: ShmError,
) -> bool {
    let c = after.ceb_reader().cached();
    ||| ceb_snapshot_result(before.ceb_reader(), after.ceb_reader()) == Err::<ClockErrorBound, ShmError>(e)
    ||| (c.clock_disruption_support_enabled && before.vmclock_reader() is None && e
        == ShmError::SegmentNotInitialized)
    ||| e is SyscallError
    ||| (exists|rt: Timespec, mo: Timespec| #[trigger] c.bound_outcome(rt, mo) == Err::<
        (Timespec, Timespec, ClockStatus),
        ShmError,
    >(e))
    ||| (before.vmclock_reader() is Some && after.vmclock_reader() is Some && vmclock_snapshot_result(
        before.vmclock_reader()->Some_0,
        after.vmclock_reader()->Some_0,
    ) == Err::<crate::vmclock::VMClockShmBody, ShmError>(e))
}

/// Whether `reported` is what a client reports for the interval `computed` from record `c`.
pub open spec fn now_matches(
    c: ClockErrorBound,
    computed: (Timespec, Timespec, ClockStatus),
    vmclock_marker: u64,
    reported: (Timespec, Timespec, ClockStatus),
) -> bool {
    reported.0 == computed.0 && reported.1 == computed.1 && reported.2 == client_status(
        c,
        computed.2,
        vmclock_marker,
    )
}

/// A client of the daemon's segment, paired with the VMClock segment when the daemon says
/// disruption support is enabled.
pub struct VMClock<C: CebSegment, V: VMClockSegment> {
    clockbound_shm_reader: ShmReader<C>,
    vmclock_shm_reader: Option<VMClockShmReader<V>>,
}

impl<C: CebSegment, V: VMClockSegment> VMClock<C, V> {
    /// The reader of the daemon's segment.
    pub closed spec fn ceb_reader(&self) -> ShmReader<C> {
        self.clockbound_shm_reader
    }

    /// The reader of the VMClock segment, once attached.
    pub closed spec fn vmclock_reader(&self) -> Option<VMClockShmReader<V>> {
        self.vmclock_shm_reader
    }

    /// Pair a reader of the daemon's segment with a reader of the VMClock segment, if any.
    pub fn new(
        clockbound_shm_reader: ShmReader<C>,
        vmclock_shm_reader: Option<VMClockShmReader<V>>,
    ) -> (r: VMClock<C, V>)
        ensures
            r.ceb_reader() == clockbound_shm_reader,
            r.vmclock_reader() == vmclock_shm_reader,
    {
        VMClock { clockbound_shm_reader, vmclock_shm_reader }
    }

    /// Whether the daemon's latest record asks for a VMClock reader that is not attached yet.
    pub fn needs_vmclock_reader(&mut self) -> (r: Result<bool, ShmError>)
        requires
            old(self).ceb_reader().inv(),
        ensures
            final(self).ceb_reader().inv(),
            final(self).vmclock_reader() == old(self).vmclock_reader(),
            r is Ok ==> r->Ok_0 == (final(self).ceb_reader().cached().clock_disruption_support_enabled
                && final(self).vmclock_reader() is None),
    {
        let ceb = self.clockbound_shm_reader.snapshot()?;
        Ok(ceb.clock_disruption_support_enabled && self.vmclock_shm_reader.is_none())
    }

    /// Attach a reader of the VMClock segment.
    pub fn attach_vmclock_reader(&mut self, reader: VMClockShmReader<V>)
        ensures
            final(self).ceb_reader() == old(self).ceb_reader(),
            final(self).vmclock_reader() == Some(reader),
    {
        self.vmclock_shm_reader = Some(reader);
    }

    /// A snapshot of the VMClock segment, if a reader is attached.
    fn vmclock_snapshot(&mut self) -> (r: Result<crate::vmclock::VMClockShmBody, ShmError>)
        ensures
            final(self).ceb_reader() == old(self).ceb_reader(),
            r is Ok ==> final(self).vmclock_reader() is Some && r->Ok_0 == final(self).vmclock_reader()->Some_0.cached(),
            old(self).vmclock_reader() is None ==> r == Err::<crate::vmclock::VMClockShmBody, ShmError>(ShmError::SegmentNotInitialized),
            old(self).vmclock_reader() is Some ==> final(self).vmclock_reader() is Some
                && r == vmclock_snapshot_result(old(self).vmclock_reader()->Some_0, final(self).vmclock_reader()->Some_0),
    {
        match &mut self.vmclock_shm_reader {
            Some(reader) => reader.snapshot(),
            None => Err(ShmError::SegmentNotInitialized),
        }
    }

    /// The current `(earliest, latest, status)`: computed from a snapshot of the daemon's
    /// segment, with the status overridden to `Unknown` while the VMClock disruption marker
    /// differs from the one the daemon published. With disruption support enabled and no VMClock
    /// reader attached, the VMClock segment is not initialized as far as this client knows.
    pub fn now(&mut self) -> (r: Result<(Timespec, Timespec, ClockStatus), ShmError>)
        requires
            old(self).ceb_reader().inv(),
        ensures
            final(self).ceb_reader().inv(),
            r is Ok ==> final(self).ceb_reader().cached().clock_disruption_support_enabled
                ==> final(self).vmclock_reader() is Some,
            r is Err ==> now_error(*old(self), *final(self), r->Err_0),
            ceb_snapshot_result(old(self).ceb_reader(), final(self).ceb_reader()) is Err ==> r is Err
                && r->Err_0 == ceb_snapshot_result(old(self).ceb_reader(), final(self).ceb_reader())->Err_0,
            ceb_snapshot_result(old(self).ceb_reader(), final(self).ceb_reader()) is Ok
                && final(self).ceb_reader().cached().clock_disruption_support_enabled && old(self).vmclock_reader() is None
                ==> r == Err::<(Timespec, Timespec, ClockStatus), ShmError>(ShmError::SegmentNotInitialized),
            r is Ok ==> exists|realtime: Timespec, mono: Timespec|
                #[trigger] final(self).ceb_reader().cached().bound_outcome(realtime, mono) is Ok
                    && now_matches(
                    final(self).ceb_reader().cached(),
                    final(self).ceb_reader().cached().bound_outcome(realtime, mono)->Ok_0,
                    vmclock_marker(final(self).vmclock_reader()),
                    r->Ok_0,
                ),
    {
        let ceb = self.clockbound_shm_reader.snapshot()?;
        if ceb.clock_disruption_support_enabled && self.vmclock_shm_reader.is_none() {
            return Err(ShmError::SegmentNotInitialized);
        }
        let computed = ceb.now();
        let (earliest, latest, status) = match computed {
            Ok(v) => v,
            Err(e) => return Err(e),
        };
        let ghost (rt, mo) = choose|rt: Timespec, mo: Timespec| ceb.bound_outcome(rt, mo) == computed;
        assert(ceb.bound_outcome(rt, mo) == Ok::<(Timespec, Timespec, ClockStatus), ShmError>(
            (earliest, latest, status),
        ));
        if ceb.clock_disruption_support_enabled {
            let body = self.vmclock_snapshot()?;
            let reported = reconcile_clock_status(status, ceb.disruption_marker, body.disruption_marker);
            assert(now_matches(
                ceb,
                ceb.bound_outcome(rt, mo)->Ok_0,
                vmclock_marker(self.vmclock_reader()),
                (earliest, latest, reported),
            ));
            Ok((earliest, latest, reported))
        } else {
            assert(now_matches(
                ceb,
                ceb.bound_outcome(rt, mo)->Ok_0,
                vmclock_marker(self.vmclock_reader()),
                (earliest, latest, status),
            ));
            Ok((earliest, latest, status))
        }
    }
}

/// A client of the ClockBound daemon.
pub struct ClockBoundClient<C: CebSegment, V: VMClockSegment> {
    pub vmclock: VMClock<C, V>,
}

impl<C: CebSegment, V: VMClockSegment> ClockBoundClient<C, V> {
    /// The current bound on clock error, or the client error for what went wrong: the interval
    /// and status of `VMClock::now`, or the client error of its segment error.
    pub fn now(&mut self) -> (r: Result<ClockBoundNowResult, ClockBoundError>)
        requires
            old(self).vmclock.ceb_reader().inv(),
        ensures
            final(self).vmclock.ceb_reader().inv(),
            r is Err ==> exists|e: ShmError|
                #![trigger error_kind_of(e)]
                now_error(old(self).vmclock, final(self).vmclock, e) && r->Err_0.kind == error_kind_of(e)
                    && r->Err_0.errno == errno_of(e),
            r is Ok ==> exists|realtime: Timespec, mono: Timespec|
                #[trigger] final(self).vmclock.ceb_reader().cached().bound_outcome(realtime, mono) is Ok
                    && now_matches(
                    final(self).vmclock.ceb_reader().cached(),
                    final(self).vmclock.ceb_reader().cached().bound_outcome(realtime, mono)->Ok_0,
                    vmclock_marker(final(self).vmclock.vmclock_reader()),
                    (r->Ok_0.earliest, r->Ok_0.latest, r->Ok_0.clock_status),
                ),
    {
        match self.vmclock.now() {
            Ok((earliest, latest, clock_status)) => Ok(
                ClockBoundNowResult { earliest, latest, clock_status },
            ),
            Err(e) => Err(ClockBoundError::from_shm_error(e)),
        }
    }
}

/// Error kinds exposed through the C interface.
#[allow(non_camel_case_types)]
#[derive(Debug, Clone, Copy, PartialEq, Eq, Structural)]
pub enum clockbound_err_kind {
    CLOCKBOUND_ERR_NONE,
    CLOCKBOUND_ERR_SYSCALL,
    CLOCKBOUND_ERR_SEGMENT_NOT_INITIALIZED,
    CLOCKBOUND_ERR_SEGMENT_MALFORMED,
    CLOCKBOUND_ERR_CAUSALITY_BREACH,
    CLOCKBOUND_ERR_SEGMENT_VERSION_NOT_SUPPORTED,
}

impl clockbound_err_kind {
    /// The C error kind of a segment error.
    pub fn from_shm_error(e: ShmError) -> (r: clockbound_err_kind)
        ensures
            r != clockbound_err_kind::CLOCKBOUND_ERR_NONE,
            (r == clockbound_err_kind::CLOCKBOUND_ERR_SYSCALL) == (e is SyscallError),
            (r == clockbound_err_kind::CLOCKBOUND_ERR_SEGMENT_NOT_INITIALIZED) == (e is SegmentNotInitialized),
            (r == clockbound_err_kind::CLOCKBOUND_ERR_SEGMENT_MALFORMED) == (e is SegmentMalformed),
            (r == clockbound_err_kind::CLOCKBOUND_ERR_CAUSALITY_BREACH) == (e is CausalityBreach),
    {
        match e {
            ShmError::SyscallError(_, _) => clockbound_err_kind::CLOCKBOUND_ERR_SYSCALL,
            ShmError::SegmentNotInitialized => clockbound_err_kind::CLOCKBOUND_ERR_SEGMENT_NOT_INITIALIZED,
            ShmError::SegmentMalformed => clockbound_err_kind::CLOCKBOUND_ERR_SEGMENT_MALFORMED,
            ShmError::CausalityBreach => clockbound_err_kind::CLOCKBOUND_ERR_CAUSALITY_BREACH,
            ShmError::SegmentVersionNotSupported => clockbound_err_kind::CLOCKBOUND_ERR_SEGMENT_VERSION_NOT_SUPPORTED,
        }
    }
}

/// Clock status exposed through the C interface.
#[allow(non_camel_case_types)]
#[derive(Debug, Clone, Copy, PartialEq, Eq, Structural)]
pub enum clockbound_clock_status {
    CLOCKBOUND_STA_UNKNOWN,
    CLOCKBOUND_STA_SYNCHRONIZED,
    CLOCKBOUND_STA_FREE_RUNNING,
    CLOCKBOUND_STA_DISRUPTED,
}

/// The C clock status of a clock status, one for one.
pub open spec fn c_status_of(s: ClockStatus) -> clockbound_clock_status {
    match s {
        ClockStatus::Unknown => clockbound_clock_status::CLOCKBOUND_STA_UNKNOWN,
        ClockStatus::Synchronized => clockbound_clock_status::CLOCKBOUND_STA_SYNCHRONIZED,
        ClockStatus::FreeRunning => clockbound_clock_status::CLOCKBOUND_STA_FREE_RUNNING,
        ClockStatus::Disrupted => clockbound_clock_status::CLOCKBOUND_STA_DISRUPTED,
    }
}

impl From<ClockStatus> for clockbound_clock_status {
    fn from(value: ClockStatus) -> (r: clockbound_clock_status) {
        match value {
            ClockStatus::Unknown => clockbound_clock_status::CLOCKBOUND_STA_UNKNOWN,
            ClockStatus::Synchronized => clockbound_clock_status::CLOCKBOUND_STA_SYNCHRONIZED,
            ClockStatus::FreeRunning => clockbound_clock_status::CLOCKBOUND_STA_FREE_RUNNING,
            ClockStatus::Disrupted => clockbound_clock_status::CLOCKBOUND_STA_DISRUPTED,
        }
    }
}

impl vstd::std_specs::convert::FromSpecImpl<ClockStatus> for clockbound_clock_status {
    open spec fn obeys_from_spec() -> bool {
        true
    }

    open spec fn from_spec(v: ClockStatus) -> clockbound_clock_status {
        c_status_of(v)
    }
}

/// The name of a clock status, as printed.
pub fn format_clock_status(clock_status: &ClockStatus) -> (r: &'static str)
    ensures
        r@ == match *clock_status {
            ClockStatus::Unknown => "Unknown"@,
            ClockStatus::Synchronized => "Synchronized"@,
            ClockStatus::FreeRunning => "FreeRunning"@,
            ClockStatus::Disrupted => "Disrupted"@,
        },
{
    match clock_status {
        ClockStatus::Unknown => "Unknown",
        ClockStatus::Synchronized => "Synchronized",
        ClockStatus::FreeRunning => "FreeRunning",
        ClockStatus::Disrupted => "Disrupted",
    }
}

} // verus!
