//! The `ClockErrorBound` record published by the daemon, and the computation of the
//! `(earliest, latest, status)` interval around the current time.

use vstd::prelude::*;

use crate::status::ClockStatus;

verus! {

/// Nanoseconds in one second.
pub const NSEC_PER_SEC: i64 = 1_000_000_000;

/// After `as_of`, the window during which the published status is trusted without fresh data.
pub const GRACE_PERIOD_NSEC: i128 = 5_000_000_000;

/// How far the monotonic clock may read behind `as_of` before causality is deemed broken.
pub const CAUSALITY_SLACK_NSEC: i128 = 1_000;

/// Upper limit (excluded) on a sane drift rate, in parts per billion.
pub const MAX_DRIFT_PPB_LIMIT: u32 = 1_000_000_000;

/// A point in time, as seconds and nanoseconds of a given clock.
#[derive(Debug, Clone, Copy, PartialEq, Eq, Structural)]
pub struct Timespec {
    pub tv_sec: i64,
    pub tv_nsec: i64,
}

/// The timestamp holding `n` nanoseconds, with its nanoseconds in `[0, 1e9)`.
pub open spec fn timespec_of(n: int) -> Timespec {
    Timespec { tv_sec: (n / 1_000_000_000) as i64, tv_nsec: (n % 1_000_000_000) as i64 }
}

/// Whether `n` nanoseconds can be held in a timestamp with nanoseconds in `[0, 1e9)`.
pub open spec fn fits_timespec(n: int) -> bool {
    i64::MIN <= n / 1_000_000_000 <= i64::MAX
}

impl Timespec {
    /// The instant, in nanoseconds.
    pub open spec fn nanos(self) -> int {
        self.tv_sec * 1_000_000_000 + self.tv_nsec
    }

    /// Whether the nanoseconds lie in `[0, 1e9)`.
    pub open spec fn is_normalized(self) -> bool {
        0 <= self.tv_nsec < 1_000_000_000
    }

    pub fn new(tv_sec: i64, tv_nsec: i64) -> (r: Timespec)
        ensures
            r.tv_sec == tv_sec,
            r.tv_nsec == tv_nsec,
    {
        Timespec { tv_sec, tv_nsec }
    }

    /// The instant, in nanoseconds.
    pub fn as_nanos(&self) -> (r: i128)
        ensures
            r == self.nanos(),
    {
        proof {
            assert(-9_223_372_036_854_775_808_000_000_000 <= self.tv_sec * 1_000_000_000
                <= 9_223_372_036_854_775_807_000_000_000) by (nonlinear_arith)
                requires
                    i64::MIN <= self.tv_sec <= i64::MAX,
            ;
        }
        (self.tv_sec as i128) * 1_000_000_000 + (self.tv_nsec as i128)
    }

    /// The normalized timestamp holding `n` nanoseconds, if its seconds fit.
    pub fn from_nanos(n: i128) -> (r: Option<Timespec>)
        ensures
            r is Some <==> fits_timespec(n as int),
            r is Some ==> r->Some_0 == timespec_of(n as int),
    {
        let d: i128 = 1_000_000_000;
        if n >= 0 {
            let q = n / d;
            let m = n % d;
            if q > i64::MAX as i128 {
                return None;
            }
            Some(Timespec { tv_sec: q as i64, tv_nsec: m as i64 })
        } else {
            let p: i128 = -(n + 1);
            let q = p / d;
            let m = p % d;
            proof {
                assert(n == -(q + 1) * 1_000_000_000 + (999_999_999 - m)) by (nonlinear_arith)
                    requires
                        p == -(n + 1),
                        p == q * 1_000_000_000 + m,
                ;
                vstd::arithmetic::div_mod::lemma_fundamental_div_mod_converse(
                    n as int,
                    1_000_000_000,
                    -(q + 1),
                    999_999_999 - m,
                );
            }
            if q > i64::MAX as i128 {
                return None;
            }
            Some(Timespec { tv_sec: -(q as i64) - 1, tv_nsec: (999_999_999 - m) as i64 })
        }
    }
}

/// The system call that failed.
#[derive(Debug, Clone, Copy, PartialEq, Eq, Structural)]
pub enum SyscallOrigin {
    ClockGettime,
    Open,
    Fstat,
    Read,
    Write,
    Mmap,
}

/// Error condition returned by the low-level APIs.
#[derive(Debug, Clone, Copy, PartialEq, Eq, Structural)]
pub enum ShmError {
    /// A system call failed: the OS errno and the call that failed.
    SyscallError(i32, SyscallOrigin),
    /// The shared memory segment is not initialized.
    SegmentNotInitialized,
    /// The shared memory segment is initialized but malformed.
    SegmentMalformed,
    /// The shared memory segment has a version this implementation does not support.
    SegmentVersionNotSupported,
    /// Failed causality check when comparing timestamps.
    CausalityBreach,
}

/// The bound on clock error captured at `as_of`, valid until `void_after`.
#[derive(Debug, Clone, Copy, PartialEq, Eq, Structural)]
pub struct ClockErrorBound {
    /// CLOCK_MONOTONIC_COARSE instant at which `bound_nsec` was valid.
    pub as_of: Timespec,
    /// CLOCK_MONOTONIC_COARSE instant beyond which the record must not be trusted.
    pub void_after: Timespec,
    /// Half-width of the error interval at `as_of`, in nanoseconds.
    pub bound_nsec: i64,
    /// The last VMClock disruption marker observed by the daemon.
    pub disruption_marker: u64,
    /// Upper bound on the clock drift rate, in parts per billion.
    pub max_drift_ppb: u32,
    /// The status published by the daemon.
    pub clock_status: ClockStatus,
    /// Whether a VMClock segment is paired with this record.
    pub clock_disruption_support_enabled: bool,
}

impl Default for ClockErrorBound {
    /// The record of a zeroed segment.
    fn default() -> (r: ClockErrorBound)
        ensures
            r == ClockErrorBound::zeroed_spec(),
    {
        ClockErrorBound::zeroed()
    }
}

/// Nanoseconds elapsed from `as_of` to `mono`, counted as 0 when `mono` is behind.
pub open spec fn elapsed_nsec(as_of: int, mono: int) -> int {
    if mono >= as_of {
        mono - as_of
    } else {
        0
    }
}

/// Drift accrued over `elapsed` nanoseconds at `ppb` parts per billion, in whole nanoseconds.
pub open spec fn drift_nsec(elapsed: int, ppb: int) -> int {
    elapsed * ppb / 1_000_000_000
}

impl ClockErrorBound {
    /// The bound on clock error at the monotonic instant `mono`.
    pub open spec fn inflated_bound(self, mono: int) -> int {
        self.bound_nsec + drift_nsec(elapsed_nsec(self.as_of.nanos(), mono), self.max_drift_ppb as int)
    }

    /// The status published to a reader at the monotonic instant `mono`.
    pub open spec fn status_at(self, mono: int) -> ClockStatus {
        if self.clock_status == ClockStatus::Unknown {
            ClockStatus::Unknown
        } else if mono < self.as_of.nanos() + GRACE_PERIOD_NSEC {
            self.clock_status
        } else if mono < self.void_after.nanos() {
            ClockStatus::FreeRunning
        } else {
            ClockStatus::Unknown
        }
    }

    /// Whether `mono` reads too far behind `as_of` to be trusted.
    pub open spec fn breaks_causality(self, mono: int) -> bool {
        mono <= self.as_of.nanos() - CAUSALITY_SLACK_NSEC
    }

    /// What computing the bound at the pair of clock readings `(real, mono)` gives.
    pub open spec fn bound_outcome(self, realtime: Timespec, mono: Timespec) -> Result<
        (Timespec, Timespec, ClockStatus),
        ShmError,
    > {
        let b = self.inflated_bound(mono.nanos());
        if self.max_drift_ppb >= MAX_DRIFT_PPB_LIMIT || self.bound_nsec < 0 {
            Err(ShmError::SegmentMalformed)
        } else if self.breaks_causality(mono.nanos()) {
            Err(ShmError::CausalityBreach)
        } else if !fits_timespec(realtime.nanos() - b) || !fits_timespec(realtime.nanos() + b) {
            Err(ShmError::SegmentMalformed)
        } else {
            Ok(
                (
                    timespec_of(realtime.nanos() - b),
                    timespec_of(realtime.nanos() + b),
                    self.status_at(mono.nanos()),
                ),
            )
        }
    }

    /// Create a new ClockErrorBound record.
    pub fn new(
        as_of: Timespec,
        void_after: Timespec,
        bound_nsec: i64,
        disruption_marker: u64,
        max_drift_ppb: u32,
        clock_status: ClockStatus,
        clock_disruption_support_enabled: bool,
    ) -> (r: ClockErrorBound)
        ensures
            r == (ClockErrorBound {
                as_of,
                void_after,
                bound_nsec,
                disruption_marker,
                max_drift_ppb,
                clock_status,
                clock_disruption_support_enabled,
            }),
    {
        ClockErrorBound {
            as_of,
            void_after,
            bound_nsec,
            disruption_marker,
            max_drift_ppb,
            clock_status,
            clock_disruption_support_enabled,
        }
    }

    /// The record of a zeroed segment.
    pub open spec fn zeroed_spec() -> ClockErrorBound {
        ClockErrorBound {
            as_of: Timespec { tv_sec: 0, tv_nsec: 0 },
            void_after: Timespec { tv_sec: 0, tv_nsec: 0 },
            bound_nsec: 0,
            disruption_marker: 0,
            max_drift_ppb: 0,
            clock_status: ClockStatus::Unknown,
            clock_disruption_support_enabled: false,
        }
    }

    /// A record equivalent to a zeroed segment.
    pub fn zeroed() -> (r: ClockErrorBound)
        ensures
            r == ClockErrorBound::zeroed_spec(),
    {
        ClockErrorBound {
            as_of: Timespec { tv_sec: 0, tv_nsec: 0 },
            void_after: Timespec { tv_sec: 0, tv_nsec: 0 },
            bound_nsec: 0,
            disruption_marker: 0,
            max_drift_ppb: 0,
            clock_status: ClockStatus::Unknown,
            clock_disruption_support_enabled: false,
        }
    }

    /// Compute the bound on clock error at the instant read as `realtime` on the realtime clock and
    /// as `mono` on the monotonic clock.
    ///
    /// The interval is `realtime` widened on both sides by `bound_nsec` plus the drift accrued since
    /// `as_of`. A monotonic reading behind `as_of` by less than the causality slack counts as no
    /// elapsed time.
    pub fn compute_bound_at(&self, realtime: Timespec, mono: Timespec) -> (r: Result<
        (Timespec, Timespec, ClockStatus),
        ShmError,
    >)
        ensures
            r == self.bound_outcome(realtime, mono),
    {
        if self.max_drift_ppb >= MAX_DRIFT_PPB_LIMIT || self.bound_nsec < 0 {
            return Err(ShmError::SegmentMalformed);
        }
        let real_ns = realtime.as_nanos();
        let mono_ns = mono.as_nanos();
        let as_of_ns = self.as_of.as_nanos();
        let void_after_ns = self.void_after.as_nanos();

        let clock_status = match self.clock_status {
            ClockStatus::Unknown => ClockStatus::Unknown,
            _ => {
                if mono_ns < as_of_ns + GRACE_PERIOD_NSEC {
                    self.clock_status
                } else if mono_ns < void_after_ns {
                    ClockStatus::FreeRunning
                } else {
                    ClockStatus::Unknown
                }
            },
        };

        let elapsed: i128 = if mono_ns >= as_of_ns {
            mono_ns - as_of_ns
        } else if mono_ns > as_of_ns - CAUSALITY_SLACK_NSEC {
            0
        } else {
            return Err(ShmError::CausalityBreach);
        };

        let ppb = self.max_drift_ppb as i128;
        proof {
            assert(0 <= elapsed * ppb <= 20_000_000_000_000_000_000_000_000_000 * 1_000_000_000)
                by (nonlinear_arith)
                requires
                    0 <= elapsed <= 20_000_000_000_000_000_000_000_000_000,
                    0 <= ppb < 1_000_000_000,
            ;
        }
        let drift = elapsed * ppb / 1_000_000_000;
        proof {
            assert(drift <= elapsed) by (nonlinear_arith)
                requires
                    drift == elapsed * ppb / 1_000_000_000,
                    0 <= elapsed,
                    0 <= ppb < 1_000_000_000,
            ;
        }
        let bound = self.bound_nsec as i128 + drift;
        let earliest = Timespec::from_nanos(real_ns - bound);
        let latest = Timespec::from_nanos(real_ns + bound);
        match (earliest, latest) {
            (Some(e), Some(l)) => Ok((e, l, clock_status)),
            _ => Err(ShmError::SegmentMalformed),
        }
    }
}

/// The clocks that the bound computation reads.
#[derive(Debug, Clone, Copy, PartialEq, Eq, Structural)]
pub enum ClockKind {
    /// CLOCK_REALTIME.
    Realtime,
    /// CLOCK_MONOTONIC_COARSE.
    MonotonicCoarse,
}

/// Relies on `nix::time::clock_gettime`: reads the given clock, or fails with the OS errno.
/// Nothing is promised of the time read.
#[verifier::external_body]
fn read_clock(clock: ClockKind) -> (r: Result<Timespec, ShmError>)
    ensures
        r is Err ==> r->Err_0 is SyscallError,
{
    let id = match clock {
        ClockKind::Realtime => nix::time::ClockId::CLOCK_REALTIME,
        ClockKind::MonotonicCoarse => nix::time::ClockId::CLOCK_MONOTONIC_COARSE,
    };
    match nix::time::clock_gettime(id) {
        Ok(ts) => Ok(Timespec { tv_sec: ts.tv_sec() as i64, tv_nsec: ts.tv_nsec() as i64 }),
        Err(e) => Err(ShmError::SyscallError(e as i32, SyscallOrigin::ClockGettime)),
    }
}

/// Read the current time of a clock.
pub fn clock_gettime_safe(clock: ClockKind) -> (r: Result<Timespec, ShmError>)
    ensures
        r is Err ==> r->Err_0 is SyscallError,
{
    read_clock(clock)
}

impl ClockErrorBound {
    /// The equivalent of `clock_gettime()`, with a bound on accuracy.
    ///
    /// Reads the realtime clock first, so that the bound reflects the caller's instant as
    /// closely as possible, then the monotonic clock, and computes the bound at that pair.
    pub fn now(&self) -> (r: Result<(Timespec, Timespec, ClockStatus), ShmError>)
        ensures
            (r is Err && r->Err_0 is SyscallError) || exists|realtime: Timespec, mono: Timespec|
                r == self.bound_outcome(realtime, mono),
            self.max_drift_ppb >= MAX_DRIFT_PPB_LIMIT || self.bound_nsec < 0 ==> r is Err,
    {
        let realtime = clock_gettime_safe(ClockKind::Realtime)?;
        let mono = clock_gettime_safe(ClockKind::MonotonicCoarse)?;
        self.compute_bound_at(realtime, mono)
    }
}

/// `timespec_of` keeps the instant of any count of nanoseconds that fits.
pub proof fn lemma_timespec_of_nanos(n: int)
    requires
        fits_timespec(n),
    ensures
        timespec_of(n).nanos() == n,
        timespec_of(n).is_normalized(),
{
    vstd::arithmetic::div_mod::lemma_fundamental_div_mod(n, 1_000_000_000);
}

/// For a valid record and a monotonic reading at or after `as_of`, the interval holds the
/// realtime reading, and its width is twice the published bound plus the drift accrued since
/// `as_of` (when the interval can be represented at all).
pub proof fn lemma_interval_contains_realtime(ceb: ClockErrorBound, realtime: Timespec, mono: Timespec)
    requires
        ceb.max_drift_ppb < MAX_DRIFT_PPB_LIMIT,
        ceb.bound_nsec >= 0,
        mono.nanos() >= ceb.as_of.nanos(),
        fits_timespec(realtime.nanos() - ceb.inflated_bound(mono.nanos())),
        fits_timespec(realtime.nanos() + ceb.inflated_bound(mono.nanos())),
    ensures
        ceb.bound_outcome(realtime, mono) is Ok,
        ({
            let (earliest, latest, _status) = ceb.bound_outcome(realtime, mono)->Ok_0;
            &&& earliest.nanos() <= realtime.nanos() <= latest.nanos()
            &&& latest.nanos() - earliest.nanos() == 2 * (ceb.bound_nsec + drift_nsec(
                mono.nanos() - ceb.as_of.nanos(),
                ceb.max_drift_ppb as int,
            ))
        }),
{
    let b = ceb.inflated_bound(mono.nanos());
    let e = mono.nanos() - ceb.as_of.nanos();
    assert(0 <= drift_nsec(e, ceb.max_drift_ppb as int)) by (nonlinear_arith)
        requires
            e >= 0,
            ceb.max_drift_ppb >= 0,
    ;
    lemma_timespec_of_nanos(realtime.nanos() - b);
    lemma_timespec_of_nanos(realtime.nanos() + b);
}

} // verus!
