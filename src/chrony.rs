//! What the daemon derives from chronyd tracking data and from the PHC error bound.
//!
//! The tracking data's floating-point fields are turned into integers where they are read; the
//! decisions made from those integers are here.

use vstd::prelude::*;
use vstd::string::StringSliceAdditionalSpecFns;

use crate::ceb::Timespec;
use crate::runner::ClockStatusSnapshot;
use crate::status::{ChronyClockStatus, chrony_status_of_leap};

verus! {

/// What the daemon keeps of a chronyd tracking record.
#[derive(Debug, Clone, Copy, PartialEq, Eq, Structural)]
pub struct TrackingSummary {
    /// Reference id of the current source, as a big-endian 4-character ASCII code.
    pub ref_id: u32,
    /// chronyd's leap status.
    pub leap_status: u16,
    /// The bound on clock error, in nanoseconds, rounded up.
    pub error_bound_nsec: i64,
    /// Nanoseconds since chronyd last updated the clock, if the update is not in the future.
    pub since_update_nsec: Option<u128>,
    /// Seconds without update after which a synchronized clock is deemed free running (eight
    /// polling intervals).
    pub empty_register_timeout_sec: u64,
}

/// The chrony status derived from the leap status and from the time since the last update: a
/// synchronized clock without update for longer than the timeout is free running.
pub open spec fn chrony_status_of(leap_status: u16, since_update_nsec: u128, timeout_sec: u64) -> ChronyClockStatus {
    match chrony_status_of_leap(leap_status) {
        ChronyClockStatus::Synchronized => {
            if since_update_nsec > timeout_sec * 1_000_000_000 {
                ChronyClockStatus::FreeRunning
            } else {
                ChronyClockStatus::Synchronized
            }
        },
        status => status,
    }
}

/// Derive the chrony status of the clock.
pub fn get_chrony_clock_status(leap_status: u16, since_update_nsec: u128, timeout_sec: u64) -> (r:
    ChronyClockStatus)
    ensures
        r == chrony_status_of(leap_status, since_update_nsec, timeout_sec),
{
    match ChronyClockStatus::from_leap_status(leap_status) {
        ChronyClockStatus::Synchronized => {
            if since_update_nsec > (timeout_sec as u128) * 1_000_000_000 {
                ChronyClockStatus::FreeRunning
            } else {
                ChronyClockStatus::Synchronized
            }
        },
        status => status,
    }
}

/// The PHC error bound, as read for one tracking record.
#[derive(Debug, Clone, Copy, PartialEq, Eq, Structural)]
pub enum PhcReading {
    /// No PHC is configured, or chronyd does not track it: the PHC term is 0.
    NotApplicable,
    /// The PHC error bound could not be read or parsed.
    Failed,
    /// The PHC error bound, in nanoseconds.
    Read(i64),
}

/// Why no snapshot could be derived from a tracking record.
#[derive(Debug, Clone, Copy, PartialEq, Eq, Structural)]
pub enum SnapshotError {
    /// The PHC error bound could not be retrieved.
    PhcErrorBoundUnavailable,
    /// The time of chronyd's last update lies in the future.
    ClockStatusUnavailable,
    /// The bound on clock error does not fit in 64 bits.
    ErrorBoundOverflow,
}

/// What deriving a snapshot at `as_of` from a tracking record and a PHC reading gives.
pub open spec fn snapshot_outcome(tracking: TrackingSummary, phc: PhcReading, as_of: Timespec) -> Result<
    ClockStatusSnapshot,
    SnapshotError,
> {
    let phc_nsec: int = match phc {
        PhcReading::Read(v) => v as int,
        _ => 0,
    };
    if phc is Failed {
        Err(SnapshotError::PhcErrorBoundUnavailable)
    } else if !(i64::MIN <= tracking.error_bound_nsec + phc_nsec <= i64::MAX) {
        Err(SnapshotError::ErrorBoundOverflow)
    } else if tracking.since_update_nsec is None {
        Err(SnapshotError::ClockStatusUnavailable)
    } else {
        Ok(
            ClockStatusSnapshot {
                error_bound_nsec: (tracking.error_bound_nsec + phc_nsec) as i64,
                chrony_clock_status: chrony_status_of(
                    tracking.leap_status,
                    tracking.since_update_nsec->Some_0,
                    tracking.empty_register_timeout_sec,
                ),
                as_of,
            },
        )
    }
}

/// Derive the snapshot of clock status at the monotonic instant `as_of`: the bound is the
/// tracking bound plus the PHC term, the status comes from the leap status and the age of the
/// last update.
pub fn build_clock_status_snapshot(tracking: &TrackingSummary, phc: PhcReading, as_of: Timespec) -> (r:
    Result<ClockStatusSnapshot, SnapshotError>)
    ensures
        r == snapshot_outcome(*tracking, phc, as_of),
{
    let phc_nsec: i64 = match phc {
        PhcReading::Read(v) => v,
        PhcReading::NotApplicable => 0,
        PhcReading::Failed => return Err(SnapshotError::PhcErrorBoundUnavailable),
    };
    let error_bound_nsec = match tracking.error_bound_nsec.checked_add(phc_nsec) {
        Some(v) => v,
        None => return Err(SnapshotError::ErrorBoundOverflow),
    };
    let since = match tracking.since_update_nsec {
        Some(s) => s,
        None => return Err(SnapshotError::ClockStatusUnavailable),
    };
    let chrony_clock_status = get_chrony_clock_status(
        tracking.leap_status,
        since,
        tracking.empty_register_timeout_sec,
    );
    Ok(ClockStatusSnapshot { error_bound_nsec, chrony_clock_status, as_of })
}

/// The phase of a chronyd reset: first its sources are reset, then a burst of samples is asked.
#[derive(Debug, Clone, Copy, PartialEq, Eq, Structural)]
pub enum ResetPhase {
    Reset,
    Burst,
}

/// What to do next in a chronyd reset.
#[derive(Debug, Clone, Copy, PartialEq, Eq)]
pub enum ResetAction {
    /// Send the burst request (the reset succeeded).
    SendBurst,
    /// Wait this many milliseconds, then send the same request again.
    RetryAfterMs(u64),
    /// The reset is over: it succeeded, or failed in the given phase.
    Done(Result<(), ResetPhase>),
}

/// Milliseconds between two attempts at resetting chronyd's sources.
pub const RESET_RETRY_DELAY_MS: u64 = 5;

/// Milliseconds between two attempts at a burst.
pub const BURST_RETRY_DELAY_MS: u64 = 100;

/// Decide what follows attempt `attempt` (counted from 0) of a phase, given whether it
/// succeeded: each phase is tried up to `num_retries + 1` times, the burst only after a
/// successful reset.
pub fn next_reset_action(phase: ResetPhase, attempt: usize, num_retries: usize, ok: bool) -> (r:
    ResetAction)
    ensures
        ok && phase is Reset ==> r == ResetAction::SendBurst,
        ok && phase is Burst ==> r == ResetAction::Done(Ok(())),
        !ok && attempt < num_retries ==> r == ResetAction::RetryAfterMs(
            if phase is Reset {
                RESET_RETRY_DELAY_MS
            } else {
                BURST_RETRY_DELAY_MS
            },
        ),
        !ok && attempt >= num_retries ==> r == ResetAction::Done(Err(phase)),
{
    if ok {
        match phase {
            ResetPhase::Reset => ResetAction::SendBurst,
            ResetPhase::Burst => ResetAction::Done(Ok(())),
        }
    } else if attempt < num_retries {
        match phase {
            ResetPhase::Reset => ResetAction::RetryAfterMs(RESET_RETRY_DELAY_MS),
            ResetPhase::Burst => ResetAction::RetryAfterMs(BURST_RETRY_DELAY_MS),
        }
    } else {
        ResetAction::Done(Err(phase))
    }
}

/// The configured PHC: the reference id chronyd reports for it, and its sysfs error bound file.
#[derive(Debug, Clone, PartialEq, Eq, Hash)]
pub struct PhcInfo {
    pub refid: u32,
    pub sysfs_error_bound_path: String,
}

/// A PHC whose error bound is exposed through a sysfs file.
#[derive(Debug, Clone, PartialEq, Eq)]
pub struct PhcWithSysfsErrorBound {
    sysfs_phc_error_bound_path: String,
    phc_ref_id: u32,
}

impl PhcWithSysfsErrorBound {
    /// The reference id chronyd reports when it tracks this PHC.
    pub closed spec fn ref_id(&self) -> u32 {
        self.phc_ref_id
    }

    /// The sysfs file holding the error bound.
    pub closed spec fn path(&self) -> Seq<char> {
        self.sysfs_phc_error_bound_path@
    }

    pub fn new(phc_error_bound_path: String, phc_ref_id: u32) -> (r: PhcWithSysfsErrorBound)
        ensures
            r.ref_id() == phc_ref_id,
            r.path() == phc_error_bound_path@,
    {
        PhcWithSysfsErrorBound { sysfs_phc_error_bound_path: phc_error_bound_path, phc_ref_id }
    }

    /// The reference id chronyd reports when it tracks this PHC.
    pub fn get_phc_ref_id(&self) -> (r: u32)
        ensures
            r == self.ref_id(),
    {
        self.phc_ref_id
    }

    /// The sysfs file holding the error bound.
    pub fn sysfs_phc_error_bound_path(&self) -> (r: &String)
        ensures
            r@ == self.path(),
    {
        &self.sysfs_phc_error_bound_path
    }

    /// Whether the PHC term applies to a tracking record: only when chronyd tracks this PHC.
    pub fn applies_to(&self, tracking_ref_id: u32) -> (r: bool)
        ensures
            r == (tracking_ref_id == self.ref_id()),
    {
        self.phc_ref_id == tracking_ref_id
    }
}

/// The value of a reference id: its bytes read as a big-endian integer.
pub open spec fn refid_value(b: Seq<u8>) -> nat
    decreases b.len(),
{
    if b.len() == 0 {
        0
    } else {
        refid_value(b.drop_last()) * 256 + b.last() as nat
    }
}

/// Whether a string is a valid reference id: at most 4 ASCII characters.
pub open spec fn is_valid_refid(b: Seq<u8>) -> bool {
    b.len() <= 4 && forall|i: int| 0 <= i < b.len() ==> #[trigger] b[i] < 128
}

proof fn lemma_refid_value_bound(b: Seq<u8>)
    ensures
        refid_value(b) < pow256(b.len()),
    decreases b.len(),
{
    if b.len() > 0 {
        lemma_refid_value_bound(b.drop_last());
    }
}

/// `256` to the power `n`.
pub open spec fn pow256(n: nat) -> nat
    decreases n,
{
    if n == 0 {
        1
    } else {
        256 * pow256((n - 1) as nat)
    }
}

/// Convert a PHC reference id of at most 4 ASCII characters into the big-endian integer chronyd
/// reports (e.g. "PHC0" is 0x50484330).
pub fn refid_to_u32(ref_id: &str) -> (r: Result<u32, String>)
    ensures
        r is Ok <==> is_valid_refid(ref_id.spec_bytes()),
        r is Ok ==> r->Ok_0 as nat == refid_value(ref_id.spec_bytes()),
        r is Err ==> r->Err_0@
            == "The PHC reference ID supplied was not a 4 character ASCII string."@,
{
    let bytes = ref_id.as_bytes();
    if bytes.len() > 4 {
        return Err("The PHC reference ID supplied was not a 4 character ASCII string.".to_owned());
    }
    let mut acc: u32 = 0;
    let mut i: usize = 0;
    while i < bytes.len()
        invariant
            bytes@ == ref_id.spec_bytes(),
            bytes@.len() <= 4,
            0 <= i <= bytes@.len(),
            acc as nat == refid_value(bytes@.subrange(0, i as int)),
            forall|j: int| 0 <= j < i ==> #[trigger] bytes@[j] < 128,
        decreases bytes@.len() - i,
    {
        if bytes[i] >= 128 {
            return Err(
                "The PHC reference ID supplied was not a 4 character ASCII string.".to_owned(),
            );
        }
        proof {
            let s = bytes@.subrange(0, i as int);
            lemma_refid_value_bound(s);
            assert(pow256(0) == 1);
            assert(pow256(1) == 256);
            assert(pow256(2) == 65536);
            assert(pow256(3) == 16777216);
            assert(acc < 16777216);
            assert(bytes@.subrange(0, i + 1).drop_last() == s);
        }
        acc = acc * 256 + bytes[i] as u32;
        i = i + 1;
    }
    assert(bytes@.subrange(0, bytes@.len() as int) == bytes@);
    Ok(acc)
}

} // verus!
