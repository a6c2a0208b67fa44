//! Decisions of the daemon's control loop.
//!
//! The loop itself (sleeping, querying chronyd, reading the VMClock segment, resetting chronyd
//! and writing the segment) runs outside; each event it observes is handed to a
//! `ClockBoundRunner`, which updates the clock-status state machine and the bound to publish.

use vstd::prelude::*;

use crate::ceb::{ClockErrorBound, Timespec};
use crate::clock_state_fsm::{FSMState, FSMTransition, ShmClockState, next_clock_status};
use crate::clock_state_fsm_no_disruption::{
    ShmClockStateNoDisruption, next_clock_status_no_disruption,
};
use crate::status::{ChronyClockStatus, ClockDisruptionState, ClockStatus};

verus! {

/// Window after the last good snapshot during which a chronyd outage is deemed a restart.
pub const CHRONY_RESTART_GRACE_PERIOD_NSEC: i128 = 5_000_000_000;

/// How long after `as_of` a published record stays trustworthy, in seconds.
pub const VOID_AFTER_SEC: i64 = 1000;

/// Attempts at resetting chronyd, per recovery round, after the first.
pub const CHRONY_RESET_NUM_RETRIES: usize = 29;

/// A snapshot of clock synchronization information at a CLOCK_MONOTONIC instant.
#[derive(Debug, Clone, Copy, PartialEq, Eq, Structural)]
pub struct ClockStatusSnapshot {
    /// The bound on clock error, in nanoseconds.
    pub error_bound_nsec: i64,
    /// The chrony status of the clock.
    pub chrony_clock_status: ChronyClockStatus,
    /// The monotonic instant the snapshot was taken at.
    pub as_of: Timespec,
}

/// The clock-status state machine in use: disruption-aware or not.
#[derive(Debug, Clone, Copy, PartialEq, Eq, Structural)]
pub enum ClockStateMachine {
    WithDisruption(ShmClockState),
    NoDisruption(ShmClockStateNoDisruption),
}

impl ClockStateMachine {
    /// The clock status the machine publishes.
    pub open spec fn status(&self) -> ClockStatus {
        match self {
            ClockStateMachine::WithDisruption(s) => s.clock_status,
            ClockStateMachine::NoDisruption(s) => s.clock_status,
        }
    }

    /// The machine reached on a new chrony status, keeping the last disruption state.
    pub open spec fn after_chrony(&self, update: ChronyClockStatus) -> ClockStateMachine {
        match self {
            ClockStateMachine::WithDisruption(s) => ClockStateMachine::WithDisruption(
                s.next_state(update, s.disruption),
            ),
            ClockStateMachine::NoDisruption(s) => ClockStateMachine::NoDisruption(
                s.next_state(update, s.disruption),
            ),
        }
    }

    /// The machine reached on a new disruption state, keeping the last chrony status.
    pub open spec fn after_disruption(&self, update: ClockDisruptionState) -> ClockStateMachine {
        match self {
            ClockStateMachine::WithDisruption(s) => ClockStateMachine::WithDisruption(
                s.next_state(s.chrony, update),
            ),
            ClockStateMachine::NoDisruption(s) => ClockStateMachine::NoDisruption(
                s.next_state(s.chrony, update),
            ),
        }
    }

    /// Apply a new chrony status.
    pub fn apply_chrony(&self, update: ChronyClockStatus) -> (r: ClockStateMachine)
        ensures
            r == self.after_chrony(update),
    {
        match self {
            ClockStateMachine::WithDisruption(s) => ClockStateMachine::WithDisruption(
                s.apply_chrony(update),
            ),
            ClockStateMachine::NoDisruption(s) => ClockStateMachine::NoDisruption(
                s.apply_chrony(update),
            ),
        }
    }

    /// Apply a new disruption state.
    pub fn apply_disruption(&self, update: ClockDisruptionState) -> (r: ClockStateMachine)
        ensures
            r == self.after_disruption(update),
    {
        match self {
            ClockStateMachine::WithDisruption(s) => ClockStateMachine::WithDisruption(
                s.apply_disruption(update),
            ),
            ClockStateMachine::NoDisruption(s) => ClockStateMachine::NoDisruption(
                s.apply_disruption(update),
            ),
        }
    }

    /// The clock status to publish.
    pub fn value(&self) -> (r: ClockStatus)
        ensures
            r == self.status(),
    {
        match self {
            ClockStateMachine::WithDisruption(s) => s.value(),
            ClockStateMachine::NoDisruption(s) => s.value(),
        }
    }
}

/// The flags through which the SIGUSR1 and SIGUSR2 test hooks force a disruption: `state` is
/// whether a forced disruption is in effect, `pending` whether the runner has yet to handle a
/// change of it.
#[derive(Debug, Clone, Copy, PartialEq, Eq, Structural)]
pub struct ForcedDisruption {
    pub pending: bool,
    pub state: bool,
}

/// SIGUSR1: start a forced disruption, unless one is in effect already.
pub fn on_sigusr1(flags: ForcedDisruption) -> (r: ForcedDisruption)
    ensures
        !flags.state ==> r == (ForcedDisruption { pending: true, state: true }),
        flags.state ==> r == flags,
{
    if !flags.state {
        ForcedDisruption { pending: true, state: true }
    } else {
        flags
    }
}

/// SIGUSR1 with disruption support disabled: nothing changes.
pub fn on_sigusr1_ignored(flags: ForcedDisruption) -> (r: ForcedDisruption)
    ensures
        r == flags,
{
    flags
}

/// SIGUSR2: end a forced disruption, if one is in effect.
pub fn on_sigusr2(flags: ForcedDisruption) -> (r: ForcedDisruption)
    ensures
        flags.state ==> r == (ForcedDisruption { pending: true, state: false }),
        !flags.state ==> r == flags,
{
    if flags.state {
        ForcedDisruption { pending: true, state: false }
    } else {
        flags
    }
}

/// SIGUSR2 with disruption support disabled: nothing changes.
pub fn on_sigusr2_ignored(flags: ForcedDisruption) -> (r: ForcedDisruption)
    ensures
        r == flags,
{
    flags
}

/// The instant `VOID_AFTER_SEC` seconds after `as_of` (the latest representable one if that
/// overflows).
pub open spec fn void_after_of(as_of: Timespec) -> Timespec {
    if as_of.tv_sec > i64::MAX - VOID_AFTER_SEC {
        Timespec { tv_sec: i64::MAX, tv_nsec: as_of.tv_nsec }
    } else {
        Timespec { tv_sec: (as_of.tv_sec + VOID_AFTER_SEC) as i64, tv_nsec: as_of.tv_nsec }
    }
}

/// Whether `now` lies less than the grace period after `last_good`.
pub open spec fn within_grace_period(last_good: Timespec, now: Timespec) -> bool {
    now.nanos() - last_good.nanos() < CHRONY_RESTART_GRACE_PERIOD_NSEC
}

/// State of the daemon's control loop.
#[derive(Debug, Clone, Copy, PartialEq, Eq, Structural)]
pub struct ClockBoundRunner {
    /// The clock-status state machine.
    pub shm_clock_state: ClockStateMachine,
    /// The last bound on clock error obtained while synchronized.
    pub bound_nsec: i64,
    /// The monotonic instant `bound_nsec` was obtained at.
    pub as_of: Timespec,
    /// The last VMClock disruption marker observed.
    pub disruption_marker: u64,
    /// Maximum drift rate of the clock, in parts per billion.
    pub max_drift_ppb: u32,
    /// Whether a VMClock segment is consulted for disruption events.
    pub clock_disruption_support_enabled: bool,
}

impl ClockBoundRunner {
    /// A runner that has seen nothing yet: the state machine (disruption-aware or not, as
    /// configured) starts `Unknown`, with a zero bound at instant zero.
    pub fn new(clock_disruption_support_enabled: bool, max_drift_ppb: u32) -> (r: ClockBoundRunner)
        ensures
            clock_disruption_support_enabled ==> r.shm_clock_state
                == ClockStateMachine::WithDisruption(ShmClockState::initial_spec()),
            !clock_disruption_support_enabled ==> r.shm_clock_state
                == ClockStateMachine::NoDisruption(ShmClockStateNoDisruption::initial_spec()),
            r.bound_nsec == 0,
            r.as_of == (Timespec { tv_sec: 0, tv_nsec: 0 }),
            r.disruption_marker == 0,
            r.max_drift_ppb == max_drift_ppb,
            r.clock_disruption_support_enabled == clock_disruption_support_enabled,
    {
        let shm_clock_state = if clock_disruption_support_enabled {
            ClockStateMachine::WithDisruption(ShmClockState::initial())
        } else {
            ClockStateMachine::NoDisruption(ShmClockStateNoDisruption::initial())
        };
        ClockBoundRunner {
            shm_clock_state,
            bound_nsec: 0,
            as_of: Timespec { tv_sec: 0, tv_nsec: 0 },
            disruption_marker: 0,
            max_drift_ppb,
            clock_disruption_support_enabled,
        }
    }

    /// The record to publish: the last good bound and its instant, valid for `VOID_AFTER_SEC`
    /// seconds, with the current status and disruption marker.
    pub fn clock_error_bound(&self) -> (r: ClockErrorBound)
        ensures
            r.as_of == self.as_of,
            r.void_after == void_after_of(self.as_of),
            r.bound_nsec == self.bound_nsec,
            r.disruption_marker == self.disruption_marker,
            r.max_drift_ppb == self.max_drift_ppb,
            r.clock_status == self.shm_clock_state.status(),
            r.clock_disruption_support_enabled == self.clock_disruption_support_enabled,
    {
        let void_after = if self.as_of.tv_sec > i64::MAX - VOID_AFTER_SEC {
            Timespec { tv_sec: i64::MAX, tv_nsec: self.as_of.tv_nsec }
        } else {
            Timespec { tv_sec: self.as_of.tv_sec + VOID_AFTER_SEC, tv_nsec: self.as_of.tv_nsec }
        };
        ClockErrorBound::new(
            self.as_of,
            void_after,
            self.bound_nsec,
            self.disruption_marker,
            self.max_drift_ppb,
            self.shm_clock_state.value(),
            self.clock_disruption_support_enabled,
        )
    }

    /// A forced disruption was requested: apply `Disrupted`.
    pub fn handle_forced_disruption_state(&mut self)
        ensures
            final(self).shm_clock_state == old(self).shm_clock_state.after_disruption(
                ClockDisruptionState::Disrupted,
            ),
            final(self).bound_nsec == old(self).bound_nsec,
            final(self).as_of == old(self).as_of,
            final(self).disruption_marker == old(self).disruption_marker,
            final(self).max_drift_ppb == old(self).max_drift_ppb,
            final(self).clock_disruption_support_enabled == old(self).clock_disruption_support_enabled,
    {
        self.shm_clock_state = self.shm_clock_state.apply_disruption(
            ClockDisruptionState::Disrupted,
        );
    }

    /// A VMClock snapshot carried `marker`: a marker that changed means a disruption, which is
    /// applied and recorded; the same marker means the clock is reliable.
    pub fn handle_vmclock_disruption_marker(&mut self, marker: u64)
        ensures
            marker != old(self).disruption_marker ==> final(self).shm_clock_state
                == old(self).shm_clock_state.after_disruption(ClockDisruptionState::Disrupted),
            marker == old(self).disruption_marker ==> final(self).shm_clock_state
                == old(self).shm_clock_state.after_disruption(ClockDisruptionState::Reliable),
            final(self).disruption_marker == marker,
            final(self).bound_nsec == old(self).bound_nsec,
            final(self).as_of == old(self).as_of,
            final(self).max_drift_ppb == old(self).max_drift_ppb,
            final(self).clock_disruption_support_enabled == old(self).clock_disruption_support_enabled,
    {
        if self.disruption_marker != marker {
            self.shm_clock_state = self.shm_clock_state.apply_disruption(
                ClockDisruptionState::Disrupted,
            );
            self.disruption_marker = marker;
        } else {
            self.shm_clock_state = self.shm_clock_state.apply_disruption(
                ClockDisruptionState::Reliable,
            );
        }
    }

    /// Whether the clock is disrupted, in which case chronyd must be reset.
    pub fn is_disrupted(&self) -> (r: bool)
        ensures
            r == (self.shm_clock_state.status() == ClockStatus::Disrupted),
    {
        match self.shm_clock_state.value() {
            ClockStatus::Disrupted => true,
            _ => false,
        }
    }

    /// chronyd was reset after a disruption: the disruption state is unknown again.
    pub fn handle_chronyd_reset(&mut self)
        ensures
            final(self).shm_clock_state == old(self).shm_clock_state.after_disruption(
                ClockDisruptionState::Unknown,
            ),
            final(self).bound_nsec == old(self).bound_nsec,
            final(self).as_of == old(self).as_of,
            final(self).disruption_marker == old(self).disruption_marker,
            final(self).max_drift_ppb == old(self).max_drift_ppb,
            final(self).clock_disruption_support_enabled == old(self).clock_disruption_support_enabled,
    {
        self.shm_clock_state = self.shm_clock_state.apply_disruption(ClockDisruptionState::Unknown);
    }

    /// A snapshot was obtained: apply its chrony status, and keep its bound and instant only if
    /// the clock is synchronized.
    pub fn apply_clock_status_snapshot(&mut self, snapshot: &ClockStatusSnapshot)
        ensures
            final(self).shm_clock_state == old(self).shm_clock_state.after_chrony(
                snapshot.chrony_clock_status,
            ),
            snapshot.chrony_clock_status == ChronyClockStatus::Synchronized ==> final(self).bound_nsec
                == snapshot.error_bound_nsec && final(self).as_of == snapshot.as_of,
            snapshot.chrony_clock_status != ChronyClockStatus::Synchronized ==> final(self).bound_nsec
                == old(self).bound_nsec && final(self).as_of == old(self).as_of,
            final(self).disruption_marker == old(self).disruption_marker,
            final(self).max_drift_ppb == old(self).max_drift_ppb,
            final(self).clock_disruption_support_enabled == old(self).clock_disruption_support_enabled,
    {
        self.shm_clock_state = self.shm_clock_state.apply_chrony(snapshot.chrony_clock_status);
        match snapshot.chrony_clock_status {
            ChronyClockStatus::Synchronized => {
                self.bound_nsec = snapshot.error_bound_nsec;
                self.as_of = snapshot.as_of;
            },
            _ => {},
        }
    }

    /// No snapshot could be obtained at the monotonic instant `as_of`: within the grace period
    /// after the last good snapshot the clock is free running, beyond it the status is unknown.
    pub fn handle_missing_clock_status_snapshot(&mut self, as_of: Timespec)
        ensures
            within_grace_period(old(self).as_of, as_of) ==> final(self).shm_clock_state == old(self).shm_clock_state.after_chrony(ChronyClockStatus::FreeRunning),
            !within_grace_period(old(self).as_of, as_of) ==> final(self).shm_clock_state == old(self).shm_clock_state.after_chrony(ChronyClockStatus::Unknown),
            final(self).bound_nsec == old(self).bound_nsec,
            final(self).as_of == old(self).as_of,
            final(self).disruption_marker == old(self).disruption_marker,
            final(self).max_drift_ppb == old(self).max_drift_ppb,
            final(self).clock_disruption_support_enabled == old(self).clock_disruption_support_enabled,
    {
        if as_of.as_nanos() - self.as_of.as_nanos() < CHRONY_RESTART_GRACE_PERIOD_NSEC {
            self.shm_clock_state = self.shm_clock_state.apply_chrony(ChronyClockStatus::FreeRunning);
        } else {
            self.shm_clock_state = self.shm_clock_state.apply_chrony(ChronyClockStatus::Unknown);
        }
    }
}

} // verus!
