//! Finite state machine driving the clock status from the chrony status alone.
//!
//! Every state moves to the state that the new chrony status names.

use vstd::prelude::*;

use crate::status::{ChronyClockStatus, ClockStatus};

verus! {

/// A transition of the machine, from one state to the next.
pub trait FSMTransition: Sized {
    /// The state reached from `self` on a chrony status.
    spec fn next_state(&self, chrony: ChronyClockStatus) -> Self;

    /// Transition to the state reached on a chrony status.
    fn transition(&self, chrony: ChronyClockStatus) -> (r: Self)
        ensures
            r == self.next_state(chrony),
    ;
}

/// A state of the machine.
pub trait FSMState: FSMTransition {
    /// The clock status this state publishes.
    spec fn status(&self) -> ClockStatus;

    /// Apply a new chrony clock status.
    fn apply_chrony(&self, update: ChronyClockStatus) -> (r: Self)
        ensures
            r == self.next_state(update),
    ;

    /// The clock status to write to the shared memory segment.
    fn value(&self) -> (r: ClockStatus)
        ensures
            r == self.status(),
    ;
}

/// The state in which the clock status is unknown.
#[derive(Debug, Clone, Copy)]
pub struct Unknown;

/// The state in which the clock is synchronized.
#[derive(Debug, Clone, Copy)]
pub struct Synchronized;

/// The state in which the clock is free running.
#[derive(Debug, Clone, Copy)]
pub struct FreeRunning;

/// The clock status a chrony status names.
pub open spec fn status_of_chrony(chrony: ChronyClockStatus) -> ClockStatus {
    match chrony {
        ChronyClockStatus::Unknown => ClockStatus::Unknown,
        ChronyClockStatus::Synchronized => ClockStatus::Synchronized,
        ChronyClockStatus::FreeRunning => ClockStatus::FreeRunning,
    }
}

/// The state the machine is in.
#[derive(Debug, Clone, Copy, PartialEq, Eq, Structural)]
pub struct ShmClockState {
    /// The value of the state.
    pub clock_status: ClockStatus,
}

impl Unknown {
    /// The `Unknown` state.
    pub fn state(&self) -> (r: ShmClockState)
        ensures
            r.status() == ClockStatus::Unknown,
    {
        ShmClockState { clock_status: ClockStatus::Unknown }
    }
}

impl Synchronized {
    /// The `Synchronized` state.
    pub fn state(&self) -> (r: ShmClockState)
        ensures
            r.status() == ClockStatus::Synchronized,
    {
        ShmClockState { clock_status: ClockStatus::Synchronized }
    }
}

impl FreeRunning {
    /// The `FreeRunning` state.
    pub fn state(&self) -> (r: ShmClockState)
        ensures
            r.status() == ClockStatus::FreeRunning,
    {
        ShmClockState { clock_status: ClockStatus::FreeRunning }
    }
}

impl Default for ShmClockState {
    /// A new machine starts in the `Unknown` state.
    fn default() -> (r: ShmClockState)
        ensures
            r.status() == ClockStatus::Unknown,
    {
        ShmClockState { clock_status: ClockStatus::Unknown }
    }
}

impl FSMTransition for ShmClockState {
    open spec fn next_state(&self, chrony: ChronyClockStatus) -> Self {
        ShmClockState { clock_status: status_of_chrony(chrony) }
    }

    fn transition(&self, chrony: ChronyClockStatus) -> (r: Self) {
        let clock_status = match chrony {
            ChronyClockStatus::Unknown => ClockStatus::Unknown,
            ChronyClockStatus::Synchronized => ClockStatus::Synchronized,
            ChronyClockStatus::FreeRunning => ClockStatus::FreeRunning,
        };
        ShmClockState { clock_status }
    }
}

impl FSMState for ShmClockState {
    open spec fn status(&self) -> ClockStatus {
        self.clock_status
    }

    fn apply_chrony(&self, update: ChronyClockStatus) -> (r: Self) {
        self.transition(update)
    }

    fn value(&self) -> (r: ClockStatus) {
        self.clock_status
    }
}

} // verus!
