//! Finite state machine driving the clock status written to the shared memory segment.
//!
//! Each state records the last chrony status and the last clock disruption state that led to
//! it, and the clock status it publishes. Transitions are triggered by applying a new chrony
//! status or a new disruption state to the current state.

use vstd::prelude::*;

use crate::status::{ChronyClockStatus, ClockDisruptionState, ClockStatus};

verus! {

/// A transition of the state machine, from one state to the next.
pub trait FSMTransition: Sized {
    /// The state reached from `self` on the pair of inputs.
    spec fn next_state(&self, chrony: ChronyClockStatus, disruption: ClockDisruptionState) -> Self;

    /// Transition to the state reached on the pair of inputs.
    fn transition(&self, chrony: ChronyClockStatus, disruption: ClockDisruptionState) -> (r: Self)
        ensures
            r == self.next_state(chrony, disruption),
    ;
}

/// A state of the machine that drives the clock status in the shared memory segment.
pub trait FSMState: FSMTransition {
    /// The clock status this state publishes.
    spec fn status(&self) -> ClockStatus;

    /// The chrony status that led to this state.
    spec fn last_chrony(&self) -> ChronyClockStatus;

    /// The disruption state that led to this state.
    spec fn last_disruption(&self) -> ClockDisruptionState;

    /// Apply a new chrony clock status, keeping the last disruption state.
    fn apply_chrony(&self, update: ChronyClockStatus) -> (r: Self)
        ensures
            r == self.next_state(update, self.last_disruption()),
    ;

    /// Apply a new clock disruption state, keeping the last chrony status.
    fn apply_disruption(&self, update: ClockDisruptionState) -> (r: Self)
        ensures
            r == self.next_state(self.last_chrony(), update),
    ;

    /// The clock status to write to the shared memory segment.
    fn value(&self) -> (r: ClockStatus)
        ensures
            r == self.status(),
    ;
}

/// Marker of a state of the machine, by the clock status it publishes.
pub trait FSMStateMarker {
    /// The clock status of the marked state.
    spec fn marked_status() -> ClockStatus;

    /// The clock status of the marked state.
    fn clock_status(&self) -> (r: ClockStatus)
        ensures
            r == Self::marked_status(),
    ;
}

/// The state in which the clock status is unknown.
#[derive(Debug, Clone, Copy)]
pub struct Unknown;

/// The state in which the clock is synchronized.
#[derive(Debug, Clone, Copy)]
pub struct Synchronized;

/// The state in which the clock is free running.
#[derive(Debug, Clone, Copy)]
pub struct FreeRunning;

/// The state in which the clock is disrupted.
#[derive(Debug, Clone, Copy)]
pub struct Disrupted;

impl FSMStateMarker for Unknown {
    open spec fn marked_status() -> ClockStatus {
        ClockStatus::Unknown
    }

    fn clock_status(&self) -> (r: ClockStatus) {
        ClockStatus::Unknown
    }
}

impl FSMStateMarker for Synchronized {
    open spec fn marked_status() -> ClockStatus {
        ClockStatus::Synchronized
    }

    fn clock_status(&self) -> (r: ClockStatus) {
        ClockStatus::Synchronized
    }
}

impl FSMStateMarker for FreeRunning {
    open spec fn marked_status() -> ClockStatus {
        ClockStatus::FreeRunning
    }

    fn clock_status(&self) -> (r: ClockStatus) {
        ClockStatus::FreeRunning
    }
}

impl FSMStateMarker for Disrupted {
    open spec fn marked_status() -> ClockStatus {
        ClockStatus::Disrupted
    }

    fn clock_status(&self) -> (r: ClockStatus) {
        ClockStatus::Disrupted
    }
}

/// The clock status reached from `current` on the pair of inputs (first matching rule wins):
/// a disruption always leads to `Disrupted`; leaving `Disrupted` goes through `Unknown`; a
/// synchronized and reliable clock is `Synchronized`; a free running and reliable clock is
/// `FreeRunning`, unless its status was `Unknown`; anything else is `Unknown`.
pub open spec fn next_clock_status(
    current: ClockStatus,
    chrony: ChronyClockStatus,
    disruption: ClockDisruptionState,
) -> ClockStatus {
    if disruption == ClockDisruptionState::Disrupted {
        ClockStatus::Disrupted
    } else if current == ClockStatus::Disrupted {
        ClockStatus::Unknown
    } else if chrony == ChronyClockStatus::Synchronized && disruption
        == ClockDisruptionState::Reliable {
        ClockStatus::Synchronized
    } else if chrony == ChronyClockStatus::FreeRunning && disruption
        == ClockDisruptionState::Reliable {
        if current == ClockStatus::Unknown {
            ClockStatus::Unknown
        } else {
            ClockStatus::FreeRunning
        }
    } else {
        ClockStatus::Unknown
    }
}

/// The state the disruption-aware machine is in.
#[derive(Debug, Clone, Copy, PartialEq, Eq, Structural)]
pub struct ShmClockState {
    /// The status of the clock retrieved from chronyd that led to entering this state.
    pub chrony: ChronyClockStatus,
    /// The clock disruption event that led to entering this state.
    pub disruption: ClockDisruptionState,
    /// The value of the state.
    pub clock_status: ClockStatus,
}

impl ShmClockState {
    /// The state marked by `marker`, entered on the given inputs.
    pub fn new<S: FSMStateMarker>(
        marker: S,
        chrony: ChronyClockStatus,
        disruption: ClockDisruptionState,
    ) -> (r: ShmClockState)
        ensures
            r.status() == S::marked_status(),
            r.last_chrony() == chrony,
            r.last_disruption() == disruption,
    {
        ShmClockState { chrony, disruption, clock_status: marker.clock_status() }
    }

    /// A new machine: it starts in the `Unknown` state, with no assumption on the clock.
    /// The state a new machine starts in.
    pub open spec fn initial_spec() -> ShmClockState {
        ShmClockState {
            chrony: ChronyClockStatus::Unknown,
            disruption: ClockDisruptionState::Unknown,
            clock_status: ClockStatus::Unknown,
        }
    }

    pub fn initial() -> (r: ShmClockState)
        ensures
            r == ShmClockState::initial_spec(),
            r.status() == ClockStatus::Unknown,
            r.last_chrony() == ChronyClockStatus::Unknown,
            r.last_disruption() == ClockDisruptionState::Unknown,
    {
        ShmClockState {
            chrony: ChronyClockStatus::Unknown,
            disruption: ClockDisruptionState::Unknown,
            clock_status: ClockStatus::Unknown,
        }
    }
}

impl Default for ShmClockState {
    fn default() -> (r: ShmClockState)
        ensures
            r.status() == ClockStatus::Unknown,
            r.last_chrony() == ChronyClockStatus::Unknown,
            r.last_disruption() == ClockDisruptionState::Unknown,
    {
        ShmClockState::initial()
    }
}

impl FSMTransition for ShmClockState {
    open spec fn next_state(&self, chrony: ChronyClockStatus, disruption: ClockDisruptionState) -> Self {
        ShmClockState {
            chrony,
            disruption,
            clock_status: next_clock_status(self.clock_status, chrony, disruption),
        }
    }

    fn transition(&self, chrony: ChronyClockStatus, disruption: ClockDisruptionState) -> (r: Self) {
        let clock_status = match (chrony, disruption) {
            (_, ClockDisruptionState::Disrupted) => ClockStatus::Disrupted,
            _ => match self.clock_status {
                ClockStatus::Disrupted => ClockStatus::Unknown,
                current => match (chrony, disruption) {
                    (ChronyClockStatus::Synchronized, ClockDisruptionState::Reliable) => {
                        ClockStatus::Synchronized
                    },
                    (ChronyClockStatus::FreeRunning, ClockDisruptionState::Reliable) => {
                        match current {
                            ClockStatus::Unknown => ClockStatus::Unknown,
                            _ => ClockStatus::FreeRunning,
                        }
                    },
                    _ => ClockStatus::Unknown,
                },
            },
        };
        ShmClockState { chrony, disruption, clock_status }
    }
}

impl FSMState for ShmClockState {
    open spec fn status(&self) -> ClockStatus {
        self.clock_status
    }

    open spec fn last_chrony(&self) -> ChronyClockStatus {
        self.chrony
    }

    open spec fn last_disruption(&self) -> ClockDisruptionState {
        self.disruption
    }

    fn apply_chrony(&self, update: ChronyClockStatus) -> (r: Self) {
        self.transition(update, self.disruption)
    }

    fn apply_disruption(&self, update: ClockDisruptionState) -> (r: Self) {
        self.transition(self.chrony, update)
    }

    fn value(&self) -> (r: ClockStatus) {
        self.clock_status
    }
}

} // verus!
