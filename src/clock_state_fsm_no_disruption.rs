//! Finite state machine driving the clock status when clock disruption support is disabled.
//!
//! The machine ignores the disruption input: the clock status follows the chrony status, except
//! that a free running clock whose status was `Unknown` stays `Unknown`.

use vstd::prelude::*;

use crate::clock_state_fsm::{FSMState, FSMStateMarker, FSMTransition};
use crate::status::{ChronyClockStatus, ClockDisruptionState, ClockStatus};

verus! {

/// The clock status reached from `current` on a new chrony status.
pub open spec fn next_clock_status_no_disruption(
    current: ClockStatus,
    chrony: ChronyClockStatus,
) -> ClockStatus {
    match chrony {
        ChronyClockStatus::Synchronized => ClockStatus::Synchronized,
        ChronyClockStatus::FreeRunning => {
            if current == ClockStatus::Unknown {
                ClockStatus::Unknown
            } else {
                ClockStatus::FreeRunning
            }
        },
        ChronyClockStatus::Unknown => ClockStatus::Unknown,
    }
}

/// The state the machine without disruption support is in.
#[derive(Debug, Clone, Copy, PartialEq, Eq, Structural)]
pub struct ShmClockStateNoDisruption {
    /// The status of the clock retrieved from chronyd that led to entering this state.
    pub chrony: ChronyClockStatus,
    /// The disruption state recorded with this state.
    pub disruption: ClockDisruptionState,
    /// The value of the state.
    pub clock_status: ClockStatus,
}

impl ShmClockStateNoDisruption {
    /// The state marked by `marker`, entered on the given inputs.
    pub fn new<S: FSMStateMarker>(
        marker: S,
        chrony: ChronyClockStatus,
        disruption: ClockDisruptionState,
    ) -> (r: ShmClockStateNoDisruption)
        ensures
            r.status() == S::marked_status(),
            r.last_chrony() == chrony,
            r.last_disruption() == disruption,
    {
        ShmClockStateNoDisruption { chrony, disruption, clock_status: marker.clock_status() }
    }

    /// A new machine: it starts in the `Unknown` state.
    /// The state a new machine starts in.
    pub open spec fn initial_spec() -> ShmClockStateNoDisruption {
        ShmClockStateNoDisruption {
            chrony: ChronyClockStatus::Unknown,
            disruption: ClockDisruptionState::Unknown,
            clock_status: ClockStatus::Unknown,
        }
    }

    pub fn initial() -> (r: ShmClockStateNoDisruption)
        ensures
            r == ShmClockStateNoDisruption::initial_spec(),
            r.status() == ClockStatus::Unknown,
            r.last_chrony() == ChronyClockStatus::Unknown,
            r.last_disruption() == ClockDisruptionState::Unknown,
    {
        ShmClockStateNoDisruption {
            chrony: ChronyClockStatus::Unknown,
            disruption: ClockDisruptionState::Unknown,
            clock_status: ClockStatus::Unknown,
        }
    }
}

impl Default for ShmClockStateNoDisruption {
    fn default() -> (r: ShmClockStateNoDisruption)
        ensures
            r.status() == ClockStatus::Unknown,
            r.last_chrony() == ChronyClockStatus::Unknown,
            r.last_disruption() == ClockDisruptionState::Unknown,
    {
        ShmClockStateNoDisruption::initial()
    }
}

impl FSMTransition for ShmClockStateNoDisruption {
    /// The disruption input is ignored; the state records the clock as reliable.
    open spec fn next_state(&self, chrony: ChronyClockStatus, disruption: ClockDisruptionState) -> Self {
        ShmClockStateNoDisruption {
            chrony,
            disruption: ClockDisruptionState::Reliable,
            clock_status: next_clock_status_no_disruption(self.clock_status, chrony),
        }
    }

    fn transition(&self, chrony: ChronyClockStatus, disruption: ClockDisruptionState) -> (r: Self) {
        let clock_status = match chrony {
            ChronyClockStatus::Synchronized => ClockStatus::Synchronized,
            ChronyClockStatus::FreeRunning => match self.clock_status {
                ClockStatus::Unknown => ClockStatus::Unknown,
                _ => ClockStatus::FreeRunning,
            },
            ChronyClockStatus::Unknown => ClockStatus::Unknown,
        };
        ShmClockStateNoDisruption {
            chrony,
            disruption: ClockDisruptionState::Reliable,
            clock_status,
        }
    }
}

impl FSMState for ShmClockStateNoDisruption {
    open spec fn status(&self) -> ClockStatus {
        self.clock_status
    }

    open spec fn last_chrony(&self) -> ChronyClockStatus {
        self.chrony
    }

    open spec fn last_disruption(&self) -> ClockDisruptionState {
        self.disruption
    }

    fn apply_chrony(&self, update: ChronyClockStatus) -> (r: Self) {
        self.transition(update, self.disruption)
    }

    fn apply_disruption(&self, update: ClockDisruptionState) -> (r: Self) {
        self.transition(self.chrony, update)
    }

    fn value(&self) -> (r: ClockStatus) {
        self.clock_status
    }
}

/// Without disruption support the published status is never `Disrupted`, whatever the inputs.
pub proof fn lemma_no_disruption_never_disrupted(
    state: ShmClockStateNoDisruption,
    chrony: ChronyClockStatus,
    disruption: ClockDisruptionState,
)
    requires
        state.clock_status != ClockStatus::Disrupted,
    ensures
        state.next_state(chrony, disruption).clock_status != ClockStatus::Disrupted,
        state.next_state(chrony, disruption) == state.next_state(chrony, ClockDisruptionState::Reliable),
{
}

} // verus!
