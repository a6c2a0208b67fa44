use clockbound::clock_state_fsm::{
    Disrupted, FSMState, FSMTransition, FreeRunning, ShmClockState, Synchronized, Unknown,
};
use clockbound::chrony_status_fsm::{
    self, FSMState as ChronyFSMState, ShmClockState as ChronyShmClockState,
};
use clockbound::status::{ChronyClockStatus, ClockDisruptionState, ClockStatus};

fn _helper_generate_chrony_status() -> Vec<ChronyClockStatus> {
    vec![
        ChronyClockStatus::Unknown,
        ChronyClockStatus::Synchronized,
        ChronyClockStatus::FreeRunning,
    ]
}

fn _helper_generate_disruption_status() -> Vec<ClockDisruptionState> {
    vec![
        ClockDisruptionState::Unknown,
        ClockDisruptionState::Reliable,
        ClockDisruptionState::Disrupted,
    ]
}

/// Assert that creating a FSM defaults to the Unknown state.
#[test]
fn clock_state_fsm_test_entry_point_to_fsm() {
    let state = ShmClockState::default();
    assert_eq!(state.value(), ClockStatus::Unknown);

    // The FSM driven by the chrony status alone.
    let state = ChronyShmClockState::default();
    assert_eq!(state.value(), ClockStatus::Unknown);
}

/// Assert the clock status value return by each state is correct.
#[test]
fn clock_state_fsm_test_state_and_value() {
    let state = ShmClockState::new(Unknown, ChronyClockStatus::Unknown, ClockDisruptionState::Unknown);
    assert_eq!(state.value(), ClockStatus::Unknown);

    let state = ShmClockState::new(Synchronized, ChronyClockStatus::Synchronized, ClockDisruptionState::Reliable);
    assert_eq!(state.value(), ClockStatus::Synchronized);

    let state = ShmClockState::new(FreeRunning, ChronyClockStatus::FreeRunning, ClockDisruptionState::Reliable);
    assert_eq!(state.value(), ClockStatus::FreeRunning);

    let state = ShmClockState::new(Disrupted, ChronyClockStatus::Synchronized, ClockDisruptionState::Disrupted);
    assert_eq!(state.value(), ClockStatus::Disrupted);

    // The FSM driven by the chrony status alone.
    let state = chrony_status_fsm::Unknown.state();
    assert_eq!(state.value(), ClockStatus::Unknown);

    let state = chrony_status_fsm::Synchronized.state();
    assert_eq!(state.value(), ClockStatus::Synchronized);

    let state = chrony_status_fsm::FreeRunning.state();
    assert_eq!(state.value(), ClockStatus::FreeRunning);
}

/// Assert that unknown input from Unknown leads to the unknown state.
#[test]
fn test_transition_with_unknown_from_unknown() {
    for status in _helper_generate_chrony_status() {
        let state = ShmClockState::new(Unknown, ChronyClockStatus::Unknown, ClockDisruptionState::Unknown);
        let state = state.transition(status, ClockDisruptionState::Unknown);
        assert_eq!(state.value(), ClockStatus::Unknown);
    }

    for status in _helper_generate_disruption_status() {
        let state = ShmClockState::new(Unknown, ChronyClockStatus::Unknown, ClockDisruptionState::Unknown);
        let state = state.transition(ChronyClockStatus::Unknown, status);
        if status == ClockDisruptionState::Disrupted {
            assert_eq!(state.value(), ClockStatus::Disrupted);
        } else {
            assert_eq!(state.value(), ClockStatus::Unknown);
        }
    }
}

/// Assert that unknown input from Synchronized leads to the Unknown state.
#[test]
fn test_transition_with_unknown_from_synchronized() {
    for status in _helper_generate_chrony_status() {
        let state = ShmClockState::new(Synchronized, ChronyClockStatus::Synchronized, ClockDisruptionState::Reliable);
        let state = state.transition(status, ClockDisruptionState::Unknown);
        assert_eq!(state.value(), ClockStatus::Unknown);
    }

    for status in _helper_generate_disruption_status() {
        let state = ShmClockState::new(Synchronized, ChronyClockStatus::Synchronized, ClockDisruptionState::Reliable);
        let state = state.transition(ChronyClockStatus::Unknown, status);
        if status == ClockDisruptionState::Disrupted {
            assert_eq!(state.value(), ClockStatus::Disrupted);
        } else {
            assert_eq!(state.value(), ClockStatus::Unknown);
        }
    }
}

/// Assert that unknown input from FreeRunning leads to the Unknown state.
#[test]
fn test_transition_with_unknown_from_freerunning() {
    for status in _helper_generate_chrony_status() {
        let state = ShmClockState::new(FreeRunning, ChronyClockStatus::FreeRunning, ClockDisruptionState::Reliable);
        let state = state.transition(status, ClockDisruptionState::Unknown);
        assert_eq!(state.value(), ClockStatus::Unknown);
    }

    for status in _helper_generate_disruption_status() {
        let state = ShmClockState::new(FreeRunning, ChronyClockStatus::FreeRunning, ClockDisruptionState::Reliable);
        let state = state.transition(ChronyClockStatus::Unknown, status);
        if status == ClockDisruptionState::Disrupted {
            assert_eq!(state.value(), ClockStatus::Disrupted);
        } else {
            assert_eq!(state.value(), ClockStatus::Unknown);
        }
    }
}

/// Assert that unknown input from Disrupted does NOT transition to Unknown state, except if
/// the clock is reliable
#[test]
fn test_transition_with_unknown_from_disrupted() {
    for status in _helper_generate_chrony_status() {
        let state = ShmClockState::new(Disrupted, ChronyClockStatus::Synchronized, ClockDisruptionState::Disrupted);
        let state = state.transition(status, ClockDisruptionState::Unknown);
        assert_eq!(state.value(), ClockStatus::Unknown);
    }

    for status in _helper_generate_disruption_status() {
        let state = ShmClockState::new(Disrupted, ChronyClockStatus::Synchronized, ClockDisruptionState::Disrupted);
        let state = state.transition(ChronyClockStatus::Unknown, status);
        if status == ClockDisruptionState::Disrupted {
            assert_eq!(state.value(), ClockStatus::Disrupted);
        } else {
            assert_eq!(state.value(), ClockStatus::Unknown);
        }
    }
}

/// Assert that disrupted input always lead to the Disrupted state
#[test]
fn test_transition_into_disrupted() {
    // Synchronized -> Disrupted
    for status in _helper_generate_chrony_status() {
        let state = ShmClockState::new(Synchronized, ChronyClockStatus::Synchronized, ClockDisruptionState::Reliable);
        let state = state.transition(status, ClockDisruptionState::Disrupted);
        assert_eq!(state.value(), ClockStatus::Disrupted);
    }

    // FreeRunning -> Disrupted
    for status in _helper_generate_chrony_status() {
        let state = ShmClockState::new(FreeRunning, ChronyClockStatus::FreeRunning, ClockDisruptionState::Reliable);
        let state = state.transition(status, ClockDisruptionState::Disrupted);
        assert_eq!(state.value(), ClockStatus::Disrupted);
    }

    // Disrupted -> Disrupted
    for status in _helper_generate_chrony_status() {
        let state = ShmClockState::new(Disrupted, ChronyClockStatus::Synchronized, ClockDisruptionState::Disrupted);
        let state = state.transition(status, ClockDisruptionState::Disrupted);
        assert_eq!(state.value(), ClockStatus::Disrupted);
    }
}

/// Assert that disrupted state always leads to Unknown.
#[test]
fn test_transition_from_disrupted() {
    for status in _helper_generate_chrony_status() {
        let state = ShmClockState::new(Disrupted, status, ClockDisruptionState::Disrupted);
        let state = state.transition(status, ClockDisruptionState::Reliable);
        assert_eq!(state.value(), ClockStatus::Unknown);
    }
}

/// Assert that apply_chrony is functional.
#[test]
fn clock_state_fsm_test_apply_chrony() {
    let state = ShmClockState::new(Synchronized, ChronyClockStatus::Synchronized, ClockDisruptionState::Reliable);

    let state = state.apply_chrony(ChronyClockStatus::Unknown);
    assert_eq!(state.value(), ClockStatus::Unknown);

    // The FSM driven by the chrony status alone.
    let state = chrony_status_fsm::Synchronized.state();
    let state = state.apply_chrony(ChronyClockStatus::Unknown);
    assert_eq!(state.value(), ClockStatus::Unknown);
}

/// Assert that apply_disruption is functional.
#[test]
fn clock_state_fsm_test_apply_disruption() {
    let state = ShmClockState::new(Synchronized, ChronyClockStatus::Synchronized, ClockDisruptionState::Reliable);

    let state = state.apply_disruption(ClockDisruptionState::Unknown);
    assert_eq!(state.value(), ClockStatus::Unknown);
}

