use clockbound::chrony_status_fsm::{FSMState, FSMTransition, FreeRunning, ShmClockState, Synchronized, Unknown};
use clockbound::status::{ChronyClockStatus, ClockStatus};

fn _helper_generate_chrony_status() -> Vec<ChronyClockStatus> {
    vec![
        ChronyClockStatus::Unknown,
        ChronyClockStatus::Synchronized,
        ChronyClockStatus::FreeRunning,
    ]
}

#[test]
fn test_transition_from_unknown() {
    for chrony_status in _helper_generate_chrony_status() {
        let state = Unknown.state();
        let state = state.transition(chrony_status);

        if chrony_status == ChronyClockStatus::Unknown {
            assert_eq!(state.value(), ClockStatus::Unknown);
        } else if chrony_status == ChronyClockStatus::Synchronized {
            assert_eq!(state.value(), ClockStatus::Synchronized);
        } else if chrony_status == ChronyClockStatus::FreeRunning {
            assert_eq!(state.value(), ClockStatus::FreeRunning);
        }
    }
}

#[test]
fn test_transition_from_freerunning() {
    for chrony_status in _helper_generate_chrony_status() {
        let state = FreeRunning.state();
        let state = state.transition(chrony_status);

        if chrony_status == ChronyClockStatus::Unknown {
            assert_eq!(state.value(), ClockStatus::Unknown);
        } else if chrony_status == ChronyClockStatus::Synchronized {
            assert_eq!(state.value(), ClockStatus::Synchronized);
        } else if chrony_status == ChronyClockStatus::FreeRunning {
            assert_eq!(state.value(), ClockStatus::FreeRunning);
        }
    }
}

#[test]
fn test_transition_from_synchronized() {
    for chrony_status in _helper_generate_chrony_status() {
        let state = Synchronized.state();
        let state = state.transition(chrony_status);

        if chrony_status == ChronyClockStatus::Unknown {
            assert_eq!(state.value(), ClockStatus::Unknown);
        } else if chrony_status == ChronyClockStatus::Synchronized {
            assert_eq!(state.value(), ClockStatus::Synchronized);
        } else if chrony_status == ChronyClockStatus::FreeRunning {
            assert_eq!(state.value(), ClockStatus::FreeRunning);
        }
    }
}


/// A new machine starts in the Unknown state.
#[test]
fn chrony_status_fsm_entry_point() {
    let state = ShmClockState::default();
    assert_eq!(state.value(), ClockStatus::Unknown);
}

/// Each state publishes its own clock status.
#[test]
fn chrony_status_fsm_state_and_value() {
    assert_eq!(Unknown.state().value(), ClockStatus::Unknown);
    assert_eq!(Synchronized.state().value(), ClockStatus::Synchronized);
    assert_eq!(FreeRunning.state().value(), ClockStatus::FreeRunning);
}

/// Applying a chrony status moves to the state it names.
#[test]
fn chrony_status_fsm_apply_chrony() {
    let state = Synchronized.state();
    let state = state.apply_chrony(ChronyClockStatus::Unknown);
    assert_eq!(state.value(), ClockStatus::Unknown);
    let state = state.apply_chrony(ChronyClockStatus::FreeRunning);
    assert_eq!(state.value(), ClockStatus::FreeRunning);
}
