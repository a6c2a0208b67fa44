use std::str::FromStr;

use clockbound::ceb::Timespec;
use clockbound::chrony::{
    build_clock_status_snapshot, get_chrony_clock_status, refid_to_u32, PhcReading,
    PhcWithSysfsErrorBound, SnapshotError, TrackingSummary,
};
use clockbound::chrony::{next_reset_action, ResetAction, ResetPhase};
use clockbound::runner::{ClockBoundRunner, ClockStatusSnapshot};
use clockbound::status::{ChronyClockStatus, ClockErrorBoundSource, ClockStatus};

#[test]
fn test_str_to_clockerrorboundsource_conversion() {
    assert_eq!(
        ClockErrorBoundSource::from_str("chrony"),
        Ok(ClockErrorBoundSource::Chrony)
    );
    assert_eq!(
        ClockErrorBoundSource::from_str("Chrony"),
        Ok(ClockErrorBoundSource::Chrony)
    );
    assert_eq!(
        ClockErrorBoundSource::from_str("CHRONY"),
        Ok(ClockErrorBoundSource::Chrony)
    );
    assert_eq!(
        ClockErrorBoundSource::from_str("cHrOnY"),
        Ok(ClockErrorBoundSource::Chrony)
    );
    assert_eq!(
        ClockErrorBoundSource::from_str("vmclock"),
        Ok(ClockErrorBoundSource::VMClock)
    );
    assert_eq!(
        ClockErrorBoundSource::from_str("VMClock"),
        Ok(ClockErrorBoundSource::VMClock)
    );
    assert_eq!(
        ClockErrorBoundSource::from_str("VMCLOCK"),
        Ok(ClockErrorBoundSource::VMClock)
    );
    assert_eq!(
        ClockErrorBoundSource::from_str("vmClock"),
        Ok(ClockErrorBoundSource::VMClock)
    );
    assert!(ClockErrorBoundSource::from_str("other").is_err());
    assert!(ClockErrorBoundSource::from_str("None").is_err());
    assert!(ClockErrorBoundSource::from_str("null").is_err());
    assert!(ClockErrorBoundSource::from_str("").is_err());
}

#[test]
fn test_refid_to_u32() {
    // Test error cases
    assert!(refid_to_u32("morethan4characters").is_err());
    let non_valid_ascii_str = "Â©";
    assert!(non_valid_ascii_str.len() <= 4);
    assert!(refid_to_u32(non_valid_ascii_str).is_err());

    // Test actual parsing is as expected
    // ASCII values: P = 80, H = 72, C = 67, 0 = 48
    assert_eq!(
        refid_to_u32("PHC0").unwrap(),
        80 << 24 | 72 << 16 | 67 << 8 | 48
    );
    assert_eq!(refid_to_u32("PHC").unwrap(), 80 << 16 | 72 << 8 | 67);
    assert_eq!(refid_to_u32("PH").unwrap(), 80 << 8 | 72);
    assert_eq!(refid_to_u32("P").unwrap(), 80);
}

#[test]
fn test_get_phc_ref_id() {
    let phc_error_bound_reader = PhcWithSysfsErrorBound::new("/does/not/matter".into(), 12345);
    assert_eq!(phc_error_bound_reader.get_phc_ref_id(), 12345);
}

#[test]
fn lowercase_source_names_only() {
    assert_eq!(
        ClockErrorBoundSource::from_lowercase("chrony"),
        Ok(ClockErrorBoundSource::Chrony)
    );
    assert!(ClockErrorBoundSource::from_lowercase("Chrony").is_err());
}

#[test]
fn leap_status_maps_to_chrony_status() {
    assert_eq!(ChronyClockStatus::from(0u16), ChronyClockStatus::Synchronized);
    assert_eq!(ChronyClockStatus::from(2u16), ChronyClockStatus::Synchronized);
    assert_eq!(ChronyClockStatus::from(3u16), ChronyClockStatus::FreeRunning);
    assert_eq!(ChronyClockStatus::from(4u16), ChronyClockStatus::Unknown);
}

#[test]
fn stale_synchronized_clock_is_free_running() {
    // 8 polling intervals of 2 s: 16 s of empty register.
    assert_eq!(
        get_chrony_clock_status(0, 16_000_000_000, 16),
        ChronyClockStatus::Synchronized
    );
    assert_eq!(
        get_chrony_clock_status(0, 16_000_000_001, 16),
        ChronyClockStatus::FreeRunning
    );
    assert_eq!(
        get_chrony_clock_status(3, 0, 16),
        ChronyClockStatus::FreeRunning
    );
    assert_eq!(get_chrony_clock_status(7, 0, 16), ChronyClockStatus::Unknown);
}

fn tracking() -> TrackingSummary {
    TrackingSummary {
        ref_id: 0x50484330,
        leap_status: 0,
        error_bound_nsec: 5000,
        since_update_nsec: Some(1_000_000_000),
        empty_register_timeout_sec: 16,
    }
}

#[test]
fn snapshot_adds_phc_error_bound() {
    let as_of = Timespec::new(1000, 0);
    let s = build_clock_status_snapshot(&tracking(), PhcReading::Read(12345), as_of).unwrap();
    assert_eq!(s.error_bound_nsec, 17345);
    assert_eq!(s.chrony_clock_status, ChronyClockStatus::Synchronized);
    assert_eq!(s.as_of, as_of);
    let s = build_clock_status_snapshot(&tracking(), PhcReading::NotApplicable, as_of).unwrap();
    assert_eq!(s.error_bound_nsec, 5000);
}

#[test]
fn snapshot_errors() {
    let as_of = Timespec::new(1000, 0);
    assert_eq!(
        build_clock_status_snapshot(&tracking(), PhcReading::Failed, as_of),
        Err(SnapshotError::PhcErrorBoundUnavailable)
    );
    assert_eq!(
        build_clock_status_snapshot(&tracking(), PhcReading::Read(i64::MAX), as_of),
        Err(SnapshotError::ErrorBoundOverflow)
    );
    let mut t = tracking();
    t.since_update_nsec = None;
    assert_eq!(
        build_clock_status_snapshot(&t, PhcReading::NotApplicable, as_of),
        Err(SnapshotError::ClockStatusUnavailable)
    );
}

#[test]
fn phc_term_applies_to_its_ref_id_only() {
    let phc = PhcWithSysfsErrorBound::new("/sys/x".into(), refid_to_u32("PHC0").unwrap());
    assert!(phc.applies_to(0x50484330));
    assert!(!phc.applies_to(0x47505300));
    assert_eq!(phc.sysfs_phc_error_bound_path(), "/sys/x");
}

#[test]
fn runner_publishes_synchronized_bound() {
    let mut runner = ClockBoundRunner::new(true, 1000);
    runner.handle_vmclock_disruption_marker(0);
    let snapshot = ClockStatusSnapshot {
        error_bound_nsec: 5000,
        chrony_clock_status: ChronyClockStatus::Synchronized,
        as_of: Timespec::new(1000, 0),
    };
    runner.apply_clock_status_snapshot(&snapshot);
    let ceb = runner.clock_error_bound();
    assert_eq!(ceb.clock_status, ClockStatus::Synchronized);
    assert_eq!(ceb.bound_nsec, 5000);
    assert_eq!(ceb.as_of, Timespec::new(1000, 0));
    assert_eq!(ceb.void_after, Timespec::new(2000, 0));
    assert_eq!(ceb.max_drift_ppb, 1000);
    assert!(ceb.clock_disruption_support_enabled);
}

#[test]
fn runner_missing_snapshot_grace_period() {
    let mut runner = ClockBoundRunner::new(false, 1000);
    let snapshot = ClockStatusSnapshot {
        error_bound_nsec: 5000,
        chrony_clock_status: ChronyClockStatus::Synchronized,
        as_of: Timespec::new(1000, 0),
    };
    runner.apply_clock_status_snapshot(&snapshot);
    runner.handle_missing_clock_status_snapshot(Timespec::new(1004, 999_999_999));
    assert_eq!(runner.clock_error_bound().clock_status, ClockStatus::FreeRunning);
    runner.handle_missing_clock_status_snapshot(Timespec::new(1005, 0));
    assert_eq!(runner.clock_error_bound().clock_status, ClockStatus::Unknown);
    // The last good bound is kept.
    assert_eq!(runner.clock_error_bound().bound_nsec, 5000);
}

#[test]
fn runner_disruption_and_recovery() {
    let mut runner = ClockBoundRunner::new(true, 1000);
    runner.handle_vmclock_disruption_marker(0);
    let snapshot = ClockStatusSnapshot {
        error_bound_nsec: 5000,
        chrony_clock_status: ChronyClockStatus::Synchronized,
        as_of: Timespec::new(1000, 0),
    };
    runner.apply_clock_status_snapshot(&snapshot);
    assert!(!runner.is_disrupted());
    runner.handle_vmclock_disruption_marker(11);
    assert!(runner.is_disrupted());
    assert_eq!(runner.clock_error_bound().disruption_marker, 11);
    runner.handle_chronyd_reset();
    assert_eq!(runner.clock_error_bound().clock_status, ClockStatus::Unknown);
    runner.handle_vmclock_disruption_marker(11);
    runner.apply_clock_status_snapshot(&snapshot);
    assert_eq!(runner.clock_error_bound().clock_status, ClockStatus::Synchronized);
    runner.handle_forced_disruption_state();
    assert!(runner.is_disrupted());
}

#[test]
fn runner_without_disruption_support_ignores_markers() {
    let mut runner = ClockBoundRunner::new(false, 1000);
    runner.handle_vmclock_disruption_marker(5);
    assert!(!runner.is_disrupted());
    assert!(!runner.clock_error_bound().clock_disruption_support_enabled);
}

#[test]
fn test_get_chrony_clock_status_failure() {
    // chronyd's last update lies in the future: no status can be derived.
    let mut t = tracking();
    t.since_update_nsec = None;
    let rt = build_clock_status_snapshot(&t, PhcReading::NotApplicable, Timespec::new(0, 0));
    assert!(rt.is_err());
}

#[test]
fn test_get_chrony_clock_status_success() {
    // Polling every 2 s: 8 polls are 16 s.
    assert_eq!(get_chrony_clock_status(0, 0, 16), ChronyClockStatus::Synchronized);
    assert_eq!(
        get_chrony_clock_status(0, 1_700_000_000_000_000_000, 16),
        ChronyClockStatus::FreeRunning
    );
    assert_eq!(get_chrony_clock_status(3, 0, 16), ChronyClockStatus::FreeRunning);
    assert_eq!(get_chrony_clock_status(4, 0, 16), ChronyClockStatus::Unknown);
}

#[test]
fn chronyd_reset_decisions() {
    assert_eq!(next_reset_action(ResetPhase::Reset, 0, 29, true), ResetAction::SendBurst);
    assert_eq!(next_reset_action(ResetPhase::Burst, 3, 29, true), ResetAction::Done(Ok(())));
    assert_eq!(next_reset_action(ResetPhase::Reset, 28, 29, false), ResetAction::RetryAfterMs(5));
    assert_eq!(next_reset_action(ResetPhase::Burst, 0, 29, false), ResetAction::RetryAfterMs(100));
    assert_eq!(
        next_reset_action(ResetPhase::Reset, 29, 29, false),
        ResetAction::Done(Err(ResetPhase::Reset))
    );
    assert_eq!(
        next_reset_action(ResetPhase::Burst, 0, 0, false),
        ResetAction::Done(Err(ResetPhase::Burst))
    );
}
