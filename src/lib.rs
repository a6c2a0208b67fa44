//! An error-bounded view of wall-clock time.
//!
//! The daemon side derives a bound on clock error from the synchronization daemon, drives a
//! clock-status state machine and publishes a `ClockErrorBound` record through a lock-free
//! shared-memory segment. The client side reads consistent snapshots of that segment and turns
//! them into an `(earliest, latest, status)` interval around the current time.

pub mod status;
pub mod access;
pub mod ceb;
pub mod clock_state_fsm;
pub mod clock_state_fsm_no_disruption;
pub mod chrony_status_fsm;
pub mod shm_header;
pub mod layout;
pub mod writer;
pub mod reader;
pub mod vmclock;
pub mod runner;
pub mod chrony;
pub mod client;
pub mod response;
pub mod channels;
pub mod thread_manager;
pub mod socket_client;
