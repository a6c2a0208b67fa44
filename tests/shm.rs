use std::cell::RefCell;
use std::rc::Rc;

use clockbound::ceb::{ClockErrorBound, ShmError, Timespec};
use clockbound::layout::{wiped_segment, CEB_RECORD_SIZE, CEB_SEGMENT_SIZE};
use clockbound::reader::{CebSegment, ShmReader};
use clockbound::shm_header::{ShmHeader, SHM_HEADER_SIZE};
use clockbound::status::ClockStatus;
use clockbound::writer::{
    begin_update_generation, end_update_generation, SegmentStore, ShmWrite, ShmWriter,
};

/// An in-memory segment shared by a writer and readers.
#[derive(Clone)]
struct MemSegment {
    bytes: Rc<RefCell<Vec<u8>>>,
}

impl MemSegment {
    fn wiped() -> MemSegment {
        MemSegment { bytes: Rc::new(RefCell::new(wiped_segment())) }
    }

    fn header(&self) -> ShmHeader {
        ShmHeader::from_bytes(&self.bytes.borrow())
    }

    fn set_u16(&self, at: usize, v: u16) {
        self.bytes.borrow_mut()[at..at + 2].copy_from_slice(&v.to_le_bytes());
    }
}

impl CebSegment for MemSegment {
    fn load_version(&self) -> u16 {
        self.header().version
    }

    fn load_generation(&self) -> u16 {
        self.header().generation
    }

    fn read_record(&self) -> Vec<u8> {
        self.bytes.borrow()[SHM_HEADER_SIZE..SHM_HEADER_SIZE + CEB_RECORD_SIZE].to_vec()
    }
}

impl SegmentStore for MemSegment {
    fn load_generation(&self) -> u16 {
        self.header().generation
    }

    fn store_generation(&mut self, generation: u16) {
        self.set_u16(14, generation);
    }

    fn store_version(&mut self, version: u16) {
        self.set_u16(12, version);
    }

    fn store_record(&mut self, record: &[u8]) {
        self.bytes.borrow_mut()[SHM_HEADER_SIZE..SHM_HEADER_SIZE + CEB_RECORD_SIZE]
            .copy_from_slice(record);
    }
}

fn record(as_of: (i64, i64), void_after: (i64, i64)) -> ClockErrorBound {
    ClockErrorBound::new(
        Timespec::new(as_of.0, as_of.1),
        Timespec::new(void_after.0, void_after.1),
        10000, // 10 microsec
        0,
        1000, // 1PPM
        ClockStatus::Synchronized,
        false,
    )
}

#[test]
fn compute_bound_ok() {
    let ceb = record((0, 0), (10, 0));
    let (earliest, latest, status) = ceb
        .compute_bound_at(Timespec::new(2, 0), Timespec::new(2, 0))
        .expect("Failed to compute bound");
    assert_eq!(earliest.tv_sec, 1);
    assert_eq!(earliest.tv_nsec, 1_000_000_000 - 12_000);
    assert_eq!(latest.tv_sec, 2);
    assert_eq!(latest.tv_nsec, 12_000);
    assert_eq!(status, ClockStatus::Synchronized);
}

#[test]
fn compute_bound_ok_when_real_ahead() {
    let ceb = record((0, 0), (10, 0));
    let (earliest, latest, status) = ceb
        .compute_bound_at(Timespec::new(20, 0), Timespec::new(4, 0))
        .expect("Failed to compute bound");
    assert_eq!(earliest.tv_sec, 19);
    assert_eq!(earliest.tv_nsec, 1_000_000_000 - 14_000);
    assert_eq!(latest.tv_sec, 20);
    assert_eq!(latest.tv_nsec, 14_000);
    assert_eq!(status, ClockStatus::Synchronized);
}

#[test]
fn compute_bound_force_free_running_status() {
    let ceb = record((0, 0), (100, 0));
    let (earliest, latest, status) = ceb
        .compute_bound_at(Timespec::new(8, 0), Timespec::new(8, 0))
        .expect("Failed to compute bound");
    assert_eq!(earliest.tv_sec, 7);
    assert_eq!(earliest.tv_nsec, 1_000_000_000 - 18_000);
    assert_eq!(latest.tv_sec, 8);
    assert_eq!(latest.tv_nsec, 18_000);
    assert_eq!(status, ClockStatus::FreeRunning);
}

#[test]
fn compute_bound_unknown_status_if_expired() {
    let ceb = record((0, 0), (5, 0));
    let (earliest, latest, status) = ceb
        .compute_bound_at(Timespec::new(10, 0), Timespec::new(10, 0))
        .expect("Failed to compute bound");
    assert_eq!(earliest.tv_sec, 9);
    assert_eq!(earliest.tv_nsec, 1_000_000_000 - 20_000);
    assert_eq!(latest.tv_sec, 10);
    assert_eq!(latest.tv_nsec, 20_000);
    assert_eq!(status, ClockStatus::Unknown);
}

#[test]
fn compute_bound_bad_drift() {
    let mut ceb = record((0, 0), (10, 0));
    ceb.max_drift_ppb = 2_000_000_000;
    assert!(ceb
        .compute_bound_at(Timespec::new(5, 0), Timespec::new(5, 0))
        .is_err());
}

#[test]
fn compute_bound_causality_break() {
    let ceb = record((5, 0), (10, 0));
    let res = ceb.compute_bound_at(Timespec::new(1, 0), Timespec::new(1, 0));
    assert!(res.is_err());
}

fn sample_record() -> ClockErrorBound {
    ClockErrorBound::new(
        Timespec::new(1000, 0),
        Timespec::new(2000, 0),
        10_000,
        10,
        1000,
        ClockStatus::Synchronized,
        false,
    )
}

#[test]
fn synchronized_within_grace_period() {
    let r = sample_record().compute_bound_at(Timespec::new(1002, 0), Timespec::new(1002, 0));
    assert_eq!(
        r,
        Ok((
            Timespec::new(1001, 999_988_000),
            Timespec::new(1002, 12_000),
            ClockStatus::Synchronized
        ))
    );
}

#[test]
fn free_running_past_grace_period() {
    let (earliest, latest, status) = sample_record()
        .compute_bound_at(Timespec::new(1008, 0), Timespec::new(1008, 0))
        .unwrap();
    assert_eq!(status, ClockStatus::FreeRunning);
    assert_eq!(earliest, Timespec::new(1007, 999_982_000));
    assert_eq!(latest, Timespec::new(1008, 18_000));
}

#[test]
fn unknown_past_void_after() {
    let mut ceb = sample_record();
    ceb.void_after = Timespec::new(1010, 0);
    let (_, _, status) = ceb
        .compute_bound_at(Timespec::new(1010, 0), Timespec::new(1010, 0))
        .unwrap();
    assert_eq!(status, ClockStatus::Unknown);
}

#[test]
fn excessive_drift_is_malformed() {
    let mut ceb = sample_record();
    ceb.max_drift_ppb = 2_000_000_000;
    assert_eq!(
        ceb.compute_bound_at(Timespec::new(1002, 0), Timespec::new(1002, 0)),
        Err(ShmError::SegmentMalformed)
    );
}

#[test]
fn causality_slack() {
    let ceb = sample_record();
    let blurred = ceb.compute_bound_at(Timespec::new(1000, 0), Timespec::new(999, 999_999_999));
    let exact = ceb.compute_bound_at(Timespec::new(1000, 0), Timespec::new(1000, 0));
    assert_eq!(blurred, exact);
    assert!(blurred.is_ok());
    assert_eq!(
        ceb.compute_bound_at(Timespec::new(1000, 0), Timespec::new(995, 0)),
        Err(ShmError::CausalityBreach)
    );
}

#[test]
fn negative_bound_is_malformed() {
    let mut ceb = sample_record();
    ceb.bound_nsec = -1;
    assert_eq!(
        ceb.compute_bound_at(Timespec::new(1002, 0), Timespec::new(1002, 0)),
        Err(ShmError::SegmentMalformed)
    );
}

#[test]
fn interval_holds_realtime_and_has_exact_width() {
    let ceb = sample_record();
    let (earliest, latest, _) = ceb
        .compute_bound_at(Timespec::new(5000, 123), Timespec::new(1003, 500_000_000))
        .unwrap();
    let e = earliest.as_nanos();
    let l = latest.as_nanos();
    let r = Timespec::new(5000, 123).as_nanos();
    assert!(e <= r && r <= l);
    // 3.5 s at 1000 ppb is 3500 ns of drift.
    assert_eq!(l - e, 2 * (10_000 + 3_500));
}

#[test]
fn repeated_computation_with_frozen_clocks_is_identical() {
    let ceb = sample_record();
    let a = ceb.compute_bound_at(Timespec::new(1002, 7), Timespec::new(1002, 5));
    let b = ceb.compute_bound_at(Timespec::new(1002, 7), Timespec::new(1002, 5));
    assert_eq!(a, b);
}

#[test]
fn negative_timestamps_are_normalized() {
    assert_eq!(Timespec::from_nanos(-1), Some(Timespec::new(-1, 999_999_999)));
    assert_eq!(Timespec::from_nanos(1_500_000_000), Some(Timespec::new(1, 500_000_000)));
    assert_eq!(Timespec::from_nanos(i128::MAX), None);
}

#[test]
fn now_reads_the_clocks() {
    let mut ceb = sample_record();
    let mono = clockbound::ceb::clock_gettime_safe(clockbound::ceb::ClockKind::MonotonicCoarse)
        .unwrap();
    ceb.as_of = mono;
    ceb.void_after = Timespec::new(mono.tv_sec + 1000, mono.tv_nsec);
    let (earliest, latest, status) = ceb.now().unwrap();
    assert!(earliest.as_nanos() < latest.as_nanos());
    assert_eq!(status, ClockStatus::Synchronized);
    let realtime =
        clockbound::ceb::clock_gettime_safe(clockbound::ceb::ClockKind::Realtime).unwrap();
    assert!(realtime.as_nanos() > earliest.as_nanos());
}

#[test]
fn record_round_trips_through_bytes() {
    let mut ceb = sample_record();
    ceb.bound_nsec = -42;
    ceb.clock_status = ClockStatus::Disrupted;
    ceb.clock_disruption_support_enabled = true;
    let bytes = ceb.to_bytes();
    assert_eq!(bytes.len(), CEB_RECORD_SIZE);
    assert_eq!(&bytes[0..8], &1000i64.to_le_bytes());
    assert_eq!(&bytes[52..56], &3u32.to_le_bytes());
    assert_eq!(bytes[56], 1);
    assert_eq!(ClockErrorBound::from_bytes(&bytes), Ok(ceb));
}

#[test]
fn record_with_bad_status_is_malformed() {
    let mut bytes = sample_record().to_bytes();
    bytes[52] = 9;
    assert_eq!(ClockErrorBound::from_bytes(&bytes), Err(ShmError::SegmentMalformed));
    assert_eq!(ClockErrorBound::from_bytes(&bytes[..10]), Err(ShmError::SegmentMalformed));
}

fn header_bytes(magic0: u32, magic1: u32, segsize: u32, version: u16, generation: u16) -> Vec<u8> {
    let mut v = Vec::new();
    v.extend_from_slice(&magic0.to_le_bytes());
    v.extend_from_slice(&magic1.to_le_bytes());
    v.extend_from_slice(&segsize.to_le_bytes());
    v.extend_from_slice(&version.to_le_bytes());
    v.extend_from_slice(&generation.to_le_bytes());
    v
}

#[test]
fn shm_header_test_header_valid() {
    let h = ShmHeader::read(&header_bytes(0x414D5A4E, 0x43420200, 99, 2, 16)).unwrap();
    assert_eq!(h.magic, [0x414D5A4E, 0x43420200]);
    assert_eq!(h.segsize, 99);
    assert_eq!(h.generation, 16);
    assert_eq!(ShmHeader::from_bytes(&h.to_bytes()).segsize, 99);
}

#[test]
fn shm_header_test_header_bad_magic() {
    let r = ShmHeader::read(&header_bytes(0xdeadbeef, 0x43420200, 99, 2, 16));
    assert_eq!(r.unwrap_err(), ShmError::SegmentMalformed);
}

#[test]
fn test_header_bad_segsize() {
    let r = ShmHeader::read(&header_bytes(0x414D5A4E, 0x43420200, 4, 2, 16));
    assert_eq!(r.unwrap_err(), ShmError::SegmentMalformed);
}

#[test]
fn test_header_bad_version_zero() {
    let r = ShmHeader::read(&header_bytes(0x414D5A4E, 0x43420200, 99, 0, 16));
    assert_eq!(r.unwrap_err(), ShmError::SegmentNotInitialized);
}

#[test]
fn test_header_bad_version_unsupported() {
    let r = ShmHeader::read(&header_bytes(0x414D5A4E, 0x43420200, 99, 9999, 16));
    assert_eq!(r.unwrap_err(), ShmError::SegmentVersionNotSupported);
}

#[test]
fn test_header_bad_generation() {
    let r = ShmHeader::read(&header_bytes(0x414D5A4E, 0x43420200, 99, 2, 0));
    assert_eq!(r.unwrap_err(), ShmError::SegmentNotInitialized);
}

#[test]
fn short_header_is_not_initialized() {
    assert_eq!(ShmHeader::read(&[0u8; 10]).unwrap_err(), ShmError::SegmentNotInitialized);
}

#[test]
fn generation_protocol_steps() {
    assert_eq!(begin_update_generation(4), 5);
    assert_eq!(begin_update_generation(5), 5);
    assert_eq!(end_update_generation(5), 6);
    assert_eq!(end_update_generation(u16::MAX), 2);
}

fn open_pair() -> (ShmWriter<MemSegment>, ShmReader<MemSegment>, MemSegment) {
    let seg = MemSegment::wiped();
    let mut writer = ShmWriter::new(seg.clone());
    // A reader refuses a segment that was never written (generation 0).
    let bytes = seg.bytes.borrow().clone();
    assert_eq!(
        ShmReader::new(seg.clone(), &bytes, CEB_SEGMENT_SIZE).err(),
        Some(ShmError::SegmentNotInitialized)
    );
    writer.write(&ClockErrorBound::zeroed());
    let bytes = seg.bytes.borrow().clone();
    let reader =
        ShmReader::new(seg.clone(), &bytes, CEB_SEGMENT_SIZE).expect("Failed to create ShmReader");
    (writer, reader, seg)
}

#[test]
fn writer_then_reader_snapshot() {
    let (mut writer, mut reader, seg) = open_pair();
    let ceb = sample_record();
    writer.write(&ceb);
    assert_eq!(seg.header().generation % 2, 0);
    assert_eq!(reader.snapshot(), Ok(ceb));
    // No new write: the cached record comes back.
    assert_eq!(reader.snapshot(), Ok(ceb));
}

#[test]
fn reader_returns_cached_record_while_writer_updates() {
    let (mut writer, mut reader, mut seg) = open_pair();
    let first = sample_record();
    writer.write(&first);
    assert_eq!(reader.snapshot(), Ok(first));
    // The writer enters an update and dies half-way: odd generation, new record in place.
    let g = SegmentStore::load_generation(&seg);
    seg.store_generation(g + 1);
    let mut second = first;
    second.bound_nsec = 99;
    seg.store_record(&second.to_bytes());
    assert_eq!(reader.snapshot(), Ok(first));
    // A new writer completes an update: the reader moves on.
    writer.write(&second);
    assert_eq!(reader.snapshot(), Ok(second));
}

#[test]
fn generation_rollover_never_reaches_zero() {
    let (mut writer, mut reader, mut seg) = open_pair();
    seg.store_generation(u16::MAX - 3);
    let mut ceb = sample_record();
    for i in 0..10 {
        ceb.disruption_marker = i;
        writer.write(&ceb);
        let g = seg.header().generation;
        assert!(g != 0 && g % 2 == 0);
        assert_eq!(reader.snapshot(), Ok(ceb));
    }
}

#[test]
fn unsupported_version_is_reported_on_snapshot() {
    let (mut writer, mut reader, mut seg) = open_pair();
    writer.write(&sample_record());
    assert!(reader.snapshot().is_ok());
    seg.store_version(9999);
    assert_eq!(reader.snapshot(), Err(ShmError::SegmentVersionNotSupported));
}

#[test]
fn unsupported_version_is_reported_on_open() {
    let seg = MemSegment::wiped();
    seg.set_u16(12, 9999);
    seg.set_u16(14, 2);
    let bytes = seg.bytes.borrow().clone();
    assert_eq!(
        ShmReader::new(seg.clone(), &bytes, CEB_SEGMENT_SIZE).err(),
        Some(ShmError::SegmentVersionNotSupported)
    );
}

#[test]
fn small_segment_is_malformed() {
    let seg = MemSegment::wiped();
    seg.set_u16(12, 2);
    seg.set_u16(14, 2);
    let bytes = seg.bytes.borrow().clone();
    assert_eq!(
        ShmReader::new(seg.clone(), &bytes, CEB_SEGMENT_SIZE - 1).err(),
        Some(ShmError::SegmentMalformed)
    );
}

#[test]
fn wiped_segment_reads_as_cached_default() {
    let (mut writer, mut reader, mut seg) = open_pair();
    let ceb = sample_record();
    writer.write(&ceb);
    assert_eq!(reader.snapshot(), Ok(ceb));
    // Segment wiped by a restarting writer: version 0.
    seg.store_version(0);
    assert_eq!(reader.snapshot(), Ok(ceb));
}

#[test]
fn wiped_segment_layout() {
    let w = wiped_segment();
    assert_eq!(w.len(), CEB_SEGMENT_SIZE);
    let h = ShmHeader::from_bytes(&w);
    assert_eq!(h.version, 0);
    assert_eq!(h.generation, 0);
    assert_eq!(h.segsize as usize, CEB_SEGMENT_SIZE);
    assert!(w[SHM_HEADER_SIZE..].iter().all(|b| *b == 0));
}

#[test]
fn header_declaring_a_small_segment_is_malformed() {
    let seg = MemSegment::wiped();
    seg.set_u16(12, 2);
    seg.set_u16(14, 2);
    seg.bytes.borrow_mut()[8..12].copy_from_slice(&16u32.to_le_bytes());
    let bytes = seg.bytes.borrow().clone();
    assert_eq!(
        ShmReader::new(seg.clone(), &bytes, CEB_SEGMENT_SIZE).err(),
        Some(ShmError::SegmentMalformed)
    );
}

#[test]
fn refid_error_text() {
    assert_eq!(
        clockbound::chrony::refid_to_u32("PHC00").unwrap_err(),
        "The PHC reference ID supplied was not a 4 character ASCII string."
    );
}
