use std::cell::RefCell;
use std::rc::Rc;
use std::str::FromStr;

use clockbound::ceb::{ClockErrorBound, ShmError, Timespec};
use clockbound::client::{ClockBoundClient, VMClock};
use clockbound::reader::{CebSegment, ShmReader};
use clockbound::layout::{CEB_RECORD_SIZE, CEB_SEGMENT_SIZE};
use clockbound::shm_header::{ShmHeader, SHM_HEADER_SIZE};
use clockbound::status::ClockStatus;
use clockbound::vmclock::{
    VMClockClockStatus, VMClockSegment, VMClockShmBody, VMClockShmHeader, VMClockShmReader,
    VMClockShmWrite, VMClockShmWriter, VMClockStore, VMCLOCK_BODY_SIZE, VMCLOCK_HEADER_SIZE,
};
use clockbound::writer::{SegmentStore, ShmWrite, ShmWriter};

fn header_bytes(
    magic: u32,
    size: u32,
    version: u16,
    counter_id: u8,
    time_type: u8,
    seq_count: u32,
) -> Vec<u8> {
    VMClockShmHeader { magic, size, version, counter_id, time_type, seq_count }.to_bytes()
}

fn body(disruption_marker: u64, counter_value: u64) -> VMClockShmBody {
    let mut b = VMClockShmBody::zeroed();
    b.disruption_marker = disruption_marker;
    b.clock_status = VMClockClockStatus::Synchronized;
    b.counter_value = counter_value;
    b
}

/// An in-memory VMClock segment shared by a writer and readers.
#[derive(Clone)]
struct MemVMClock {
    bytes: Rc<RefCell<Vec<u8>>>,
}

impl MemVMClock {
    fn new(size: u32, version: u16, seq_count: u32, b: &VMClockShmBody) -> MemVMClock {
        let mut bytes = header_bytes(0x4B4C4356, size, version, 1, 0, seq_count);
        bytes.extend_from_slice(&b.to_bytes());
        MemVMClock { bytes: Rc::new(RefCell::new(bytes)) }
    }

    fn header(&self) -> VMClockShmHeader {
        VMClockShmHeader::read(&self.bytes.borrow()).unwrap()
    }
}

impl VMClockSegment for MemVMClock {
    fn load_version(&self) -> u16 {
        u16::from_le_bytes([self.bytes.borrow()[8], self.bytes.borrow()[9]])
    }

    fn load_seq_count(&self) -> u32 {
        self.header().seq_count
    }

    fn read_body(&self) -> Vec<u8> {
        self.bytes.borrow()[VMCLOCK_HEADER_SIZE..VMCLOCK_HEADER_SIZE + VMCLOCK_BODY_SIZE].to_vec()
    }
}

impl VMClockStore for MemVMClock {
    fn load_seq_count(&self) -> u32 {
        self.header().seq_count
    }

    fn store_seq_count(&mut self, seq_count: u32) {
        self.bytes.borrow_mut()[12..16].copy_from_slice(&seq_count.to_le_bytes());
    }

    fn store_body(&mut self, body: &[u8]) {
        self.bytes.borrow_mut()[VMCLOCK_HEADER_SIZE..VMCLOCK_HEADER_SIZE + VMCLOCK_BODY_SIZE]
            .copy_from_slice(body);
    }
}

#[test]
fn shm_test_header_valid() {
    let buffer = header_bytes(0x4B4C4356, 104, 1, 0, 0, 99);
    let header = VMClockShmHeader::read(&buffer).expect("SHM Reader read");
    assert_eq!(header.magic, 0x4B4C4356);
    assert_eq!(header.size, 104_u32);
    assert_eq!(header.version, 1_u16);
    assert_eq!(header.counter_id, 0_u8);
    assert_eq!(header.time_type, 0_u8);
    assert_eq!(header.seq_count, 99_u32);
}

#[test]
fn shm_test_header_bad_magic() {
    let buffer = header_bytes(0xdeadbeef, 16, 1, 0, 0, 99);
    assert!(VMClockShmHeader::read(&buffer).is_err());
}

#[test]
fn test_header_bad_size() {
    let buffer = header_bytes(0x4B4C4356, 4, 1, 0, 0, 99);
    assert!(VMClockShmHeader::read(&buffer).is_err());
}

#[test]
fn test_header_bad_version() {
    let buffer = header_bytes(0x4B4C4356, 16, 0, 0, 0, 99);
    assert!(VMClockShmHeader::read(&buffer).is_err());
}

#[test]
fn test_segment_size() {
    assert_eq!(VMCLOCK_HEADER_SIZE + VMCLOCK_BODY_SIZE, 104);
}

#[test]
fn shm_reader_test_reader_new() {
    let seg = MemVMClock::new(104, 1, 10, &body(888888, 123456));
    let bytes = seg.bytes.borrow().clone();
    let mut reader = VMClockShmReader::new(seg.clone(), &bytes).expect("Failed to create VMClockShmReader");
    assert_eq!(seg.load_version(), 1_u16);
    assert_eq!(VMClockSegment::load_seq_count(&seg), 10_u32);
    let snapshot = reader.snapshot().unwrap();
    assert_eq!(snapshot.counter_value, 123456_u64);
    assert_eq!(snapshot.clock_status, VMClockClockStatus::Synchronized);
    assert_eq!(snapshot.disruption_marker, 888888_u64);
}

#[test]
fn test_reader_file_is_empty() {
    let seg = MemVMClock { bytes: Rc::new(RefCell::new(vec![])) };
    let res = VMClockShmReader::new(seg, &vec![]);
    assert!(res.is_err());
    assert_eq!(res.err(), Some(ShmError::SegmentNotInitialized));
}

#[test]
fn test_reader_version_not_supported() {
    let seg = MemVMClock::new(104, 999, 10, &body(888888, 123456));
    let bytes = seg.bytes.borrow().clone();
    let res = VMClockShmReader::new(seg.clone(), &bytes);
    assert!(res.is_err());
    assert_eq!(res.err(), Some(ShmError::SegmentVersionNotSupported));
}

#[test]
fn test_reader_segment_size_smaller_than_header() {
    let seg = MemVMClock::new(10, 1, 10, &body(888888, 123456));
    let bytes = seg.bytes.borrow().clone();
    let res = VMClockShmReader::new(seg.clone(), &bytes);
    assert!(res.is_err());
    assert_eq!(res.err(), Some(ShmError::SegmentMalformed));
}

#[test]
fn test_reader_segment_size_smaller_than_header_and_body() {
    let seg = MemVMClock::new(26, 1, 10, &body(888888, 123456));
    let bytes = seg.bytes.borrow().clone();
    let res = VMClockShmReader::new(seg.clone(), &bytes);
    assert!(res.is_err());
    assert_eq!(res.err(), Some(ShmError::SegmentMalformed));
}

#[test]
fn shm_writer_test_writer_update_existing() {
    let seg = MemVMClock::new(104, 1, 10, &body(1, 1));
    let mut writer = VMClockShmWriter::new(seg.clone());
    writer.write(&body(2, 2));
    assert_eq!(seg.header().seq_count, 12);
    let bytes = seg.bytes.borrow().clone();
    let mut reader = VMClockShmReader::new(seg.clone(), &bytes).unwrap();
    assert_eq!(reader.snapshot().unwrap(), body(2, 2));
}

#[test]
fn vmclock_reader_waits_for_even_seq_count() {
    let mut seg = MemVMClock::new(104, 1, 10, &body(5, 5));
    let bytes = seg.bytes.borrow().clone();
    let mut reader = VMClockShmReader::new(seg.clone(), &bytes).unwrap();
    assert_eq!(reader.snapshot().unwrap().disruption_marker, 5);
    // The hypervisor enters an update and stays there; an unchanged stable read is cached.
    let mut w = VMClockShmWriter::new(seg.clone());
    w.write(&body(6, 6));
    assert_eq!(reader.snapshot().unwrap().disruption_marker, 6);
    seg.store_seq_count(13);
    seg.store_body(&body(7, 7).to_bytes());
    seg.store_seq_count(14);
    assert_eq!(reader.snapshot().unwrap().disruption_marker, 7);
}

#[test]
fn vmclock_body_round_trips() {
    let mut b = body(42, 43);
    b.tai_offset_sec = -37;
    b._padding = [1, 2];
    b.time_maxerror_nanosec = u64::MAX;
    let bytes = b.to_bytes();
    assert_eq!(bytes.len(), VMCLOCK_BODY_SIZE);
    assert_eq!(VMClockShmBody::from_bytes(&bytes), Ok(b));
    let mut bad = bytes.clone();
    bad[18] = 9;
    assert_eq!(VMClockShmBody::from_bytes(&bad), Err(ShmError::SegmentMalformed));
}

#[test]
fn vmclock_status_names() {
    assert_eq!(VMClockClockStatus::from_str("Unknown"), Ok(VMClockClockStatus::Unknown));
    assert_eq!(
        VMClockClockStatus::from_str("Initializing"),
        Ok(VMClockClockStatus::Initializing)
    );
    assert_eq!(
        VMClockClockStatus::from_str("Synchronized"),
        Ok(VMClockClockStatus::Synchronized)
    );
    assert_eq!(
        VMClockClockStatus::from_str("FreeRunning"),
        Ok(VMClockClockStatus::FreeRunning)
    );
    assert_eq!(VMClockClockStatus::from_str("Unreliable"), Ok(VMClockClockStatus::Unreliable));
    assert!(VMClockClockStatus::from_str("unknown").is_err());
}

/// An in-memory ClockErrorBound segment.
#[derive(Clone)]
struct MemCeb {
    bytes: Rc<RefCell<Vec<u8>>>,
}

impl CebSegment for MemCeb {
    fn load_version(&self) -> u16 {
        ShmHeader::from_bytes(&self.bytes.borrow()).version
    }

    fn load_generation(&self) -> u16 {
        ShmHeader::from_bytes(&self.bytes.borrow()).generation
    }

    fn read_record(&self) -> Vec<u8> {
        self.bytes.borrow()[SHM_HEADER_SIZE..SHM_HEADER_SIZE + CEB_RECORD_SIZE].to_vec()
    }
}

impl SegmentStore for MemCeb {
    fn load_generation(&self) -> u16 {
        ShmHeader::from_bytes(&self.bytes.borrow()).generation
    }

    fn store_generation(&mut self, generation: u16) {
        self.bytes.borrow_mut()[14..16].copy_from_slice(&generation.to_le_bytes());
    }

    fn store_version(&mut self, version: u16) {
        self.bytes.borrow_mut()[12..14].copy_from_slice(&version.to_le_bytes());
    }

    fn store_record(&mut self, record: &[u8]) {
        self.bytes.borrow_mut()[SHM_HEADER_SIZE..SHM_HEADER_SIZE + CEB_RECORD_SIZE]
            .copy_from_slice(record);
    }
}

fn ceb_now(marker: u64) -> ClockErrorBound {
    let mono = clockbound::ceb::clock_gettime_safe(clockbound::ceb::ClockKind::MonotonicCoarse)
        .unwrap();
    ClockErrorBound::new(
        mono,
        Timespec::new(mono.tv_sec + 1000, mono.tv_nsec),
        10_000,
        marker,
        1000,
        ClockStatus::Synchronized,
        true,
    )
}

#[test]
fn client_overrides_status_until_daemon_sees_disruption() {
    let ceb_seg = MemCeb { bytes: Rc::new(RefCell::new(clockbound::layout::wiped_segment())) };
    let mut ceb_writer = ShmWriter::new(ceb_seg.clone());
    ceb_writer.write(&ceb_now(10));
    let bytes = ceb_seg.bytes.borrow().clone();
    let ceb_reader = ShmReader::new(ceb_seg.clone(), &bytes, CEB_SEGMENT_SIZE).unwrap();

    let vm_seg = MemVMClock::new(104, 1, 2, &body(10, 0));
    let vm_bytes = vm_seg.bytes.borrow().clone();
    let vm_reader = VMClockShmReader::new(vm_seg.clone(), &vm_bytes).unwrap();
    let mut vm_writer = VMClockShmWriter::new(vm_seg.clone());

    let mut client = ClockBoundClient { vmclock: VMClock::new(ceb_reader, Some(vm_reader)) };
    assert_eq!(client.now().unwrap().clock_status, ClockStatus::Synchronized);

    // The hypervisor signals a disruption: 10 -> 11, the daemon still publishes 10.
    vm_writer.write(&body(11, 0));
    assert_eq!(client.now().unwrap().clock_status, ClockStatus::Unknown);

    // The daemon catches up.
    ceb_writer.write(&ceb_now(11));
    assert_eq!(client.now().unwrap().clock_status, ClockStatus::Synchronized);
}

#[test]
fn client_without_vmclock_reader_needs_one() {
    let ceb_seg = MemCeb { bytes: Rc::new(RefCell::new(clockbound::layout::wiped_segment())) };
    let mut ceb_writer = ShmWriter::new(ceb_seg.clone());
    ceb_writer.write(&ceb_now(10));
    let bytes = ceb_seg.bytes.borrow().clone();
    let ceb_reader = ShmReader::new(ceb_seg.clone(), &bytes, CEB_SEGMENT_SIZE).unwrap();
    let mut vmclock: VMClock<MemCeb, MemVMClock> = VMClock::new(ceb_reader, None);
    assert_eq!(vmclock.needs_vmclock_reader(), Ok(true));
    assert_eq!(vmclock.now(), Err(ShmError::SegmentNotInitialized));
    let vm_seg = MemVMClock::new(104, 1, 2, &body(10, 0));
    let vm_bytes = vm_seg.bytes.borrow().clone();
    vmclock.attach_vmclock_reader(VMClockShmReader::new(vm_seg, &vm_bytes).unwrap());
    assert_eq!(vmclock.needs_vmclock_reader(), Ok(false));
    assert_eq!(vmclock.now().unwrap().2, ClockStatus::Synchronized);
}

#[test]
fn short_vmclock_segment_is_malformed() {
    let bytes = header_bytes(0x4B4C4356, 104, 1, 0, 0, 2)[..10].to_vec();
    assert_eq!(VMClockShmHeader::read(&bytes).err(), Some(ShmError::SegmentMalformed));
    let seg = MemVMClock { bytes: Rc::new(RefCell::new(bytes.clone())) };
    assert_eq!(VMClockShmReader::new(seg, &bytes).err(), Some(ShmError::SegmentMalformed));
    assert_eq!(VMClockShmHeader::read(&vec![]).err(), Some(ShmError::SegmentNotInitialized));
}
