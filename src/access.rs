//! Access to mapped segments through a log of every load and store made.
//!
//! The readers and writers of this library reach a segment only through these types, whose log
//! they cannot write: each entry is added by the call that made the access, with the value that
//! the segment returned or was given. Their contracts are stated over the entries a call added.

use vstd::prelude::*;

use crate::reader::CebSegment;
use crate::vmclock::{VMClockSegment, VMClockStore};
use crate::writer::SegmentStore;

verus! {

/// An access to a segment: its kind, a counter or version, and bytes.
pub type Event = (u8, u32, Seq<u8>);

/// The version was loaded and read `v`.
pub open spec fn version_loaded(v: u16) -> Event {
    (0, v as u32, Seq::empty())
}

/// The generation (or sequence counter) was loaded and read `g`.
pub open spec fn counter_loaded(g: u32) -> Event {
    (1, g, Seq::empty())
}

/// The record (or body) was copied and read `bytes`.
pub open spec fn bytes_read(bytes: Seq<u8>) -> Event {
    (2, 0, bytes)
}

/// The version `v` was stored.
pub open spec fn version_stored(v: u16) -> Event {
    (3, v as u32, Seq::empty())
}

/// The generation (or sequence counter) `g` was stored.
pub open spec fn counter_stored(g: u32) -> Event {
    (4, g, Seq::empty())
}

/// The record (or body) `bytes` was copied into place.
pub open spec fn bytes_stored(bytes: Seq<u8>) -> Event {
    (5, 0, bytes)
}

/// A ClockErrorBound segment, read through a log.
pub struct CebAccess<S: CebSegment> {
    segment: S,
    log: Ghost<Seq<Event>>,
}

impl<S: CebSegment> CebAccess<S> {
    /// The accesses made, in order.
    pub closed spec fn log(&self) -> Seq<Event> {
        self.log@
    }

    pub fn new(segment: S) -> (r: CebAccess<S>)
        ensures
            r.log() == Seq::<Event>::empty(),
    {
        CebAccess { segment, log: Ghost(Seq::empty()) }
    }

    pub fn load_version(&mut self) -> (r: u16)
        ensures
            final(self).log() == old(self).log().push(version_loaded(r)),
    {
        let r = self.segment.load_version();
        self.log = Ghost(self.log@.push(version_loaded(r)));
        r
    }

    pub fn load_generation(&mut self) -> (r: u16)
        ensures
            final(self).log() == old(self).log().push(counter_loaded(r as u32)),
    {
        let r = self.segment.load_generation();
        self.log = Ghost(self.log@.push(counter_loaded(r as u32)));
        r
    }

    pub fn read_record(&mut self) -> (r: Vec<u8>)
        ensures
            final(self).log() == old(self).log().push(bytes_read(r@)),
    {
        let r = self.segment.read_record();
        self.log = Ghost(self.log@.push(bytes_read(r@)));
        r
    }
}

/// A VMClock segment, read through a log.
pub struct VMClockAccess<S: VMClockSegment> {
    segment: S,
    log: Ghost<Seq<Event>>,
}

impl<S: VMClockSegment> VMClockAccess<S> {
    /// The accesses made, in order.
    pub closed spec fn log(&self) -> Seq<Event> {
        self.log@
    }

    pub fn new(segment: S) -> (r: VMClockAccess<S>)
        ensures
            r.log() == Seq::<Event>::empty(),
    {
        VMClockAccess { segment, log: Ghost(Seq::empty()) }
    }

    pub fn load_version(&mut self) -> (r: u16)
        ensures
            final(self).log() == old(self).log().push(version_loaded(r)),
    {
        let r = self.segment.load_version();
        self.log = Ghost(self.log@.push(version_loaded(r)));
        r
    }

    pub fn load_seq_count(&mut self) -> (r: u32)
        ensures
            final(self).log() == old(self).log().push(counter_loaded(r)),
    {
        let r = self.segment.load_seq_count();
        self.log = Ghost(self.log@.push(counter_loaded(r)));
        r
    }

    pub fn read_body(&mut self) -> (r: Vec<u8>)
        ensures
            final(self).log() == old(self).log().push(bytes_read(r@)),
    {
        let r = self.segment.read_body();
        self.log = Ghost(self.log@.push(bytes_read(r@)));
        r
    }
}

/// A ClockErrorBound segment, written through a log.
pub struct StoreAccess<S: SegmentStore> {
    store: S,
    log: Ghost<Seq<Event>>,
}

impl<S: SegmentStore> StoreAccess<S> {
    /// The accesses made, in order.
    pub closed spec fn log(&self) -> Seq<Event> {
        self.log@
    }

    pub fn new(store: S) -> (r: StoreAccess<S>)
        ensures
            r.log() == Seq::<Event>::empty(),
    {
        StoreAccess { store, log: Ghost(Seq::empty()) }
    }

    pub fn load_generation(&mut self) -> (r: u16)
        ensures
            final(self).log() == old(self).log().push(counter_loaded(r as u32)),
    {
        let r = self.store.load_generation();
        self.log = Ghost(self.log@.push(counter_loaded(r as u32)));
        r
    }

    pub fn store_generation(&mut self, generation: u16)
        ensures
            final(self).log() == old(self).log().push(counter_stored(generation as u32)),
    {
        self.store.store_generation(generation);
        self.log = Ghost(self.log@.push(counter_stored(generation as u32)));
    }

    pub fn store_version(&mut self, version: u16)
        ensures
            final(self).log() == old(self).log().push(version_stored(version)),
    {
        self.store.store_version(version);
        self.log = Ghost(self.log@.push(version_stored(version)));
    }

    pub fn store_record(&mut self, record: &[u8])
        ensures
            final(self).log() == old(self).log().push(bytes_stored(record@)),
    {
        self.store.store_record(record);
        self.log = Ghost(self.log@.push(bytes_stored(record@)));
    }
}

/// A VMClock segment, written through a log.
pub struct VMClockStoreAccess<S: VMClockStore> {
    store: S,
    log: Ghost<Seq<Event>>,
}

impl<S: VMClockStore> VMClockStoreAccess<S> {
    /// The accesses made, in order.
    pub closed spec fn log(&self) -> Seq<Event> {
        self.log@
    }

    pub fn new(store: S) -> (r: VMClockStoreAccess<S>)
        ensures
            r.log() == Seq::<Event>::empty(),
    {
        VMClockStoreAccess { store, log: Ghost(Seq::empty()) }
    }

    pub fn load_seq_count(&mut self) -> (r: u32)
        ensures
            final(self).log() == old(self).log().push(counter_loaded(r)),
    {
        let r = self.store.load_seq_count();
        self.log = Ghost(self.log@.push(counter_loaded(r)));
        r
    }

    pub fn store_seq_count(&mut self, seq_count: u32)
        ensures
            final(self).log() == old(self).log().push(counter_stored(seq_count)),
    {
        self.store.store_seq_count(seq_count);
        self.log = Ghost(self.log@.push(counter_stored(seq_count)));
    }

    pub fn store_body(&mut self, body: &[u8])
        ensures
            final(self).log() == old(self).log().push(bytes_stored(body@)),
    {
        self.store.store_body(body);
        self.log = Ghost(self.log@.push(bytes_stored(body@)));
    }
}

} // verus!
