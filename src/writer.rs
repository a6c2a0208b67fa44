//! Writer side of the generation-based publication protocol.
//!
//! The `generation` counter of the segment header tells readers whether the record is stable:
//! 0 means the segment is wiped, an odd value means the writer is inside an update, an even
//! non-zero value means a complete record is visible.

use vstd::prelude::*;

use crate::access::{bytes_stored, counter_loaded, counter_stored, version_stored, Event, StoreAccess};
use crate::ceb::ClockErrorBound;
use crate::shm_header::CLOCKBOUND_SHM_SUPPORTED_VERSION;

verus! {

/// The generation stored when entering an update: an even generation moves to the next (odd)
/// value, an odd one (a writer died inside an update) is kept.
pub open spec fn entering_generation(g: u16) -> u16 {
    if g % 2 == 0 {
        (g + 1) as u16
    } else {
        g
    }
}

/// The generation stored when completing an update: the next value, skipping the 0 sentinel on
/// rollover.
pub open spec fn completed_generation(g: u16) -> u16 {
    if g == u16::MAX {
        2
    } else {
        (g + 1) as u16
    }
}

/// The generation left live by one update starting from generation `g`.
pub open spec fn generation_after_write(g: u16) -> u16 {
    completed_generation(entering_generation(g))
}

/// The generation left live by `n` updates starting from generation `g`.
pub open spec fn generation_after_writes(g: u16, n: nat) -> u16
    decreases n,
{
    if n == 0 {
        g
    } else {
        generation_after_write(generation_after_writes(g, (n - 1) as nat))
    }
}

/// The generation to store when entering an update.
pub fn begin_update_generation(g: u16) -> (r: u16)
    ensures
        r == entering_generation(g),
        r % 2 == 1,
{
    if g % 2 == 0 {
        g + 1
    } else {
        g
    }
}

/// The generation to store when completing an update that was entered with `g`.
pub fn end_update_generation(g: u16) -> (r: u16)
    requires
        g % 2 == 1,
    ensures
        r == completed_generation(g),
        r % 2 == 0,
        r != 0,
{
    if g == u16::MAX {
        2
    } else {
        g + 1
    }
}

/// Each update leaves an even, non-zero generation live.
pub proof fn lemma_write_leaves_live_generation(g: u16)
    ensures
        entering_generation(g) % 2 == 1,
        generation_after_write(g) % 2 == 0,
        generation_after_write(g) != 0,
{
}

/// Whatever the generation a writer starts from, after any positive number of updates,
/// including across the 16-bit rollover, the live generation is even and never 0.
pub proof fn lemma_generation_never_zero(g: u16, n: nat)
    requires
        n > 0,
    ensures
        generation_after_writes(g, n) % 2 == 0,
        generation_after_writes(g, n) != 0,
    decreases n,
{
    lemma_write_leaves_live_generation(generation_after_writes(g, (n - 1) as nat));
}

/// Two updates in a row from a live generation always change it, so a reader waiting on a
/// generation it cached sees progress.
pub proof fn lemma_write_changes_live_generation(g: u16)
    requires
        g % 2 == 0,
        g != 0,
    ensures
        generation_after_write(g) != g,
{
}

/// Access to the memory of a shared segment, as the writer needs it.
pub trait SegmentStore {
    /// Load the generation, with acquire ordering.
    fn load_generation(&self) -> u16;

    /// Store the generation, with release ordering.
    fn store_generation(&mut self, generation: u16);

    /// Store the version, with release ordering.
    fn store_version(&mut self, version: u16);

    /// Copy the encoded record into place.
    fn store_record(&mut self, record: &[u8]);
}

/// Publication of a ClockErrorBound record.
pub trait ShmWrite {
    /// Publish a record.
    fn write(&mut self, ceb: &ClockErrorBound);
}

/// The accesses of one update that loaded generation `g`: the load, the odd generation entering
/// the update, the record, then the even, non-zero generation completing it.
pub open spec fn update_events(g: u16, ceb: ClockErrorBound) -> Seq<Event> {
    seq![
        counter_loaded(g as u32),
        counter_stored(entering_generation(g) as u32),
        bytes_stored(crate::layout::record_bytes(ceb)),
        counter_stored(completed_generation(entering_generation(g)) as u32),
    ]
}

/// Writer of the ClockErrorBound shared memory segment.
pub struct ShmWriter<S: SegmentStore> {
    store: StoreAccess<S>,
}

impl<S: SegmentStore> ShmWriter<S> {
    /// Every access the writer made to its segment, in order.
    pub closed spec fn log(&self) -> Seq<Event> {
        self.store.log()
    }

    /// Take hold of a segment that has been mapped (and wiped, if it was not usable), and mark it
    /// with the supported version, which tells readers its layout.
    pub fn new(store: S) -> (r: ShmWriter<S>)
        ensures
            r.log() == seq![version_stored(CLOCKBOUND_SHM_SUPPORTED_VERSION)],
    {
        let mut store = StoreAccess::new(store);
        store.store_version(CLOCKBOUND_SHM_SUPPORTED_VERSION);
        assert(store.log() =~= seq![version_stored(CLOCKBOUND_SHM_SUPPORTED_VERSION)]);
        ShmWriter { store }
    }

    /// The generations stored by one update from generation `g`: entering, then completing.
    pub fn update_generations(g: u16) -> (r: (u16, u16))
        ensures
            r.0 == entering_generation(g),
            r.1 == completed_generation(r.0),
            r.0 % 2 == 1,
            r.1 % 2 == 0,
            r.1 != 0,
    {
        let entering = begin_update_generation(g);
        let completed = end_update_generation(entering);
        (entering, completed)
    }

    /// Publish a record: load the generation `g`, store the odd generation entering the update,
    /// copy the record, then store the next even, non-zero generation.
    pub fn publish(&mut self, ceb: &ClockErrorBound)
        ensures
            exists|g: u16| final(self).log() == old(self).log() + update_events(g, *ceb),
    {
        let g = self.store.load_generation();
        let (entering, completed) = Self::update_generations(g);
        self.store.store_generation(entering);
        let record = ceb.to_bytes();
        self.store.store_record(record.as_slice());
        self.store.store_generation(completed);
        assert(self.store.log() =~= old(self).store.log() + update_events(g, *ceb));
    }
}

impl<S: SegmentStore> ShmWrite for ShmWriter<S> {
    fn write(&mut self, ceb: &ClockErrorBound) {
        self.publish(ceb);
    }
}

} // verus!
