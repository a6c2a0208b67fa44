//! Reader side of the generation-based publication protocol.
//!
//! A reader keeps the last consistent record it read, and the generation it was read at. It
//! never waits on the writer: while the writer is inside an update, or has not published
//! anything new, the cached record is returned.

use vstd::prelude::*;

use crate::access::{bytes_read, counter_loaded, version_loaded, CebAccess, Event};
use crate::ceb::{ClockErrorBound, ShmError};
use crate::layout::{record_of, CEB_SEGMENT_SIZE};
use crate::shm_header::{header_of, ShmHeader, CLOCKBOUND_SHM_SUPPORTED_VERSION, SHM_HEADER_SIZE};

verus! {

/// Number of attempts at a consistent read before giving up.
pub const SNAPSHOT_RETRIES: u32 = 1_000_000;

/// Access to the memory of a shared segment, as a reader needs it.
pub trait CebSegment {
    /// Load the version, with acquire ordering.
    fn load_version(&self) -> u16;

    /// Load the generation, with acquire ordering.
    fn load_generation(&self) -> u16;

    /// Copy the bytes of the record (volatile read).
    fn read_record(&self) -> Vec<u8>;
}

/// What opening a segment whose header is in `header_bytes`, of `segsize` bytes, gives.
pub open spec fn open_outcome(header_bytes: Seq<u8>, segsize: int) -> Result<(), ShmError> {
    if header_bytes.len() < SHM_HEADER_SIZE {
        Err(ShmError::SegmentNotInitialized)
    } else if header_of(header_bytes).validity() is Err {
        header_of(header_bytes).validity()
    } else if (header_of(header_bytes).segsize as int) < CEB_SEGMENT_SIZE || segsize < CEB_SEGMENT_SIZE {
        Err(ShmError::SegmentMalformed)
    } else {
        Ok(())
    }
}

/// A segment whose header carries a version other than the supported one (and other than the
/// wiped marker 0) is refused on open with `SegmentVersionNotSupported`, and a live segment whose
/// version changes to such a value makes the next snapshot fail the same way.
pub proof fn lemma_unsupported_version_never_silent(header_bytes: Seq<u8>, segsize: int, version: u16)
    requires
        header_bytes.len() >= SHM_HEADER_SIZE,
        header_of(header_bytes).magic[0] == crate::shm_header::SHM_MAGIC_0,
        header_of(header_bytes).magic[1] == crate::shm_header::SHM_MAGIC_1,
        header_of(header_bytes).generation != 0,
        header_of(header_bytes).version != 0,
        header_of(header_bytes).version != CLOCKBOUND_SHM_SUPPORTED_VERSION,
        version != 0,
        version != CLOCKBOUND_SHM_SUPPORTED_VERSION,
    ensures
        open_outcome(header_bytes, segsize) == Err::<(), ShmError>(
            ShmError::SegmentVersionNotSupported,
        ),
        version_outcome(version) == Err::<bool, ShmError>(ShmError::SegmentVersionNotSupported),
{
}

/// What a loaded version tells a snapshot: a wiped segment (0) is not live yet, the supported
/// version is live, any other version is an error.
pub open spec fn version_outcome(version: u16) -> Result<bool, ShmError> {
    if version == 0 {
        Ok(false)
    } else if version == CLOCKBOUND_SHM_SUPPORTED_VERSION {
        Ok(true)
    } else {
        Err(ShmError::SegmentVersionNotSupported)
    }
}

/// Whether an existing segment can be reused by the writer as it is: a reader could open it.
pub fn is_usable_segment(header_bytes: &[u8], segsize: usize) -> (r: bool)
    ensures
        r == (open_outcome(header_bytes@, segsize as int) is Ok),
{
    match ShmHeader::read(header_bytes) {
        Ok(header) => header.segsize as usize >= CEB_SEGMENT_SIZE && segsize >= CEB_SEGMENT_SIZE,
        Err(_) => false,
    }
}

/// Reader of the ClockErrorBound shared memory segment. Not thread safe: each thread holds its
/// own reader.
pub struct ShmReader<S: CebSegment> {
    segment: CebAccess<S>,
    snapshot_ceb: ClockErrorBound,
    snapshot_gen: u16,
    /// What the last snapshot loaded: the version, the first generation, and its attempts.
    observed: Ghost<(u16, u16, Seq<(Seq<u8>, u16)>)>,
}

/// Whether a first load of the generation calls for a copy of the record: the segment is
/// initialized (not 0), the writer is not inside an update (even) and it has published since the
/// cached record was read (another generation).
pub open spec fn copy_needed(generation: u16, cached_generation: u16) -> bool {
    generation != 0 && generation % 2 == 0 && generation != cached_generation
}

/// The generation a reader tracks after an attempt whose second load gave `second`: a completed
/// update (even, non-zero) is followed, anything else leaves the current generation.
pub open spec fn follow_generation(current: u16, second: u16) -> u16 {
    if second % 2 == 0 && second != 0 {
        second
    } else {
        current
    }
}

/// The generation current before attempt `k`, starting from the first load `first`; each attempt
/// is the bytes copied and the generation loaded after the copy.
pub open spec fn followed_generation(first: u16, attempts: Seq<(Seq<u8>, u16)>, k: nat) -> u16
    decreases k,
{
    if k == 0 {
        first
    } else {
        follow_generation(followed_generation(first, attempts, (k - 1) as nat), attempts[k - 1].1)
    }
}

/// Whether attempt `k` saw the current generation again after its copy: a consistent read.
pub open spec fn attempt_consistent(first: u16, attempts: Seq<(Seq<u8>, u16)>, k: nat) -> bool {
    followed_generation(first, attempts, k) == attempts[k as int].1
}

/// The attempts a snapshot makes: none unless a copy is needed; otherwise attempts until the
/// first consistent one, and no more than `SNAPSHOT_RETRIES`.
pub open spec fn snapshot_attempts_shape(
    cached_generation: u16,
    version: u16,
    first: u16,
    attempts: Seq<(Seq<u8>, u16)>,
) -> bool {
    if version == CLOCKBOUND_SHM_SUPPORTED_VERSION && copy_needed(first, cached_generation) {
        &&& 1 <= attempts.len() <= SNAPSHOT_RETRIES
        &&& forall|k: nat| k + 1 < attempts.len() ==> !#[trigger] attempt_consistent(first, attempts, k)
        &&& !attempt_consistent(first, attempts, (attempts.len() - 1) as nat) ==> attempts.len()
            == SNAPSHOT_RETRIES
    } else {
        attempts.len() == 0
    }
}

/// What a snapshot returns, and the record and generation it leaves cached, from the cache it
/// started with and what it loaded.
pub open spec fn snapshot_outcome(
    cached: ClockErrorBound,
    cached_generation: u16,
    version: u16,
    first: u16,
    attempts: Seq<(Seq<u8>, u16)>,
) -> (Result<ClockErrorBound, ShmError>, ClockErrorBound, u16) {
    match version_outcome(version) {
        Err(e) => (Err(e), cached, cached_generation),
        Ok(false) => (Ok(cached), cached, cached_generation),
        Ok(true) => {
            if !copy_needed(first, cached_generation) {
                (Ok(cached), cached, cached_generation)
            } else if attempts.len() > 0 && attempt_consistent(
                first,
                attempts,
                (attempts.len() - 1) as nat,
            ) {
                match record_of(attempts.last().0) {
                    Ok(c) => (Ok(c), c, attempts.last().1),
                    Err(e) => (Err(e), cached, cached_generation),
                }
            } else {
                (Err(ShmError::SegmentNotInitialized), cached, cached_generation)
            }
        },
    }
}

/// The loads a snapshot makes for the attempts `attempts`: for each, the copy of the record,
/// then the generation.
pub open spec fn attempt_events(attempts: Seq<(Seq<u8>, u16)>) -> Seq<Event>
    decreases attempts.len(),
{
    if attempts.len() == 0 {
        Seq::empty()
    } else {
        attempt_events(attempts.drop_last()) + seq![
            bytes_read(attempts.last().0),
            counter_loaded(attempts.last().1 as u32),
        ]
    }
}

/// The loads a snapshot makes, in order: the version; then, for the supported version, the
/// first generation and the attempts.
pub open spec fn snapshot_events(version: u16, first: u16, attempts: Seq<(Seq<u8>, u16)>) -> Seq<
    Event,
> {
    if version == CLOCKBOUND_SHM_SUPPORTED_VERSION {
        seq![version_loaded(version), counter_loaded(first as u32)] + attempt_events(attempts)
    } else {
        seq![version_loaded(version)]
    }
}

proof fn lemma_followed_live(first: u16, attempts: Seq<(Seq<u8>, u16)>, k: nat)
    requires
        first % 2 == 0,
        first != 0,
        k <= attempts.len(),
    ensures
        followed_generation(first, attempts, k) % 2 == 0,
        followed_generation(first, attempts, k) != 0,
    decreases k,
{
    if k > 0 {
        lemma_followed_live(first, attempts, (k - 1) as nat);
    }
}

/// A snapshot that copied the record and returns it took it from an attempt whose two loads of
/// the generation, just before and just after the copy, saw the same even, non-zero value: that
/// value is the cached generation afterwards.
pub proof fn lemma_snapshot_bracketed(
    cached: ClockErrorBound,
    cached_generation: u16,
    version: u16,
    first: u16,
    attempts: Seq<(Seq<u8>, u16)>,
)
    requires
        snapshot_attempts_shape(cached_generation, version, first, attempts),
        version == CLOCKBOUND_SHM_SUPPORTED_VERSION,
        copy_needed(first, cached_generation),
        snapshot_outcome(cached, cached_generation, version, first, attempts).0 is Ok,
    ensures
        ({
            let n = attempts.len();
            let g = attempts[n - 1].1;
            &&& followed_generation(first, attempts, (n - 1) as nat) == g
            &&& g % 2 == 0
            &&& g != 0
            &&& record_of(attempts[n - 1].0) is Ok
            &&& snapshot_outcome(cached, cached_generation, version, first, attempts) == (
                Ok::<ClockErrorBound, ShmError>(record_of(attempts[n - 1].0)->Ok_0),
                record_of(attempts[n - 1].0)->Ok_0,
                g,
            )
        }),
{
    lemma_followed_live(first, attempts, (attempts.len() - 1) as nat);
}

proof fn lemma_followed_prefix(first: u16, a: Seq<(Seq<u8>, u16)>, x: (Seq<u8>, u16), k: nat)
    requires
        k <= a.len(),
    ensures
        followed_generation(first, a.push(x), k) == followed_generation(first, a, k),
    decreases k,
{
    if k > 0 {
        lemma_followed_prefix(first, a, x, (k - 1) as nat);
        assert(a.push(x)[k - 1] == a[k - 1]);
    }
}

impl<S: CebSegment> ShmReader<S> {
    /// The record last read consistently (a zeroed record before the first one).
    pub closed spec fn cached(&self) -> ClockErrorBound {
        self.snapshot_ceb
    }

    /// The generation at which the cached record was read (0 before the first one).
    pub closed spec fn cached_generation(&self) -> u16 {
        self.snapshot_gen
    }

    /// What the last snapshot loaded: the version, the first generation (0 if not loaded), and
    /// for each attempt at a consistent read the bytes copied and the generation loaded after.
    pub closed spec fn observed(&self) -> (u16, u16, Seq<(Seq<u8>, u16)>) {
        self.observed@
    }

    /// Every load the reader made of its segment, in order.
    pub closed spec fn log(&self) -> Seq<Event> {
        self.segment.log()
    }

    /// The cached generation is never odd: a record is only taken at a stable generation.
    pub open spec fn inv(&self) -> bool {
        self.cached_generation() % 2 == 0
    }

    /// Open a reader on a mapped segment, given the bytes at its start and its size.
    ///
    /// The header must be valid, and both the size it declares and the mapped size must hold the
    /// header and the record.
    pub fn new(segment: S, header_bytes: &[u8], segsize: usize) -> (r: Result<ShmReader<S>, ShmError>)
        ensures
            r is Ok <==> open_outcome(header_bytes@, segsize as int) is Ok,
            r is Err ==> open_outcome(header_bytes@, segsize as int) == Err::<(), ShmError>(
                r->Err_0,
            ),
            r is Ok ==> r->Ok_0.inv() && r->Ok_0.cached_generation() == 0
                && r->Ok_0.cached() == ClockErrorBound::zeroed_spec(),
    {
        let header = ShmHeader::read(header_bytes)?;
        if (header.segsize as usize) < CEB_SEGMENT_SIZE || segsize < CEB_SEGMENT_SIZE {
            return Err(ShmError::SegmentMalformed);
        }
        Ok(
            ShmReader {
                segment: CebAccess::new(segment),
                snapshot_ceb: ClockErrorBound::zeroed(),
                snapshot_gen: 0,
                observed: Ghost((0, 0, Seq::empty())),
            },
        )
    }

    /// What a loaded version tells a snapshot.
    pub fn check_version(version: u16) -> (r: Result<bool, ShmError>)
        ensures
            r == version_outcome(version),
    {
        if version == 0 {
            Ok(false)
        } else if version == CLOCKBOUND_SHM_SUPPORTED_VERSION {
            Ok(true)
        } else {
            Err(ShmError::SegmentVersionNotSupported)
        }
    }

    /// Take the record read between two loads of the generation, `first_gen` before the copy and
    /// `second_gen` after it. The copy is consistent only if both loads saw the same (even)
    /// generation: only then is it decoded and cached, at that generation.
    pub fn install_if_consistent(&mut self, first_gen: u16, record: &[u8], second_gen: u16) -> (r:
        Result<bool, ShmError>)
        requires
            first_gen % 2 == 0,
            first_gen != 0,
        ensures
            first_gen != second_gen ==> r == Ok::<bool, ShmError>(false),
            first_gen == second_gen ==> match record_of(record@) {
                Ok(c) => r == Ok::<bool, ShmError>(true),
                Err(e) => r == Err::<bool, ShmError>(e),
            },
            r == Ok::<bool, ShmError>(true) ==> final(self).cached() == record_of(record@)->Ok_0
                && final(self).cached_generation() == first_gen,
            r != Ok::<bool, ShmError>(true) ==> final(self).cached() == old(self).cached()
                && final(self).cached_generation() == old(self).cached_generation(),
            old(self).inv() ==> final(self).inv(),
            final(self).log() == old(self).log(),
    {
        if first_gen != second_gen {
            return Ok(false);
        }
        let ceb = ClockErrorBound::from_bytes(record)?;
        self.snapshot_ceb = ceb;
        self.snapshot_gen = first_gen;
        Ok(true)
    }

    /// Return a consistent snapshot of the record.
    ///
    /// A wiped segment (version or generation 0), a writer inside an update (odd generation) or
    /// an unchanged generation give the cached record. A version other than the supported one is
    /// an error. Otherwise the record is copied until two loads of the generation around the copy
    /// agree, following the writer's completed updates, for at most `SNAPSHOT_RETRIES` attempts;
    /// running out of attempts means the segment is not initialized.
    pub fn snapshot(&mut self) -> (r: Result<ClockErrorBound, ShmError>)
        requires
            old(self).inv(),
        ensures
            final(self).inv(),
            final(self).log() == old(self).log() + snapshot_events(
                final(self).observed().0,
                final(self).observed().1,
                final(self).observed().2,
            ),
            snapshot_attempts_shape(
                old(self).cached_generation(),
                final(self).observed().0,
                final(self).observed().1,
                final(self).observed().2,
            ),
            (r, final(self).cached(), final(self).cached_generation()) == snapshot_outcome(
                old(self).cached(),
                old(self).cached_generation(),
                final(self).observed().0,
                final(self).observed().1,
                final(self).observed().2,
            ),
    {
        let ghost log0 = self.segment.log();
        let version = self.segment.load_version();
        match Self::check_version(version) {
            Ok(true) => {},
            Ok(false) => {
                self.observed = Ghost((version, 0, Seq::empty()));
                assert(self.segment.log() =~= log0 + snapshot_events(version, 0, Seq::empty()));
                return Ok(self.snapshot_ceb);
            },
            Err(e) => {
                self.observed = Ghost((version, 0, Seq::empty()));
                assert(self.segment.log() =~= log0 + snapshot_events(version, 0, Seq::empty()));
                return Err(e);
            },
        }
        let first = self.segment.load_generation();
        assert(self.segment.log() =~= log0 + snapshot_events(version, first, Seq::empty()));
        if !Self::copy_needed(first, self.snapshot_gen) {
            self.observed = Ghost((version, first, Seq::empty()));
            return Ok(self.snapshot_ceb);
        }
        let mut current = first;
        let ghost mut attempts: Seq<(Seq<u8>, u16)> = Seq::empty();
        let mut retries: u32 = SNAPSHOT_RETRIES;
        while retries > 0
            invariant
                version == CLOCKBOUND_SHM_SUPPORTED_VERSION,
                copy_needed(first, old(self).snapshot_gen),
                0 <= retries <= SNAPSHOT_RETRIES,
                attempts.len() == SNAPSHOT_RETRIES - retries,
                current == followed_generation(first, attempts, attempts.len()),
                current % 2 == 0,
                current != 0,
                forall|k: nat| k < attempts.len() ==> !#[trigger] attempt_consistent(first, attempts, k),
                self.snapshot_ceb == old(self).snapshot_ceb,
                self.snapshot_gen == old(self).snapshot_gen,
                self.snapshot_gen % 2 == 0,
                self.segment.log() == log0 + snapshot_events(version, first, attempts),
                log0 == old(self).segment.log(),
            decreases retries,
        {
            let record = self.segment.read_record();
            let second = self.segment.load_generation();
            let ghost before = attempts;
            proof {
                attempts = attempts.push((record@, second));
                assert(attempts.drop_last() == before);
                assert(self.segment.log() =~= log0 + snapshot_events(version, first, attempts));
                lemma_followed_prefix(first, before, (record@, second), before.len());
                assert forall|k: nat| k < before.len() implies !#[trigger] attempt_consistent(first, attempts, k) by {
                    lemma_followed_prefix(first, before, (record@, second), k);
                    assert(attempts[k as int] == before[k as int]);
                    assert(!attempt_consistent(first, before, k));
                }
            }
            match self.install_if_consistent(current, record.as_slice(), second) {
                Ok(true) => {
                    self.observed = Ghost((version, first, attempts));
                    return Ok(self.snapshot_ceb);
                },
                Ok(false) => {},
                Err(e) => {
                    self.observed = Ghost((version, first, attempts));
                    return Err(e);
                },
            }
            current = Self::follow(current, second);
            retries = retries - 1;
        }
        self.observed = Ghost((version, first, attempts));
        Err(ShmError::SegmentNotInitialized)
    }

    /// Whether a first load of the generation calls for a copy of the record.
    pub fn copy_needed(generation: u16, cached_generation: u16) -> (r: bool)
        ensures
            r == copy_needed(generation, cached_generation),
    {
        generation != 0 && generation % 2 == 0 && generation != cached_generation
    }

    /// The generation to track after an attempt whose second load gave `second`.
    pub fn follow(current: u16, second: u16) -> (r: u16)
        ensures
            r == follow_generation(current, second),
    {
        if second % 2 == 0 && second != 0 {
            second
        } else {
            current
        }
    }
}

} // verus!
