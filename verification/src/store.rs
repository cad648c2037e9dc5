//! The latest-value store for metadata records.
//!
//! A single-element cache shared by the metadata-arrival writer and the
//! render-time reader: a new arrival unconditionally replaces the previous
//! record, and a read returns a snapshot of the most recently published
//! record, or nothing if none was ever published. The surrounding runtime
//! guards the cell with a mutual-exclusion critical section bounded to the
//! swap itself; the logic here is what that critical section performs.

use crate::timestamp::Timestamp;
use vstd::prelude::*;

verus! {

/// An out-of-band binary metadata record: an opaque payload stamped with
/// the presentation timestamp of the video frame that triggered it.
#[derive(Debug)]
pub struct MetadataRecord {
    pub ts: Timestamp,
    pub payload: Vec<u8>,
}

/// The mathematical content of a metadata record.
pub ghost struct RecordView {
    pub ts: Timestamp,
    pub payload: Seq<u8>,
}

impl MetadataRecord {
    /// The record's mathematical content.
    pub open spec fn view_of(self) -> RecordView {
        RecordView { ts: self.ts, payload: self.payload@ }
    }
}

/// Copies a byte vector.
pub fn clone_bytes(v: &Vec<u8>) -> (r: Vec<u8>)
    ensures
        r@ == v@,
{
    let mut out: Vec<u8> = Vec::new();
    let mut i: usize = 0;
    while i < v.len()
        invariant
            i <= v.len(),
            out@ == v@.take(i as int),
        decreases v.len() - i,
    {
        out.push(v[i]);
        i = i + 1;
        proof {
            assert(out@ =~= v@.take(i as int));
        }
    }
    proof {
        assert(v@.take(v@.len() as int) =~= v@);
    }
    out
}

/// Copies a metadata record.
pub fn clone_record(r: &MetadataRecord) -> (c: MetadataRecord)
    ensures
        c.view_of() == r.view_of(),
{
    MetadataRecord { ts: r.ts, payload: clone_bytes(&r.payload) }
}

/// The record a reader must observe after the given publication history:
/// the most recent publication, or nothing if there was none.
pub open spec fn latest_of(history: Seq<RecordView>) -> Option<RecordView> {
    if history.len() == 0 {
        None
    } else {
        Some(history.last())
    }
}

/// The latest-value store: holds at most one in-flight metadata record.
/// The ghost `history` records every record ever published, in order.
pub struct LatestValueStore {
    slot: Option<MetadataRecord>,
    history: Ghost<Seq<RecordView>>,
}

impl LatestValueStore {
    /// The slot holds exactly the most recent publication.
    pub closed spec fn wf(self) -> bool {
        match self.slot {
            None => self.history@.len() == 0,
            Some(r) => self.history@.len() > 0 && r.view_of() == self.history@.last(),
        }
    }

    /// Everything ever published, in publication order.
    pub closed spec fn published(self) -> Seq<RecordView> {
        self.history@
    }

    /// An empty store: nothing was ever published.
    pub fn new() -> (r: LatestValueStore)
        ensures
            r.wf(),
            r.published() == Seq::<RecordView>::empty(),
    {
        LatestValueStore { slot: None, history: Ghost(Seq::empty()) }
    }

    /// Atomically replaces the stored record. Called from the
    /// metadata-arrival path; the previous record, if any, is discarded.
    pub fn publish(&mut self, record: MetadataRecord)
        requires
            old(self).wf(),
        ensures
            final(self).wf(),
            final(self).published() == old(self).published().push(record.view_of()),
            latest_of(final(self).published()) == Some(record.view_of()),
    {
        proof {
            self.history@ = self.history@.push(record.view_of());
        }
        self.slot = Some(record);
    }

    /// Returns a snapshot of the current record: the most recently
    /// published record, never an older one, or `None` if no record has
    /// ever been published.
    pub fn read(&self) -> (r: Option<MetadataRecord>)
        requires
            self.wf(),
        ensures
            (match r {
                None => latest_of(self.published()) is None,
                Some(rec) => latest_of(self.published()) == Some(rec.view_of()),
            }),
            r is Some <==> self.published().len() > 0,
    {
        match &self.slot {
            None => None,
            Some(rec) => Some(clone_record(rec)),
        }
    }
}

/// After a publication, the latest value is that publication's record —
/// never an older one — whatever was published before.
pub proof fn lemma_read_after_publish(history: Seq<RecordView>, r: RecordView)
    ensures
        latest_of(history.push(r)) == Some(r),
{
    assert(history.push(r).last() == r);
}

} // verus!
