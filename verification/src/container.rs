//! The container round trip: interleaving two independently-timestamped
//! streams into one container stream and splitting them apart again.
//!
//! The multiplexer preserves each input's presentation timestamp and the
//! relative order within each input stream; the demultiplexer recovers each
//! contained stream exactly. The container bitstream itself is an external
//! collaborator; what is modelled and proved here is its stream-level
//! contract: each stream survives the round trip unchanged.

use crate::store::{clone_bytes, MetadataRecord};
use crate::timestamp::Timestamp;
use vstd::prelude::*;
use vstd::seq_lib::*;

verus! {

/// The type tag a contained record carries: elementary video, or the
/// out-of-band binary metadata stream.
#[derive(Clone, Copy, PartialEq, Eq, Structural, Debug)]
pub enum StreamKind {
    Video,
    Metadata,
}

/// A video frame: an opaque payload, its presentation timestamp, and the
/// tag identifying the stream it travels on.
#[derive(Debug)]
pub struct VideoFrame {
    pub tag: StreamKind,
    pub ts: Timestamp,
    pub payload: Vec<u8>,
}

/// One record of the combined container stream: a type tag, the record's
/// presentation timestamp, and its opaque payload.
#[derive(Debug)]
pub struct ContainerRecord {
    pub kind: StreamKind,
    pub ts: Timestamp,
    pub payload: Vec<u8>,
}

/// Recognizes video records.
pub open spec fn video_pred() -> spec_fn(ContainerRecord) -> bool {
    |r: ContainerRecord| r.kind == StreamKind::Video
}

/// Recognizes metadata records.
pub open spec fn meta_pred() -> spec_fn(ContainerRecord) -> bool {
    |r: ContainerRecord| r.kind == StreamKind::Metadata
}

/// The interleaving key: a record's timestamp, with `Unset` ordered first.
pub open spec fn order_key(r: ContainerRecord) -> u64 {
    r.ts.spec_millis()
}

/// The container stream the multiplexer produces: a merge of the two
/// inputs by presentation timestamp, video first on ties, each input's
/// internal order kept.
pub open spec fn merge_by_ts(v: Seq<ContainerRecord>, m: Seq<ContainerRecord>) -> Seq<
    ContainerRecord,
>
    decreases v.len() + m.len(),
{
    if v.len() == 0 {
        m
    } else if m.len() == 0 {
        v
    } else if order_key(v.first()) <= order_key(m.first()) {
        seq![v.first()] + merge_by_ts(v.drop_first(), m)
    } else {
        seq![m.first()] + merge_by_ts(v, m.drop_first())
    }
}

/// Tags a video frame for the multiplexer, keeping its timestamp.
pub fn tag_video_frame(f: &VideoFrame) -> (r: ContainerRecord)
    ensures
        r.kind == StreamKind::Video,
        r.ts == f.ts,
        r.payload@ == f.payload@,
{
    ContainerRecord { kind: StreamKind::Video, ts: f.ts, payload: clone_bytes(&f.payload) }
}

/// Tags a metadata record for the multiplexer, keeping its timestamp.
pub fn tag_metadata_record(m: &MetadataRecord) -> (r: ContainerRecord)
    ensures
        r.kind == StreamKind::Metadata,
        r.ts == m.ts,
        r.payload@ == m.payload@,
{
    ContainerRecord { kind: StreamKind::Metadata, ts: m.ts, payload: clone_bytes(&m.payload) }
}

/// The timestamp key of a record, for the interleaving decision.
fn order_key_of(r: &ContainerRecord) -> (k: u64)
    ensures
        k == order_key(*r),
{
    match r.ts {
        Timestamp::Unset => 0,
        Timestamp::At(ms) => ms,
    }
}

/// Interleaves the video stream and the metadata stream into one container
/// stream: a merge by presentation timestamp that preserves each input's
/// timestamps and relative ordering.
pub fn mux_streams(video: Vec<ContainerRecord>, meta: Vec<ContainerRecord>) -> (out: Vec<
    ContainerRecord,
>)
    ensures
        out@ == merge_by_ts(video@, meta@),
{
    let ghost gv = video@;
    let ghost gm = meta@;
    let mut video = video;
    let mut meta = meta;
    let mut out: Vec<ContainerRecord> = Vec::new();
    while video.len() > 0 || meta.len() > 0
        invariant
            merge_by_ts(gv, gm) == out@ + merge_by_ts(video@, meta@),
        decreases video.len() + meta.len(),
    {
        let take_video = if meta.len() == 0 {
            true
        } else if video.len() == 0 {
            false
        } else {
            order_key_of(&video[0]) <= order_key_of(&meta[0])
        };
        let ghost prev_v = video@;
        let ghost prev_m = meta@;
        if take_video {
            let r = video.remove(0);
            proof {
                assert(prev_v.remove(0) =~= prev_v.drop_first());
                assert(merge_by_ts(prev_v, prev_m) =~= seq![r] + merge_by_ts(
                    video@,
                    meta@,
                ));
            }
            out.push(r);
        } else {
            let r = meta.remove(0);
            proof {
                assert(prev_m.remove(0) =~= prev_m.drop_first());
                assert(merge_by_ts(prev_v, prev_m) =~= seq![r] + merge_by_ts(
                    video@,
                    meta@,
                ));
            }
            out.push(r);
        }
        proof {
            assert(merge_by_ts(gv, gm) =~= out@ + merge_by_ts(video@, meta@));
        }
    }
    proof {
        assert(out@ + merge_by_ts(video@, meta@) =~= out@);
    }
    out
}

/// Splitting one record off the front of a sequence and filtering commute.
proof fn lemma_filter_push(s: Seq<ContainerRecord>, x: ContainerRecord, pred: spec_fn(
    ContainerRecord,
) -> bool)
    ensures
        s.push(x).filter(pred) == if pred(x) {
            s.filter(pred).push(x)
        } else {
            s.filter(pred)
        },
{
    reveal(Seq::filter);
    assert(s.push(x).drop_last() =~= s);
    assert(s.push(x).last() == x);
}

/// Consumes the container stream and splits it back into the video stream
/// and the metadata stream, preserving each record and its order.
pub fn demux_streams(container: Vec<ContainerRecord>) -> (r: (
    Vec<ContainerRecord>,
    Vec<ContainerRecord>,
))
    ensures
        r.0@ == container@.filter(video_pred()),
        r.1@ == container@.filter(meta_pred()),
{
    let ghost orig = container@;
    let mut rest = container;
    let mut video: Vec<ContainerRecord> = Vec::new();
    let mut meta: Vec<ContainerRecord> = Vec::new();
    while rest.len() > 0
        invariant
            rest.len() <= orig.len(),
            rest@ == orig.skip(orig.len() - rest.len()),
            video@ == orig.take(orig.len() - rest.len()).filter(video_pred()),
            meta@ == orig.take(orig.len() - rest.len()).filter(meta_pred()),
        decreases rest.len(),
    {
        let ghost k = orig.len() - rest@.len();
        let rec = rest.remove(0);
        proof {
            assert(rec == orig[k]);
            assert(rest@ =~= orig.skip(k + 1));
            assert(orig.take(k + 1) =~= orig.take(k).push(orig[k]));
            lemma_filter_push(orig.take(k), orig[k], video_pred());
            lemma_filter_push(orig.take(k), orig[k], meta_pred());
        }
        match rec.kind {
            StreamKind::Video => video.push(rec),
            StreamKind::Metadata => meta.push(rec),
        }
    }
    proof {
        assert(orig.take(orig.len() as int) =~= orig);
    }
    (video, meta)
}

/// Filtering keeps a sequence whose records all satisfy the predicate.
proof fn lemma_filter_all(s: Seq<ContainerRecord>, pred: spec_fn(ContainerRecord) -> bool)
    requires
        forall|i: int| 0 <= i < s.len() ==> pred(#[trigger] s[i]),
    ensures
        s.filter(pred) == s,
    decreases s.len(),
{
    reveal(Seq::filter);
    if s.len() > 0 {
        lemma_filter_all(s.drop_last(), pred);
    }
}

/// Filtering empties a sequence none of whose records satisfy the predicate.
proof fn lemma_filter_none(s: Seq<ContainerRecord>, pred: spec_fn(ContainerRecord) -> bool)
    requires
        forall|i: int| 0 <= i < s.len() ==> !pred(#[trigger] s[i]),
    ensures
        s.filter(pred) == Seq::<ContainerRecord>::empty(),
    decreases s.len(),
{
    reveal(Seq::filter);
    if s.len() > 0 {
        lemma_filter_none(s.drop_last(), pred);
    }
}

/// The container round trip is lossless: demultiplexing the merged
/// container stream recovers the video stream and the metadata stream
/// exactly — every record, its payload and its timestamp, in order.
pub proof fn lemma_container_round_trip(v: Seq<ContainerRecord>, m: Seq<ContainerRecord>)
    requires
        forall|i: int| 0 <= i < v.len() ==> (#[trigger] v[i]).kind == StreamKind::Video,
        forall|i: int| 0 <= i < m.len() ==> (#[trigger] m[i]).kind == StreamKind::Metadata,
    ensures
        merge_by_ts(v, m).filter(video_pred()) == v,
        merge_by_ts(v, m).filter(meta_pred()) == m,
        merge_by_ts(v, m).len() == v.len() + m.len(),
    decreases v.len() + m.len(),
{
    if v.len() == 0 {
        lemma_filter_none(m, video_pred());
        lemma_filter_all(m, meta_pred());
    } else if m.len() == 0 {
        lemma_filter_all(v, video_pred());
        lemma_filter_none(v, meta_pred());
    } else {
        let head = if order_key(v.first()) <= order_key(m.first()) {
            v.first()
        } else {
            m.first()
        };
        let tail = if order_key(v.first()) <= order_key(m.first()) {
            merge_by_ts(v.drop_first(), m)
        } else {
            merge_by_ts(v, m.drop_first())
        };
        if order_key(v.first()) <= order_key(m.first()) {
            lemma_container_round_trip(v.drop_first(), m);
        } else {
            lemma_container_round_trip(v, m.drop_first());
        }
        Seq::filter_distributes_over_add(seq![head], tail, video_pred());
        Seq::filter_distributes_over_add(seq![head], tail, meta_pred());
        lemma_filter_push(Seq::empty(), head, video_pred());
        lemma_filter_push(Seq::empty(), head, meta_pred());
        assert(Seq::<ContainerRecord>::empty().push(head) =~= seq![head]);
        assert(Seq::<ContainerRecord>::empty().filter(video_pred())
            == Seq::<ContainerRecord>::empty()) by {
            reveal(Seq::filter);
        }
        assert(Seq::<ContainerRecord>::empty().filter(meta_pred())
            == Seq::<ContainerRecord>::empty()) by {
            reveal(Seq::filter);
        }
        if order_key(v.first()) <= order_key(m.first()) {
            assert(seq![head] + v.drop_first() =~= v);
            assert(seq![head].filter(video_pred()) + v.drop_first() =~= v);
        } else {
            assert(seq![head] + m.drop_first() =~= m);
            assert(seq![head].filter(meta_pred()) + m.drop_first() =~= m);
        }
    }
}

/// Per-record form of the round trip: the record a stream fed into the
/// multiplexer reappears on the matching demultiplexer output at the same
/// position with its timestamp unchanged.
pub proof fn lemma_timestamp_round_trip(
    v: Seq<ContainerRecord>,
    m: Seq<ContainerRecord>,
    i: int,
)
    requires
        forall|j: int| 0 <= j < v.len() ==> (#[trigger] v[j]).kind == StreamKind::Video,
        forall|j: int| 0 <= j < m.len() ==> (#[trigger] m[j]).kind == StreamKind::Metadata,
    ensures
        0 <= i < v.len() ==> merge_by_ts(v, m).filter(video_pred())[i].ts == v[i].ts,
        0 <= i < m.len() ==> merge_by_ts(v, m).filter(meta_pred())[i].ts == m[i].ts,
{
    lemma_container_round_trip(v, m);
}

} // verus!
