use klv_overlay::container::{
    demux_streams, mux_streams, tag_metadata_record, tag_video_frame, ContainerRecord,
    StreamKind, VideoFrame,
};
use klv_overlay::store::MetadataRecord;
use klv_overlay::timestamp::Timestamp;

fn video_rec(ms: u64, payload: &[u8]) -> ContainerRecord {
    ContainerRecord { kind: StreamKind::Video, ts: Timestamp::At(ms), payload: payload.to_vec() }
}

fn meta_rec(ms: u64, payload: &[u8]) -> ContainerRecord {
    ContainerRecord { kind: StreamKind::Metadata, ts: Timestamp::At(ms), payload: payload.to_vec() }
}

fn assert_same(a: &ContainerRecord, kind: StreamKind, ms: u64, payload: &[u8]) {
    assert_eq!(a.kind, kind);
    assert_eq!(a.ts, Timestamp::At(ms));
    assert_eq!(a.payload, payload.to_vec());
}

#[test]
fn round_trip_recovers_both_streams() {
    let video = vec![video_rec(0, &[1]), video_rec(33, &[2]), video_rec(66, &[3])];
    let meta = vec![meta_rec(0, &[10]), meta_rec(33, &[20])];
    let container = mux_streams(video, meta);
    assert_eq!(container.len(), 5);
    let (v_out, m_out) = demux_streams(container);
    assert_eq!(v_out.len(), 3);
    assert_same(&v_out[0], StreamKind::Video, 0, &[1]);
    assert_same(&v_out[1], StreamKind::Video, 33, &[2]);
    assert_same(&v_out[2], StreamKind::Video, 66, &[3]);
    assert_eq!(m_out.len(), 2);
    assert_same(&m_out[0], StreamKind::Metadata, 0, &[10]);
    assert_same(&m_out[1], StreamKind::Metadata, 33, &[20]);
}

#[test]
fn round_trip_keeps_timestamps_unchanged() {
    let video = vec![video_rec(500, b"frame")];
    let meta = vec![meta_rec(500, b"klv")];
    let (v_out, m_out) = demux_streams(mux_streams(video, meta));
    assert_eq!(v_out[0].ts, Timestamp::At(500));
    assert_eq!(m_out[0].ts, Timestamp::At(500));
}

#[test]
fn mux_keeps_order_within_each_stream() {
    let video = vec![video_rec(10, &[1]), video_rec(20, &[2])];
    let meta = vec![meta_rec(5, &[10]), meta_rec(15, &[20]), meta_rec(25, &[30])];
    let container = mux_streams(video, meta);
    let video_ts: Vec<u64> = container
        .iter()
        .filter(|r| r.kind == StreamKind::Video)
        .map(|r| r.ts.millis().unwrap())
        .collect();
    let meta_ts: Vec<u64> = container
        .iter()
        .filter(|r| r.kind == StreamKind::Metadata)
        .map(|r| r.ts.millis().unwrap())
        .collect();
    assert_eq!(video_ts, vec![10, 20]);
    assert_eq!(meta_ts, vec![5, 15, 25]);
}

#[test]
fn empty_streams_round_trip() {
    let (v_out, m_out) = demux_streams(mux_streams(Vec::new(), Vec::new()));
    assert!(v_out.is_empty());
    assert!(m_out.is_empty());
}

#[test]
fn one_sided_container_round_trips() {
    let meta = vec![meta_rec(7, &[1, 2, 3, 4])];
    let (v_out, m_out) = demux_streams(mux_streams(Vec::new(), meta));
    assert!(v_out.is_empty());
    assert_eq!(m_out.len(), 1);
    assert_same(&m_out[0], StreamKind::Metadata, 7, &[1, 2, 3, 4]);
}

#[test]
fn tagging_keeps_timestamp_and_payload() {
    let f = VideoFrame { tag: StreamKind::Video, ts: Timestamp::At(99), payload: vec![5, 6] };
    let tagged = tag_video_frame(&f);
    assert_same(&tagged, StreamKind::Video, 99, &[5, 6]);

    let m = MetadataRecord { ts: Timestamp::At(99), payload: vec![7] };
    let tagged = tag_metadata_record(&m);
    assert_same(&tagged, StreamKind::Metadata, 99, &[7]);
}
