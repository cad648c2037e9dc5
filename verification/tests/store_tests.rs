use klv_overlay::store::{LatestValueStore, MetadataRecord};
use klv_overlay::timestamp::Timestamp;

fn record(ms: u64, payload: &[u8]) -> MetadataRecord {
    MetadataRecord { ts: Timestamp::At(ms), payload: payload.to_vec() }
}

#[test]
fn read_before_any_publish_is_none() {
    let store = LatestValueStore::new();
    assert!(store.read().is_none());
}

#[test]
fn read_after_publish_returns_that_record() {
    let mut store = LatestValueStore::new();
    store.publish(record(500, &[1, 2, 3]));
    let got = store.read().expect("a record was published");
    assert_eq!(got.ts, Timestamp::At(500));
    assert_eq!(got.payload, vec![1, 2, 3]);
}

#[test]
fn publish_overwrites_previous_record() {
    let mut store = LatestValueStore::new();
    store.publish(record(100, &[1]));
    store.publish(record(200, &[2]));
    store.publish(record(300, &[3]));
    let got = store.read().expect("records were published");
    assert_eq!(got.ts, Timestamp::At(300));
    assert_eq!(got.payload, vec![3]);
}

#[test]
fn read_is_a_snapshot() {
    let mut store = LatestValueStore::new();
    store.publish(record(100, &[9, 9]));
    let first = store.read().expect("published");
    store.publish(record(200, &[7]));
    // The earlier snapshot is unaffected by the later publish.
    assert_eq!(first.ts, Timestamp::At(100));
    assert_eq!(first.payload, vec![9, 9]);
    let second = store.read().expect("published");
    assert_eq!(second.ts, Timestamp::At(200));
}

#[test]
fn repeated_reads_between_publishes_agree() {
    let mut store = LatestValueStore::new();
    store.publish(record(500, &[4, 2]));
    for _ in 0..5 {
        let got = store.read().expect("published");
        assert_eq!(got.ts, Timestamp::At(500));
        assert_eq!(got.payload, vec![4, 2]);
    }
}
