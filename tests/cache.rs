use cobitis::cache::SnapshotCache;
use cobitis::measurement::Measurement;

#[test]
fn empty_until_first_publish() {
    let mut cache: SnapshotCache<u32> = SnapshotCache::new();
    assert_eq!(cache.get(), None);
    cache.record(None);
    assert_eq!(cache.get(), None);
    cache.publish(7);
    assert_eq!(cache.get(), Some(7));
}

#[test]
fn stale_after_failed_cycles() {
    let mut cache: SnapshotCache<Measurement> = SnapshotCache::new();
    let m = Measurement { timestamp: 42, temperature: 215, tds: 120 };
    cache.record(Some(m));
    for _ in 0..5 {
        cache.record(None);
        assert_eq!(cache.get(), Some(m));
    }
}

#[test]
fn reads_see_whole_values() {
    let mut cache: SnapshotCache<Measurement> = SnapshotCache::new();
    let mut written: Vec<Measurement> = Vec::new();
    for cycle in 0..20i64 {
        for _ in 0..3 {
            match cache.get() {
                None => assert!(written.is_empty()),
                Some(m) => {
                    assert!(written.contains(&m));
                    assert_eq!(Some(&m), written.last());
                }
            }
        }
        if cycle % 3 == 2 {
            cache.record(None);
        } else {
            let m = Measurement { timestamp: cycle, temperature: cycle as i16, tds: cycle * 10 };
            cache.record(Some(m));
            written.push(m);
        }
    }
}
