use cobitis::cache::SnapshotCache;
use cobitis::signal::{signal_level, update, LinkStatus, SignalQuality};

#[test]
fn classification_thresholds() {
    let inputs = [-50, -51, -60, -61, -70, -71, -85, -86, -150, -200];
    let expected = [
        SignalQuality::Excellent,
        SignalQuality::Good,
        SignalQuality::Good,
        SignalQuality::Fair,
        SignalQuality::Fair,
        SignalQuality::Poor,
        SignalQuality::Poor,
        SignalQuality::Unreliable,
        SignalQuality::Unreliable,
        SignalQuality::Unreliable,
    ];
    for (rssi, quality) in inputs.iter().zip(expected.iter()) {
        assert_eq!(SignalQuality::from_rssi(*rssi), *quality, "rssi {}", rssi);
    }
}

#[test]
fn classification_clamps_magnitude() {
    assert_eq!(SignalQuality::from_rssi(0), SignalQuality::Excellent);
    assert_eq!(SignalQuality::from_rssi(40), SignalQuality::Excellent);
    assert_eq!(SignalQuality::from_rssi(i32::MAX), SignalQuality::Excellent);
    assert_eq!(SignalQuality::from_rssi(-100), SignalQuality::Unreliable);
    assert_eq!(SignalQuality::from_rssi(i32::MIN), SignalQuality::Unreliable);
}

#[test]
fn quality_levels() {
    assert_eq!(i32::from(SignalQuality::Unreliable), 0);
    assert_eq!(i32::from(SignalQuality::Poor), 1);
    assert_eq!(i32::from(SignalQuality::Fair), 2);
    assert_eq!(i32::from(SignalQuality::Good), 3);
    assert_eq!(i32::from(SignalQuality::Excellent), 4);
    assert_eq!(SignalQuality::Good.level(), 3);
}

#[test]
fn level_without_status_is_absent() {
    assert_eq!(signal_level(None), None);
    let status = LinkStatus { signal_quality: SignalQuality::Fair };
    assert_eq!(signal_level(Some(status)), Some(2));
    let unreliable = LinkStatus { signal_quality: SignalQuality::Unreliable };
    assert_eq!(signal_level(Some(unreliable)), Some(0));
}

#[test]
fn link_cycle_publishes_status() {
    let mut cache: SnapshotCache<LinkStatus> = SnapshotCache::new();
    assert_eq!(cache.get(), None);
    let status = update(&mut cache, -65);
    assert_eq!(status.signal_quality, SignalQuality::Fair);
    assert_eq!(cache.get(), Some(LinkStatus { signal_quality: SignalQuality::Fair }));
    update(&mut cache, -40);
    assert_eq!(cache.get(), Some(LinkStatus::from_rssi(-40)));
}
