use cobitis::cache::SnapshotCache;
use cobitis::measurement::{
    tds_from_adc, tds_ppm, temperature_tenths, update, Measurement, TdsError,
};

#[test]
fn tds_at_reference_temperature_and_one_volt() {
    assert_eq!(tds_ppm(1_000_000, 250), Ok(367));
}

#[test]
fn tds_values() {
    assert_eq!(tds_ppm(0, 250), Ok(0));
    assert_eq!(tds_ppm(-1_000_000, 250), Ok(-623));
    assert_eq!(tds_ppm(424_263, 203), Ok(180));
}

#[test]
fn tds_compensation_zero() {
    assert_eq!(tds_ppm(1_000_000, -250), Err(TdsError::CompensationZero));
    assert_eq!(tds_from_adc(8000, -250), Err(TdsError::CompensationZero));
}

#[test]
fn tds_below_minus_25_degrees() {
    assert_eq!(tds_ppm(1_000_000, -300), Ok(-83790));
    assert_eq!(tds_from_adc(8000, -300), Ok(-83797));
}

#[test]
fn tds_out_of_range() {
    assert_eq!(tds_ppm(i32::MAX, -249), Err(TdsError::OutOfRange));
}

#[test]
fn converter_codes_to_tds() {
    assert_eq!(tds_from_adc(0, 250), Ok(0));
    assert_eq!(tds_from_adc(8000, 250), Ok(367));
    assert_eq!(tds_from_adc(32767, 250), Ok(4194));
    assert_eq!(tds_from_adc(-32768, 250), Ok(-8487));
    assert_eq!(tds_from_adc(3393, 203), Ok(179));
    assert_eq!(tds_from_adc(3394, 203), Ok(180));
}

#[test]
fn temperature_rounding() {
    assert_eq!(temperature_tenths(325), 203);
    assert_eq!(temperature_tenths(8), 5);
    assert_eq!(temperature_tenths(1), 1);
    assert_eq!(temperature_tenths(-1), -1);
    assert_eq!(temperature_tenths(-8), -5);
    assert_eq!(temperature_tenths(0), 0);
    assert_eq!(temperature_tenths(2000), 1250);
}

#[test]
fn first_cycle_publishes_measurement() {
    let mut cache: SnapshotCache<Measurement> = SnapshotCache::new();
    assert_eq!(cache.get(), None);
    let timestamp: i64 = 1_760_000_000_123;
    let r = update(&mut cache, timestamp, 203, 3394);
    let expected = Measurement { timestamp, temperature: 203, tds: 180 };
    assert_eq!(r, Ok(expected));
    assert_eq!(cache.get(), Some(expected));
}

#[test]
fn failed_cycle_keeps_cache() {
    let mut cache: SnapshotCache<Measurement> = SnapshotCache::new();
    let first = update(&mut cache, 1000, 250, 8000).unwrap();
    assert_eq!(first.tds, 367);
    assert_eq!(update(&mut cache, 2000, -250, 8000), Err(TdsError::CompensationZero));
    assert_eq!(cache.get(), Some(first));
}
