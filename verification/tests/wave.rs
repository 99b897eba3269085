use asteroids_core::meteor::MeteorDefinition;
use asteroids_core::wave::{
    parse_meteor_entries, parse_meteor_entry, parse_wave_record, RawMeteorEntry, RawWaveRecord,
    Wave, WaveDirector, WaveError,
};

fn entry(weight: i64, smin: i64, smax: i64, kind: i64, level: i64) -> RawMeteorEntry {
    RawMeteorEntry {
        weight: Some(weight),
        speed_min: Some(smin),
        speed_max: Some(smax),
        kind: Some(kind),
        level: Some(level),
    }
}

fn def(weight: i64, smin: i64, smax: i64, kind: u8, level: u8) -> MeteorDefinition {
    MeteorDefinition { weight, speed_min: smin, speed_max: smax, kind, level }
}

#[test]
fn a_complete_entry_loads_exactly() {
    let r = parse_meteor_entry(&entry(10_000, 50_000, 80_000, 0, 1));
    assert_eq!(r, Ok(def(10_000, 50_000, 80_000, 0, 1)));
}

#[test]
fn a_missing_field_is_fatal() {
    let mut e = entry(10_000, 50_000, 80_000, 0, 1);
    e.level = None;
    assert_eq!(parse_meteor_entry(&e), Err(WaveError::MissingField));
}

#[test]
fn an_out_of_range_value_is_fatal() {
    // A speed range listed backwards.
    assert_eq!(parse_meteor_entry(&entry(10_000, 80_000, 50_000, 0, 1)), Err(WaveError::InvalidValue));
    // A fragmentation level the rules never produce.
    assert_eq!(parse_meteor_entry(&entry(10_000, 50_000, 80_000, 0, 9)), Err(WaveError::InvalidValue));
    assert_eq!(parse_meteor_entry(&entry(-1, 50_000, 80_000, 0, 1)), Err(WaveError::InvalidValue));
}

#[test]
fn entry_lists_keep_their_order_and_stop_at_the_first_break() {
    let good = vec![entry(10_000, 0, 0, 0, 1), entry(20_000, 1, 2, 3, 2)];
    let r = parse_meteor_entries(&good).unwrap();
    assert_eq!(r, vec![def(10_000, 0, 0, 0, 1), def(20_000, 1, 2, 3, 2)]);
    let bad = vec![entry(10_000, 0, 0, 0, 1), entry(20_000, 1, 2, 3, 0)];
    assert_eq!(parse_meteor_entries(&bad), Err(WaveError::InvalidValue));
}

#[test]
fn a_record_without_its_fields_is_fatal() {
    let r = parse_wave_record(&RawWaveRecord { meteors: None, enemies: Some(0) });
    assert_eq!(r, Err(WaveError::MissingField));
    let r = parse_wave_record(&RawWaveRecord { meteors: Some(vec![]), enemies: None });
    assert_eq!(r, Err(WaveError::MissingField));
}

#[test]
fn the_wave_queue_is_consumed_from_the_end() {
    let mut w = Wave::new(vec![def(1, 0, 0, 0, 1), def(2, 0, 0, 0, 1), def(3, 0, 0, 0, 1)], 4);
    assert!(w.has_meteors());
    assert_eq!(w.get_enemies(), 4);
    assert_eq!(w.get_meteors().len(), 3);
    // Most recently listed first, each take shortening the queue by one.
    assert_eq!(w.take_next_meteor().unwrap().weight, 3);
    assert_eq!(w.get_meteors().len(), 2);
    assert_eq!(w.take_next_meteor().unwrap().weight, 2);
    assert_eq!(w.take_next_meteor().unwrap().weight, 1);
    assert!(!w.has_meteors());
    assert_eq!(w.take_next_meteor(), None);
}

#[test]
fn has_meteors_is_false_exactly_on_the_empty_queue() {
    let mut w = Wave::new(vec![def(1, 0, 0, 0, 1)], 0);
    assert!(w.has_meteors());
    w.take_next_meteor();
    assert!(!w.has_meteors());
}

#[test]
fn the_director_counts_waves_from_one_by_one() {
    let dataset = vec![
        RawWaveRecord { meteors: Some(vec![entry(10_000, 0, 0, 0, 1)]), enemies: Some(0) },
        RawWaveRecord { meteors: Some(vec![entry(20_000, 0, 0, 0, 1)]), enemies: Some(2) },
    ];
    let mut director = WaveDirector::new();
    assert_eq!(director.wave_count(), 1);
    let w1 = director.activate(&dataset).unwrap();
    assert_eq!(director.wave_count(), 2);
    assert_eq!(w1.get_meteors()[0].weight, 10_000);
    assert_eq!(w1.get_enemies(), 0);
    let w2 = director.activate(&dataset).unwrap();
    assert_eq!(director.wave_count(), 3);
    assert_eq!(w2.get_meteors()[0].weight, 20_000);
    assert_eq!(w2.get_enemies(), 2);
    // No third record: the activation fails and the count stays put.
    assert_eq!(director.activate(&dataset), Err(WaveError::WaveNotFound));
    assert_eq!(director.wave_count(), 3);
}

#[test]
fn a_broken_record_leaves_the_director_unmoved() {
    let dataset = vec![RawWaveRecord { meteors: None, enemies: Some(0) }];
    let mut director = WaveDirector::new();
    assert_eq!(director.activate(&dataset), Err(WaveError::MissingField));
    assert_eq!(director.wave_count(), 1);
}
