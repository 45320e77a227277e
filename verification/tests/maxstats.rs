use combat_ble::detect::SimpleCombatEvent;
use combat_ble::stats::{MaxStatsStore, Metric};

fn event(
    fighter_id: u8,
    name: &str,
    force: Option<u64>,
    velocity: Option<u64>,
    acceleration: Option<u64>,
) -> SimpleCombatEvent {
    SimpleCombatEvent {
        event_type: String::from("slap"),
        limb_name: String::from("Mano Derecha"),
        fighter_id,
        competitor_name: String::from(name),
        velocity_mm_s: velocity,
        acceleration_mm_s2: acceleration,
        force_mn: force,
        timestamp: 0,
        confidence_milli: 800,
    }
}

#[test]
fn first_event_creates_a_zero_initialised_record_and_exceeds_everything() {
    let mut store = MaxStatsStore::new();
    let update = store
        .record(&event(1, "Ana", Some(500), Some(10_000), Some(19_620)))
        .expect("positive values exceed a fresh record");
    assert_eq!(update.stats.fighter_id, 1);
    assert_eq!(update.stats.competitor_name, "Ana");
    assert_eq!(update.stats.max_force, 500);
    assert_eq!(update.stats.max_velocity, 10_000);
    assert_eq!(update.stats.max_acceleration, 19_620);
    assert_eq!(
        update.new_records,
        vec![Metric::Force, Metric::Velocity, Metric::Acceleration]
    );
}

#[test]
fn weaker_event_reports_nothing_and_changes_nothing() {
    let mut store = MaxStatsStore::new();
    store.record(&event(1, "Ana", Some(500), Some(10_000), Some(19_620)));
    let update = store.record(&event(1, "Ana", Some(400), Some(9_000), Some(15_000)));
    assert!(update.is_none());
    let snapshot = store.get_current_max_stats(Some(1)).unwrap();
    assert_eq!(snapshot[0].max_force, 500);
    assert_eq!(snapshot[0].max_velocity, 10_000);
    assert_eq!(snapshot[0].max_acceleration, 19_620);
}

#[test]
fn partial_exceed_reports_only_the_exceeded_metrics() {
    let mut store = MaxStatsStore::new();
    store.record(&event(1, "Ana", Some(500), Some(10_000), Some(19_620)));
    let update = store
        .record(&event(1, "Ana", Some(900), Some(8_000), Some(20_000)))
        .expect("two metrics exceeded");
    assert_eq!(update.new_records, vec![Metric::Force, Metric::Acceleration]);
    assert_eq!(update.stats.max_force, 900);
    assert_eq!(update.stats.max_velocity, 10_000);
    assert_eq!(update.stats.max_acceleration, 20_000);
}

#[test]
fn missing_metrics_never_count() {
    let mut store = MaxStatsStore::new();
    let update = store.record(&event(1, "Ana", None, None, None));
    assert!(update.is_none());
    // The record still exists, zero-initialised.
    let snapshot = store.get_current_max_stats(Some(1)).unwrap();
    assert_eq!(snapshot[0].max_force, 0);
}

#[test]
fn maxima_are_monotone_across_any_sequence() {
    let mut store = MaxStatsStore::new();
    let forces = [500u64, 300, 900, 900, 100, 1_200, 50];
    let mut last_max = 0u64;
    for f in forces {
        store.record(&event(2, "Bruno", Some(f), None, None));
        let snapshot = store.get_current_max_stats(Some(2)).unwrap();
        assert!(snapshot[0].max_force >= last_max);
        last_max = snapshot[0].max_force;
    }
    assert_eq!(last_max, 1_200);
}

#[test]
fn records_are_kept_per_person() {
    let mut store = MaxStatsStore::new();
    store.record(&event(1, "Ana", Some(500), None, None));
    store.record(&event(2, "Bruno", Some(900), None, None));
    store.record(&event(1, "Ana", Some(700), None, None));
    let ana = store.get_current_max_stats(Some(1)).unwrap();
    let bruno = store.get_current_max_stats(Some(2)).unwrap();
    assert_eq!(ana[0].max_force, 700);
    assert_eq!(bruno[0].max_force, 900);
    let all = store.get_current_max_stats(None).unwrap();
    assert_eq!(all.len(), 2);
}

#[test]
fn query_for_unknown_person_reports_not_found() {
    let store = MaxStatsStore::new();
    assert!(store.get_current_max_stats(Some(9)).is_none());
    // Querying everything on an empty table is an empty snapshot, not an error.
    assert_eq!(store.get_current_max_stats(None).unwrap().len(), 0);
}

#[test]
fn reset_clears_every_record() {
    let mut store = MaxStatsStore::new();
    store.record(&event(1, "Ana", Some(500), Some(1), Some(1)));
    store.record(&event(2, "Bruno", Some(900), Some(2), Some(2)));
    store.reset_max_stats();
    assert!(store.get_current_max_stats(Some(1)).is_none());
    assert!(store.get_current_max_stats(Some(2)).is_none());
    assert_eq!(store.get_current_max_stats(None).unwrap().len(), 0);
}
