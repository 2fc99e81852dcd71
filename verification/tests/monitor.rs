use gas_monitor::model::SensorData;
use gas_monitor::model::Status;
use gas_monitor::monitor::FetchError;
use gas_monitor::monitor::Monitor;

fn reading(ts: i64, value: i64) -> SensorData {
    SensorData { timestamp_ms: ts, value_milli_ppm: value }
}

#[test]
fn failed_fetch_leaves_the_snapshot_unchanged() {
    let mut m = Monitor::new();
    let a = vec![reading(1, 10), reading(2, 20)];
    m.apply_fetch_result(Ok(a.clone()));
    m.apply_fetch_result(Err(FetchError::Fetch));
    assert_eq!(m.current_snapshot(), &a);
    m.apply_fetch_result(Err(FetchError::Connection));
    assert_eq!(m.current_snapshot(), &a);
}

#[test]
fn successful_fetch_replaces_the_snapshot() {
    let mut m = Monitor::new();
    let a = vec![reading(1, 10)];
    let b = vec![reading(2, 20), reading(3, 30)];
    m.apply_fetch_result(Ok(a));
    m.apply_fetch_result(Ok(b.clone()));
    assert_eq!(m.current_snapshot(), &b);
}

#[test]
fn empty_fetch_result_is_not_an_error() {
    let mut m = Monitor::new();
    m.apply_fetch_result(Ok(vec![reading(1, 10)]));
    m.apply_fetch_result(Ok(vec![]));
    assert_eq!(m.last_reading(), None);
    assert_eq!(m.realtime_status(), Status::NoData);
}

#[test]
fn status_reflects_the_latest_reading() {
    let mut m = Monitor::new();
    assert_eq!(m.realtime_status(), Status::NoData);
    m.apply_fetch_result(Ok(vec![reading(1, 50_000)]));
    assert_eq!(m.realtime_status(), Status::Clean);
    m.apply_fetch_result(Ok(vec![reading(1, 50_000), reading(2, 120_000)]));
    assert_eq!(m.realtime_status(), Status::Dirty);
}

#[test]
fn tick_and_fetch_cycle_rate_limits() {
    let mut m = Monitor::new();
    // Nothing due yet: the buffer stays empty, no fetch requested.
    assert!(!m.tick(0));
    assert!(!m.tick(1500));
    assert_eq!(m.realtime_status(), Status::NoData);
    // One cadence strictly passed: exactly one fetch, whose failure leaves
    // the buffer alone but still counts as the attempt.
    assert!(m.tick(2100));
    m.apply_fetch_result(Err(FetchError::Fetch));
    assert_eq!(m.realtime_status(), Status::NoData);
    assert!(!m.tick(3000));
    // Next natural attempt succeeds.
    assert!(m.tick(4200));
    m.apply_fetch_result(Ok(vec![reading(7, 101_000)]));
    assert_eq!(m.realtime_status(), Status::Dirty);
    assert_eq!(m.last_reading(), Some(reading(7, 101_000)));
}
