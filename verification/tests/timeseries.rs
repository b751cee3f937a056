use ble_ws_sync::data::{SharedTimeseries, Timeseries, TimeseriesBuilder, TimeseriesRow};

fn row(time: u32, temperature: i16, humidity: u32, pressure: u32) -> TimeseriesRow {
    TimeseriesRow { time, temperature, humidity, pressure }
}

#[test]
fn build_round_trips_equal_columns() {
    let mut builder = TimeseriesBuilder::default();
    builder.time(vec![10, 20, 30]);
    builder.temperature(vec![205, 210, 215]);
    builder.humidity(vec![40, 41, 42]);
    builder.pressure(vec![1000, 1001, 1002]);
    let ts = builder.build().expect("equal-length columns must build");
    assert_eq!(ts.time(), &[10, 20, 30]);
    assert_eq!(ts.temperature(), &[205, 210, 215]);
    assert_eq!(ts.humidity(), &[40, 41, 42]);
    assert_eq!(ts.pressure(), &[1000, 1001, 1002]);
    assert!(!ts.is_empty());
}

#[test]
fn build_of_untouched_builder_is_empty() {
    let ts = TimeseriesBuilder::default().build().expect("the all-empty case builds");
    assert!(ts.is_empty());
    assert_eq!(ts.time().len(), 0);
}

#[test]
fn build_all_empty_columns_succeeds() {
    let mut builder = TimeseriesBuilder::default();
    builder.time(vec![]);
    builder.temperature(vec![]);
    builder.humidity(vec![]);
    builder.pressure(vec![]);
    let ts = builder.build().expect("all-empty columns build");
    assert!(ts.is_empty());
}

#[test]
fn build_rejects_mismatched_lengths() {
    let mut builder = TimeseriesBuilder::default();
    builder.time(vec![10, 20]);
    builder.temperature(vec![205]);
    builder.humidity(vec![40, 41]);
    builder.pressure(vec![1000, 1001]);
    assert!(builder.build().is_err());
}

#[test]
fn build_rejects_single_supplied_column() {
    let mut builder = TimeseriesBuilder::default();
    builder.time(vec![10]);
    assert!(builder.build().is_err());
}

#[test]
fn push_rows_keep_time_strictly_increasing() {
    let mut ts = Timeseries::default();
    assert!(ts.push_row(row(10, 1, 2, 3)).is_ok());
    assert!(ts.push_row(row(20, 4, 5, 6)).is_ok());
    let err = ts.push_row(row(15, 7, 8, 9)).expect_err("non-monotonic push is rejected");
    assert_eq!(err.attempted(), 15);
    assert_eq!(err.last(), 20);
    assert_eq!(ts.time(), &[10, 20]);
    assert_eq!(ts.temperature(), &[1, 4]);
    assert_eq!(ts.humidity(), &[2, 5]);
    assert_eq!(ts.pressure(), &[3, 6]);
}

#[test]
fn push_equal_timestamp_rejected() {
    let mut ts = Timeseries::default();
    assert!(ts.push_row(row(10, 1, 2, 3)).is_ok());
    let err = ts.push_row(row(10, 4, 5, 6)).expect_err("equal timestamp is rejected");
    assert_eq!(err.attempted(), 10);
    assert_eq!(err.last(), 10);
    assert_eq!(ts.time(), &[10]);
}

#[test]
fn is_empty_turns_false_and_stays_false() {
    let mut ts = Timeseries::default();
    assert!(ts.is_empty());
    assert!(ts.push_row(row(5, 0, 0, 0)).is_ok());
    assert!(!ts.is_empty());
    assert!(ts.push_row(row(3, 0, 0, 0)).is_err());
    assert!(!ts.is_empty());
    assert!(ts.push_row(row(9, 0, 0, 0)).is_ok());
    assert!(!ts.is_empty());
}

#[test]
fn shared_timeseries_sentinel() {
    let empty = SharedTimeseries::empty();
    assert!(empty.is_none());
    assert!(empty.get().is_none());

    let mut shared = SharedTimeseries::new(Timeseries::default());
    assert!(!shared.is_none());
    assert!(shared.push_row(row(7, 1, 2, 3)).expect("a held buffer reports an outcome").is_ok());
    let held = shared.get().expect("a held buffer is readable");
    assert_eq!(held.time(), &[7]);

    let mut sentinel = SharedTimeseries::empty();
    assert!(sentinel.push_row(row(7, 1, 2, 3)).is_none());
}
