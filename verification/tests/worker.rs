use ble_ws_sync::central::{
    process_sensor_data, Command, SyncWorker, TimeseriesRequest, WorkerAction, ONE_DAY_SECONDS,
};
use ble_ws_sync::data::SensorId;
use ble_ws_sync::event_loop::{Event, Label};

const A: SensorId = SensorId(9);

#[test]
fn new_worker_is_disconnected() {
    let worker = SyncWorker::new();
    assert!(!worker.is_connected());
}

#[test]
fn set_endpoint_tears_down_and_asks_to_connect() {
    let mut worker = SyncWorker::new();
    worker.connection_established();
    assert!(worker.is_connected());
    let action = worker.step(
        Command::SetEndpoint {
            url: String::from("https://example.org"),
            token: String::from("bearer-abc"),
        },
        1000,
    );
    assert!(!worker.is_connected());
    match action {
        WorkerAction::Connect { url, token } => {
            assert_eq!(url, "https://example.org");
            assert_eq!(token, "bearer-abc");
        },
        _ => panic!("expected a connect action"),
    }
    worker.connection_established();
    assert!(worker.is_connected());
}

#[test]
fn failed_connect_leaves_worker_disconnected() {
    let mut worker = SyncWorker::new();
    let _ = worker.step(
        Command::SetEndpoint { url: String::from("https://example.org"), token: String::new() },
        1000,
    );
    worker.connection_failed();
    assert!(!worker.is_connected());
    // further fetches are silently skipped
    let action = worker.step(Command::FetchTimeseries(TimeseriesRequest::Live(A)), 2000);
    assert!(matches!(action, WorkerAction::Idle));
}

#[test]
fn fetch_without_connection_is_silent_noop() {
    let mut worker = SyncWorker::new();
    let action = worker.step(Command::FetchTimeseries(TimeseriesRequest::Live(A)), 500);
    assert!(matches!(action, WorkerAction::Idle));
    let action = worker.step(
        Command::SetLabel { id: A, label: Label::from(String::from("attic")) },
        600,
    );
    assert!(matches!(action, WorkerAction::Idle));
}

#[test]
fn live_fetch_queries_trailing_day() {
    let mut worker = SyncWorker::new();
    worker.connection_established();
    let now = 200_000;
    let action = worker.step(Command::FetchTimeseries(TimeseriesRequest::Live(A)), now);
    assert!(matches!(
        action,
        WorkerAction::GetSensorData { id: SensorId(9), start, end }
            if start == now - ONE_DAY_SECONDS && end == now
    ));
}

#[test]
fn live_fetch_window_saturates_at_epoch() {
    let mut worker = SyncWorker::new();
    worker.connection_established();
    let action = worker.step(Command::FetchTimeseries(TimeseriesRequest::Live(A)), 1000);
    assert!(matches!(
        action,
        WorkerAction::GetSensorData { start: 0, end: 1000, .. }
    ));
}

#[test]
fn range_fetch_passes_interval_through() {
    let mut worker = SyncWorker::new();
    worker.connection_established();
    let action = worker.step(
        Command::FetchTimeseries(TimeseriesRequest::Range { id: A, start: 11, end: 99 }),
        123456,
    );
    assert!(matches!(
        action,
        WorkerAction::GetSensorData { id: SensorId(9), start: 11, end: 99 }
    ));
}

#[test]
fn connected_label_change_is_issued() {
    let mut worker = SyncWorker::new();
    worker.connection_established();
    let action = worker.step(
        Command::SetLabel { id: A, label: Label::from(String::from("attic")) },
        600,
    );
    match action {
        WorkerAction::ChangeLabel { id, label } => {
            assert_eq!(id, A);
            assert_eq!(label.into_inner().as_deref(), Some("attic"));
        },
        _ => panic!("expected a label change action"),
    }
}

#[test]
fn fetched_columns_become_a_tagged_event() {
    let req = TimeseriesRequest::Live(A);
    let event = process_sensor_data(&req, vec![1, 2], vec![10, 20], vec![30, 40], vec![50, 60])
        .expect("aligned columns yield an event");
    match event {
        Event::FetchedTimeseries { id, timeseries } => {
            assert_eq!(id, A);
            match timeseries {
                ble_ws_sync::central::TimeseriesResponse::Live(ts) => {
                    assert_eq!(ts.time(), &[1, 2]);
                    assert_eq!(ts.temperature(), &[10, 20]);
                    assert_eq!(ts.humidity(), &[30, 40]);
                    assert_eq!(ts.pressure(), &[50, 60]);
                },
                _ => panic!("a live request yields a live response"),
            }
        },
        _ => panic!("expected a fetch event"),
    }
}

#[test]
fn range_request_yields_range_response() {
    let req = TimeseriesRequest::Range { id: A, start: 1, end: 2 };
    let event = process_sensor_data(&req, vec![1], vec![10], vec![30], vec![50])
        .expect("aligned columns yield an event");
    assert!(matches!(
        event,
        Event::FetchedTimeseries {
            timeseries: ble_ws_sync::central::TimeseriesResponse::Range(_),
            ..
        }
    ));
}

#[test]
fn misaligned_columns_yield_no_event() {
    let req = TimeseriesRequest::Live(A);
    assert!(process_sensor_data(&req, vec![1, 2], vec![10], vec![30, 40], vec![50, 60]).is_none());
}
