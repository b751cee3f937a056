use ble_ws_sync::central::{Command, TimeseriesRequest, TimeseriesResponse};
use ble_ws_sync::data::{SensorId, SensorSnapshot, SensorValues, TimeseriesBuilder};
use ble_ws_sync::event_loop::{AppView, Effect, Event, Label, State};
use ble_ws_sync::graph::Unit;

const A: SensorId = SensorId(1);
const B: SensorId = SensorId(2);

fn snapshot(temperature: i32) -> SensorSnapshot {
    SensorSnapshot {
        label: None,
        values: Some(SensorValues { temperature, humidity: 40, pressure: 1000 }),
    }
}

fn ts_with_times(times: Vec<u32>) -> ble_ws_sync::data::Timeseries {
    let n = times.len();
    let mut builder = TimeseriesBuilder::default();
    builder.time(times);
    builder.temperature(vec![0; n]);
    builder.humidity(vec![0; n]);
    builder.pressure(vec![0; n]);
    builder.build().expect("equal-length columns build")
}

fn state_with_sensor_a() -> State {
    let mut state = State::default();
    let effects = state.dispatch(Event::OverviewUpdate(vec![(A, snapshot(205))]), 100);
    assert_eq!(effects.len(), 1);
    assert!(matches!(effects[0], Effect::AddSensor(SensorId(1))));
    state
}

#[test]
fn overview_update_registers_then_updates_in_place() {
    let mut state = State::default();
    let effects = state.dispatch(Event::OverviewUpdate(vec![(A, snapshot(205))]), 100);
    assert_eq!(effects.len(), 1);
    assert!(matches!(effects[0], Effect::AddSensor(SensorId(1))));
    {
        let sensor = state.data.get(A).expect("sensor A is registered");
        assert_eq!(sensor.temperature(), 205);
        assert!(sensor.connected());
    }
    assert_eq!(state.data.len(), 1);

    let effects = state.dispatch(Event::OverviewUpdate(vec![(A, snapshot(210))]), 200);
    assert!(effects.is_empty());
    assert_eq!(state.data.len(), 1);
    let sensor = state.data.get(A).expect("still the same single entity");
    assert_eq!(sensor.temperature(), 210);
}

#[test]
fn overview_update_twice_identical_keeps_fields() {
    let mut state = State::default();
    state.dispatch(Event::OverviewUpdate(vec![(A, snapshot(205))]), 100);
    state.dispatch(Event::OverviewUpdate(vec![(A, snapshot(205))]), 150);
    assert_eq!(state.data.len(), 1);
    let sensor = state.data.get(A).expect("no duplicate registration");
    assert_eq!(sensor.temperature(), 205);
    assert_eq!(sensor.humidity(), 40);
    assert_eq!(sensor.pressure(), 1000);
    assert!(sensor.connected());
}

#[test]
fn disconnected_snapshot_keeps_readings() {
    let mut state = state_with_sensor_a();
    let effects = state.dispatch(
        Event::OverviewUpdate(vec![(A, SensorSnapshot { label: None, values: None })]),
        200,
    );
    assert!(effects.is_empty());
    let sensor = state.data.get(A).unwrap();
    assert!(!sensor.connected());
    assert_eq!(sensor.temperature(), 205);
}

#[test]
fn sensor_selected_fetches_live_exactly_once() {
    let mut state = state_with_sensor_a();
    let effects = state.dispatch(Event::SensorSelected(A), 300);
    let fetches: Vec<_> = effects
        .iter()
        .filter(|e| {
            matches!(
                e,
                Effect::Enqueue(Command::FetchTimeseries(TimeseriesRequest::Live(SensorId(1))))
            )
        })
        .collect();
    assert_eq!(fetches.len(), 1);
    assert!(matches!(
        state.display,
        AppView::Overview { selected_sensor: Some(SensorId(1)), search_active: false }
    ));

    // a live buffer arrives; selecting again must not fetch
    let effects = state.dispatch(
        Event::FetchedTimeseries {
            id: A,
            timeseries: TimeseriesResponse::Live(ts_with_times(vec![10])),
        },
        400,
    );
    assert!(effects.is_empty());
    let effects = state.dispatch(Event::SensorSelected(A), 500);
    assert!(effects.iter().all(|e| !matches!(e, Effect::Enqueue(_))));
}

#[test]
fn sensor_selected_unknown_is_noop() {
    let mut state = state_with_sensor_a();
    let effects = state.dispatch(Event::SensorSelected(B), 300);
    assert!(effects.is_empty());
    assert!(matches!(state.display, AppView::Overview { selected_sensor: None, .. }));
}

#[test]
fn fetched_live_replaces_buffer() {
    let mut state = state_with_sensor_a();
    assert!(state.data.get(A).unwrap().timeseries().is_none());
    state.dispatch(
        Event::FetchedTimeseries {
            id: A,
            timeseries: TimeseriesResponse::Live(ts_with_times(vec![10, 20])),
        },
        400,
    );
    let sensor = state.data.get(A).unwrap();
    let shared = sensor.timeseries();
    assert!(!shared.is_none());
    assert_eq!(shared.get().unwrap().time(), &[10, 20]);
}

#[test]
fn range_result_for_displayed_sensor_is_shown() {
    let mut state = state_with_sensor_a();
    state.dispatch(Event::OpenDetail(A), 300);
    assert!(matches!(state.display, AppView::Detail { sensor: SensorId(1), unit: Unit::Temperature }));
    let effects = state.dispatch(
        Event::FetchedTimeseries {
            id: A,
            timeseries: TimeseriesResponse::Range(ts_with_times(vec![10])),
        },
        400,
    );
    assert_eq!(effects.len(), 1);
    match &effects[0] {
        Effect::SetStaticTimeseries(ts) => assert_eq!(ts.time(), &[10]),
        other => panic!("expected a displayed range, got {:?}", other_name(other)),
    }
}

#[test]
fn range_result_for_other_sensor_is_discarded() {
    let mut state = State::default();
    state.dispatch(
        Event::OverviewUpdate(vec![(A, snapshot(205)), (B, snapshot(206))]),
        100,
    );
    state.dispatch(Event::OpenDetail(B), 200);
    let effects = state.dispatch(
        Event::FetchedTimeseries {
            id: A,
            timeseries: TimeseriesResponse::Range(ts_with_times(vec![10])),
        },
        300,
    );
    assert!(effects.is_empty());
    assert!(matches!(state.display, AppView::Detail { sensor: SensorId(2), .. }));
}

#[test]
fn open_search_toggles_only_in_overview() {
    let mut state = state_with_sensor_a();
    let effects = state.dispatch(Event::OpenSearch, 100);
    assert_eq!(effects.len(), 1);
    assert!(matches!(effects[0], Effect::ActivateSearch));
    assert!(matches!(state.display, AppView::Overview { search_active: true, .. }));

    let effects = state.dispatch(Event::OpenSearch, 101);
    assert_eq!(effects.len(), 1);
    assert!(matches!(effects[0], Effect::DeactivateSearch));
    assert!(matches!(state.display, AppView::Overview { search_active: false, .. }));

    state.dispatch(Event::OpenDetail(A), 102);
    let effects = state.dispatch(Event::OpenSearch, 103);
    assert!(effects.is_empty());
    assert!(matches!(state.display, AppView::Detail { .. }));
}

#[test]
fn open_overview_resets_view() {
    let mut state = state_with_sensor_a();
    state.dispatch(Event::OpenDetail(A), 100);
    let effects = state.dispatch(Event::OpenOverview, 200);
    assert_eq!(effects.len(), 1);
    assert!(matches!(effects[0], Effect::SwitchView));
    assert!(matches!(
        state.display,
        AppView::Overview { selected_sensor: None, search_active: false }
    ));
}

#[test]
fn open_detail_fetches_live_when_absent() {
    let mut state = state_with_sensor_a();
    let effects = state.dispatch(Event::OpenDetail(A), 100);
    assert_eq!(effects.len(), 2);
    assert!(matches!(
        effects[0],
        Effect::Enqueue(Command::FetchTimeseries(TimeseriesRequest::Live(SensorId(1))))
    ));
    assert!(matches!(effects[1], Effect::SwitchView));
}

#[test]
fn open_detail_unknown_is_noop() {
    let mut state = state_with_sensor_a();
    let effects = state.dispatch(Event::OpenDetail(B), 100);
    assert!(effects.is_empty());
    assert!(matches!(state.display, AppView::Overview { .. }));
}

#[test]
fn change_label_enqueues_set_label() {
    let mut state = state_with_sensor_a();
    let effects = state.dispatch(
        Event::ChangeLabel { id: A, label: Label::from(String::from("porch")) },
        100,
    );
    assert_eq!(effects.len(), 1);
    match &effects[0] {
        Effect::Enqueue(Command::SetLabel { id, .. }) => assert_eq!(*id, A),
        _ => panic!("expected an enqueued label change"),
    }
}

#[test]
fn detail_range_changed_enqueues_range_fetch() {
    let mut state = state_with_sensor_a();
    let effects = state.dispatch(Event::DetailRangeChanged { id: A, from: 50, to: 90 }, 100);
    assert_eq!(effects.len(), 1);
    assert!(matches!(
        effects[0],
        Effect::Enqueue(Command::FetchTimeseries(TimeseriesRequest::Range {
            id: SensorId(1),
            start: 50,
            end: 90,
        }))
    ));
}

#[test]
fn live_push_appends_row_to_live_buffer() {
    let mut state = state_with_sensor_a();
    state.dispatch(
        Event::FetchedTimeseries {
            id: A,
            timeseries: TimeseriesResponse::Live(ts_with_times(vec![10])),
        },
        100,
    );
    // a later overview push appends at the receipt time
    state.dispatch(Event::OverviewUpdate(vec![(A, snapshot(207))]), 500);
    {
        let sensor = state.data.get(A).unwrap();
        let shared = sensor.timeseries();
        assert_eq!(shared.get().unwrap().time(), &[10, 500]);
        assert_eq!(shared.get().unwrap().temperature(), &[0, 207]);
    }
    // a non-monotonic receipt time is silently dropped
    state.dispatch(Event::OverviewUpdate(vec![(A, snapshot(208))]), 400);
    let sensor = state.data.get(A).unwrap();
    assert_eq!(sensor.timeseries().get().unwrap().time(), &[10, 500]);
    assert_eq!(sensor.temperature(), 208);
}

fn other_name(e: &Effect) -> &'static str {
    match e {
        Effect::Enqueue(_) => "Enqueue",
        Effect::SwitchView => "SwitchView",
        Effect::ActivateSearch => "ActivateSearch",
        Effect::DeactivateSearch => "DeactivateSearch",
        Effect::AddSensor(_) => "AddSensor",
        Effect::SetStaticTimeseries(_) => "SetStaticTimeseries",
    }
}
