use ble_ws_sync::endpoint::{validate_endpoint, ValidatorResult};
use ble_ws_sync::event_loop::{mk_details_range, Event, Label};
use ble_ws_sync::data::SensorId;
use ble_ws_sync::graph::Unit;
use ble_ws_sync::sensor_name_filter::sensor_matches_filter;

#[test]
fn https_endpoint_is_valid() {
    assert_eq!(validate_endpoint("https://example.org:50051"), ValidatorResult::Valid);
}

#[test]
fn http_endpoint_warns() {
    assert_eq!(
        validate_endpoint("http://example.org"),
        ValidatorResult::Warning("http is insecure")
    );
}

#[test]
fn unparsable_endpoint_errors() {
    assert_eq!(
        validate_endpoint("not a url at all"),
        ValidatorResult::Error("Invalid url")
    );
}

#[test]
fn unsupported_scheme_errors() {
    assert_eq!(
        validate_endpoint("ftp://example.org"),
        ValidatorResult::Error("scheme needs to be either http or https")
    );
}

#[test]
fn empty_label_normalizes_to_none() {
    assert!(Label::from(String::new()).into_inner().is_none());
}

#[test]
fn nonempty_label_is_kept() {
    assert_eq!(
        Label::from(String::from("garden")).into_inner().as_deref(),
        Some("garden")
    );
}

#[test]
fn details_range_accepts_ordered_interval() {
    let event = mk_details_range(SensorId(3), 10, 10).expect("an ordered range yields an event");
    assert!(matches!(
        event,
        Event::DetailRangeChanged { id: SensorId(3), from: 10, to: 10 }
    ));
    assert!(mk_details_range(SensorId(3), 11, 10).is_none());
}

#[test]
fn filter_matching_rules() {
    assert!(sensor_matches_filter("", None));
    assert!(sensor_matches_filter("", Some("anything")));
    assert!(sensor_matches_filter("gar", Some("garden")));
    assert!(!sensor_matches_filter("gar", Some("attic")));
    assert!(!sensor_matches_filter("garden shed", Some("garden")));
    assert!(!sensor_matches_filter("gar", None));
}

#[test]
fn unit_labels_and_indices() {
    assert_eq!(Unit::default(), Unit::Temperature);
    assert_eq!(Unit::Temperature.label(), "Temperature");
    assert_eq!(Unit::Humidity.label(), "Humidity");
    assert_eq!(Unit::Pressure.label(), "Pressure");
    assert_eq!(Unit::Temperature.as_usize(), 0);
    assert_eq!(Unit::Humidity.as_usize(), 1);
    assert_eq!(Unit::Pressure.as_usize(), 2);
}
