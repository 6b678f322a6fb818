use plugin_agent::Component;

#[test]
fn key_concatenates_name_and_guid() {
    let c = Component::new("Test".to_owned(), "g1".to_owned());
    assert_eq!(c.key(), "Testg1");
    assert_eq!(c.name(), "Test");
    assert_eq!(c.guid(), "g1");
}

#[test]
fn report_reaches_registered_metric() {
    let mut c = Component::new("Test".to_owned(), "g1".to_owned());
    c.add_metric("m".to_owned());
    let p1 = c.report_metric("m".to_owned(), 10, None);
    let p2 = c.report_metric("m".to_owned(), 20, None);
    assert_eq!(p1, 0);
    assert_eq!(p2, 10);
    let m = c.get_metric("m".to_owned()).unwrap();
    assert_eq!(m.value(), 30);
    assert_eq!(m.count(), 2);
    assert_eq!(m.min(), 10);
    assert_eq!(m.sum_of_squares(), 500);
}

#[test]
fn report_to_unknown_name_is_a_silent_noop() {
    let mut c = Component::new("Test".to_owned(), "g1".to_owned());
    c.add_metric("m".to_owned());
    let r = c.report_metric("other".to_owned(), 10, None);
    assert_eq!(r, 0);
    let m = c.get_metric("m".to_owned()).unwrap();
    assert_eq!(m.count(), 0);
    assert!(c.get_metric("other".to_owned()).is_none());
}

#[test]
fn duplicate_metric_name_is_not_registered_twice() {
    let mut c = Component::new("Test".to_owned(), "g1".to_owned());
    c.add_metric("m".to_owned());
    c.add_metric("m".to_owned());
    assert_eq!(c.metrics().len(), 1);
}

#[test]
fn duration_without_delivery_is_the_configured_interval() {
    let c = Component::new("Test".to_owned(), "g1".to_owned());
    assert_eq!(c.duration_at(5_000, 60), 60);
}

#[test]
fn duration_after_delivery_tracks_the_clock() {
    let mut c = Component::new("Test".to_owned(), "g1".to_owned());
    c.add_metric("m".to_owned());
    c.report_metric("m".to_owned(), 10, None);
    c.mark_delivered_at(1_000);
    assert_eq!(c.duration_at(1_000, 60), 0);
    assert_eq!(c.duration_at(1_005, 60), 5);
    assert_eq!(c.duration_at(1_042, 60), 42);
    // Metrics were reset in place by the delivery, prev kept.
    let m = c.get_metric("m".to_owned()).unwrap();
    assert_eq!(m.count(), 0);
    assert_eq!(m.value(), 0);
    assert_eq!(m.prev(), 10);
}

#[test]
fn wall_clock_duration_is_nonnegative_after_delivery() {
    let mut c = Component::new("Test".to_owned(), "g1".to_owned());
    c.last_delivered_now();
    let d = c.duration(60);
    assert!(d >= 0);
    assert!(d < 60);
}
