use plugin_agent::Metric;

#[test]
fn new_metric_is_zeroed() {
    let m = Metric::new("m".to_owned());
    assert_eq!(m.name(), "m");
    assert_eq!(m.value(), 0);
    assert_eq!(m.prev(), 0);
    assert_eq!(m.count(), 0);
    assert_eq!(m.min(), 0);
    assert_eq!(m.max(), 0);
    assert_eq!(m.sum_of_squares(), 0);
}

#[test]
fn single_samples_accumulate_statistics() {
    let mut m = Metric::new("m".to_owned());
    let first = Metric::new_valued("m".to_owned(), 10, None);
    let p1 = m.aggregate(&first);
    assert_eq!(p1, 0);
    assert_eq!(m.value(), 10);
    assert_eq!(m.count(), 1);
    assert_eq!(m.min(), 10);
    assert_eq!(m.max(), 10);
    assert_eq!(m.sum_of_squares(), 100);

    let second = Metric::new_valued("m".to_owned(), 20, None);
    let p2 = m.aggregate(&second);
    assert_eq!(p2, 10);
    assert_eq!(m.value(), 30);
    assert_eq!(m.count(), 2);
    assert_eq!(m.min(), 10);
    assert_eq!(m.max(), 20);
    assert_eq!(m.sum_of_squares(), 500);
    assert_eq!(m.prev(), 20);
}

#[test]
fn max_follows_literal_formula_not_running_maximum() {
    // max is computed against the just-updated minimum, so after samples
    // 20 then 10 the maximum collapses to the last sample.
    let mut m = Metric::new("m".to_owned());
    m.aggregate(&Metric::new_valued("m".to_owned(), 20, None));
    m.aggregate(&Metric::new_valued("m".to_owned(), 10, None));
    assert_eq!(m.min(), 10);
    assert_eq!(m.max(), 10);
}

#[test]
fn batch_options_fold_with_min_quirk_on_fresh_metric() {
    // On a fresh metric the minimum becomes the incoming value, not the
    // batch's own minimum; the maximum is measured against that minimum.
    let mut m = Metric::new("m".to_owned());
    let batch = Metric::new_valued("m".to_owned(), 5, Some((3, 1, 9, 50)));
    let p = m.aggregate(&batch);
    assert_eq!(p, 0);
    assert_eq!(m.value(), 5);
    assert_eq!(m.count(), 3);
    assert_eq!(m.min(), 5);
    assert_eq!(m.max(), 9);
    assert_eq!(m.sum_of_squares(), 50);
}

#[test]
fn reset_clears_statistics_but_keeps_prev() {
    let mut m = Metric::new("m".to_owned());
    m.aggregate(&Metric::new_valued("m".to_owned(), 7, None));
    m.reset();
    assert_eq!(m.value(), 0);
    assert_eq!(m.count(), 0);
    assert_eq!(m.min(), 0);
    assert_eq!(m.max(), 0);
    assert_eq!(m.sum_of_squares(), 0);
    assert_eq!(m.prev(), 7);
}

#[test]
fn reset_then_aggregate_matches_fresh_metric_except_returned_prev() {
    let mut reset_one = Metric::new("m".to_owned());
    reset_one.aggregate(&Metric::new_valued("m".to_owned(), 7, None));
    reset_one.reset();

    let mut fresh = Metric::new("m".to_owned());

    let sample = Metric::new_valued("m".to_owned(), 5, None);
    let from_reset = reset_one.aggregate(&sample);
    let from_fresh = fresh.aggregate(&sample);

    // The returned pre-overwrite prev carries over from before the reset.
    assert_eq!(from_reset, 7);
    assert_eq!(from_fresh, 0);

    // The resulting states agree on every statistic.
    assert_eq!(reset_one.value(), fresh.value());
    assert_eq!(reset_one.count(), fresh.count());
    assert_eq!(reset_one.min(), fresh.min());
    assert_eq!(reset_one.max(), fresh.max());
    assert_eq!(reset_one.sum_of_squares(), fresh.sum_of_squares());
    assert_eq!(reset_one.prev(), fresh.prev());
}

#[test]
fn to_hash_renders_name_and_tuple() {
    let mut m = Metric::new("m".to_owned());
    m.aggregate(&Metric::new_valued("m".to_owned(), 10, None));
    m.aggregate(&Metric::new_valued("m".to_owned(), 20, None));
    let (name, tuple) = m.to_hash();
    assert_eq!(name, "m");
    assert_eq!(tuple, vec![30, 2, 10, 20, 500]);
}

#[test]
fn negative_samples_square_into_sum_of_squares() {
    let mut m = Metric::new("m".to_owned());
    m.aggregate(&Metric::new_valued("m".to_owned(), -5, None));
    assert_eq!(m.value(), -5);
    assert_eq!(m.min(), -5);
    assert_eq!(m.max(), -5);
    assert_eq!(m.sum_of_squares(), 25);
}
