use observer::{parse_metric_text, MetricKind};

#[test]
fn counter_group_with_sample() {
    let groups = parse_metric_text("# TYPE requests_total counter\nrequests_total 5\n").unwrap();
    assert_eq!(groups.len(), 1);
    assert_eq!(groups[0].name, "requests_total");
    assert!(matches!(groups[0].kind, MetricKind::Counter));
    assert_eq!(groups[0].samples.len(), 1);
    assert_eq!(groups[0].samples[0].value, "5");
    assert_eq!(groups[0].samples[0].timestamp, None);
    assert!(groups[0].samples[0].labels.is_empty());
}

#[test]
fn labels_and_timestamp() {
    let groups =
        parse_metric_text("# TYPE m gauge\nm{a=\"x\",b=\"y\"} 3 1700000000\n").unwrap();
    assert_eq!(groups.len(), 1);
    assert!(matches!(groups[0].kind, MetricKind::Gauge));
    let s = &groups[0].samples[0];
    assert_eq!(s.labels.len(), 2);
    assert_eq!(s.labels[0], ("a".to_string(), "x".to_string()));
    assert_eq!(s.labels[1], ("b".to_string(), "y".to_string()));
    assert_eq!(s.timestamp, Some(1700000000));
    assert_eq!(s.value, "3");
}

#[test]
fn label_value_escapes() {
    let groups = parse_metric_text("# TYPE m counter\nm{a=\"q\\\"z\\\\w\\n\"} 1\n").unwrap();
    let s = &groups[0].samples[0];
    assert_eq!(s.labels[0].1, "q\"z\\w\n");
}

#[test]
fn repeated_label_name_keeps_last_value() {
    let groups = parse_metric_text("# TYPE m counter\nm{a=\"1\",a=\"2\"} 1\n").unwrap();
    let s = &groups[0].samples[0];
    assert_eq!(s.labels.len(), 1);
    assert_eq!(s.labels[0], ("a".to_string(), "2".to_string()));
}

#[test]
fn repeated_sample_key_keeps_last_value() {
    let groups = parse_metric_text("# TYPE c counter\nc 1\nc 2\n").unwrap();
    assert_eq!(groups[0].samples.len(), 1);
    assert_eq!(groups[0].samples[0].value, "2");
}

#[test]
fn value_canonicalization() {
    let groups = parse_metric_text("# TYPE m gauge\nm +007.5\n").unwrap();
    assert_eq!(groups[0].samples[0].value, "7.5");
    let groups = parse_metric_text("# TYPE m gauge\nm -0.5\n").unwrap();
    assert_eq!(groups[0].samples[0].value, "-0.5");
    let groups = parse_metric_text("# TYPE m gauge\nm 0e3\n").unwrap();
    assert_eq!(groups[0].samples[0].value, "0e3");
    let groups = parse_metric_text("# TYPE m gauge\nm 000\n").unwrap();
    assert_eq!(groups[0].samples[0].value, "0");
}

#[test]
fn special_values_become_null() {
    for body in [
        "# TYPE m gauge\nm NaN\n",
        "# TYPE m gauge\nm Inf\n",
        "# TYPE m gauge\nm +Inf\n",
        "# TYPE m gauge\nm -Inf\n",
    ] {
        let groups = parse_metric_text(body).unwrap();
        assert_eq!(groups[0].samples[0].value, "null");
    }
}

#[test]
fn untyped_sample_without_type_line() {
    let groups = parse_metric_text("foo 1\n").unwrap();
    assert_eq!(groups.len(), 1);
    assert!(matches!(groups[0].kind, MetricKind::Untyped));
    assert_eq!(groups[0].name, "foo");
}

#[test]
fn histogram_suffixes_absorbed() {
    let body = "# TYPE h histogram\nh_bucket{le=\"1\"} 2\nh_sum 3\nh_count 4\n";
    let groups = parse_metric_text(body).unwrap();
    assert_eq!(groups.len(), 1);
    assert!(matches!(groups[0].kind, MetricKind::Histogram));
}

#[test]
fn summary_declared_then_other_metric() {
    let body = "# TYPE s summary\ns{quantile=\"0.5\"} 1\n# TYPE c counter\nc 9\n";
    let groups = parse_metric_text(body).unwrap();
    assert_eq!(groups.len(), 2);
    assert!(matches!(groups[0].kind, MetricKind::Summary));
    assert!(matches!(groups[1].kind, MetricKind::Counter));
}

#[test]
fn comments_and_blanks_ignored() {
    let body = "# HELP c help text\n\n   \n# TYPE c counter\n# a free comment\nc 1\n";
    let groups = parse_metric_text(body).unwrap();
    assert_eq!(groups.len(), 1);
    assert_eq!(groups[0].samples.len(), 1);
}

#[test]
fn empty_body_has_no_groups() {
    assert_eq!(parse_metric_text("").unwrap().len(), 0);
    assert_eq!(parse_metric_text("# HELP x\n").unwrap().len(), 0);
}

#[test]
fn malformed_bodies_rejected() {
    for body in [
        "requests_total\n",
        "m 5.\n",
        "m .5\n",
        "m {\n",
        "m{a=\"x\" 1\n",
        "m{a=x} 1\n",
        "# TYPE x foo\n",
        "# TYPE x\n",
        "m 1 2 3\n",
        "m 1 -2\n",
    ] {
        assert!(parse_metric_text(body).is_none(), "accepted: {:?}", body);
    }
}
