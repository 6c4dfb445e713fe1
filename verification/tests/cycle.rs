use observer::{
    render_record, Config, Error, MetricKind, OutputRecord, Run, Target, Variant, Worker,
};

fn two_target_worker() -> Worker {
    let cfg = Config {
        experiment_name: "soak-exp".to_string(),
        variant: Variant::Baseline,
        targets: vec![
            Target { id: "A".to_string(), url: "http://localhost:9001/metrics".to_string() },
            Target { id: "B".to_string(), url: "http://localhost:9002/metrics".to_string() },
        ],
        capture_path: "/tmp/captures".to_string(),
    };
    Worker::new(cfg).unwrap()
}

fn fixed_run() -> Run {
    Run { run_id: "11111111-2222-3333-4444-555555555555".to_string(), next_index: 0 }
}

fn parse_line(line: &str) -> serde_json::Value {
    assert!(line.ends_with('\n'));
    serde_json::from_str(line.trim_end()).expect("capture line is one JSON object")
}

#[test]
fn healthy_target_records_while_failed_target_skipped() {
    let w = two_target_worker();
    let mut run = fixed_run();
    let bodies = vec![
        Some("# TYPE requests_total counter\nrequests_total 5\n".to_string()),
        None,
    ];
    let out = w.run_cycle(&mut run, 1234, &bodies).unwrap();
    assert_eq!(out.lines.len(), 1);
    let v = parse_line(&out.lines[0]);
    assert_eq!(v.get("metric_name").unwrap().as_str().unwrap(), "requests_total");
    assert_eq!(v.get("target_id").unwrap().as_str().unwrap(), "A");
    assert_eq!(v.get("metric_kind").unwrap().as_str().unwrap(), "counter");
    assert_eq!(v.get("value").unwrap().as_f64().unwrap(), 5.0);
    assert_eq!(v.get("fetch_index").unwrap().as_u64().unwrap(), 0);
    assert_eq!(v.get("experiment").unwrap().as_str().unwrap(), "soak-exp");
    assert_eq!(v.get("variant").unwrap().as_str().unwrap(), "baseline");
    assert_eq!(
        v.get("run_id").unwrap().as_str().unwrap(),
        "11111111-2222-3333-4444-555555555555"
    );
    // The run goes on: a second cycle follows with the next index.
    assert_eq!(run.next_index, 1);
    let out2 = w.run_cycle(&mut run, 5678, &bodies).unwrap();
    assert_eq!(run.next_index, 2);
    let v2 = parse_line(&out2.lines[0]);
    assert_eq!(v2.get("fetch_index").unwrap().as_u64().unwrap(), 1);
    assert_eq!(
        v2.get("run_id").unwrap().as_str().unwrap(),
        "11111111-2222-3333-4444-555555555555"
    );
}

#[test]
fn unparseable_body_is_fatal_and_leaves_state() {
    let w = two_target_worker();
    let mut run = fixed_run();
    let bodies = vec![
        Some("this is { not metric text\n".to_string()),
        Some("# TYPE c counter\nc 1\n".to_string()),
    ];
    match w.run_cycle(&mut run, 1, &bodies) {
        Err(Error::Parse { target_index }) => assert_eq!(target_index, 0),
        _ => panic!("a body that does not parse must fail the cycle"),
    }
    assert_eq!(run.next_index, 0);
}

#[test]
fn sample_timestamp_wins_over_wall_clock() {
    let w = two_target_worker();
    let mut run = fixed_run();
    let bodies = vec![
        Some("# TYPE m gauge\nm{q=\"1\"} 2 1700000000123\nm{q=\"2\"} 3\n".to_string()),
        None,
    ];
    let out = w.run_cycle(&mut run, 999, &bodies).unwrap();
    assert_eq!(out.lines.len(), 2);
    let with_ts = parse_line(&out.lines[0]);
    let without_ts = parse_line(&out.lines[1]);
    assert_eq!(with_ts.get("time").unwrap().as_u64().unwrap(), 1700000000123);
    assert_eq!(without_ts.get("time").unwrap().as_u64().unwrap(), 999);
}

#[test]
fn summary_histogram_untyped_produce_no_records() {
    let w = two_target_worker();
    let mut run = fixed_run();
    let body = "# TYPE s summary\ns{quantile=\"0.5\"} 1\ns_sum 2\ns_count 3\n\
                # TYPE h histogram\nh_bucket{le=\"1\"} 2\nh_sum 3\nh_count 4\n\
                plain_untyped 7\n";
    let bodies = vec![Some(body.to_string()), None];
    let out = w.run_cycle(&mut run, 1, &bodies).unwrap();
    assert_eq!(out.lines.len(), 0);
    assert_eq!(out.empty_targets.len(), 0);
}

#[test]
fn empty_parse_is_reported_not_fatal() {
    let w = two_target_worker();
    let mut run = fixed_run();
    let bodies = vec![Some("# HELP nothing here\n".to_string()), None];
    let out = w.run_cycle(&mut run, 1, &bodies).unwrap();
    assert_eq!(out.lines.len(), 0);
    assert_eq!(out.empty_targets, vec![0]);
    assert_eq!(run.next_index, 1);
}

#[test]
fn replayed_cycles_are_byte_identical() {
    let w = two_target_worker();
    let bodies1 = vec![
        Some("# TYPE c counter\nc{a=\"x\"} 1\n".to_string()),
        Some("# TYPE g gauge\ng 2 77\n".to_string()),
    ];
    let bodies2 = vec![Some("# TYPE c counter\nc{a=\"x\"} 9\n".to_string()), None];
    let mut first: Vec<String> = Vec::new();
    let mut second: Vec<String> = Vec::new();
    for sink in [&mut first, &mut second] {
        let mut run = fixed_run();
        let out1 = w.run_cycle(&mut run, 1000, &bodies1).unwrap();
        let out2 = w.run_cycle(&mut run, 2000, &bodies2).unwrap();
        sink.extend(out1.lines);
        sink.extend(out2.lines);
    }
    assert_eq!(first, second);
}

#[test]
fn record_line_layout_is_exact() {
    let rec = OutputRecord {
        run_id: "r".to_string(),
        experiment: "e".to_string(),
        variant: Variant::Baseline,
        target_id: "t".to_string(),
        time: 12,
        fetch_index: 3,
        metric_name: "m".to_string(),
        metric_kind: MetricKind::Counter,
        metric_labels: vec![("a".to_string(), "b\"c\\d\ne".to_string())],
        value: "5".to_string(),
    };
    let line = render_record(&rec);
    assert_eq!(
        line,
        "{\"run_id\":\"r\",\"experiment\":\"e\",\"variant\":\"baseline\",\"target_id\":\"t\",\
         \"time\":12,\"fetch_index\":3,\"metric_name\":\"m\",\"metric_kind\":\"counter\",\
         \"metric_labels\":{\"a\":\"b\\\"c\\\\d\\ne\"},\"value\":5}\n"
    );
    let v: serde_json::Value = serde_json::from_str(line.trim_end()).unwrap();
    assert_eq!(v.get("metric_labels").unwrap().get("a").unwrap().as_str().unwrap(), "b\"c\\d\ne");
}

#[test]
fn comparison_variant_is_tagged() {
    let cfg = Config {
        experiment_name: "x".to_string(),
        variant: Variant::Comparison,
        targets: vec![Target { id: "A".to_string(), url: "http://h:1/m".to_string() }],
        capture_path: "p".to_string(),
    };
    let w = Worker::new(cfg).unwrap();
    let mut run = fixed_run();
    let bodies = vec![Some("# TYPE c counter\nc 1\n".to_string())];
    let out = w.run_cycle(&mut run, 1, &bodies).unwrap();
    let v = parse_line(&out.lines[0]);
    assert_eq!(v.get("variant").unwrap().as_str().unwrap(), "comparison");
}
