use observer::{default_config_path, Config, Error, Run, Target, Variant, Worker};

fn target(id: &str, url: &str) -> Target {
    Target { id: id.to_string(), url: url.to_string() }
}

fn config(targets: Vec<Target>) -> Config {
    Config {
        experiment_name: "exp".to_string(),
        variant: Variant::Baseline,
        targets,
        capture_path: "/tmp/captures".to_string(),
    }
}

#[test]
fn construction_succeeds_on_well_formed_urls() {
    let cfg = config(vec![
        target("a", "http://localhost:9090/metrics"),
        target("b", "https://example.com/metrics?x=1"),
    ]);
    let w = Worker::new(cfg).unwrap();
    assert_eq!(w.targets.len(), 2);
    assert_eq!(w.targets[0].0.id, "a");
    assert_eq!(w.targets[1].0.id, "b");
    assert_eq!(w.experiment_name, "exp");
    assert_eq!(w.capture_path, "/tmp/captures");
}

#[test]
fn construction_fails_on_first_malformed_url() {
    let cfg = config(vec![
        target("a", "http://localhost:9090/metrics"),
        target("bad", "not a url"),
        target("c", "http://localhost:9091/metrics"),
    ]);
    match Worker::new(cfg) {
        Err(Error::InvalidUrl { index }) => assert_eq!(index, 1),
        other => panic!("expected an invalid-url failure, got {:?}", other.is_ok()),
    }
}

#[test]
fn construction_fails_on_relative_url() {
    let cfg = config(vec![target("a", "/metrics")]);
    assert!(Worker::new(cfg).is_err());
}

#[test]
fn default_config_path_value() {
    assert_eq!(default_config_path(), "/etc/vector/soak/observer.yaml");
}

#[test]
fn run_identity_has_uuid_shape() {
    let run = Run::start();
    assert_eq!(run.next_index, 0);
    assert_eq!(run.run_id.len(), 36);
    assert_eq!(run.run_id.chars().filter(|c| *c == '-').count(), 4);
    let other = Run::start();
    assert_ne!(run.run_id, other.run_id);
}

#[test]
fn error_descriptions() {
    assert_eq!(
        Error::InvalidUrl { index: 0 }.describe(),
        "target URL is not a well-formed absolute URL"
    );
    assert_eq!(
        Error::Parse { target_index: 0 }.describe(),
        "response body is not valid metric text"
    );
    assert_eq!(Error::Config.describe(), "could not load the configuration");
    assert_eq!(Error::Io.describe(), "could not write the capture file");
    assert_eq!(
        Error::Time.describe(),
        "system clock reports a time before the epoch"
    );
}
