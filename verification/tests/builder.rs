use replica_controller::action::new_worker_pod;
use replica_controller::crd_spec::{ConfigItem, TemplateSpec};
use replica_controller::pod_builder::{build, pod_name, BuildError, EnvSource};
use replica_controller::text::decimal_string;

fn item(name: &str, value: &str) -> ConfigItem {
    ConfigItem { name: String::from(name), value: String::from(value) }
}

#[allow(non_snake_case)]
fn template(entries: usize) -> TemplateSpec {
    let all = vec![
        item("job", "job"),
        item("url", "https://example.test/org"),
        item("pool", "pool-a"),
        item("workdir", "/work"),
        item("secretname", "agent-secret"),
        item("secretkey", "token"),
    ];
    TemplateSpec {
        image: String::from("registry.test/worker:1"),
        pullSecretName: String::from("pull-secret"),
        config: all.into_iter().take(entries).collect(),
    }
}

#[test]
fn round_trip_six_entries() {
    let t = template(6);
    let p = build(&t, 12345678).unwrap();
    assert_eq!(p.name, "drc3937-job-12345678");
    assert_eq!(p.app_label_value, "devopsagent");
    assert_eq!(p.container_name, "devopsagent");
    assert_eq!(p.image, "registry.test/worker:1");
    assert_eq!(p.image_pull_policy, "Always");
    assert_eq!(p.image_pull_secret, "pull-secret");
    assert_eq!(p.env.len(), 5);

    assert_eq!(p.env[0].name, "AZP_AGENT_NAME");
    match &p.env[0].source {
        EnvSource::FieldRef(path) => assert_eq!(path, "metadata.name"),
        other => panic!("expected field reference, got {:?}", other),
    }
    assert_eq!(p.env[1].name, "AZP_URL");
    match &p.env[1].source {
        EnvSource::Value(v) => assert_eq!(v, "https://example.test/org"),
        other => panic!("expected value, got {:?}", other),
    }
    assert_eq!(p.env[2].name, "AZP_POOL");
    match &p.env[2].source {
        EnvSource::Value(v) => assert_eq!(v, "pool-a"),
        other => panic!("expected value, got {:?}", other),
    }
    assert_eq!(p.env[3].name, "AZP_WORK");
    match &p.env[3].source {
        EnvSource::Value(v) => assert_eq!(v, "/work"),
        other => panic!("expected value, got {:?}", other),
    }
    assert_eq!(p.env[4].name, "AZP_TOKEN");
    match &p.env[4].source {
        EnvSource::SecretKeyRef { secret, key } => {
            assert_eq!(secret, "agent-secret");
            assert_eq!(key, "token");
        }
        other => panic!("expected secret reference, got {:?}", other),
    }
}

#[test]
fn five_entries_fail_with_missing_configuration() {
    let t = template(5);
    let e = build(&t, 12345678).unwrap_err();
    assert_eq!(e, BuildError::MissingConfiguration);
    assert_eq!(e.message(), "missing configuration");
}

#[test]
fn random_suffix_has_eight_digits() {
    let t = template(6);
    let p = new_worker_pod(&t).unwrap();
    let suffix = p.name.strip_prefix("drc3937-job-").unwrap();
    assert_eq!(suffix.len(), 8);
    assert!(suffix.chars().all(|c| c.is_ascii_digit()));
    let n: u64 = suffix.parse().unwrap();
    assert!((10000000..100000000).contains(&n));
}

#[test]
fn new_worker_pod_rejects_short_config() {
    let t = template(4);
    assert_eq!(new_worker_pod(&t).unwrap_err(), BuildError::MissingConfiguration);
}

#[test]
fn decimal_rendering_is_exact() {
    assert_eq!(decimal_string(0), "0");
    assert_eq!(decimal_string(7), "7");
    assert_eq!(decimal_string(10), "10");
    assert_eq!(decimal_string(90817), "90817");
    assert_eq!(decimal_string(10000000), "10000000");
}

#[test]
fn pod_name_is_prefix_label_suffix() {
    assert_eq!(pod_name("build", 99999999), "drc3937-build-99999999");
}
