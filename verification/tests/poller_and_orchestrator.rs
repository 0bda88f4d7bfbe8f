use replica_controller::orchestrator::{
    drain_all, is_recoverable_stream_error, OrchestratorAction, OrchestratorState, WatchEvent,
};
use replica_controller::poller::{classify_pod, is_worker_pod_name, poll_round};
use replica_controller::status_table::{Status, StatusTable};
use replica_controller::text::{contains_str, starts_with_str, str_eq};

fn empty_template() -> replica_controller::crd_spec::TemplateSpec {
    replica_controller::crd_spec::TemplateSpec {
        image: String::from("img"),
        pullSecretName: String::from("ps"),
        config: Vec::new(),
    }
}

#[test]
fn classify_reads_the_marker() {
    assert_eq!(classify_pod(Some("2024-01-01 Running job: build 17")), Status::Running);
    assert_eq!(classify_pod(Some("Listening for Jobs")), Status::Waiting);
}

#[test]
fn classify_fails_open_to_waiting() {
    assert_eq!(classify_pod(None), Status::Waiting);
}

#[test]
fn worker_pod_names_carry_the_prefix() {
    assert!(is_worker_pod_name("drc3937-job-12345678"));
    assert!(is_worker_pod_name("drc3937"));
    assert!(!is_worker_pod_name("drc393"));
    assert!(!is_worker_pod_name("other-pod"));
}

#[test]
fn poll_round_overwrites_and_adds() {
    let mut t = StatusTable::new();
    t.set(String::from("drc3937-job-1"), Status::Waiting);
    t.set(String::from("drc3937-job-2"), Status::Running);
    let obs = vec![
        (String::from("drc3937-job-1"), Some(String::from("Running job: deploy"))),
        (String::from("drc3937-job-3"), None),
    ];
    poll_round(&mut t, &obs);
    let (total, running, waiting) = t.get_counts();
    assert_eq!(total, 3);
    assert_eq!(running, 2);
    assert_eq!(waiting, 1);
}

#[test]
fn applied_supersedes_and_starts_a_generation() {
    let mut st = OrchestratorState::new();
    let previous = st.generation;
    let action = st.handle_event(WatchEvent::Applied(empty_template()));
    assert!(matches!(action, OrchestratorAction::StartGeneration(_)));
    assert_eq!(st.generation, previous + 1);
    assert!(st.superseded(previous));
    assert!(!st.superseded(st.generation));
}

#[test]
fn deleted_drains_every_tracked_pod() {
    let mut st = OrchestratorState::new();
    st.handle_event(WatchEvent::Applied(empty_template()));
    let mut t = StatusTable::new();
    t.set(String::from("p1"), Status::Waiting);
    t.set(String::from("p2"), Status::Running);
    let action = st.handle_event(WatchEvent::Deleted(empty_template()));
    assert!(matches!(action, OrchestratorAction::TearDown));
    let mut ids = drain_all(&mut t);
    ids.sort();
    assert_eq!(ids, vec![String::from("p1"), String::from("p2")]);
    assert_eq!(t.get_counts(), (0, 0, 0));
}

#[test]
fn restarted_changes_nothing() {
    let mut st = OrchestratorState::new();
    let before = st.generation;
    assert!(matches!(st.handle_event(WatchEvent::Restarted), OrchestratorAction::NoteRestart));
    assert_eq!(st.generation, before);
}

#[test]
fn connection_reset_is_recoverable() {
    assert!(is_recoverable_stream_error("hyper error: Connection reset by peer (os error 54)"));
    assert!(!is_recoverable_stream_error("watch stream closed"));
    let mut st = OrchestratorState::new();
    let warn = st.handle_event(WatchEvent::StreamError(String::from(
        "Connection reset by peer (os error 54)",
    )));
    assert!(matches!(warn, OrchestratorAction::NoteRecoverableError));
    let err = st.handle_event(WatchEvent::StreamError(String::from("api unreachable")));
    assert!(matches!(err, OrchestratorAction::NoteError));
}

#[test]
fn text_helpers_are_exact() {
    assert!(str_eq("same", "same"));
    assert!(!str_eq("same", "samely"));
    assert!(starts_with_str("abcde", ""));
    assert!(starts_with_str("abcde", "abc"));
    assert!(!starts_with_str("ab", "abc"));
    assert!(contains_str("abcde", "cd"));
    assert!(contains_str("abcde", ""));
    assert!(!contains_str("abcde", "ce"));
    assert!(!contains_str("ab", "abc"));
}
