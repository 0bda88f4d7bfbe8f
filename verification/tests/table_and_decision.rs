use replica_controller::action::{decide, decide_from_table, record_created, ControlAction};
use replica_controller::status_table::{Status, StatusTable};

#[test]
fn counts_sum_to_total() {
    let mut t = StatusTable::new();
    assert_eq!(t.get_counts(), (0, 0, 0));
    t.set(String::from("p1"), Status::Running);
    t.set(String::from("p2"), Status::Waiting);
    t.set(String::from("p3"), Status::Waiting);
    let (total, running, waiting) = t.get_counts();
    assert_eq!(total, 3);
    assert_eq!(running, 1);
    assert_eq!(waiting, 2);
    assert_eq!(running + waiting, total);
}

#[test]
fn set_overwrites_without_duplicating() {
    let mut t = StatusTable::new();
    t.set(String::from("p1"), Status::Waiting);
    t.set(String::from("p1"), Status::Running);
    let (total, running, waiting) = t.get_counts();
    assert_eq!(total, 1);
    assert_eq!(running, 1);
    assert_eq!(waiting, 0);
}

#[test]
fn remove_deletes_and_ignores_absent() {
    let mut t = StatusTable::new();
    t.set(String::from("p1"), Status::Waiting);
    t.set(String::from("p2"), Status::Running);
    t.remove("p1");
    assert_eq!(t.get_counts(), (1, 1, 0));
    t.remove("ghost");
    assert_eq!(t.get_counts(), (1, 1, 0));
}

#[test]
fn list_waiting_one_finds_a_waiting_pod() {
    let mut t = StatusTable::new();
    t.set(String::from("p1"), Status::Running);
    assert!(t.list_waiting_one().is_none());
    t.set(String::from("p2"), Status::Waiting);
    assert_eq!(t.list_waiting_one(), Some(String::from("p2")));
}

#[test]
fn keys_and_clear() {
    let mut t = StatusTable::new();
    t.set(String::from("p1"), Status::Waiting);
    t.set(String::from("p2"), Status::Running);
    let mut ids = t.keys();
    ids.sort();
    assert_eq!(ids, vec![String::from("p1"), String::from("p2")]);
    t.clear();
    assert_eq!(t.get_counts(), (0, 0, 0));
    assert!(t.keys().is_empty());
}

#[test]
fn empty_table_creates() {
    let t = StatusTable::new();
    assert_eq!(decide_from_table(&t), ControlAction::CreatePod);
}

#[test]
fn all_running_creates() {
    let mut t = StatusTable::new();
    t.set(String::from("p1"), Status::Running);
    t.set(String::from("p2"), Status::Running);
    assert_eq!(decide_from_table(&t), ControlAction::CreatePod);
}

#[test]
fn two_waiting_deletes_one_of_them() {
    let mut t = StatusTable::new();
    t.set(String::from("p1"), Status::Running);
    t.set(String::from("p2"), Status::Waiting);
    t.set(String::from("p3"), Status::Waiting);
    assert_eq!(decide_from_table(&t), ControlAction::DeleteWaitingPod);
    let victim = t.list_waiting_one().unwrap();
    assert!(victim == "p2" || victim == "p3");
    t.remove(victim.as_str());
    assert_eq!(t.get_counts(), (2, 1, 1));
}

#[test]
fn one_waiting_rests() {
    let mut t = StatusTable::new();
    t.set(String::from("p1"), Status::Running);
    t.set(String::from("p2"), Status::Waiting);
    assert_eq!(decide_from_table(&t), ControlAction::NoAction);
}

#[test]
fn decision_is_idempotent_while_all_busy() {
    for _ in 0..5 {
        let a = decide(4, 4);
        assert_eq!(a, ControlAction::CreatePod);
        assert_ne!(a, ControlAction::DeleteWaitingPod);
    }
}

#[test]
fn ticks_converge_to_one_idle_pod() {
    let mut t = StatusTable::new();
    t.set(String::from("r1"), Status::Running);
    for i in 0..4 {
        t.set(format!("w{}", i), Status::Waiting);
    }
    let mut history = Vec::new();
    for step in 0..10 {
        match decide_from_table(&t) {
            ControlAction::CreatePod => {
                record_created(&mut t, format!("new{}", step));
            }
            ControlAction::DeleteWaitingPod => {
                let victim = t.list_waiting_one().unwrap();
                t.remove(victim.as_str());
            }
            ControlAction::NoAction => {}
        }
        history.push(t.get_counts());
    }
    // after the initial slack is worked off, the pool holds exactly one
    // idle pod and never changes again
    let (total, running, waiting) = *history.last().unwrap();
    assert_eq!((total, running, waiting), (2, 1, 1));
    assert!(history[3..].iter().all(|c| *c == (2, 1, 1)));
}
