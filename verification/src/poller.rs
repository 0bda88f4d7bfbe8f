//! The status poller's logic: filter cluster-listed pods down to the
//! controller's workers, classify each from its readiness signal, and write
//! the results into the status table.
//!
//! The cluster listing and the per-pod log query are I/O and stay with the
//! caller; it hands in each worker pod's name together with the most recent
//! log line the query returned, or nothing when the query failed.

use crate::status_table::{Status, StatusTable};
use crate::text::{contains_seq, has_prefix};
use vstd::prelude::*;

verus! {

/// The marker whose presence in a pod's most recent log line means the pod
/// is actively processing work.
pub open spec fn running_marker() -> Seq<char> {
    "Running job:"@
}

/// Is this the name of a controller-managed worker pod?
pub fn is_worker_pod_name(name: &str) -> (r: bool)
    ensures
        r == has_prefix(name@, crate::pod_builder::worker_prefix()),
{
    crate::text::starts_with_str(name, "drc3937")
}

/// What one readiness observation means: the pod is running iff its most
/// recent log line (when the query returned one) carries the marker; a
/// failed query fails open to waiting, never aborting the poll.
pub open spec fn classify_spec(line: Option<Seq<char>>) -> Status {
    match line {
        Some(l) => if contains_seq(l, running_marker()) {
            Status::Running
        } else {
            Status::Waiting
        },
        None => Status::Waiting,
    }
}

/// Classify one pod from its most recent log line, if any.
pub fn classify_pod(last_log_line: Option<&str>) -> (st: Status)
    ensures
        st == classify_spec(
            match last_log_line {
                Some(l) => Some(l@),
                None => None,
            },
        ),
{
    match last_log_line {
        Some(line) => {
            if crate::text::contains_str(line, "Running job:") {
                Status::Running
            } else {
                Status::Waiting
            }
        },
        None => Status::Waiting,
    }
}

/// The table after one poll round's observations are written in order:
/// every observed pod's status is overwritten or added, later entries
/// winning; pods missing from the observations keep their old entry.
pub open spec fn poll_map(
    m: Map<Seq<char>, Status>,
    obs: Seq<(String, Option<String>)>,
) -> Map<Seq<char>, Status>
    decreases obs.len(),
{
    if obs.len() == 0 {
        m
    } else {
        poll_map(m, obs.drop_last()).insert(
            obs.last().0@,
            classify_spec(
                match obs.last().1 {
                    Some(l) => Some(l@),
                    None => None,
                },
            ),
        )
    }
}

/// One poll round: write the classified status of every observed worker
/// pod into the table. The poller never removes entries; pods that
/// vanished from the cluster keep their stale entry until the action
/// controller deletes them.
pub fn poll_round(table: &mut StatusTable, obs: &Vec<(String, Option<String>)>)
    requires
        old(table).wf(),
    ensures
        final(table).wf(),
        final(table)@ == poll_map(old(table)@, obs@),
{
    let ghost m0 = table@;
    let n = obs.len();
    let mut i: usize = 0;
    while i < n
        invariant
            i <= n,
            n == obs@.len(),
            table.wf(),
            table@ == poll_map(m0, obs@.subrange(0, i as int)),
        decreases n - i,
    {
        let line: Option<&str> = match &obs[i].1 {
            Some(l) => Some(l.as_str()),
            None => None,
        };
        let st = classify_pod(line);
        table.set(obs[i].0.clone(), st);
        proof {
            assert(obs@.subrange(0, i as int + 1).drop_last() =~= obs@.subrange(0, i as int));
            assert(obs@.subrange(0, i as int + 1).last() == obs@[i as int]);
        }
        i = i + 1;
    }
    proof {
        assert(obs@.subrange(0, n as int) =~= obs@);
    }
}

} // verus!
