//! The action controller's decision policy.
//!
//! Each tick reads the aggregate counts `(total, running, waiting)` from the
//! status table and picks exactly one of three actions: create one pod,
//! delete one waiting pod, or do nothing. The policy is a hysteresis toward
//! a steady state with exactly one idle pod: it grows the pool by one
//! whenever there is no slack and shrinks it by one whenever there is more
//! than one unit of slack.

use crate::crd_spec::TemplateSpec;
use crate::pod_builder::{build, built_from, BuildError, PodResource};
use crate::status_table::{with_status, Status, StatusTable};
use vstd::prelude::*;

verus! {

/// The action the controller takes on one tick.
#[derive(Clone, Copy, Debug, PartialEq, Eq, Structural)]
pub enum ControlAction {
    /// Create one new worker pod and record it as waiting.
    CreatePod,
    /// Delete one arbitrary waiting pod.
    DeleteWaitingPod,
    /// Steady state: exactly one spare idle pod; do nothing this tick.
    NoAction,
}

/// The decision policy on the aggregate counts: create when there is no
/// slack (no pods at all, or every pod is busy), delete when there is more
/// than one unit of slack, otherwise rest.
pub open spec fn spec_decide(total: nat, running: nat) -> ControlAction {
    if total == 0 || total == running {
        ControlAction::CreatePod
    } else if total - running > 1 {
        ControlAction::DeleteWaitingPod
    } else {
        ControlAction::NoAction
    }
}

/// Decide the action for one controller tick from the table's counts.
pub fn decide(total: usize, running: usize) -> (a: ControlAction)
    requires
        running <= total,
    ensures
        a == spec_decide(total as nat, running as nat),
        (a == ControlAction::CreatePod) <==> (total == 0 || total == running),
        (a == ControlAction::DeleteWaitingPod) <==> (total > running + 1),
        (a == ControlAction::NoAction) <==> (running < total && total <= running + 1),
{
    if total == 0 || total == running {
        ControlAction::CreatePod
    } else if total - running > 1 {
        ControlAction::DeleteWaitingPod
    } else {
        ControlAction::NoAction
    }
}

/// Decide one tick's action from the live status table.
pub fn decide_from_table(table: &StatusTable) -> (a: ControlAction)
    requires
        table.wf(),
    ensures
        a == spec_decide(table@.dom().len(), with_status(table@, Status::Running).len()),
{
    let (total, running, _waiting) = table.get_counts();
    decide(total, running)
}

/// Relies on rand::random_range: a value drawn uniformly from the given
/// range, here the eight-digit pod-name suffixes.
#[verifier::external_body]
fn generate_id() -> (r: u64)
    ensures
        10000000 <= r < 100000000,
{
    rand::random_range(10000000u64..100000000u64)
}

/// Render a worker pod specification under a fresh random eight-digit
/// suffix. Fails, and only fails, when the template carries fewer than six
/// config entries.
pub fn new_worker_pod(template: &TemplateSpec) -> (r: Result<PodResource, BuildError>)
    ensures
        match r {
            Ok(p) => template.config@.len() >= 6 && exists|n: nat|
                10000000 <= n < 100000000 && built_from(p, *template, n),
            Err(e) => template.config@.len() < 6 && e == BuildError::MissingConfiguration,
        },
{
    let suffix = generate_id();
    build(template, suffix)
}

/// Record a pod the cluster reports as created: it enters the table as
/// waiting, under the name the cluster returned.
pub fn record_created(table: &mut StatusTable, created_name: String)
    requires
        old(table).wf(),
    ensures
        final(table).wf(),
        final(table)@ == old(table)@.insert(created_name@, Status::Waiting),
{
    table.set(created_name, Status::Waiting);
}

/// Recording a freshly created pod as waiting grows the total by one and
/// leaves the running count unchanged: a create never masks a busy pod.
pub proof fn lemma_record_create(m: Map<Seq<char>, Status>, k: Seq<char>)
    requires
        m.dom().finite(),
        !m.dom().contains(k),
    ensures
        m.insert(k, Status::Waiting).dom().len() == m.dom().len() + 1,
        with_status(m.insert(k, Status::Waiting), Status::Running) == with_status(
            m,
            Status::Running,
        ),
        with_status(m.insert(k, Status::Waiting), Status::Waiting) == with_status(
            m,
            Status::Waiting,
        ).insert(k),
{
    assert(m.insert(k, Status::Waiting).dom() =~= m.dom().insert(k));
    assert(with_status(m.insert(k, Status::Waiting), Status::Running) =~= with_status(
        m,
        Status::Running,
    ));
    assert(with_status(m.insert(k, Status::Waiting), Status::Waiting) =~= with_status(
        m,
        Status::Waiting,
    ).insert(k));
}

/// Deleting a waiting pod shrinks the total by one and leaves the running
/// count unchanged: a delete never removes a busy pod.
pub proof fn lemma_record_delete(m: Map<Seq<char>, Status>, k: Seq<char>)
    requires
        m.dom().finite(),
        m.dom().contains(k),
        m[k] == Status::Waiting,
    ensures
        m.remove(k).dom().len() == m.dom().len() - 1,
        with_status(m.remove(k), Status::Running) == with_status(m, Status::Running),
        with_status(m.remove(k), Status::Waiting) == with_status(m, Status::Waiting).remove(k),
{
    assert(m.remove(k).dom() =~= m.dom().remove(k));
    assert(with_status(m.remove(k), Status::Running) =~= with_status(m, Status::Running));
    assert(with_status(m.remove(k), Status::Waiting) =~= with_status(m, Status::Waiting).remove(
        k,
    ));
}

/// The total count after one controller tick on a static external state:
/// a create immediately records one more waiting pod, a delete removes one
/// waiting pod, and the running count never changes.
pub open spec fn tick_total(total: nat, running: nat) -> nat {
    if total == 0 || total == running {
        total + 1
    } else if total - running > 1 {
        (total - 1) as nat
    } else {
        total
    }
}

/// The total count after `n` controller ticks on a static external state.
pub open spec fn ticks_total(n: nat, total: nat, running: nat) -> nat
    decreases n,
{
    if n == 0 {
        total
    } else {
        ticks_total((n - 1) as nat, tick_total(total, running), running)
    }
}

/// Idempotence of the decision policy: on a state where every known pod is
/// busy (or no pod exists) the decision is create — never delete — and
/// repeating the decision on the unchanged state yields it again, until a
/// successful create changes the counts.
pub proof fn lemma_decide_idempotent(total: nat, running: nat)
    requires
        total == running,
    ensures
        spec_decide(total, running) == ControlAction::CreatePod,
        spec_decide(total, running) != ControlAction::DeleteWaitingPod,
{
}

/// The steady state is a fixed point: with exactly one idle pod, no tick
/// ever changes the pool again.
pub proof fn lemma_ticks_stable(n: nat, total: nat, running: nat)
    requires
        running < total <= running + 1,
    ensures
        ticks_total(n, total, running) == total,
    decreases n,
{
    if n > 0 {
        lemma_ticks_stable((n - 1) as nat, total, running);
    }
}

/// Convergence of the hysteresis policy: from any consistent counts — in
/// particular from an empty pool — any run of ticks longer than the initial
/// slack reaches a pool with exactly one idle pod and stays there, never
/// oscillating between create and delete on a static external state.
pub proof fn lemma_convergence(n: nat, total: nat, running: nat)
    requires
        running <= total,
        n > total - running,
    ensures
        running < ticks_total(n, total, running) <= running + 1,
        forall|m: nat| m >= n ==> ticks_total(m, total, running) == ticks_total(n, total, running),
    decreases n,
{
    if running < total <= running + 1 {
        lemma_ticks_stable(n, total, running);
        assert forall|m: nat| m >= n implies ticks_total(m, total, running) == ticks_total(
            n,
            total,
            running,
        ) by {
            lemma_ticks_stable(m, total, running);
        }
    } else if total == running {
        lemma_ticks_stable((n - 1) as nat, total + 1, running);
        assert forall|m: nat| m >= n implies ticks_total(m, total, running) == ticks_total(
            n,
            total,
            running,
        ) by {
            lemma_ticks_stable((m - 1) as nat, total + 1, running);
        }
    } else {
        lemma_convergence((n - 1) as nat, (total - 1) as nat, running);
        assert(tick_total(total, running) == total - 1);
        assert forall|m: nat| m >= n implies ticks_total(m, total, running) == ticks_total(
            n,
            total,
            running,
        ) by {
            assert(ticks_total(m, total, running) == ticks_total(
                (m - 1) as nat,
                (total - 1) as nat,
                running,
            ));
            assert(ticks_total(n, total, running) == ticks_total(
                (n - 1) as nat,
                (total - 1) as nat,
                running,
            ));
        }
    }
}

} // verus!
