//! A verified control core for a worker-pod replica controller.
//!
//! The library holds the logic of a reconciler that keeps a pool of worker
//! pods sized so that at most one pod is idle: the shared status table, the
//! scale-up/scale-down decision policy, the pod specification builder, the
//! status-poller classification, and the orchestrator's event transitions.
//! Cluster I/O itself stays outside the library; callers hand in plain
//! values (pod names, readiness observations, event variants) and carry the
//! returned actions out to the cluster.

pub mod action;
pub mod crd_spec;
pub mod orchestrator;
pub mod pod_builder;
pub mod poller;
pub mod status_table;
pub mod text;
