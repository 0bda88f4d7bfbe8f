//! The desired-state custom resource consumed by the controller: a selector
//! and a worker-pod template. The control logic reads only the template's
//! spec; the selector and metadata labels ride along unchanged.

use std::collections::HashMap;
use vstd::prelude::*;

verus! {

/// The custom resource's spec: a label selector and the worker template.
#[derive(Clone, Debug)]
pub struct DevopsReplicaControllerSpec {
    pub selector: Selector,
    pub template: Template,
}

/// The resource's label selector; not consulted by the control logic.
#[allow(non_snake_case)]
#[derive(Clone, Debug)]
pub struct Selector {
    pub matchLabels: HashMap<String, String>,
}

/// The worker template: metadata labels and the pod-level spec.
#[derive(Clone, Debug)]
pub struct Template {
    pub metadata: TemplateMetadata,
    pub spec: TemplateSpec,
}

/// Labels attached to the template.
#[derive(Clone, Debug)]
pub struct TemplateMetadata {
    pub labels: HashMap<String, String>,
}

/// The desired state for one generation of worker pods: the image, the pull
/// secret, and the positional configuration values. By position the config
/// holds: the job label used in pod names, the target URL, the pool, the
/// work directory, the secret name, and the secret key — at least six
/// entries, or pod construction fails.
#[allow(non_snake_case)]
#[derive(Clone, Debug)]
pub struct TemplateSpec {
    pub image: String,
    pub pullSecretName: String,
    pub config: Vec<ConfigItem>,
}

/// One positional name/value configuration entry.
#[derive(Clone, Debug)]
pub struct ConfigItem {
    pub name: String,
    pub value: String,
}

} // verus!
