//! The pod resource builder: a pure function that renders a worker pod
//! specification from the desired-state template and a generated numeric
//! suffix. It has no side effects; the action controller submits the
//! returned resource to the cluster.

use crate::crd_spec::TemplateSpec;
use crate::text::{has_prefix, spec_decimal};
use vstd::prelude::*;

verus! {

/// Where an environment variable's value comes from.
#[derive(Clone, Debug)]
pub enum EnvSource {
    /// A literal value.
    Value(String),
    /// A field of the pod's own metadata, named by its path.
    FieldRef(String),
    /// A key in a cluster secret.
    SecretKeyRef { secret: String, key: String },
}

/// One environment variable of the worker container.
#[derive(Clone, Debug)]
pub struct EnvEntry {
    pub name: String,
    pub source: EnvSource,
}

/// A rendered worker pod specification, ready for submission.
#[derive(Clone, Debug)]
pub struct PodResource {
    /// The pod's (and table key's) identity: prefix, job label, suffix.
    pub name: String,
    /// The value of the pod's `app` label.
    pub app_label_value: String,
    pub container_name: String,
    pub image: String,
    pub image_pull_policy: String,
    pub env: Vec<EnvEntry>,
    /// The name of the image-pull secret.
    pub image_pull_secret: String,
}

/// Why pod construction failed.
#[derive(Clone, Copy, Debug, PartialEq, Eq, Structural)]
pub enum BuildError {
    /// The template held fewer than the six required config entries.
    MissingConfiguration,
}

impl BuildError {
    /// A human-readable description, for the caller's log line.
    pub fn message(&self) -> (r: &'static str)
        ensures
            r@ == "missing configuration"@,
    {
        "missing configuration"
    }
}

/// The fixed name prefix of every controller-managed worker pod.
pub open spec fn worker_prefix() -> Seq<char> {
    "drc3937"@
}

/// The generated pod identity: `{prefix}-{job label}-{decimal suffix}`.
pub open spec fn spec_pod_name(label: Seq<char>, n: nat) -> Seq<char> {
    "drc3937-"@ + label + "-"@ + spec_decimal(n)
}

/// Render the pod identity for a job label and a numeric suffix.
pub fn pod_name(label: &str, suffix: u64) -> (r: String)
    ensures
        r@ == spec_pod_name(label@, suffix as nat),
{
    let mut s = String::from_str("drc3937-");
    s.append(label);
    s.append("-");
    let d = crate::text::decimal_string(suffix);
    s.append(d.as_str());
    proof {
        assert(s@ =~= spec_pod_name(label@, suffix as nat));
    }
    s
}

/// Every generated pod name carries the fixed prefix that the status
/// poller filters cluster pods by.
pub proof fn lemma_pod_name_has_worker_prefix(label: Seq<char>, n: nat)
    ensures
        has_prefix(spec_pod_name(label, n), worker_prefix()),
{
    reveal_strlit("drc3937-");
    reveal_strlit("drc3937");
    assert(spec_pod_name(label, n).subrange(0, 7) =~= "drc3937"@);
}

/// The pod resource `build` constructs from `t` under suffix `n`: the
/// generated name, the fixed worker labels and pull policy, and the five
/// environment variables drawn from the pod's own metadata, the positional
/// config values, and the configured secret.
pub open spec fn built_from(p: PodResource, t: TemplateSpec, n: nat) -> bool {
    &&& p.name@ == spec_pod_name(t.config@[0].value@, n)
    &&& p.app_label_value@ == "devopsagent"@
    &&& p.container_name@ == "devopsagent"@
    &&& p.image@ == t.image@
    &&& p.image_pull_policy@ == "Always"@
    &&& p.image_pull_secret@ == t.pullSecretName@
    &&& p.env@.len() == 5
    &&& p.env@[0].name@ == "AZP_AGENT_NAME"@
    &&& p.env@[0].source matches EnvSource::FieldRef(f) && f@ == "metadata.name"@
    &&& p.env@[1].name@ == "AZP_URL"@
    &&& p.env@[1].source matches EnvSource::Value(v) && v@ == t.config@[1].value@
    &&& p.env@[2].name@ == "AZP_POOL"@
    &&& p.env@[2].source matches EnvSource::Value(v) && v@ == t.config@[2].value@
    &&& p.env@[3].name@ == "AZP_WORK"@
    &&& p.env@[3].source matches EnvSource::Value(v) && v@ == t.config@[3].value@
    &&& p.env@[4].name@ == "AZP_TOKEN"@
    &&& p.env@[4].source matches EnvSource::SecretKeyRef { secret, key } && secret@
        == t.config@[4].value@ && key@ == t.config@[5].value@
}

/// Render a worker pod specification from the template under the given
/// suffix. Fails, and only fails, when the template carries fewer than six
/// config entries.
pub fn build(template: &TemplateSpec, suffix: u64) -> (r: Result<PodResource, BuildError>)
    ensures
        match r {
            Ok(p) => template.config@.len() >= 6 && built_from(p, *template, suffix as nat),
            Err(e) => template.config@.len() < 6 && e == BuildError::MissingConfiguration,
        },
{
    if template.config.len() < 6 {
        return Err(BuildError::MissingConfiguration);
    }
    let name = pod_name(template.config[0].value.as_str(), suffix);
    let mut env: Vec<EnvEntry> = Vec::new();
    env.push(
        EnvEntry {
            name: String::from_str("AZP_AGENT_NAME"),
            source: EnvSource::FieldRef(String::from_str("metadata.name")),
        },
    );
    env.push(
        EnvEntry {
            name: String::from_str("AZP_URL"),
            source: EnvSource::Value(template.config[1].value.clone()),
        },
    );
    env.push(
        EnvEntry {
            name: String::from_str("AZP_POOL"),
            source: EnvSource::Value(template.config[2].value.clone()),
        },
    );
    env.push(
        EnvEntry {
            name: String::from_str("AZP_WORK"),
            source: EnvSource::Value(template.config[3].value.clone()),
        },
    );
    env.push(
        EnvEntry {
            name: String::from_str("AZP_TOKEN"),
            source: EnvSource::SecretKeyRef {
                secret: template.config[4].value.clone(),
                key: template.config[5].value.clone(),
            },
        },
    );
    Ok(
        PodResource {
            name,
            app_label_value: String::from_str("devopsagent"),
            container_name: String::from_str("devopsagent"),
            image: template.image.clone(),
            image_pull_policy: String::from_str("Always"),
            env,
            image_pull_secret: template.pullSecretName.clone(),
        },
    )
}

} // verus!
