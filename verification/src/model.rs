//! Plain-value models of the orchestration resources this tool emits:
//! pods, containers, volumes, stateful replica sets, services and the
//! configuration object.  Label and annotation maps are association
//! lists (see `kv`).  The platform client converts these to and from
//! its own wire types outside the library.

use vstd::prelude::*;

verus! {

#[derive(Debug, Clone)]
pub struct EnvVar {
    pub name: String,
    pub value: Option<String>,
    /// The downward-API field path this variable draws from, when it
    /// has no literal value.
    pub value_from_field: Option<String>,
}

#[derive(Debug, Clone)]
pub struct ContainerPort {
    pub container_port: i32,
    pub name: Option<String>,
}

#[derive(Debug, Clone)]
pub struct Probe {
    pub tcp_socket_port: Option<i32>,
    pub exec_command: Option<Vec<String>>,
    pub initial_delay_seconds: Option<i32>,
    pub period_seconds: Option<i32>,
    pub timeout_seconds: Option<i32>,
    pub failure_threshold: Option<i32>,
    pub success_threshold: Option<i32>,
}

#[derive(Debug, Clone)]
pub struct Lifecycle {
    pub pre_stop_command: Option<Vec<String>>,
}

#[derive(Debug, Clone)]
pub struct ResourceRequirements {
    pub requests: Option<Vec<(String, String)>>,
    pub limits: Option<Vec<(String, String)>>,
}

#[derive(Debug, Clone)]
pub struct SecurityContext {
    pub privileged: Option<bool>,
}

#[derive(Debug, Clone)]
pub struct VolumeMount {
    pub name: String,
    pub mount_path: String,
    pub sub_path: Option<String>,
    pub read_only: Option<bool>,
}

#[derive(Debug, Clone)]
pub enum VolumeSource {
    /// One key of a configuration object projected to one file.
    ConfigMap {
        name: String,
        default_mode: i32,
        item_key: String,
        item_path: String,
        item_mode: i32,
        optional: bool,
    },
    /// An ephemeral in-memory directory, bounded when a limit is given.
    EmptyDirMemory { size_limit: Option<String> },
    /// A directory on the node, created when missing.
    HostPath { path: String, path_type: String },
    /// A source of a user-supplied template that this tool only carries.
    Other,
}

#[derive(Debug, Clone)]
pub struct Volume {
    pub name: String,
    pub source: VolumeSource,
}

#[derive(Debug, Clone)]
pub struct Container {
    pub name: String,
    pub image: Option<String>,
    pub image_pull_policy: Option<String>,
    pub command: Option<Vec<String>>,
    pub args: Option<Vec<String>>,
    pub working_dir: Option<String>,
    pub env: Option<Vec<EnvVar>>,
    pub ports: Option<Vec<ContainerPort>>,
    pub volume_mounts: Option<Vec<VolumeMount>>,
    pub resources: Option<ResourceRequirements>,
    pub liveness_probe: Option<Probe>,
    pub readiness_probe: Option<Probe>,
    pub lifecycle: Option<Lifecycle>,
    pub security_context: Option<SecurityContext>,
}

impl Container {
    /// A container with only its name set.
    pub fn named(name: String) -> (r: Container)
        ensures
            r.name == name,
            r.image is None,
            r.image_pull_policy is None,
            r.command is None,
            r.args is None,
            r.working_dir is None,
            r.env is None,
            r.ports is None,
            r.volume_mounts is None,
            r.resources is None,
            r.liveness_probe is None,
            r.readiness_probe is None,
            r.lifecycle is None,
            r.security_context is None,
    {
        Container {
            name,
            image: None,
            image_pull_policy: None,
            command: None,
            args: None,
            working_dir: None,
            env: None,
            ports: None,
            volume_mounts: None,
            resources: None,
            liveness_probe: None,
            readiness_probe: None,
            lifecycle: None,
            security_context: None,
        }
    }
}

#[derive(Debug, Clone)]
pub struct LabelSelectorRequirement {
    pub key: String,
    pub operator: String,
    pub values: Option<Vec<String>>,
}

#[derive(Debug, Clone)]
pub struct WeightedPodAffinityTerm {
    pub weight: i32,
    pub match_expressions: Vec<LabelSelectorRequirement>,
    pub topology_key: String,
}

#[derive(Debug, Clone)]
pub struct Affinity {
    pub preferred_pod_anti_affinity: Vec<WeightedPodAffinityTerm>,
}

#[derive(Debug, Clone)]
pub struct Toleration {
    pub key: Option<String>,
    pub operator: Option<String>,
    pub value: Option<String>,
    pub effect: Option<String>,
    pub toleration_seconds: Option<i64>,
}

#[derive(Debug, Clone)]
pub struct PodMeta {
    pub name: Option<String>,
    pub labels: Option<Vec<(String, String)>>,
    pub annotations: Option<Vec<(String, String)>>,
}

impl PodMeta {
    pub fn empty() -> (r: PodMeta)
        ensures
            r.name is None,
            r.labels is None,
            r.annotations is None,
    {
        PodMeta { name: None, labels: None, annotations: None }
    }
}

#[derive(Debug, Clone)]
pub struct PodSpec {
    pub containers: Vec<Container>,
    pub init_containers: Option<Vec<Container>>,
    pub volumes: Option<Vec<Volume>>,
    pub node_selector: Option<Vec<(String, String)>>,
    pub affinity: Option<Affinity>,
    pub restart_policy: Option<String>,
    pub service_account_name: Option<String>,
    pub tolerations: Option<Vec<Toleration>>,
    pub dns_policy: Option<String>,
    pub priority_class_name: Option<String>,
    pub host_network: Option<bool>,
}

impl PodSpec {
    /// A pod specification with no containers and nothing else set.
    pub fn empty() -> (r: PodSpec)
        ensures
            r.containers@ == Seq::<Container>::empty(),
            r.init_containers is None,
            r.volumes is None,
            r.node_selector is None,
            r.affinity is None,
            r.restart_policy is None,
            r.service_account_name is None,
            r.tolerations is None,
            r.dns_policy is None,
            r.priority_class_name is None,
            r.host_network is None,
    {
        PodSpec {
            containers: Vec::new(),
            init_containers: None,
            volumes: None,
            node_selector: None,
            affinity: None,
            restart_policy: None,
            service_account_name: None,
            tolerations: None,
            dns_policy: None,
            priority_class_name: None,
            host_network: None,
        }
    }
}

#[derive(Debug, Clone)]
pub struct Pod {
    pub metadata: PodMeta,
    pub spec: Option<PodSpec>,
}

#[derive(Debug, Clone)]
pub struct OwnerReference {
    pub api_version: String,
    pub kind: String,
    pub name: String,
    pub uid: String,
    pub controller: bool,
    pub block_owner_deletion: bool,
}

#[derive(Debug, Clone)]
pub struct ObjectMeta {
    pub name: Option<String>,
    pub namespace: Option<String>,
    pub labels: Option<Vec<(String, String)>>,
    pub annotations: Option<Vec<(String, String)>>,
    pub owner_references: Option<Vec<OwnerReference>>,
}

impl ObjectMeta {
    pub fn named(name: String, namespace: String, labels: Vec<(String, String)>) -> (r: ObjectMeta)
        ensures
            r.name == Some(name),
            r.namespace == Some(namespace),
            r.labels == Some(labels),
            r.annotations is None,
            r.owner_references is None,
    {
        ObjectMeta {
            name: Some(name),
            namespace: Some(namespace),
            labels: Some(labels),
            annotations: None,
            owner_references: None,
        }
    }
}

#[derive(Debug, Clone)]
pub struct PersistentVolumeClaim {
    pub name: String,
    pub labels: Option<Vec<(String, String)>>,
    pub access_modes: Vec<String>,
    pub storage_class_name: Option<String>,
    /// The requested size under the `storage` resource key.
    pub storage_request: String,
}

#[derive(Debug, Clone)]
pub struct StatefulSet {
    pub metadata: ObjectMeta,
    pub replicas: Option<i32>,
    pub service_name: String,
    pub selector_match_labels: Vec<(String, String)>,
    pub template_metadata: PodMeta,
    pub template_spec: Option<PodSpec>,
    pub volume_claim_templates: Option<Vec<PersistentVolumeClaim>>,
    pub pod_management_policy: String,
}

#[derive(Debug, Clone)]
pub struct ServicePort {
    pub name: String,
    pub port: i32,
    pub target_port: i32,
    pub protocol: String,
}

#[derive(Debug, Clone)]
pub struct Service {
    pub metadata: ObjectMeta,
    pub service_type: String,
    pub ports: Vec<ServicePort>,
    pub selector: Vec<(String, String)>,
    pub cluster_ip: Option<String>,
    pub session_affinity: Option<String>,
    pub external_ips: Option<Vec<String>>,
    pub load_balancer_source_ranges: Option<Vec<String>>,
    pub publish_not_ready_addresses: Option<bool>,
}

#[derive(Debug, Clone)]
pub struct ConfigMap {
    pub metadata: ObjectMeta,
    pub data: Vec<(String, String)>,
}

/// The view of an optional vector: `None`, or the sequence it holds.
pub open spec fn opt_vec_view<T>(x: Option<Vec<T>>) -> Option<Seq<T>> {
    match x {
        Some(v) => Some(v@),
        None => None,
    }
}

/// Copies a value while keeping its abstract value; the derived
/// `Clone` impls carry no specification, so the library copies
/// field by field where a proof needs the result's value.
pub fn dup_opt_string(x: &Option<String>) -> (r: Option<String>)
    ensures
        r == *x,
{
    match x {
        Some(s) => Some(s.clone()),
        None => None,
    }
}

pub fn dup_strings(x: &Vec<String>) -> (r: Vec<String>)
    ensures
        r@ == x@,
{
    let mut out: Vec<String> = Vec::new();
    let mut i: usize = 0;
    while i < x.len()
        invariant
            i <= x@.len(),
            out@ == x@.take(i as int),
        decreases x@.len() - i,
    {
        out.push(x[i].clone());
        proof {
            assert(out@ =~= x@.take(i + 1));
        }
        i += 1;
    }
    proof {
        assert(x@.take(x@.len() as int) =~= x@);
    }
    out
}

pub fn dup_opt_strings(x: &Option<Vec<String>>) -> (r: Option<Vec<String>>)
    ensures
        opt_vec_view(r) == opt_vec_view(*x),
{
    match x {
        Some(v) => Some(dup_strings(v)),
        None => None,
    }
}

pub fn dup_kv(x: &Vec<(String, String)>) -> (r: Vec<(String, String)>)
    ensures
        r@ == x@,
{
    let mut out: Vec<(String, String)> = Vec::new();
    let mut i: usize = 0;
    while i < x.len()
        invariant
            i <= x@.len(),
            out@ == x@.take(i as int),
        decreases x@.len() - i,
    {
        out.push((x[i].0.clone(), x[i].1.clone()));
        proof {
            assert(x@[i as int] == (x@[i as int].0, x@[i as int].1));
            assert(out@ =~= x@.take(i + 1));
        }
        i += 1;
    }
    proof {
        assert(x@.take(x@.len() as int) =~= x@);
    }
    out
}

pub fn dup_opt_kv(x: &Option<Vec<(String, String)>>) -> (r: Option<Vec<(String, String)>>)
    ensures
        opt_vec_view(r) == opt_vec_view(*x),
{
    match x {
        Some(v) => Some(dup_kv(v)),
        None => None,
    }
}

/// Resource requirements with the same requests and limits.
pub open spec fn spec_rr_eqv(a: ResourceRequirements, b: ResourceRequirements) -> bool {
    opt_vec_view(a.requests) == opt_vec_view(b.requests) && opt_vec_view(a.limits) == opt_vec_view(
        b.limits,
    )
}

pub open spec fn spec_opt_rr_eqv(
    a: Option<ResourceRequirements>,
    b: Option<ResourceRequirements>,
) -> bool {
    match (a, b) {
        (None, None) => true,
        (Some(x), Some(y)) => spec_rr_eqv(x, y),
        _ => false,
    }
}

pub fn dup_opt_resources(x: &Option<ResourceRequirements>) -> (r: Option<ResourceRequirements>)
    ensures
        spec_opt_rr_eqv(r, *x),
{
    match x {
        Some(rr) => Some(
            ResourceRequirements { requests: dup_opt_kv(&rr.requests), limits: dup_opt_kv(&rr.limits) },
        ),
        None => None,
    }
}

pub fn dup_tolerations(x: &Vec<Toleration>) -> (r: Vec<Toleration>)
    ensures
        r@ == x@,
{
    let mut out: Vec<Toleration> = Vec::new();
    let mut i: usize = 0;
    while i < x.len()
        invariant
            i <= x@.len(),
            out@ == x@.take(i as int),
        decreases x@.len() - i,
    {
        out.push(
            Toleration {
                key: dup_opt_string(&x[i].key),
                operator: dup_opt_string(&x[i].operator),
                value: dup_opt_string(&x[i].value),
                effect: dup_opt_string(&x[i].effect),
                toleration_seconds: match x[i].toleration_seconds {
                    Some(v) => Some(v),
                    None => None,
                },
            },
        );
        proof {
            assert(out@ =~= x@.take(i + 1));
        }
        i += 1;
    }
    proof {
        assert(x@.take(x@.len() as int) =~= x@);
    }
    out
}

/// Label-selector requirements with the same content.
pub open spec fn spec_lsr_eqv(a: LabelSelectorRequirement, b: LabelSelectorRequirement) -> bool {
    a.key == b.key && a.operator == b.operator && opt_vec_view(a.values) == opt_vec_view(b.values)
}

pub open spec fn spec_term_eqv(a: WeightedPodAffinityTerm, b: WeightedPodAffinityTerm) -> bool {
    &&& a.weight == b.weight
    &&& a.topology_key == b.topology_key
    &&& a.match_expressions@.len() == b.match_expressions@.len()
    &&& forall|i: int|
        0 <= i < a.match_expressions@.len() ==> spec_lsr_eqv(
            #[trigger] a.match_expressions@[i],
            b.match_expressions@[i],
        )
}

pub open spec fn spec_opt_affinity_eqv(a: Option<Affinity>, b: Option<Affinity>) -> bool {
    match (a, b) {
        (None, None) => true,
        (Some(x), Some(y)) => x.preferred_pod_anti_affinity@.len()
            == y.preferred_pod_anti_affinity@.len() && forall|i: int|
            0 <= i < x.preferred_pod_anti_affinity@.len() ==> spec_term_eqv(
                #[trigger] x.preferred_pod_anti_affinity@[i],
                y.preferred_pod_anti_affinity@[i],
            ),
        _ => false,
    }
}

pub fn dup_opt_affinity(x: &Option<Affinity>) -> (r: Option<Affinity>)
    ensures
        spec_opt_affinity_eqv(r, *x),
{
    match x {
        Some(a) => {
            let mut terms: Vec<WeightedPodAffinityTerm> = Vec::new();
            let mut i: usize = 0;
            while i < a.preferred_pod_anti_affinity.len()
                invariant
                    i <= a.preferred_pod_anti_affinity@.len(),
                    terms@.len() == i,
                    forall|j: int|
                        0 <= j < i ==> spec_term_eqv(
                            #[trigger] terms@[j],
                            a.preferred_pod_anti_affinity@[j],
                        ),
                decreases a.preferred_pod_anti_affinity@.len() - i,
            {
                let t = &a.preferred_pod_anti_affinity[i];
                let mut exprs: Vec<LabelSelectorRequirement> = Vec::new();
                let mut j: usize = 0;
                while j < t.match_expressions.len()
                    invariant
                        j <= t.match_expressions@.len(),
                        exprs@.len() == j,
                        forall|k: int|
                            0 <= k < j ==> spec_lsr_eqv(
                                #[trigger] exprs@[k],
                                t.match_expressions@[k],
                            ),
                    decreases t.match_expressions@.len() - j,
                {
                    exprs.push(
                        LabelSelectorRequirement {
                            key: t.match_expressions[j].key.clone(),
                            operator: t.match_expressions[j].operator.clone(),
                            values: dup_opt_strings(&t.match_expressions[j].values),
                        },
                    );
                    j += 1;
                }
                terms.push(
                    WeightedPodAffinityTerm {
                        weight: t.weight,
                        match_expressions: exprs,
                        topology_key: t.topology_key.clone(),
                    },
                );
                i += 1;
            }
            Some(Affinity { preferred_pod_anti_affinity: terms })
        },
        None => None,
    }
}

/// The labels a role's resources carry.
pub open spec fn spec_role_labels(
    l: Seq<(String, String)>,
    cluster_id: Seq<char>,
    component: Seq<char>,
) -> bool {
    &&& l.len() == 3
    &&& l[0].0@ == "app"@ && l[0].1@ == cluster_id
    &&& l[1].0@ == "component"@ && l[1].1@ == component
    &&& l[2].0@ == "type"@ && l[2].1@ == "curvine-native-kubernetes"@
}

/// The selector labels of a role: the cluster and the component.
pub open spec fn spec_role_selector(
    l: Seq<(String, String)>,
    cluster_id: Seq<char>,
    component: Seq<char>,
) -> bool {
    &&& l.len() == 2
    &&& l[0].0@ == "app"@ && l[0].1@ == cluster_id
    &&& l[1].0@ == "component"@ && l[1].1@ == component
}

/// The owner reference every dependent manifest carries: the cluster's
/// configuration object, so that deleting it cascades.
pub fn config_owner_reference(cluster_id: &str, uid: String) -> (r: OwnerReference)
    ensures
        r.api_version@ == "v1"@,
        r.kind@ == "ConfigMap"@,
        r.name@ == cluster_id@ + "-config"@,
        r.uid == uid,
        r.controller,
        r.block_owner_deletion,
{
    let mut name = cluster_id.to_owned();
    name.append("-config");
    OwnerReference {
        api_version: "v1".to_owned(),
        kind: "ConfigMap".to_owned(),
        name,
        uid,
        controller: true,
        block_owner_deletion: true,
    }
}

} // verus!
