//! The worker stateful replica set.  Worker data directories drive the
//! storage layout: a memory-tier directory becomes a bounded in-memory
//! ephemeral volume, every other tier becomes a persistent claim, and
//! a per-path host-path override takes precedence over both.

use vstd::prelude::*;

use crate::conf::{
    spec_dd_capacity, spec_dd_err_msg, spec_dd_ok, spec_dd_path, spec_dd_tier, ClusterConf,
    StorageType, WorkerDataDir,
};
use crate::envbuild::{
    spec_base_env, spec_custom_env_tail, spec_env_field, spec_env_literal, spec_k8s_env,
    spec_stop_command, spec_worker_master_addr, spec_worker_self_fqdn, EnvironmentBuilder,
    LifecycleBuilder,
};
use crate::errors::KubeError;
use crate::kconfig::{KubernetesConfig, WorkerConfig};
use crate::kv::{kv_extend, spec_kv_last_lookup, spec_kv_lookup, spec_kv_unique};
use crate::master::{spec_config_mount, spec_config_volume};
use crate::merge::{
    merge_pod_with_template, spec_bm_path, spec_first_conflict_idx, spec_merged_pod,
    spec_mount_conflict_msg, spec_opt_mounts, CurvinePod,
};
use crate::model::{
    config_owner_reference, dup_kv, dup_opt_kv, dup_opt_resources, dup_opt_string,
    dup_tolerations, opt_vec_view, spec_opt_rr_eqv, spec_role_labels, spec_role_selector,
    Affinity, Container, ContainerPort, LabelSelectorRequirement, ObjectMeta,
    PersistentVolumeClaim, Pod, PodMeta, PodSpec, SecurityContext, StatefulSet, Volume,
    VolumeMount, VolumeSource, WeightedPodAffinityTerm,
};
use crate::text::{fmt_usize, spec_dec, spec_format_bytes, str_eq_str};

verus! {

/// The first entry that does not parse, or -1.
pub open spec fn spec_first_bad_dd(ds: Seq<String>) -> int
    decreases ds.len(),
{
    if ds.len() == 0 {
        -1
    } else if !spec_dd_ok(ds[0]@) {
        0
    } else {
        let r = spec_first_bad_dd(ds.drop_first());
        if r == -1 {
            -1
        } else {
            r + 1
        }
    }
}

proof fn lemma_first_bad_dd_at(ds: Seq<String>, i: int)
    requires
        0 <= i < ds.len(),
        !spec_dd_ok(ds[i]@),
        forall|j: int| 0 <= j < i ==> spec_dd_ok(ds[j]@),
    ensures
        spec_first_bad_dd(ds) == i,
    decreases i,
{
    if i > 0 {
        lemma_first_bad_dd_at(ds.drop_first(), i - 1);
    }
}

proof fn lemma_first_bad_dd_none(ds: Seq<String>)
    requires
        forall|j: int| 0 <= j < ds.len() ==> spec_dd_ok(ds[j]@),
    ensures
        spec_first_bad_dd(ds) == -1,
    decreases ds.len(),
{
    if ds.len() > 0 {
        lemma_first_bad_dd_none(ds.drop_first());
    }
}

/// The message a rejected data directory entry produces.
pub open spec fn spec_dd_wrapped_msg(s: Seq<char>) -> Seq<char> {
    "Invalid data_dir format '"@ + s + "': "@ + spec_dd_err_msg(s)
}

/// The storage class worker claims use.
pub open spec fn spec_worker_storage_class(
    storage: Option<crate::kconfig::StorageConfig>,
) -> Option<Seq<char>> {
    match storage {
        None => None,
        Some(s) => match s.worker_storage_class {
            Some(c) => Some(c@),
            None => if s.storage_class@.len() == 0 {
                None
            } else {
                Some(s.storage_class@)
            },
        },
    }
}

pub open spec fn spec_worker_storage_size(
    storage: Option<crate::kconfig::StorageConfig>,
) -> Seq<char> {
    match storage {
        Some(s) => match s.worker_size {
            Some(z) => z@,
            None => "20Gi"@,
        },
        None => "20Gi"@,
    }
}

/// The host path configured for a data directory's path, if any.
pub open spec fn spec_worker_hostpath_of(cfg: &WorkerConfig, s: Seq<char>) -> Option<Seq<char>> {
    spec_kv_lookup(
        match cfg.host_path_storage {
            Some(v) => v@,
            None => Seq::empty(),
        },
        spec_dd_path(s),
    )
}

/// The pod-level volume entry `i` yields, when it yields one: its
/// configured host path, or an in-memory directory for the memory
/// tier, bounded by the declared capacity.
pub open spec fn spec_worker_dir_volume(
    cfg: &WorkerConfig,
    s: Seq<char>,
    v: Volume,
    i: int,
) -> bool {
    &&& v.name@ == "data-dir-"@ + spec_dec(i as nat)
    &&& match spec_worker_hostpath_of(cfg, s) {
        Some(hp) => v.source matches VolumeSource::HostPath { path, path_type } && path@ == hp
            && path_type@ == "DirectoryOrCreate"@,
        None => spec_dd_tier(s) == StorageType::Mem && (v.source
            matches VolumeSource::EmptyDirMemory { size_limit } && (if spec_dd_capacity(s) > 0 {
            size_limit matches Some(z) && z@ == spec_format_bytes(spec_dd_capacity(s))
        } else {
            size_limit is None
        })),
    }
}

pub open spec fn spec_worker_dir_yields_volume(cfg: &WorkerConfig, s: Seq<char>) -> bool {
    spec_worker_hostpath_of(cfg, s) is Some || spec_dd_tier(s) == StorageType::Mem
}

/// A persistent claim for entry `i`.
pub open spec fn spec_worker_claim(
    c: PersistentVolumeClaim,
    i: int,
    storage: Option<crate::kconfig::StorageConfig>,
) -> bool {
    &&& c.name@ == "data-dir-"@ + spec_dec(i as nat)
    &&& c.labels is None
    &&& c.access_modes@.len() == 1 && c.access_modes@[0]@ == "ReadWriteOnce"@
    &&& (match (c.storage_class_name, spec_worker_storage_class(storage)) {
        (None, None) => true,
        (Some(a), Some(b)) => a@ == b,
        _ => false,
    })
    &&& c.storage_request@ == spec_worker_storage_size(storage)
}

/// Every configured data directory parses.
pub open spec fn spec_all_dirs_ok(conf: &ClusterConf) -> bool {
    forall|i: int|
        0 <= i < conf.worker.data_dir@.len() ==> spec_dd_ok(#[trigger] conf.worker.data_dir@[i]@)
}

/// Entry `i` of the parsed list: its position and the parse of the
/// configured text.
pub open spec fn spec_parsed_entry(
    conf: &ClusterConf,
    e: (usize, WorkerDataDir),
    i: int,
) -> bool {
    &&& e.0 == i
    &&& e.1.storage_type == spec_dd_tier(conf.worker.data_dir@[i]@)
    &&& e.1.capacity == spec_dd_capacity(conf.worker.data_dir@[i]@)
    &&& e.1.path@ == spec_dd_path(conf.worker.data_dir@[i]@)
}

pub open spec fn spec_parsed_dirs(conf: &ClusterConf, v: Seq<(usize, WorkerDataDir)>) -> bool {
    &&& v.len() == conf.worker.data_dir@.len()
    &&& forall|i: int| 0 <= i < v.len() ==> spec_parsed_entry(conf, #[trigger] v[i], i)
}

/// The claim-template list, tied to entry positions: claim `j` stands
/// for non-memory entry `m[j]`, and every non-memory entry has a claim.
pub open spec fn spec_claims_indexed(
    b: &WorkerBuilder,
    ts: Seq<PersistentVolumeClaim>,
    m: Seq<int>,
) -> bool {
    &&& m.len() == ts.len()
    &&& forall|j: int| 0 <= j && j + 1 < m.len() ==> #[trigger] m[j] < m[j + 1]
    &&& forall|j: int|
        0 <= j < ts.len() ==> 0 <= #[trigger] m[j] < b.cluster_conf.worker.data_dir@.len()
            && spec_dd_tier(b.cluster_conf.worker.data_dir@[m[j]]@) != StorageType::Mem
            && spec_worker_claim(ts[j], m[j], b.config.storage)
    &&& forall|i: int|
        0 <= i < b.cluster_conf.worker.data_dir@.len() && spec_dd_tier(
            #[trigger] b.cluster_conf.worker.data_dir@[i]@,
        ) != StorageType::Mem ==> exists|j: int| 0 <= j < m.len() && #[trigger] m[j] == i
}

pub open spec fn spec_worker_claims(b: &WorkerBuilder, ts: Seq<PersistentVolumeClaim>) -> bool {
    exists|m: Seq<int>| #[trigger] spec_claims_indexed(b, ts, m)
}

/// The pod-level volume list, tied to entry positions: the
/// configuration projection first, then a volume per host-path-mapped
/// or memory-tier entry.
pub open spec fn spec_volumes_indexed(b: &WorkerBuilder, vs: Seq<Volume>, m: Seq<int>) -> bool {
    &&& vs.len() >= 1
    &&& spec_config_volume(vs[0], b.cluster_id@)
    &&& m.len() + 1 == vs.len()
    &&& forall|j: int| 0 <= j && j + 1 < m.len() ==> #[trigger] m[j] < m[j + 1]
    &&& forall|j: int|
        0 <= j < m.len() ==> 0 <= #[trigger] m[j] < b.cluster_conf.worker.data_dir@.len()
            && spec_worker_dir_volume(
            &b.config.worker,
            b.cluster_conf.worker.data_dir@[m[j]]@,
            vs[j + 1],
            m[j],
        )
    &&& forall|i: int|
        0 <= i < b.cluster_conf.worker.data_dir@.len() && spec_worker_dir_yields_volume(
            &b.config.worker,
            #[trigger] b.cluster_conf.worker.data_dir@[i]@,
        ) ==> exists|j: int| 0 <= j < m.len() && #[trigger] m[j] == i
}

pub open spec fn spec_worker_volumes(b: &WorkerBuilder, vs: Seq<Volume>) -> bool {
    exists|m: Seq<int>| #[trigger] spec_volumes_indexed(b, vs, m)
}

/// The mount entry `i` yields: the volume's name at the entry's path.
pub open spec fn spec_worker_dir_mount(conf: &ClusterConf, m: VolumeMount, i: int) -> bool {
    &&& m.name@ == "data-dir-"@ + spec_dec(i as nat)
    &&& m.mount_path@ == spec_dd_path(conf.worker.data_dir@[i]@)
    &&& m.sub_path is None
    &&& m.read_only == Some(false)
}

pub open spec fn spec_worker_mounts(conf: &ClusterConf, ms: Seq<VolumeMount>) -> bool {
    &&& ms.len() == 1 + conf.worker.data_dir@.len()
    &&& spec_config_mount(ms[0])
    &&& forall|i: int|
        0 <= i < conf.worker.data_dir@.len() ==> spec_worker_dir_mount(
            conf,
            #[trigger] ms[1 + i],
            i,
        )
}

/// The worker's base container.
pub open spec fn spec_worker_container(b: &WorkerBuilder, c: Container) -> bool {
    &&& c.name@ == "cv-worker"@
    &&& c.image matches Some(i) && i@ == b.config.worker.image@
    &&& c.image_pull_policy matches Some(p) && p@ == b.config.image_pull_policy@
    &&& c.command is None
    &&& c.args matches Some(a) && a@.len() == 1 && a@[0]@ == "worker"@
    &&& c.working_dir matches Some(w) && w@ == "/app"@
    &&& c.env matches Some(e) && {
        &&& e@.len() >= 10
        &&& spec_base_env(e@.take(4))
        &&& spec_k8s_env(e@.subrange(4, 7), b.config.cluster_domain@)
        &&& spec_env_field(e@[7], "POD_NAME"@, "metadata.name"@)
        &&& spec_env_literal(
            e@[8],
            "CURVINE_MASTER_HOSTNAME"@,
            spec_worker_master_addr(b.cluster_id@, b.namespace@, b.config.cluster_domain@),
        )
        &&& spec_env_literal(
            e@[9],
            "CURVINE_WORKER_HOSTNAME"@,
            spec_worker_self_fqdn(b.cluster_id@, b.namespace@, b.config.cluster_domain@),
        )
        &&& spec_custom_env_tail(e@.skip(10), b.config.worker.env_vars@)
    }
    &&& c.ports matches Some(ps) && {
        &&& ps@.len() == 2
        &&& ps@[0].container_port == 8997 && (ps@[0].name matches Some(n) && n@ == "rpc"@)
        &&& ps@[1].container_port == 9001 && (ps@[1].name matches Some(n) && n@ == "web"@)
    }
    &&& c.volume_mounts is None
    &&& spec_opt_rr_eqv(c.resources, b.config.worker.resources)
    &&& c.liveness_probe is None
    &&& c.readiness_probe is None
    &&& (!b.config.worker.graceful_shutdown ==> c.lifecycle is None)
    &&& (b.config.worker.graceful_shutdown ==> (c.lifecycle matches Some(l) && (
    l.pre_stop_command matches Some(cmd) && {
        &&& cmd@.len() == 3
        &&& cmd@[0]@ == "/bin/sh"@
        &&& cmd@[1]@ == "-c"@
        &&& cmd@[2]@ == spec_stop_command("worker"@, 10)
    })))
    &&& c.security_context matches Some(s) && s.privileged == Some(true)
}

/// The command of the init container that waits for the first master.
pub open spec fn spec_wait_for_master_cmd(
    cluster_id: Seq<char>,
    namespace: Seq<char>,
    domain: Seq<char>,
) -> Seq<char> {
    "until nc -z "@ + cluster_id + "-master-headless."@ + namespace + ".svc."@ + domain + " 8995; do echo waiting for master; sleep 2; done"@
}

/// The worker's anti-affinity: prefer spreading worker pods across
/// nodes of the cluster.
pub open spec fn spec_worker_affinity(a: Affinity, cluster_id: Seq<char>) -> bool {
    &&& a.preferred_pod_anti_affinity@.len() == 1
    &&& {
        let t = a.preferred_pod_anti_affinity@[0];
        &&& t.weight == 100
        &&& t.topology_key@ == "kubernetes.io/hostname"@
        &&& t.match_expressions@.len() == 2
        &&& t.match_expressions@[0].key@ == "app"@ && t.match_expressions@[0].operator@ == "In"@
            && (t.match_expressions@[0].values matches Some(v) && v@.len() == 1 && v@[0]@
            == cluster_id)
        &&& t.match_expressions@[1].key@ == "component"@ && t.match_expressions@[1].operator@
            == "In"@ && (t.match_expressions@[1].values matches Some(v) && v@.len() == 1 && v@[0]@
            == "worker"@)
    }
}

/// The worker's base pod.
pub open spec fn spec_worker_base_pod(b: &WorkerBuilder, bp: Pod) -> bool {
    &&& bp.metadata.name is None
    &&& bp.metadata.labels matches Some(l) && (forall|q: Seq<char>| #[trigger]
        spec_kv_lookup(l@, q) == if spec_kv_last_lookup(b.config.worker.labels@, q) is Some {
            spec_kv_last_lookup(b.config.worker.labels@, q)
        } else if q == "app"@ {
            Some(b.cluster_id@)
        } else if q == "component"@ {
            Some("worker"@)
        } else {
            None
        })
    &&& (b.config.worker.annotations@.len() == 0 ==> bp.metadata.annotations is None)
    &&& (b.config.worker.annotations@.len() > 0 ==> (bp.metadata.annotations matches Some(a)
        && a@ == b.config.worker.annotations@))
    &&& bp.spec matches Some(ps) && {
        &&& ps.containers@.len() == 1
        &&& spec_worker_container(b, ps.containers@[0])
        &&& (!b.config.worker.init_container ==> ps.init_containers is None)
        &&& (b.config.worker.init_container ==> (ps.init_containers matches Some(ics) && {
            &&& ics@.len() == 1
            &&& ics@[0].name@ == "wait-for-master"@
            &&& ics@[0].image matches Some(im) && im@ == "busybox:latest"@
            &&& ics@[0].command matches Some(cm) && cm@.len() == 2 && cm@[0]@ == "sh"@ && cm@[1]@
                == "-c"@
            &&& ics@[0].args matches Some(ar) && ar@.len() == 1 && ar@[0]@
                == spec_wait_for_master_cmd(
                b.cluster_id@,
                b.namespace@,
                b.config.cluster_domain@,
            )
        }))
        &&& ps.volumes is None
        &&& opt_vec_view(ps.node_selector) == opt_vec_view(b.config.worker.node_selector)
        &&& (!b.config.worker.anti_affinity ==> ps.affinity is None)
        &&& (b.config.worker.anti_affinity ==> (ps.affinity matches Some(a)
            && spec_worker_affinity(a, b.cluster_id@)))
        &&& ps.restart_policy matches Some(rp) && rp@ == "Always"@
        &&& ps.service_account_name == b.config.worker.service_account
        &&& (b.config.worker.tolerations@.len() == 0 ==> ps.tolerations is None)
        &&& (b.config.worker.tolerations@.len() > 0 ==> (ps.tolerations matches Some(t) && t@
            == b.config.worker.tolerations@))
        &&& (b.config.worker.dns_policy is Some ==> ps.dns_policy == b.config.worker.dns_policy)
        &&& (b.config.worker.dns_policy is None && b.config.worker.host_network ==> (
        ps.dns_policy matches Some(d) && d@ == "ClusterFirstWithHostNet"@))
        &&& (b.config.worker.dns_policy is None && !b.config.worker.host_network
            ==> ps.dns_policy is None)
        &&& ps.priority_class_name == b.config.worker.priority_class
        &&& ps.host_network == Some(b.config.worker.host_network)
    }
}

pub struct WorkerBuilder {
    pub cluster_id: String,
    pub namespace: String,
    pub config: KubernetesConfig,
    pub cluster_conf: ClusterConf,
}

fn dd_volume_name(i: usize) -> (r: String)
    ensures
        r@ == "data-dir-"@ + spec_dec(i as nat),
{
    let mut s = "data-dir-".to_owned();
    s.append(fmt_usize(i).as_str());
    s
}

impl WorkerBuilder {
    pub fn new(
        cluster_id: String,
        namespace: String,
        config: KubernetesConfig,
        cluster_conf: ClusterConf,
    ) -> (r: WorkerBuilder)
        ensures
            r.cluster_id == cluster_id,
            r.namespace == namespace,
            r.config == config,
            r.cluster_conf == cluster_conf,
    {
        WorkerBuilder { cluster_id, namespace, config, cluster_conf }
    }

    pub fn get_labels(&self) -> (r: Vec<(String, String)>)
        ensures
            spec_role_labels(r@, self.cluster_id@, "worker"@),
    {
        let mut labels: Vec<(String, String)> = Vec::new();
        labels.push(("app".to_owned(), self.cluster_id.clone()));
        labels.push(("component".to_owned(), "worker".to_owned()));
        labels.push(("type".to_owned(), "curvine-native-kubernetes".to_owned()));
        labels
    }

    pub fn get_selector_labels(&self) -> (r: Vec<(String, String)>)
        ensures
            spec_role_selector(r@, self.cluster_id@, "worker"@),
    {
        let mut labels: Vec<(String, String)> = Vec::new();
        labels.push(("app".to_owned(), self.cluster_id.clone()));
        labels.push(("component".to_owned(), "worker".to_owned()));
        labels
    }

    /// Parses every configured data directory, with its position; the
    /// first malformed entry fails the whole pass.
    #[verifier::loop_isolation(false)]
    pub fn parse_data_dirs(&self) -> (r: Result<Vec<(usize, WorkerDataDir)>, KubeError>)
        ensures
            r is Ok <==> spec_all_dirs_ok(&self.cluster_conf),
            r matches Ok(v) ==> spec_parsed_dirs(&self.cluster_conf, v@),
            r matches Err(e) ==> {
                let i = spec_first_bad_dd(self.cluster_conf.worker.data_dir@);
                &&& 0 <= i
                &&& e matches KubeError::ConfigError(m) && m@ == spec_dd_wrapped_msg(
                    self.cluster_conf.worker.data_dir@[i]@,
                )
            },
    {
        let mut out: Vec<(usize, WorkerDataDir)> = Vec::new();
        let mut i: usize = 0;
        while i < self.cluster_conf.worker.data_dir.len()
            invariant
                i <= self.cluster_conf.worker.data_dir@.len(),
                out@.len() == i,
                forall|j: int|
                    0 <= j < i ==> spec_dd_ok(#[trigger] self.cluster_conf.worker.data_dir@[j]@),
                forall|j: int|
                    0 <= j < i ==> spec_parsed_entry(&self.cluster_conf, #[trigger] out@[j], j),
            decreases self.cluster_conf.worker.data_dir@.len() - i,
        {
            match WorkerDataDir::parse_data_dir(self.cluster_conf.worker.data_dir[i].as_str()) {
                Ok(d) => {
                    out.push((i, d));
                    proof {
                        assert(spec_parsed_entry(&self.cluster_conf, out@[i as int], i as int));
                    }
                },
                Err(e) => {
                    proof {
                        lemma_first_bad_dd_at(self.cluster_conf.worker.data_dir@, i as int);
                    }
                    let inner = match e {
                        KubeError::ConfigError(m) => m,
                        _ => {
                            proof {
                                assert(false);
                            }
                            "".to_owned()
                        },
                    };
                    let mut m = "Invalid data_dir format '".to_owned();
                    m.append(self.cluster_conf.worker.data_dir[i].as_str());
                    m.append("': ");
                    m.append(inner.as_str());
                    return Err(KubeError::ConfigError(m));
                },
            }
            i += 1;
        }
        proof {
            lemma_first_bad_dd_none(self.cluster_conf.worker.data_dir@);
        }
        Ok(out)
    }

    /// One persistent claim per non-memory data directory, in entry
    /// order; no claims at all when every directory is memory-tier.
    #[verifier::loop_isolation(false)]
    #[verifier::rlimit(100)]
    pub fn build_volume_claim_templates(&self) -> (r: Result<
        Option<Vec<PersistentVolumeClaim>>,
        KubeError,
    >)
        ensures
            r is Ok <==> spec_all_dirs_ok(&self.cluster_conf),
            r matches Ok(opt) ==> {
                let ts = match opt {
                    Some(v) => v@,
                    None => Seq::<PersistentVolumeClaim>::empty(),
                };
                &&& (opt matches Some(v) ==> v@.len() > 0)
                &&& spec_worker_claims(self, ts)
            },
            r matches Err(e) ==> {
                let i = spec_first_bad_dd(self.cluster_conf.worker.data_dir@);
                &&& 0 <= i
                &&& e matches KubeError::ConfigError(m) && m@ == spec_dd_wrapped_msg(
                    self.cluster_conf.worker.data_dir@[i]@,
                )
            },
    {
        let data_dirs = match self.parse_data_dirs() {
            Ok(v) => v,
            Err(e) => {
                return Err(e);
            },
        };
        let mut templates: Vec<PersistentVolumeClaim> = Vec::new();
        let ghost mut srcidx: Seq<int> = Seq::empty();
        let mut k: usize = 0;
        while k < data_dirs.len()
            invariant
                k <= data_dirs@.len(),
                spec_parsed_dirs(&self.cluster_conf, data_dirs@),
                srcidx.len() == templates@.len(),
                forall|j: int| 0 <= j < srcidx.len() ==> #[trigger] srcidx[j] < k,
                forall|j: int| 0 <= j && j + 1 < srcidx.len() ==> #[trigger] srcidx[j] < srcidx[j + 1],
                forall|j: int|
                    0 <= j < templates@.len() ==> 0 <= #[trigger] srcidx[j]
                        < self.cluster_conf.worker.data_dir@.len() && spec_dd_tier(
                        self.cluster_conf.worker.data_dir@[srcidx[j]]@,
                    ) != StorageType::Mem && spec_worker_claim(
                        templates@[j],
                        srcidx[j],
                        self.config.storage,
                    ),
                forall|i: int|
                    0 <= i < k && spec_dd_tier(
                        #[trigger] self.cluster_conf.worker.data_dir@[i]@,
                    ) != StorageType::Mem ==> exists|j: int|
                        0 <= j < srcidx.len() && #[trigger] srcidx[j] == i,
            decreases data_dirs@.len() - k,
        {
            proof {
                assert(spec_parsed_entry(&self.cluster_conf, data_dirs@[k as int], k as int));
            }
            let index = data_dirs[k].0;
            let is_mem = match data_dirs[k].1.storage_type {
                StorageType::Mem => true,
                _ => false,
            };
            if !is_mem {
                let storage_size: String = match &self.config.storage {
                    Some(s) => match &s.worker_size {
                        Some(z) => z.clone(),
                        None => "20Gi".to_owned(),
                    },
                    None => "20Gi".to_owned(),
                };
                let storage_class: Option<String> = match &self.config.storage {
                    Some(s) => match &s.worker_storage_class {
                        Some(c) => Some(c.clone()),
                        None => {
                            if s.storage_class.as_str().unicode_len() == 0 {
                                None
                            } else {
                                Some(s.storage_class.clone())
                            }
                        },
                    },
                    None => None,
                };
                let mut access: Vec<String> = Vec::new();
                access.push("ReadWriteOnce".to_owned());
                templates.push(
                    PersistentVolumeClaim {
                        name: dd_volume_name(index),
                        labels: None,
                        access_modes: access,
                        storage_class_name: storage_class,
                        storage_request: storage_size,
                    },
                );
                proof {
                    assert(spec_worker_claim(
                        templates@[templates@.len() - 1],
                        k as int,
                        self.config.storage,
                    ));
                    assert forall|j: int| 0 <= j && j + 1 < srcidx.push(k as int).len() implies
                        #[trigger] srcidx.push(k as int)[j] < srcidx.push(k as int)[j + 1] by {
                        assert(srcidx.push(k as int)[j] == srcidx[j]);
                        if j + 1 < srcidx.len() {
                            assert(srcidx.push(k as int)[j + 1] == srcidx[j + 1]);
                        } else {
                            assert(srcidx[j] < k);
                            assert(srcidx.push(k as int)[j + 1] == k as int);
                        }
                    }
                    assert forall|i: int|
                        0 <= i < k + 1 && spec_dd_tier(
                            #[trigger] self.cluster_conf.worker.data_dir@[i]@,
                        ) != StorageType::Mem implies exists|j: int|
                        0 <= j < srcidx.push(k as int).len() && #[trigger] srcidx.push(
                            k as int,
                        )[j] == i by {
                        if i < k {
                            let j = choose|j: int|
                                0 <= j < srcidx.len() && #[trigger] srcidx[j] == i;
                            assert(srcidx.push(k as int)[j] == i);
                        } else {
                            assert(srcidx.push(k as int)[srcidx.len() as int] == i);
                        }
                    }
                    srcidx = srcidx.push(k as int);
                }
            }
            k += 1;
        }
        proof {
            assert(spec_claims_indexed(self, templates@, srcidx));
            assert(spec_worker_claims(self, templates@));
        }
        if templates.len() == 0 {
            proof {
                assert(templates@ =~= Seq::<PersistentVolumeClaim>::empty());
            }
            Ok(None)
        } else {
            Ok(Some(templates))
        }
    }

    /// The pod-level volume one parsed entry yields, when it yields one.
    fn dir_volume_for(&self, index: usize, dd: &WorkerDataDir) -> (r: Option<Volume>)
        requires
            index < self.cluster_conf.worker.data_dir@.len(),
            dd.storage_type == spec_dd_tier(self.cluster_conf.worker.data_dir@[index as int]@),
            dd.capacity == spec_dd_capacity(self.cluster_conf.worker.data_dir@[index as int]@),
            dd.path@ == spec_dd_path(self.cluster_conf.worker.data_dir@[index as int]@),
        ensures
            match r {
                Some(v) => spec_worker_dir_yields_volume(
                    &self.config.worker,
                    self.cluster_conf.worker.data_dir@[index as int]@,
                ) && spec_worker_dir_volume(
                    &self.config.worker,
                    self.cluster_conf.worker.data_dir@[index as int]@,
                    v,
                    index as int,
                ),
                None => !spec_worker_dir_yields_volume(
                    &self.config.worker,
                    self.cluster_conf.worker.data_dir@[index as int]@,
                ),
            },
    {
        // a configured host path takes precedence over the tier
        let host_path: Option<String> = match &self.config.worker.host_path_storage {
            Some(hps) => match crate::kv::kv_get(hps, dd.path.as_str()) {
                Some(hp) => Some(hp.clone()),
                None => None,
            },
            None => None,
        };
        match host_path {
            Some(hp) => Some(
                Volume {
                    name: dd_volume_name(index),
                    source: VolumeSource::HostPath {
                        path: hp,
                        path_type: "DirectoryOrCreate".to_owned(),
                    },
                },
            ),
            None => {
                let is_mem = match dd.storage_type {
                    StorageType::Mem => true,
                    _ => false,
                };
                if is_mem {
                    let size_limit: Option<String> = if dd.capacity > 0 {
                        Some(crate::text::format_bytes(dd.capacity))
                    } else {
                        None
                    };
                    Some(
                        Volume {
                            name: dd_volume_name(index),
                            source: VolumeSource::EmptyDirMemory { size_limit },
                        },
                    )
                } else {
                    None
                }
            },
        }
    }

    /// The pod-level volumes: the configuration projection, then one
    /// volume per data directory that is host-path mapped or
    /// memory-tier; persistent tiers live in the claim templates
    /// instead.
    #[verifier::loop_isolation(false)]
    #[verifier::rlimit(100)]
    pub fn build_volumes_impl(&self) -> (r: Result<Vec<Volume>, KubeError>)
        ensures
            r is Ok <==> spec_all_dirs_ok(&self.cluster_conf),
            r matches Ok(vs) ==> spec_worker_volumes(self, vs@),
            r matches Err(e) ==> {
                let i = spec_first_bad_dd(self.cluster_conf.worker.data_dir@);
                &&& 0 <= i
                &&& e matches KubeError::ConfigError(m) && m@ == spec_dd_wrapped_msg(
                    self.cluster_conf.worker.data_dir@[i]@,
                )
            },
    {
        let data_dirs = match self.parse_data_dirs() {
            Ok(v) => v,
            Err(e) => {
                return Err(e);
            },
        };
        let mut volumes: Vec<Volume> = Vec::new();
        let mut cm_name = self.cluster_id.clone();
        cm_name.append("-config");
        volumes.push(
            Volume {
                name: "curvine-conf".to_owned(),
                source: VolumeSource::ConfigMap {
                    name: cm_name,
                    default_mode: 420,
                    item_key: "curvine-cluster.toml".to_owned(),
                    item_path: "curvine-cluster.toml".to_owned(),
                    item_mode: 420,
                    optional: false,
                },
            },
        );
        let ghost mut srcidx: Seq<int> = Seq::empty();
        let mut k: usize = 0;
        while k < data_dirs.len()
            invariant
                k <= data_dirs@.len(),
                spec_parsed_dirs(&self.cluster_conf, data_dirs@),
                volumes@.len() >= 1,
                spec_config_volume(volumes@[0], self.cluster_id@),
                srcidx.len() + 1 == volumes@.len(),
                forall|j: int| 0 <= j < srcidx.len() ==> #[trigger] srcidx[j] < k,
                forall|j: int| 0 <= j && j + 1 < srcidx.len() ==> #[trigger] srcidx[j] < srcidx[j + 1],
                forall|j: int|
                    0 <= j < srcidx.len() ==> 0 <= #[trigger] srcidx[j]
                        < self.cluster_conf.worker.data_dir@.len() && spec_worker_dir_volume(
                        &self.config.worker,
                        self.cluster_conf.worker.data_dir@[srcidx[j]]@,
                        volumes@[j + 1],
                        srcidx[j],
                    ),
                forall|i: int|
                    0 <= i < k && spec_worker_dir_yields_volume(
                        &self.config.worker,
                        #[trigger] self.cluster_conf.worker.data_dir@[i]@,
                    ) ==> exists|j: int| 0 <= j < srcidx.len() && #[trigger] srcidx[j] == i,
            decreases data_dirs@.len() - k,
        {
            proof {
                assert(spec_parsed_entry(&self.cluster_conf, data_dirs@[k as int], k as int));
            }
            let index = data_dirs[k].0;
            let dd = &data_dirs[k].1;
            let pushed: bool;
            match self.dir_volume_for(index, dd) {
                Some(v) => {
                    volumes.push(v);
                    pushed = true;
                },
                None => {
                    pushed = false;
                },
            }
            proof {
                if pushed {
                    assert(spec_worker_dir_volume(
                        &self.config.worker,
                        self.cluster_conf.worker.data_dir@[k as int]@,
                        volumes@[volumes@.len() - 1],
                        k as int,
                    ));
                    assert forall|j: int| 0 <= j && j + 1 < srcidx.push(k as int).len() implies
                        #[trigger] srcidx.push(k as int)[j] < srcidx.push(k as int)[j + 1] by {
                        assert(srcidx.push(k as int)[j] == srcidx[j]);
                        if j + 1 < srcidx.len() {
                            assert(srcidx.push(k as int)[j + 1] == srcidx[j + 1]);
                        } else {
                            assert(srcidx[j] < k);
                            assert(srcidx.push(k as int)[j + 1] == k as int);
                        }
                    }
                    assert forall|i: int|
                        0 <= i < k + 1 && spec_worker_dir_yields_volume(
                            &self.config.worker,
                            #[trigger] self.cluster_conf.worker.data_dir@[i]@,
                        ) implies exists|j: int|
                        0 <= j < srcidx.push(k as int).len() && #[trigger] srcidx.push(
                            k as int,
                        )[j] == i by {
                        if i < k {
                            let j = choose|j: int|
                                0 <= j < srcidx.len() && #[trigger] srcidx[j] == i;
                            assert(srcidx.push(k as int)[j] == i);
                        } else {
                            assert(srcidx.push(k as int)[srcidx.len() as int] == i);
                        }
                    }
                    srcidx = srcidx.push(k as int);
                } else {
                    assert(!spec_worker_dir_yields_volume(
                        &self.config.worker,
                        self.cluster_conf.worker.data_dir@[k as int]@,
                    ));
                }
            }
            k += 1;
        }
        proof {
            assert(spec_volumes_indexed(self, volumes@, srcidx));
            assert(spec_worker_volumes(self, volumes@));
        }
        Ok(volumes)
    }

    /// The configuration mount, then one mount per data directory at
    /// its configured path.
    #[verifier::loop_isolation(false)]
    pub fn build_volume_mounts_impl(&self) -> (r: Result<Vec<VolumeMount>, KubeError>)
        ensures
            r is Ok <==> spec_all_dirs_ok(&self.cluster_conf),
            r matches Ok(ms) ==> spec_worker_mounts(&self.cluster_conf, ms@),
            r matches Err(e) ==> {
                let i = spec_first_bad_dd(self.cluster_conf.worker.data_dir@);
                &&& 0 <= i
                &&& e matches KubeError::ConfigError(m) && m@ == spec_dd_wrapped_msg(
                    self.cluster_conf.worker.data_dir@[i]@,
                )
            },
    {
        let data_dirs = match self.parse_data_dirs() {
            Ok(v) => v,
            Err(e) => {
                return Err(e);
            },
        };
        let mut mounts: Vec<VolumeMount> = Vec::new();
        mounts.push(
            VolumeMount {
                name: "curvine-conf".to_owned(),
                mount_path: "/app/curvine/conf/curvine-cluster.toml".to_owned(),
                sub_path: Some("curvine-cluster.toml".to_owned()),
                read_only: Some(true),
            },
        );
        let mut k: usize = 0;
        while k < data_dirs.len()
            invariant
                k <= data_dirs@.len(),
                spec_parsed_dirs(&self.cluster_conf, data_dirs@),
                mounts@.len() == 1 + k,
                spec_config_mount(mounts@[0]),
                forall|i: int|
                    0 <= i < k ==> spec_worker_dir_mount(
                        &self.cluster_conf,
                        #[trigger] mounts@[1 + i],
                        i,
                    ),
            decreases data_dirs@.len() - k,
        {
            proof {
                assert(spec_parsed_entry(&self.cluster_conf, data_dirs@[k as int], k as int));
            }
            let index = data_dirs[k].0;
            mounts.push(
                VolumeMount {
                    name: dd_volume_name(index),
                    mount_path: data_dirs[k].1.path.clone(),
                    sub_path: None,
                    read_only: Some(false),
                },
            );
            k += 1;
        }
        Ok(mounts)
    }


    fn build_affinity(&self) -> (r: Option<Affinity>)
        ensures
            !self.config.worker.anti_affinity ==> r is None,
            self.config.worker.anti_affinity ==> (r matches Some(a) && spec_worker_affinity(
                a,
                self.cluster_id@,
            )),
    {
        if !self.config.worker.anti_affinity {
            return None;
        }
        let mut app_values: Vec<String> = Vec::new();
        app_values.push(self.cluster_id.clone());
        let mut comp_values: Vec<String> = Vec::new();
        comp_values.push("worker".to_owned());
        let mut exprs: Vec<LabelSelectorRequirement> = Vec::new();
        exprs.push(
            LabelSelectorRequirement {
                key: "app".to_owned(),
                operator: "In".to_owned(),
                values: Some(app_values),
            },
        );
        exprs.push(
            LabelSelectorRequirement {
                key: "component".to_owned(),
                operator: "In".to_owned(),
                values: Some(comp_values),
            },
        );
        let mut terms: Vec<WeightedPodAffinityTerm> = Vec::new();
        terms.push(
            WeightedPodAffinityTerm {
                weight: 100,
                match_expressions: exprs,
                topology_key: "kubernetes.io/hostname".to_owned(),
            },
        );
        Some(Affinity { preferred_pod_anti_affinity: terms })
    }

    fn build_init_containers(&self) -> (r: Option<Vec<Container>>)
        ensures
            !self.config.worker.init_container ==> r is None,
            self.config.worker.init_container ==> (r matches Some(ics) && {
                &&& ics@.len() == 1
                &&& ics@[0].name@ == "wait-for-master"@
                &&& ics@[0].image matches Some(im) && im@ == "busybox:latest"@
                &&& ics@[0].command matches Some(cm) && cm@.len() == 2 && cm@[0]@ == "sh"@
                    && cm@[1]@ == "-c"@
                &&& ics@[0].args matches Some(ar) && ar@.len() == 1 && ar@[0]@
                    == spec_wait_for_master_cmd(
                    self.cluster_id@,
                    self.namespace@,
                    self.config.cluster_domain@,
                )
            }),
    {
        if !self.config.worker.init_container {
            return None;
        }
        let mut cmd = "until nc -z ".to_owned();
        cmd.append(self.cluster_id.as_str());
        cmd.append("-master-headless.");
        cmd.append(self.namespace.as_str());
        cmd.append(".svc.");
        cmd.append(self.config.cluster_domain.as_str());
        cmd.append(" 8995; do echo waiting for master; sleep 2; done");
        let mut command: Vec<String> = Vec::new();
        command.push("sh".to_owned());
        command.push("-c".to_owned());
        let mut args: Vec<String> = Vec::new();
        args.push(cmd);
        let mut container = Container::named("wait-for-master".to_owned());
        container.image = Some("busybox:latest".to_owned());
        container.command = Some(command);
        container.args = Some(args);
        let mut ics: Vec<Container> = Vec::new();
        ics.push(container);
        Some(ics)
    }

    pub fn build_base_pod_impl(&self) -> (r: Result<Pod, KubeError>)
        ensures
            r matches Ok(bp) && spec_worker_base_pod(self, bp),
    {
        let eb = EnvironmentBuilder::new(
            "worker",
            self.cluster_id.clone(),
            self.namespace.clone(),
            self.config.cluster_domain.clone(),
        ).with_custom_vars(&self.config.worker.env_vars);
        let ghost ebg = eb;
        let env_vars = eb.build();
        proof {
            assert(spec_kv_unique(ebg.spec_custom_vars()));
            assert(forall|q: Seq<char>| #[trigger] crate::kv::spec_kv_lookup(
                ebg.spec_custom_vars(),
                q,
            ) == crate::kv::spec_kv_last_lookup(self.config.worker.env_vars@, q));
            assert(env_vars@.skip(10).len() == ebg.spec_custom_vars().len());
            assert forall|i: int|
                0 <= i < ebg.spec_custom_vars().len() implies spec_env_literal(
                #[trigger] env_vars@.skip(10)[i],
                ebg.spec_custom_vars()[i].0@,
                ebg.spec_custom_vars()[i].1@,
            ) by {
                assert(env_vars@.skip(10)[i] == env_vars@[10 + i]);
            }
            ebg.lemma_custom_tail(env_vars@.skip(10), self.config.worker.env_vars@);
        }

        let mut args: Vec<String> = Vec::new();
        args.push("worker".to_owned());

        let mut ports: Vec<ContainerPort> = Vec::new();
        ports.push(ContainerPort { container_port: 8997, name: Some("rpc".to_owned()) });
        ports.push(ContainerPort { container_port: 9001, name: Some("web".to_owned()) });

        let container = Container {
            name: "cv-worker".to_owned(),
            image: Some(self.config.worker.image.clone()),
            image_pull_policy: Some(self.config.image_pull_policy.clone()),
            command: None,
            args: Some(args),
            working_dir: Some("/app".to_owned()),
            env: Some(env_vars),
            ports: Some(ports),
            volume_mounts: None,
            resources: dup_opt_resources(&self.config.worker.resources),
            liveness_probe: None,
            readiness_probe: None,
            lifecycle: LifecycleBuilder::build_default_graceful_shutdown(
                "worker",
                self.config.worker.graceful_shutdown,
            ),
            security_context: Some(SecurityContext { privileged: Some(true) }),
        };

        let mut all_labels = self.get_selector_labels();
        proof {
            reveal_strlit("app");
            reveal_strlit("component");
            assert("app"@.len() == 3 && "component"@.len() == 9);
            assert(all_labels@.drop_first() =~= all_labels@.skip(1));
            assert forall|q: Seq<char>| #[trigger]
                spec_kv_lookup(all_labels@, q) == (if q == "app"@ {
                    Some(self.cluster_id@)
                } else if q == "component"@ {
                    Some("worker"@)
                } else {
                    None
                }) by {
                if q == "app"@ {
                    assert(all_labels@[0].0@ == "app"@);
                    assert(spec_kv_lookup(all_labels@, q) == Some(all_labels@[0].1@));
                } else if q == "component"@ {
                    assert(all_labels@[0].0@ != q);
                    assert(spec_kv_lookup(all_labels@, q) == spec_kv_lookup(
                        all_labels@.drop_first(),
                        q,
                    ));
                    assert(all_labels@.drop_first()[0].0@ == "component"@);
                    assert(spec_kv_lookup(all_labels@.drop_first(), q) == Some(
                        all_labels@.drop_first()[0].1@,
                    ));
                } else {
                    crate::kv::lemma_kv_lookup_none(all_labels@, q);
                }
            }
        }
        kv_extend(&mut all_labels, &self.config.worker.labels);

        let annotations = if self.config.worker.annotations.len() == 0 {
            None
        } else {
            Some(dup_kv(&self.config.worker.annotations))
        };

        let dns_policy: Option<String> = match &self.config.worker.dns_policy {
            Some(p) => Some(p.clone()),
            None => {
                if self.config.worker.host_network {
                    Some("ClusterFirstWithHostNet".to_owned())
                } else {
                    None
                }
            },
        };

        let mut containers: Vec<Container> = Vec::new();
        containers.push(container);

        let pod = Pod {
            metadata: PodMeta { name: None, labels: Some(all_labels), annotations },
            spec: Some(
                PodSpec {
                    containers,
                    init_containers: self.build_init_containers(),
                    volumes: None,
                    node_selector: dup_opt_kv(&self.config.worker.node_selector),
                    affinity: self.build_affinity(),
                    restart_policy: Some("Always".to_owned()),
                    service_account_name: dup_opt_string(&self.config.worker.service_account),
                    tolerations: if self.config.worker.tolerations.len() == 0 {
                        None
                    } else {
                        Some(dup_tolerations(&self.config.worker.tolerations))
                    },
                    dns_policy,
                    priority_class_name: dup_opt_string(&self.config.worker.priority_class),
                    host_network: Some(self.config.worker.host_network),
                },
            ),
        };
        Ok(pod)
    }

    /// The stateful set around the merged pod.
    pub open spec fn spec_shell(&self, owner_uid: Option<String>, ss: StatefulSet) -> bool {
        &&& ss.metadata.name matches Some(n) && n@ == self.cluster_id@ + "-worker"@
        &&& ss.metadata.namespace matches Some(n) && n@ == self.namespace@
        &&& ss.metadata.labels matches Some(l) && spec_role_labels(l@, self.cluster_id@, "worker"@)
        &&& match owner_uid {
            None => ss.metadata.owner_references is None,
            Some(uid) => ss.metadata.owner_references matches Some(o) && o@.len() == 1 && {
                &&& o@[0].api_version@ == "v1"@
                &&& o@[0].kind@ == "ConfigMap"@
                &&& o@[0].name@ == self.cluster_id@ + "-config"@
                &&& o@[0].uid == uid
                &&& o@[0].controller
                &&& o@[0].block_owner_deletion
            },
        }
        &&& ss.replicas == Some(self.config.worker.replicas as i32)
        &&& ss.service_name@ == self.cluster_id@ + "-worker"@
        &&& spec_role_selector(ss.selector_match_labels@, self.cluster_id@, "worker"@)
        &&& ss.pod_management_policy@ == "Parallel"@
        &&& match ss.volume_claim_templates {
            None => spec_worker_claims(self, Seq::<PersistentVolumeClaim>::empty()),
            Some(cs) => cs@.len() > 0 && spec_worker_claims(self, cs@),
        }
    }

    /// Builds the stateful set without a user template.
    pub fn build(&self) -> (r: Result<StatefulSet, KubeError>)
        ensures
            r matches Ok(ss) ==> self.spec_shell(None, ss),
            r matches Err(e) ==> {
                let i = spec_first_bad_dd(self.cluster_conf.worker.data_dir@);
                &&& 0 <= i
                &&& e matches KubeError::ConfigError(m) && m@ == spec_dd_wrapped_msg(
                    self.cluster_conf.worker.data_dir@[i]@,
                )
            },
    {
        self.build_with_owner(None, None)
    }

    pub fn build_with_owner(&self, owner_uid: Option<String>, template_pod: Option<CurvinePod>)
        -> (r: Result<StatefulSet, KubeError>)
        ensures
            r matches Ok(ss) ==> self.spec_shell(owner_uid, ss),
            r matches Ok(ss) ==> match template_pod {
                None => exists|bp: Pod, bv: Seq<Volume>, bm: Seq<VolumeMount>|
                    #[trigger] spec_worker_merge_outcome(
                        self,
                        bp,
                        bv,
                        bm,
                        Pod { metadata: ss.template_metadata, spec: ss.template_spec },
                    ),
                Some(t) => exists|
                    bp: Pod,
                    bv: Seq<Volume>,
                    bm: Seq<VolumeMount>,
                    bl: Seq<(String, String)>,
                |
                    {
                        &&& spec_worker_base_pod(self, bp)
                        &&& spec_role_labels(bl, self.cluster_id@, "worker"@)
                        &&& spec_first_conflict_idx(
                            spec_opt_mounts(t.spec_main().volume_mounts),
                            bm,
                        ) == -1
                        &&& #[trigger] spec_merged_pod(
                            t.spec_pod(),
                            t.spec_main(),
                            bp,
                            bv,
                            bm,
                            bl,
                            Pod { metadata: ss.template_metadata, spec: ss.template_spec },
                        )
                    },
            },
            r matches Err(e) ==> {
                let i = spec_first_bad_dd(self.cluster_conf.worker.data_dir@);
                (0 <= i && (e matches KubeError::ConfigError(m) && m@ == spec_dd_wrapped_msg(
                    self.cluster_conf.worker.data_dir@[i]@,
                ))) || (template_pod matches Some(t) && exists|bm: Seq<VolumeMount>|
                    {
                        &&& #[trigger] spec_first_conflict_idx(
                            spec_opt_mounts(t.spec_main().volume_mounts),
                            bm,
                        ) >= 0
                        &&& {
                            let tm = spec_opt_mounts(t.spec_main().volume_mounts);
                            let ci = spec_first_conflict_idx(tm, bm);
                            e matches KubeError::ValidationError(m) && m@
                                == spec_mount_conflict_msg(
                                tm[ci].name@,
                                tm[ci].mount_path@,
                                spec_bm_path(bm, tm[ci].name@).unwrap(),
                            )
                        }
                    })
            },
    {
        let builder_pod = match self.build_base_pod_impl() {
            Ok(p) => p,
            Err(e) => {
                return Err(e);
            },
        };
        let builder_volumes = match self.build_volumes_impl() {
            Ok(v) => v,
            Err(e) => {
                return Err(e);
            },
        };
        let builder_mounts = match self.build_volume_mounts_impl() {
            Ok(m) => m,
            Err(e) => {
                return Err(e);
            },
        };
        let claims = match self.build_volume_claim_templates() {
            Ok(c) => c,
            Err(e) => {
                return Err(e);
            },
        };
        let builder_labels = self.get_labels();

        let ghost bpg = builder_pod;
        let ghost bvg = builder_volumes@;
        let ghost bmg = builder_mounts@;
        let ghost blg = builder_labels@;
        let ghost had_template = template_pod is Some;

        let final_pod = match merge_pod_with_template(
            template_pod,
            builder_pod,
            builder_volumes,
            builder_mounts,
            builder_labels,
        ) {
            Ok(p) => p,
            Err(e) => {
                return Err(e);
            },
        };
        let Pod { metadata: final_meta, spec: final_spec } = final_pod;
        let ghost final_pod_g = Pod { metadata: final_meta, spec: final_spec };

        let mut name = self.cluster_id.clone();
        name.append("-worker");
        let mut service_name = self.cluster_id.clone();
        service_name.append("-worker");
        let owner_references = match owner_uid {
            Some(uid) => {
                let mut refs = Vec::new();
                refs.push(config_owner_reference(self.cluster_id.as_str(), uid));
                Some(refs)
            },
            None => None,
        };
        let metadata = ObjectMeta {
            name: Some(name),
            namespace: Some(self.namespace.clone()),
            labels: Some(self.get_labels()),
            annotations: None,
            owner_references,
        };
        let stateful_set = StatefulSet {
            metadata,
            replicas: Some(#[verifier::truncate] (self.config.worker.replicas as i32)),
            service_name,
            selector_match_labels: self.get_selector_labels(),
            template_metadata: final_meta,
            template_spec: final_spec,
            volume_claim_templates: claims,
            pod_management_policy: "Parallel".to_owned(),
        };
        proof {
            if !had_template {
                assert(spec_worker_merge_outcome(self, bpg, bvg, bmg, final_pod_g));
            }
        }
        Ok(stateful_set)
    }
}

/// The identity path of the merge, phrased over the worker's own
/// generated pieces.
pub open spec fn spec_worker_merge_outcome(
    b: &WorkerBuilder,
    bp: Pod,
    bv: Seq<Volume>,
    bm: Seq<VolumeMount>,
    out: Pod,
) -> bool {
    &&& spec_worker_base_pod(b, bp)
    &&& spec_worker_volumes(b, bv)
    &&& spec_worker_mounts(&b.cluster_conf, bm)
    &&& out.metadata == bp.metadata
    &&& out.spec matches Some(os) && (bp.spec matches Some(ps) && {
        &&& os.volumes matches Some(v) && v@ == bv
        &&& os.containers@.len() == 1
        &&& os.containers@[0] == (Container {
            volume_mounts: os.containers@[0].volume_mounts,
            ..ps.containers@[0]
        })
        &&& os.containers@[0].volume_mounts matches Some(m) && m@ == bm
        &&& os.init_containers == ps.init_containers
        &&& os.node_selector == ps.node_selector
        &&& os.affinity == ps.affinity
        &&& os.restart_policy == ps.restart_policy
        &&& os.service_account_name == ps.service_account_name
        &&& os.tolerations == ps.tolerations
        &&& os.dns_policy == ps.dns_policy
        &&& os.priority_class_name == ps.priority_class_name
        &&& os.host_network == ps.host_network
    })
}

/// The storage-tier separation: a memory-tier entry never stands in
/// the claim templates.
pub proof fn lemma_memory_tier_never_claimed(
    dirs: Seq<String>,
    ts: Seq<PersistentVolumeClaim>,
    storage: Option<crate::kconfig::StorageConfig>,
)
    requires
        forall|j: int|
            0 <= j < ts.len() ==> exists|i: int|
                0 <= i < dirs.len() && spec_dd_tier(#[trigger] dirs[i]@) != StorageType::Mem
                    && spec_worker_claim(#[trigger] ts[j], i, storage),
    ensures
        forall|j: int|
            0 <= j < ts.len() ==> exists|i: int|
                0 <= i < dirs.len() && #[trigger] ts[j].name@ == "data-dir-"@ + spec_dec(i as nat)
                    && spec_dd_tier(dirs[i]@) != StorageType::Mem,
{
    assert forall|j: int| 0 <= j < ts.len() implies exists|i: int|
        0 <= i < dirs.len() && #[trigger] ts[j].name@ == "data-dir-"@ + spec_dec(i as nat)
            && spec_dd_tier(dirs[i]@) != StorageType::Mem by {
        let i = choose|i: int|
            0 <= i < dirs.len() && spec_dd_tier(#[trigger] dirs[i]@) != StorageType::Mem
                && spec_worker_claim(ts[j], i, storage);
        assert(ts[j].name@ == "data-dir-"@ + spec_dec(i as nat));
    }
}

/// The other direction of the separation: every ephemeral in-memory
/// volume the builder emits stands for a memory-tier entry without a
/// host-path override.
pub proof fn lemma_nonmemory_never_ephemeral(
    cfg: &WorkerConfig,
    dirs: Seq<String>,
    vs: Seq<Volume>,
)
    requires
        forall|j: int|
            1 <= j < vs.len() ==> exists|i: int|
                0 <= i < dirs.len() && spec_worker_dir_volume(
                    cfg,
                    #[trigger] dirs[i]@,
                    #[trigger] vs[j],
                    i,
                ),
    ensures
        forall|j: int|
            1 <= j < vs.len() && (#[trigger] vs[j].source matches VolumeSource::EmptyDirMemory {
                ..
            }) ==> exists|i: int|
                0 <= i < dirs.len() && spec_dd_tier(#[trigger] dirs[i]@) == StorageType::Mem,
{
    assert forall|j: int|
        1 <= j < vs.len() && (#[trigger] vs[j].source matches VolumeSource::EmptyDirMemory {
            ..
        }) implies exists|i: int|
        0 <= i < dirs.len() && spec_dd_tier(#[trigger] dirs[i]@) == StorageType::Mem by {
        let i = choose|i: int|
            0 <= i < dirs.len() && spec_worker_dir_volume(cfg, #[trigger] dirs[i]@, vs[j], i);
        match spec_worker_hostpath_of(cfg, dirs[i]@) {
            Some(_) => {
                assert(!(vs[j].source matches VolumeSource::EmptyDirMemory { .. }));
            },
            None => {
                assert(spec_dd_tier(dirs[i]@) == StorageType::Mem);
            },
        }
    }
}

} // verus!
