//! The master stateful replica set: a stable-identity set of master
//! pods with the configuration volume, metadata and journal claims,
//! the liveness probe on the RPC port, and the optional user template
//! merged in.

use vstd::prelude::*;

use crate::conf::{spec_resolve_path, ClusterConf};
use crate::envbuild::{
    spec_base_env, spec_custom_env_tail, spec_env_field, spec_env_literal, spec_k8s_env,
    spec_master_self_fqdn, spec_stop_command, EnvironmentBuilder, LifecycleBuilder,
};
use crate::errors::KubeError;
use crate::kconfig::KubernetesConfig;
use crate::kv::{kv_extend, spec_kv_last_lookup, spec_kv_lookup, spec_kv_unique};
use crate::merge::{
    merge_pod_with_template, spec_bm_path, spec_first_conflict_idx, spec_merged_pod,
    spec_mount_conflict_msg, spec_opt_mounts, CurvinePod,
};
use crate::model::{
    config_owner_reference, dup_kv, dup_opt_affinity, dup_opt_kv, dup_opt_resources,
    dup_opt_string, dup_tolerations, opt_vec_view, spec_opt_affinity_eqv, spec_opt_rr_eqv,
    spec_role_labels, spec_role_selector, Container, ContainerPort, ObjectMeta,
    PersistentVolumeClaim, Pod, PodMeta, PodSpec, Probe, StatefulSet, Volume, VolumeMount,
    VolumeSource,
};
use crate::text::str_eq_str;

verus! {

/// The single volume of a master pod: the cluster configuration file,
/// projected from the configuration object.
pub open spec fn spec_config_volume(v: Volume, cluster_id: Seq<char>) -> bool {
    &&& v.name@ == "curvine-conf"@
    &&& v.source matches VolumeSource::ConfigMap {
        name,
        default_mode,
        item_key,
        item_path,
        item_mode,
        optional,
    } && {
        &&& name@ == cluster_id + "-config"@
        &&& default_mode == 420
        &&& item_key@ == "curvine-cluster.toml"@
        &&& item_path@ == "curvine-cluster.toml"@
        &&& item_mode == 420
        &&& !optional
    }
}

pub open spec fn spec_master_volumes(cluster_id: Seq<char>, vs: Seq<Volume>) -> bool {
    vs.len() == 1 && spec_config_volume(vs[0], cluster_id)
}

/// The read-only projection of the configuration file.
pub open spec fn spec_config_mount(m: VolumeMount) -> bool {
    &&& m.name@ == "curvine-conf"@
    &&& m.mount_path@ == "/app/curvine/conf/curvine-cluster.toml"@
    &&& m.sub_path matches Some(p) && p@ == "curvine-cluster.toml"@
    &&& m.read_only == Some(true)
}

/// The three master mounts: the configuration file, the metadata
/// directory and the journal directory, relative paths placed under
/// the application home.
pub open spec fn spec_master_mounts(conf: &ClusterConf, ms: Seq<VolumeMount>) -> bool {
    &&& ms.len() == 3
    &&& spec_config_mount(ms[0])
    &&& ms[1].name@ == "meta-data"@ && ms[1].mount_path@ == spec_resolve_path(conf.master.meta_dir@)
        && ms[1].sub_path is None && ms[1].read_only == Some(false)
    &&& ms[2].name@ == "journal-data"@ && ms[2].mount_path@ == spec_resolve_path(
        conf.journal.journal_dir@,
    ) && ms[2].sub_path is None && ms[2].read_only == Some(false)
}

/// The storage class master claims use: the per-role override when
/// set, else the default class unless it is the empty string that
/// stands for the platform default.
pub open spec fn spec_master_storage_class(
    storage: Option<crate::kconfig::StorageConfig>,
) -> Option<Seq<char>> {
    match storage {
        None => None,
        Some(s) => match s.master_storage_class {
            Some(c) => Some(c@),
            None => if s.storage_class@.len() == 0 {
                None
            } else {
                Some(s.storage_class@)
            },
        },
    }
}

pub open spec fn spec_master_storage_size(
    storage: Option<crate::kconfig::StorageConfig>,
) -> Seq<char> {
    match storage {
        Some(s) => match s.master_size {
            Some(z) => z@,
            None => "10Gi"@,
        },
        None => "10Gi"@,
    }
}

pub open spec fn spec_master_claim(
    c: PersistentVolumeClaim,
    name: Seq<char>,
    cluster_id: Seq<char>,
    storage: Option<crate::kconfig::StorageConfig>,
) -> bool {
    &&& c.name@ == name
    &&& c.labels matches Some(l) && spec_role_labels(l@, cluster_id, "master"@)
    &&& c.access_modes@.len() == 1 && c.access_modes@[0]@ == "ReadWriteOnce"@
    &&& (match (c.storage_class_name, spec_master_storage_class(storage)) {
        (None, None) => true,
        (Some(a), Some(b)) => a@ == b,
        _ => false,
    })
    &&& c.storage_request@ == spec_master_storage_size(storage)
}

/// The master's base container, before any template is merged.
pub open spec fn spec_master_container(b: &MasterBuilder, c: Container) -> bool {
    &&& c.name@ == "cv-master"@
    &&& c.image matches Some(i) && i@ == b.config.master.image@
    &&& c.image_pull_policy matches Some(p) && p@ == b.config.image_pull_policy@
    &&& c.command is None
    &&& c.args matches Some(a) && a@.len() == 1 && a@[0]@ == "master"@
    &&& c.working_dir matches Some(w) && w@ == "/app"@
    &&& c.env matches Some(e) && {
        &&& e@.len() >= 9
        &&& spec_base_env(e@.take(4))
        &&& spec_k8s_env(e@.subrange(4, 7), b.config.cluster_domain@)
        &&& spec_env_field(e@[7], "POD_NAME"@, "metadata.name"@)
        &&& spec_env_literal(
            e@[8],
            "CURVINE_MASTER_HOSTNAME"@,
            spec_master_self_fqdn(b.cluster_id@, b.namespace@, b.config.cluster_domain@),
        )
        &&& spec_custom_env_tail(e@.skip(9), b.config.master.env_vars@)
    }
    &&& c.ports matches Some(ps) && {
        &&& ps@.len() == 4
        &&& ps@[0].container_port == 8995 && (ps@[0].name matches Some(n) && n@ == "rpc"@)
        &&& ps@[1].container_port == 8996 && (ps@[1].name matches Some(n) && n@ == "journal"@)
        &&& ps@[2].container_port == 9000 && (ps@[2].name matches Some(n) && n@ == "web"@)
        &&& ps@[3].container_port == 9001 && (ps@[3].name matches Some(n) && n@ == "web1"@)
    }
    &&& c.volume_mounts is None
    &&& spec_opt_rr_eqv(c.resources, b.config.master.resources)
    &&& c.liveness_probe matches Some(p) && {
        &&& p.tcp_socket_port == Some(8995i32)
        &&& p.exec_command is None
        &&& p.initial_delay_seconds == Some(15i32)
        &&& p.period_seconds == Some(300i32)
        &&& p.timeout_seconds == Some(60i32)
        &&& p.failure_threshold == Some(5i32)
        &&& p.success_threshold is None
    }
    &&& c.readiness_probe is None
    &&& (!b.config.master.graceful_shutdown ==> c.lifecycle is None)
    &&& (b.config.master.graceful_shutdown ==> (c.lifecycle matches Some(l) && (
    l.pre_stop_command matches Some(cmd) && {
        &&& cmd@.len() == 3
        &&& cmd@[0]@ == "/bin/sh"@
        &&& cmd@[1]@ == "-c"@
        &&& cmd@[2]@ == spec_stop_command("master"@, 10)
    })))
    &&& c.security_context is None
}

/// The master's base pod: the container above, the selector labels
/// extended by the user's, and the pod-level fields of the resolved
/// specification.
pub open spec fn spec_master_base_pod(b: &MasterBuilder, bp: Pod) -> bool {
    &&& bp.metadata.name is None
    &&& bp.metadata.labels matches Some(l) && (forall|q: Seq<char>| #[trigger]
        spec_kv_lookup(l@, q) == if spec_kv_last_lookup(b.config.master.labels@, q) is Some {
            spec_kv_last_lookup(b.config.master.labels@, q)
        } else if q == "app"@ {
            Some(b.cluster_id@)
        } else if q == "component"@ {
            Some("master"@)
        } else {
            None
        })
    &&& (b.config.master.annotations@.len() == 0 ==> bp.metadata.annotations is None)
    &&& (b.config.master.annotations@.len() > 0 ==> (bp.metadata.annotations matches Some(a)
        && a@ == b.config.master.annotations@))
    &&& bp.spec matches Some(ps) && {
        &&& ps.containers@.len() == 1
        &&& spec_master_container(b, ps.containers@[0])
        &&& ps.init_containers is None
        &&& ps.volumes is None
        &&& opt_vec_view(ps.node_selector) == opt_vec_view(b.config.master.node_selector)
        &&& spec_opt_affinity_eqv(ps.affinity, b.config.master.affinity)
        &&& ps.restart_policy matches Some(rp) && rp@ == "Always"@
        &&& ps.service_account_name == b.config.master.service_account
        &&& (b.config.master.tolerations@.len() == 0 ==> ps.tolerations is None)
        &&& (b.config.master.tolerations@.len() > 0 ==> (ps.tolerations matches Some(t) && t@
            == b.config.master.tolerations@))
        &&& ps.dns_policy == b.config.master.dns_policy
        &&& ps.priority_class_name == b.config.master.priority_class
        &&& ps.host_network is None
    }
}

pub struct MasterBuilder {
    pub cluster_id: String,
    pub namespace: String,
    pub config: KubernetesConfig,
    pub cluster_conf: ClusterConf,
    pub is_update_mode: bool,
}

impl MasterBuilder {
    pub fn new(
        cluster_id: String,
        namespace: String,
        config: KubernetesConfig,
        cluster_conf: ClusterConf,
        is_update_mode: bool,
    ) -> (r: MasterBuilder)
        ensures
            r.cluster_id == cluster_id,
            r.namespace == namespace,
            r.config == config,
            r.cluster_conf == cluster_conf,
            r.is_update_mode == is_update_mode,
    {
        MasterBuilder { cluster_id, namespace, config, cluster_conf, is_update_mode }
    }

    pub fn get_labels(&self) -> (r: Vec<(String, String)>)
        ensures
            spec_role_labels(r@, self.cluster_id@, "master"@),
    {
        let mut labels: Vec<(String, String)> = Vec::new();
        labels.push(("app".to_owned(), self.cluster_id.clone()));
        labels.push(("component".to_owned(), "master".to_owned()));
        labels.push(("type".to_owned(), "curvine-native-kubernetes".to_owned()));
        labels
    }

    pub fn get_selector_labels(&self) -> (r: Vec<(String, String)>)
        ensures
            spec_role_selector(r@, self.cluster_id@, "master"@),
    {
        let mut labels: Vec<(String, String)> = Vec::new();
        labels.push(("app".to_owned(), self.cluster_id.clone()));
        labels.push(("component".to_owned(), "master".to_owned()));
        labels
    }

    pub fn build_volumes_impl(&self) -> (r: Result<Vec<Volume>, KubeError>)
        ensures
            r matches Ok(vs) && spec_master_volumes(self.cluster_id@, vs@),
    {
        let mut name = self.cluster_id.clone();
        name.append("-config");
        let mut volumes: Vec<Volume> = Vec::new();
        volumes.push(
            Volume {
                name: "curvine-conf".to_owned(),
                source: VolumeSource::ConfigMap {
                    name,
                    default_mode: 420,
                    item_key: "curvine-cluster.toml".to_owned(),
                    item_path: "curvine-cluster.toml".to_owned(),
                    item_mode: 420,
                    optional: false,
                },
            },
        );
        Ok(volumes)
    }

    pub fn build_volume_mounts_impl(&self) -> (r: Result<Vec<VolumeMount>, KubeError>)
        ensures
            r matches Ok(ms) && spec_master_mounts(&self.cluster_conf, ms@),
    {
        let mut mounts: Vec<VolumeMount> = Vec::new();
        mounts.push(
            VolumeMount {
                name: "curvine-conf".to_owned(),
                mount_path: "/app/curvine/conf/curvine-cluster.toml".to_owned(),
                sub_path: Some("curvine-cluster.toml".to_owned()),
                read_only: Some(true),
            },
        );
        mounts.push(
            VolumeMount {
                name: "meta-data".to_owned(),
                mount_path: crate::conf::resolve_app_path(self.cluster_conf.master.meta_dir.as_str()),
                sub_path: None,
                read_only: Some(false),
            },
        );
        mounts.push(
            VolumeMount {
                name: "journal-data".to_owned(),
                mount_path: crate::conf::resolve_app_path(
                    self.cluster_conf.journal.journal_dir.as_str(),
                ),
                sub_path: None,
                read_only: Some(false),
            },
        );
        Ok(mounts)
    }

    pub fn build_volume_claim_templates(&self) -> (r: Result<Vec<PersistentVolumeClaim>, KubeError>)
        ensures
            r matches Ok(cs) && {
                &&& cs@.len() == 2
                &&& spec_master_claim(cs@[0], "meta-data"@, self.cluster_id@, self.config.storage)
                &&& spec_master_claim(
                    cs@[1],
                    "journal-data"@,
                    self.cluster_id@,
                    self.config.storage,
                )
            },
    {
        let storage_size: String = match &self.config.storage {
            Some(s) => match &s.master_size {
                Some(z) => z.clone(),
                None => "10Gi".to_owned(),
            },
            None => "10Gi".to_owned(),
        };
        let storage_class: Option<String> = match &self.config.storage {
            Some(s) => match &s.master_storage_class {
                Some(c) => Some(c.clone()),
                None => {
                    if s.storage_class.as_str().unicode_len() == 0 {
                        None
                    } else {
                        Some(s.storage_class.clone())
                    }
                },
            },
            None => None,
        };
        let mut access: Vec<String> = Vec::new();
        access.push("ReadWriteOnce".to_owned());
        let mut access2: Vec<String> = Vec::new();
        access2.push("ReadWriteOnce".to_owned());
        let mut templates: Vec<PersistentVolumeClaim> = Vec::new();
        templates.push(
            PersistentVolumeClaim {
                name: "meta-data".to_owned(),
                labels: Some(self.get_labels()),
                access_modes: access,
                storage_class_name: dup_opt_string(&storage_class),
                storage_request: storage_size.clone(),
            },
        );
        templates.push(
            PersistentVolumeClaim {
                name: "journal-data".to_owned(),
                labels: Some(self.get_labels()),
                access_modes: access2,
                storage_class_name: storage_class,
                storage_request: storage_size,
            },
        );
        Ok(templates)
    }

    pub fn build_base_pod_impl(&self) -> (r: Result<Pod, KubeError>)
        ensures
            r matches Ok(bp) && spec_master_base_pod(self, bp),
    {
        let eb = EnvironmentBuilder::new(
            "master",
            self.cluster_id.clone(),
            self.namespace.clone(),
            self.config.cluster_domain.clone(),
        ).with_custom_vars(&self.config.master.env_vars);
        let ghost ebg = eb;
        let env_vars = eb.build();
        proof {
            assert(spec_kv_unique(ebg.spec_custom_vars()));
            assert(forall|q: Seq<char>| #[trigger] crate::kv::spec_kv_lookup(
                ebg.spec_custom_vars(),
                q,
            ) == crate::kv::spec_kv_last_lookup(self.config.master.env_vars@, q));
            assert(env_vars@.skip(9).len() == ebg.spec_custom_vars().len());
            assert forall|i: int|
                0 <= i < ebg.spec_custom_vars().len() implies spec_env_literal(
                #[trigger] env_vars@.skip(9)[i],
                ebg.spec_custom_vars()[i].0@,
                ebg.spec_custom_vars()[i].1@,
            ) by {
                assert(env_vars@.skip(9)[i] == env_vars@[9 + i]);
            }
            ebg.lemma_custom_tail(env_vars@.skip(9), self.config.master.env_vars@);
        }

        let mut args: Vec<String> = Vec::new();
        args.push("master".to_owned());

        let mut ports: Vec<ContainerPort> = Vec::new();
        ports.push(ContainerPort { container_port: 8995, name: Some("rpc".to_owned()) });
        ports.push(ContainerPort { container_port: 8996, name: Some("journal".to_owned()) });
        ports.push(ContainerPort { container_port: 9000, name: Some("web".to_owned()) });
        ports.push(ContainerPort { container_port: 9001, name: Some("web1".to_owned()) });

        let container = Container {
            name: "cv-master".to_owned(),
            image: Some(self.config.master.image.clone()),
            image_pull_policy: Some(self.config.image_pull_policy.clone()),
            command: None,
            args: Some(args),
            working_dir: Some("/app".to_owned()),
            env: Some(env_vars),
            ports: Some(ports),
            volume_mounts: None,
            resources: dup_opt_resources(&self.config.master.resources),
            liveness_probe: Some(
                Probe {
                    tcp_socket_port: Some(8995),
                    exec_command: None,
                    initial_delay_seconds: Some(15),
                    period_seconds: Some(300),
                    timeout_seconds: Some(60),
                    failure_threshold: Some(5),
                    success_threshold: None,
                },
            ),
            readiness_probe: None,
            lifecycle: LifecycleBuilder::build_default_graceful_shutdown(
                "master",
                self.config.master.graceful_shutdown,
            ),
            security_context: None,
        };

        let mut all_labels = self.get_selector_labels();
        proof {
            reveal_strlit("app");
            reveal_strlit("component");
            assert("app"@.len() == 3 && "component"@.len() == 9);
            assert(all_labels@.drop_first() =~= all_labels@.skip(1));
            assert(all_labels@.skip(1).drop_first() =~= all_labels@.skip(2));
            assert forall|q: Seq<char>| #[trigger]
                spec_kv_lookup(all_labels@, q) == (if q == "app"@ {
                    Some(self.cluster_id@)
                } else if q == "component"@ {
                    Some("master"@)
                } else {
                    None
                }) by {
                if q == "app"@ {
                    assert(all_labels@[0].0@ == "app"@);
                    assert(spec_kv_lookup(all_labels@, q) == Some(all_labels@[0].1@));
                } else if q == "component"@ {
                    assert(all_labels@[0].0@ != q);
                    assert(spec_kv_lookup(all_labels@, q) == spec_kv_lookup(
                        all_labels@.drop_first(),
                        q,
                    ));
                    assert(all_labels@.drop_first()[0].0@ == "component"@);
                    assert(spec_kv_lookup(all_labels@.drop_first(), q) == Some(
                        all_labels@.drop_first()[0].1@,
                    ));
                } else {
                    crate::kv::lemma_kv_lookup_none(all_labels@, q);
                }
            }
        }
        kv_extend(&mut all_labels, &self.config.master.labels);

        let annotations = if self.config.master.annotations.len() == 0 {
            None
        } else {
            Some(dup_kv(&self.config.master.annotations))
        };

        let mut containers: Vec<Container> = Vec::new();
        containers.push(container);

        let pod = Pod {
            metadata: PodMeta { name: None, labels: Some(all_labels), annotations },
            spec: Some(
                PodSpec {
                    containers,
                    init_containers: None,
                    volumes: None,
                    node_selector: dup_opt_kv(&self.config.master.node_selector),
                    affinity: dup_opt_affinity(&self.config.master.affinity),
                    restart_policy: Some("Always".to_owned()),
                    service_account_name: dup_opt_string(&self.config.master.service_account),
                    tolerations: if self.config.master.tolerations.len() == 0 {
                        None
                    } else {
                        Some(dup_tolerations(&self.config.master.tolerations))
                    },
                    dns_policy: dup_opt_string(&self.config.master.dns_policy),
                    priority_class_name: dup_opt_string(&self.config.master.priority_class),
                    host_network: None,
                },
            ),
        };
        Ok(pod)
    }

    /// The stateful set around the merged pod: name, selector, claim
    /// templates, and the replica count — absent in update mode, where
    /// the existing count is kept and master topology is not touched.
    pub open spec fn spec_shell(&self, owner_uid: Option<String>, ss: StatefulSet) -> bool {
        &&& ss.metadata.name matches Some(n) && n@ == self.cluster_id@ + "-master"@
        &&& ss.metadata.namespace matches Some(n) && n@ == self.namespace@
        &&& ss.metadata.labels matches Some(l) && spec_role_labels(l@, self.cluster_id@, "master"@)
        &&& match owner_uid {
            None => ss.metadata.owner_references is None,
            Some(uid) => ss.metadata.owner_references matches Some(o) && o@.len() == 1 && {
                &&& o@[0].api_version@ == "v1"@
                &&& o@[0].kind@ == "ConfigMap"@
                &&& o@[0].name@ == self.cluster_id@ + "-config"@
                &&& o@[0].uid == uid
                &&& o@[0].controller
                &&& o@[0].block_owner_deletion
            },
        }
        &&& (self.is_update_mode ==> ss.replicas is None)
        &&& (!self.is_update_mode ==> ss.replicas == Some(self.config.master.replicas as i32))
        &&& ss.service_name@ == self.cluster_id@ + "-master"@
        &&& spec_role_selector(ss.selector_match_labels@, self.cluster_id@, "master"@)
        &&& ss.pod_management_policy@ == "Parallel"@
        &&& ss.volume_claim_templates matches Some(cs) && {
            &&& cs@.len() == 2
            &&& spec_master_claim(cs@[0], "meta-data"@, self.cluster_id@, self.config.storage)
            &&& spec_master_claim(cs@[1], "journal-data"@, self.cluster_id@, self.config.storage)
        }
    }

    /// Builds the stateful set without a user template.
    pub fn build(&self) -> (r: Result<StatefulSet, KubeError>)
        ensures
            r matches Ok(ss) && self.spec_shell(None, ss),
            r matches Ok(ss) ==> exists|bp: Pod, bv: Seq<Volume>, bm: Seq<VolumeMount>|
                {
                    &&& #[trigger] spec_merge_outcome(
                        self,
                        bp,
                        bv,
                        bm,
                        Pod { metadata: ss.template_metadata, spec: ss.template_spec },
                    )
                },
    {
        self.build_with_owner(None, None)
    }

    pub fn build_with_owner(&self, owner_uid: Option<String>, template_pod: Option<CurvinePod>)
        -> (r: Result<StatefulSet, KubeError>)
        ensures
            r matches Ok(ss) ==> self.spec_shell(owner_uid, ss),
            r matches Ok(ss) ==> match template_pod {
                None => exists|bp: Pod, bv: Seq<Volume>, bm: Seq<VolumeMount>|
                    #[trigger] spec_merge_outcome(
                        self,
                        bp,
                        bv,
                        bm,
                        Pod { metadata: ss.template_metadata, spec: ss.template_spec },
                    ),
                Some(t) => exists|
                    bp: Pod,
                    bv: Seq<Volume>,
                    bm: Seq<VolumeMount>,
                    bl: Seq<(String, String)>,
                |
                    {
                        &&& spec_master_base_pod(self, bp)
                        &&& spec_master_volumes(self.cluster_id@, bv)
                        &&& spec_master_mounts(&self.cluster_conf, bm)
                        &&& spec_role_labels(bl, self.cluster_id@, "master"@)
                        &&& spec_first_conflict_idx(
                            spec_opt_mounts(t.spec_main().volume_mounts),
                            bm,
                        ) == -1
                        &&& #[trigger] spec_merged_pod(
                            t.spec_pod(),
                            t.spec_main(),
                            bp,
                            bv,
                            bm,
                            bl,
                            Pod { metadata: ss.template_metadata, spec: ss.template_spec },
                        )
                    },
            },
            r matches Err(e) ==> template_pod matches Some(t) && exists|bm: Seq<VolumeMount>|
                {
                    &&& #[trigger] spec_master_mounts(&self.cluster_conf, bm)
                    &&& {
                        let tm = spec_opt_mounts(t.spec_main().volume_mounts);
                        let i = spec_first_conflict_idx(tm, bm);
                        &&& i >= 0
                        &&& e matches KubeError::ValidationError(m) && m@
                            == spec_mount_conflict_msg(
                            tm[i].name@,
                            tm[i].mount_path@,
                            spec_bm_path(bm, tm[i].name@).unwrap(),
                        )
                    }
                },
    {
        let builder_pod = match self.build_base_pod_impl() {
            Ok(p) => p,
            Err(e) => {
                return Err(e);
            },
        };
        let builder_volumes = match self.build_volumes_impl() {
            Ok(v) => v,
            Err(e) => {
                return Err(e);
            },
        };
        let builder_mounts = match self.build_volume_mounts_impl() {
            Ok(m) => m,
            Err(e) => {
                return Err(e);
            },
        };
        let builder_labels = self.get_labels();

        let ghost bpg = builder_pod;
        let ghost bvg = builder_volumes@;
        let ghost bmg = builder_mounts@;
        let ghost blg = builder_labels@;
        let ghost had_template = template_pod is Some;

        let final_pod = match merge_pod_with_template(
            template_pod,
            builder_pod,
            builder_volumes,
            builder_mounts,
            builder_labels,
        ) {
            Ok(p) => p,
            Err(e) => {
                return Err(e);
            },
        };
        let Pod { metadata: final_meta, spec: final_spec } = final_pod;
        let ghost final_pod_g = Pod { metadata: final_meta, spec: final_spec };

        let mut name = self.cluster_id.clone();
        name.append("-master");
        let mut service_name = self.cluster_id.clone();
        service_name.append("-master");
        let owner_references = match owner_uid {
            Some(uid) => {
                let mut refs = Vec::new();
                refs.push(config_owner_reference(self.cluster_id.as_str(), uid));
                Some(refs)
            },
            None => None,
        };
        let metadata = ObjectMeta {
            name: Some(name),
            namespace: Some(self.namespace.clone()),
            labels: Some(self.get_labels()),
            annotations: None,
            owner_references,
        };
        let claims = match self.build_volume_claim_templates() {
            Ok(c) => c,
            Err(e) => {
                return Err(e);
            },
        };
        let replicas: Option<i32> = if self.is_update_mode {
            None
        } else {
            Some(#[verifier::truncate] (self.config.master.replicas as i32))
        };
        let stateful_set = StatefulSet {
            metadata,
            replicas,
            service_name,
            selector_match_labels: self.get_selector_labels(),
            template_metadata: final_meta,
            template_spec: final_spec,
            volume_claim_templates: Some(claims),
            pod_management_policy: "Parallel".to_owned(),
        };
        proof {
            if !had_template {
                assert(spec_merge_outcome(self, bpg, bvg, bmg, final_pod_g));
            }
        }
        Ok(stateful_set)
    }
}

/// The identity path of the merge, phrased over the master's own
/// generated pieces: the result is the base pod with the generated
/// volumes attached and the mounts on its only container.
pub open spec fn spec_merge_outcome(
    b: &MasterBuilder,
    bp: Pod,
    bv: Seq<Volume>,
    bm: Seq<VolumeMount>,
    out: Pod,
) -> bool {
    &&& spec_master_base_pod(b, bp)
    &&& spec_master_volumes(b.cluster_id@, bv)
    &&& spec_master_mounts(&b.cluster_conf, bm)
    &&& out.metadata == bp.metadata
    &&& out.spec matches Some(os) && (bp.spec matches Some(ps) && {
        &&& os.volumes matches Some(v) && v@ == bv
        &&& os.containers@.len() == 1
        &&& os.containers@[0] == (Container {
            volume_mounts: os.containers@[0].volume_mounts,
            ..ps.containers@[0]
        })
        &&& os.containers@[0].volume_mounts matches Some(m) && m@ == bm
        &&& os.init_containers is None
        &&& os.node_selector == ps.node_selector
        &&& os.affinity == ps.affinity
        &&& os.restart_policy == ps.restart_policy
        &&& os.service_account_name == ps.service_account_name
        &&& os.tolerations == ps.tolerations
        &&& os.dns_policy == ps.dns_policy
        &&& os.priority_class_name == ps.priority_class_name
        &&& os.host_network is None
    })
}

} // verus!
