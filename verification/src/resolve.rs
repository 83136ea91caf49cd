//! The cascading configuration resolver: explicit invocation values
//! that differ from their placeholder defaults win, then the
//! declarative file's deployment section, then the built-in defaults.
//! The cluster identifier has no default: its absence after all three
//! layers is a fatal configuration error.

use vstd::prelude::*;
use vstd::string::StrSliceExecFns;

use crate::conf::KubernetesConf;
use crate::errors::KubeError;
use crate::kconfig::{
    KubernetesConfig, MasterConfig, ServiceConfig, ServiceType, StorageConfig, WorkerConfig,
};
use crate::model::{dup_opt_kv, dup_opt_string, dup_strings, opt_vec_view};

verus! {

/// The deploy invocation's resolution-relevant values; a field equal
/// to its placeholder default counts as unset.
pub struct DeployCommand {
    pub cluster_id: Option<String>,
    pub namespace: String,
    pub image: String,
    pub master_replicas: u32,
    pub worker_replicas: u32,
    pub master_pod_template: Option<String>,
    pub worker_pod_template: Option<String>,
    pub storage_class: Option<String>,
    pub master_storage_class: Option<String>,
    pub worker_storage_class: Option<String>,
    pub master_storage_size: Option<String>,
    pub worker_storage_size: Option<String>,
    pub service_type: String,
    pub image_pull_policy: String,
}

/// The resolved cluster identifier, when any layer supplies one.
pub open spec fn spec_resolved_cluster_id(
    cli: Option<String>,
    file: Option<KubernetesConf>,
) -> Option<Seq<char>> {
    match cli {
        Some(v) => Some(v@),
        None => match file {
            Some(k) => match k.cluster_id {
                Some(v) => Some(v@),
                None => None,
            },
            None => None,
        },
    }
}

/// An explicit text override wins when it differs from its
/// placeholder; otherwise the file value stands, then the placeholder.
pub open spec fn spec_layered_str(
    cli: Seq<char>,
    placeholder: Seq<char>,
    file: Option<Seq<char>>,
) -> Seq<char> {
    if cli != placeholder {
        cli
    } else {
        match file {
            Some(v) => v,
            None => cli,
        }
    }
}

pub open spec fn spec_layered_u32(cli: u32, placeholder: u32, file: Option<u32>) -> u32 {
    if cli != placeholder {
        cli
    } else {
        match file {
            Some(v) => v,
            None => cli,
        }
    }
}

/// The storage class the deploy resolution settles on: the explicit
/// class, else the file's worker class, else the file's default class.
pub open spec fn spec_deploy_storage_class(
    cmd: &DeployCommand,
    file: Option<KubernetesConf>,
) -> Option<Seq<char>> {
    match cmd.storage_class {
        Some(v) => Some(v@),
        None => match file {
            Some(k) => match k.worker.storage_class {
                Some(v) => Some(v@),
                None => match k.storage {
                    Some(st) => Some(st.storage_class@),
                    None => None,
                },
            },
            None => None,
        },
    }
}

pub open spec fn spec_deploy_size(
    cli: Option<String>,
    file_size: Option<Seq<char>>,
) -> Option<Seq<char>> {
    match cli {
        Some(v) => Some(v@),
        None => file_size,
    }
}

pub open spec fn spec_file_master_size(file: Option<KubernetesConf>) -> Option<Seq<char>> {
    match file {
        Some(k) => match k.storage {
            Some(st) => match st.master_size {
                Some(v) => Some(v@),
                None => None,
            },
            None => None,
        },
        None => None,
    }
}

pub open spec fn spec_file_worker_size(file: Option<KubernetesConf>) -> Option<Seq<char>> {
    match file {
        Some(k) => match k.storage {
            Some(st) => match st.worker_size {
                Some(v) => Some(v@),
                None => None,
            },
            None => None,
        },
        None => None,
    }
}

impl DeployCommand {
    /// Resolves a first deployment's specification from the explicit
    /// values, the declarative file's deployment section, and the
    /// built-in defaults, in that order per field.  A missing cluster
    /// identifier and an unknown exposure type are fatal.
    #[verifier::rlimit(100)]
    pub fn resolve_config(&self, kube_conf: &Option<KubernetesConf>) -> (r: Result<
        KubernetesConfig,
        KubeError,
    >)
        ensures
            r is Ok <==> spec_resolved_cluster_id(self.cluster_id, *kube_conf) is Some && {
                let st = spec_layered_str(
                    self.service_type@,
                    "ClusterIP"@,
                    match *kube_conf {
                        Some(k) => Some(k.service.service_type@),
                        None => None,
                    },
                );
                st == "ClusterIP"@ || st == "NodePort"@ || st == "LoadBalancer"@
            },
            r matches Ok(c) ==> {
                &&& Some(c.cluster_id@) == spec_resolved_cluster_id(self.cluster_id, *kube_conf)
                &&& c.namespace@ == (if self.namespace@.len() > 0 && self.namespace@
                    != "default"@ {
                    self.namespace@
                } else {
                    match *kube_conf {
                        Some(k) => k.namespace@,
                        None => self.namespace@,
                    }
                })
                &&& c.master.replicas == spec_layered_u32(
                    self.master_replicas,
                    3,
                    match *kube_conf {
                        Some(k) => Some(k.master.replicas),
                        None => None,
                    },
                )
                &&& c.worker.replicas == spec_layered_u32(
                    self.worker_replicas,
                    3,
                    match *kube_conf {
                        Some(k) => Some(k.worker.replicas),
                        None => None,
                    },
                )
                &&& c.master.image@ == spec_layered_str(
                    self.image@,
                    "docker.io/curvine:latest"@,
                    match *kube_conf {
                        Some(k) => Some(k.master.image@),
                        None => None,
                    },
                )
                &&& c.worker.image@ == spec_layered_str(
                    self.image@,
                    "docker.io/curvine:latest"@,
                    match *kube_conf {
                        Some(k) => Some(k.worker.image@),
                        None => None,
                    },
                )
                &&& c.image_pull_policy@ == spec_layered_str(
                    self.image_pull_policy@,
                    "IfNotPresent"@,
                    match *kube_conf {
                        Some(k) => Some(k.image_pull_policy@),
                        None => None,
                    },
                )
                &&& crate::dynamic::spec_opt_view(c.master.pod_template) == (match self
                    .master_pod_template {
                    Some(v) => Some(v@),
                    None => match *kube_conf {
                        Some(k) => crate::dynamic::spec_opt_view(k.master.pod_template),
                        None => None,
                    },
                })
                &&& crate::dynamic::spec_opt_view(c.worker.pod_template) == (match self
                    .worker_pod_template {
                    Some(v) => Some(v@),
                    None => match *kube_conf {
                        Some(k) => crate::dynamic::spec_opt_view(k.worker.pod_template),
                        None => None,
                    },
                })
                &&& opt_vec_view(c.master.node_selector) == (match *kube_conf {
                    Some(k) => opt_vec_view(k.master.node_selector),
                    None => None,
                })
                &&& opt_vec_view(c.worker.node_selector) == (match *kube_conf {
                    Some(k) => opt_vec_view(k.worker.node_selector),
                    None => None,
                })
                &&& crate::dynamic::spec_opt_view(c.worker.storage_class)
                    == spec_deploy_storage_class(self, *kube_conf)
                &&& c.master.graceful_shutdown == (match *kube_conf {
                    Some(k) => k.master.graceful_shutdown,
                    None => true,
                })
                &&& c.worker.graceful_shutdown == (match *kube_conf {
                    Some(k) => k.worker.graceful_shutdown,
                    None => true,
                })
                &&& c.worker.host_network == (match *kube_conf {
                    Some(k) => k.worker.host_network,
                    None => false,
                })
                &&& c.worker.init_container == (match *kube_conf {
                    Some(k) => k.worker.init_container,
                    None => false,
                })
                &&& (c.service.service_type == ServiceType::ClusterIP || c.service.service_type
                    == ServiceType::NodePort || c.service.service_type
                    == ServiceType::LoadBalancer)
                &&& c.service.annotations@ == (match *kube_conf {
                    Some(k) => k.service.annotations@,
                    None => Seq::<(String, String)>::empty(),
                })
                &&& crate::dynamic::spec_opt_view(c.service.session_affinity) == (match *kube_conf {
                    Some(k) => crate::dynamic::spec_opt_view(k.service.session_affinity),
                    None => None,
                })
                &&& c.service.external_ips@ == (match *kube_conf {
                    Some(k) => k.service.external_ips@,
                    None => Seq::<String>::empty(),
                })
                &&& c.service.load_balancer_source_ranges@ == Seq::<String>::empty()
                &&& (c.storage is Some <==> spec_deploy_storage_class(self, *kube_conf) is Some
                    || self.master_storage_class is Some || self.worker_storage_class is Some
                    || spec_deploy_size(
                    self.master_storage_size,
                    spec_file_master_size(*kube_conf),
                ) is Some || spec_deploy_size(
                    self.worker_storage_size,
                    spec_file_worker_size(*kube_conf),
                ) is Some)
                &&& (c.storage matches Some(st) ==> {
                    &&& st.storage_class@ == (match spec_deploy_storage_class(self, *kube_conf) {
                        Some(v) => v,
                        None => match self.master_storage_class {
                            Some(v) => v@,
                            None => match self.worker_storage_class {
                                Some(v) => v@,
                                None => ""@,
                            },
                        },
                    })
                    &&& crate::dynamic::spec_opt_view(st.master_storage_class)
                        == crate::dynamic::spec_opt_view(self.master_storage_class)
                    &&& crate::dynamic::spec_opt_view(st.worker_storage_class)
                        == crate::dynamic::spec_opt_view(self.worker_storage_class)
                    &&& crate::dynamic::spec_opt_view(st.master_size) == spec_deploy_size(
                        self.master_storage_size,
                        spec_file_master_size(*kube_conf),
                    )
                    &&& crate::dynamic::spec_opt_view(st.worker_size) == spec_deploy_size(
                        self.worker_storage_size,
                        spec_file_worker_size(*kube_conf),
                    )
                })
                &&& c.image_pull_secrets@ == (match *kube_conf {
                    Some(k) => k.image_pull_secrets@,
                    None => Seq::<String>::empty(),
                })
                &&& c.cluster_domain@ == "cluster.local"@
                &&& c.master.resources is None
                &&& c.master.affinity is None
                &&& c.master.labels@ == Seq::<(String, String)>::empty()
                &&& c.master.annotations@ == Seq::<(String, String)>::empty()
                &&& c.master.tolerations@.len() == 0
                &&& c.master.service_account is None
                &&& c.master.env_vars@ == Seq::<(String, String)>::empty()
                &&& c.master.dns_policy is None
                &&& c.master.priority_class is None
                &&& c.worker.resources is None
                &&& !c.worker.anti_affinity
                &&& c.worker.host_path_storage is None
                &&& c.worker.labels@ == Seq::<(String, String)>::empty()
                &&& c.worker.annotations@ == Seq::<(String, String)>::empty()
                &&& c.worker.tolerations@.len() == 0
                &&& c.worker.service_account is None
                &&& c.worker.env_vars@ == Seq::<(String, String)>::empty()
                &&& c.worker.dns_policy is None
                &&& c.worker.priority_class is None
            },
            r matches Err(e) ==> e matches KubeError::ConfigError(_),
    {
        proof {
            reveal_strlit("ClusterIP");
            reveal_strlit("NodePort");
            reveal_strlit("LoadBalancer");
            assert("ClusterIP"@.len() == 9 && "NodePort"@.len() == 8 && "LoadBalancer"@.len()
                == 12);
        }
        let cluster_id: String = match &self.cluster_id {
            Some(v) => v.clone(),
            None => {
                let from_file: Option<String> = match kube_conf {
                    Some(k) => dup_opt_string(&k.cluster_id),
                    None => None,
                };
                match from_file {
                    Some(v) => v,
                    None => {
                        return Err(
                            KubeError::ConfigError(
                                "cluster_id is required (use --cluster-id)".to_owned(),
                            ),
                        );
                    },
                }
            },
        };
        let namespace: String = if self.namespace.as_str().unicode_len() > 0
            && !crate::text::str_eq_str(self.namespace.as_str(), "default") {
            self.namespace.clone()
        } else {
            match kube_conf {
                Some(k) => k.namespace.clone(),
                None => self.namespace.clone(),
            }
        };
        proof {
            reveal_strlit("default");
        }
        let service_type_str: String = if !crate::text::str_eq_str(
            self.service_type.as_str(),
            "ClusterIP",
        ) {
            self.service_type.clone()
        } else {
            match kube_conf {
                Some(k) => k.service.service_type.clone(),
                None => self.service_type.clone(),
            }
        };
        let service_type = match ServiceType::from_str_name(service_type_str.as_str()) {
            Ok(t) => t,
            Err(e) => {
                return Err(e);
            },
        };
        let master_replicas: u32 = if self.master_replicas != 3 {
            self.master_replicas
        } else {
            match kube_conf {
                Some(k) => k.master.replicas,
                None => self.master_replicas,
            }
        };
        let worker_replicas: u32 = if self.worker_replicas != 3 {
            self.worker_replicas
        } else {
            match kube_conf {
                Some(k) => k.worker.replicas,
                None => self.worker_replicas,
            }
        };
        let master_image: String = if !crate::text::str_eq_str(
            self.image.as_str(),
            "docker.io/curvine:latest",
        ) {
            self.image.clone()
        } else {
            match kube_conf {
                Some(k) => k.master.image.clone(),
                None => self.image.clone(),
            }
        };
        let worker_image: String = if !crate::text::str_eq_str(
            self.image.as_str(),
            "docker.io/curvine:latest",
        ) {
            self.image.clone()
        } else {
            match kube_conf {
                Some(k) => k.worker.image.clone(),
                None => self.image.clone(),
            }
        };
        let image_pull_policy: String = if !crate::text::str_eq_str(
            self.image_pull_policy.as_str(),
            "IfNotPresent",
        ) {
            self.image_pull_policy.clone()
        } else {
            match kube_conf {
                Some(k) => k.image_pull_policy.clone(),
                None => self.image_pull_policy.clone(),
            }
        };
        let master_pod_template: Option<String> = match &self.master_pod_template {
            Some(v) => Some(v.clone()),
            None => match kube_conf {
                Some(k) => dup_opt_string(&k.master.pod_template),
                None => None,
            },
        };
        let worker_pod_template: Option<String> = match &self.worker_pod_template {
            Some(v) => Some(v.clone()),
            None => match kube_conf {
                Some(k) => dup_opt_string(&k.worker.pod_template),
                None => None,
            },
        };
        let master_node_selector = match kube_conf {
            Some(k) => dup_opt_kv(&k.master.node_selector),
            None => None,
        };
        let worker_node_selector = match kube_conf {
            Some(k) => dup_opt_kv(&k.worker.node_selector),
            None => None,
        };
        let storage_class: Option<String> = match &self.storage_class {
            Some(v) => Some(v.clone()),
            None => match kube_conf {
                Some(k) => match &k.worker.storage_class {
                    Some(v) => Some(v.clone()),
                    None => match &k.storage {
                        Some(st) => Some(st.storage_class.clone()),
                        None => None,
                    },
                },
                None => None,
            },
        };
        let master_storage_size: Option<String> = match &self.master_storage_size {
            Some(v) => Some(v.clone()),
            None => match kube_conf {
                Some(k) => match &k.storage {
                    Some(st) => dup_opt_string(&st.master_size),
                    None => None,
                },
                None => None,
            },
        };
        let worker_storage_size: Option<String> = match &self.worker_storage_size {
            Some(v) => Some(v.clone()),
            None => match kube_conf {
                Some(k) => match &k.storage {
                    Some(st) => dup_opt_string(&st.worker_size),
                    None => None,
                },
                None => None,
            },
        };
        let has_storage = storage_class.is_some() || self.master_storage_class.is_some()
            || self.worker_storage_class.is_some() || master_storage_size.is_some()
            || worker_storage_size.is_some();
        let storage: Option<StorageConfig> = if has_storage {
            let fallback: String = match &self.master_storage_class {
                Some(v) => v.clone(),
                None => match &self.worker_storage_class {
                    Some(v) => v.clone(),
                    None => "".to_owned(),
                },
            };
            Some(
                StorageConfig {
                    storage_class: match &storage_class {
                        Some(v) => v.clone(),
                        None => fallback,
                    },
                    master_storage_class: dup_opt_string(&self.master_storage_class),
                    worker_storage_class: dup_opt_string(&self.worker_storage_class),
                    master_size: dup_opt_string(&master_storage_size),
                    worker_size: dup_opt_string(&worker_storage_size),
                },
            )
        } else {
            None
        };
        Ok(
            KubernetesConfig {
                cluster_id,
                namespace,
                master: MasterConfig {
                    replicas: master_replicas,
                    image: master_image,
                    resources: None,
                    node_selector: master_node_selector,
                    affinity: None,
                    pod_template: master_pod_template,
                    graceful_shutdown: match kube_conf {
                        Some(k) => k.master.graceful_shutdown,
                        None => true,
                    },
                    labels: Vec::new(),
                    annotations: Vec::new(),
                    tolerations: Vec::new(),
                    service_account: None,
                    env_vars: Vec::new(),
                    dns_policy: None,
                    priority_class: None,
                },
                worker: WorkerConfig {
                    replicas: worker_replicas,
                    image: worker_image,
                    resources: None,
                    node_selector: worker_node_selector,
                    anti_affinity: false,
                    pod_template: worker_pod_template,
                    storage_class,
                    graceful_shutdown: match kube_conf {
                        Some(k) => k.worker.graceful_shutdown,
                        None => true,
                    },
                    host_network: match kube_conf {
                        Some(k) => k.worker.host_network,
                        None => false,
                    },
                    init_container: match kube_conf {
                        Some(k) => k.worker.init_container,
                        None => false,
                    },
                    host_path_storage: None,
                    labels: Vec::new(),
                    annotations: Vec::new(),
                    tolerations: Vec::new(),
                    service_account: None,
                    env_vars: Vec::new(),
                    dns_policy: None,
                    priority_class: None,
                },
                service: ServiceConfig {
                    service_type,
                    annotations: match kube_conf {
                        Some(k) => crate::model::dup_kv(&k.service.annotations),
                        None => Vec::new(),
                    },
                    session_affinity: match kube_conf {
                        Some(k) => dup_opt_string(&k.service.session_affinity),
                        None => None,
                    },
                    external_ips: match kube_conf {
                        Some(k) => dup_strings(&k.service.external_ips),
                        None => Vec::new(),
                    },
                    load_balancer_source_ranges: Vec::new(),
                },
                storage,
                image_pull_policy,
                image_pull_secrets: match kube_conf {
                    Some(k) => dup_strings(&k.image_pull_secrets),
                    None => Vec::new(),
                },
                cluster_domain: "cluster.local".to_owned(),
            },
        )
    }
}


/// The update invocation's resolution-relevant values; absent fields
/// leave the cluster's configuration untouched.
pub struct UpdateCommand {
    pub cluster_id: Option<String>,
    pub namespace: String,
    pub image: Option<String>,
    pub master_replicas: Option<u32>,
    pub worker_replicas: Option<u32>,
    pub master_pod_template: Option<String>,
    pub worker_pod_template: Option<String>,
    pub service_type: Option<String>,
    pub image_pull_policy: Option<String>,
}

impl UpdateCommand {
    /// Resolves an update's specification.  A supplied master replica
    /// count is rejected before anything else is resolved; the master
    /// count then comes from the file or stands at one, never from
    /// the invocation.
    #[verifier::rlimit(100)]
    pub fn resolve_config(&self, kube_conf: &Option<KubernetesConf>) -> (r: Result<
        KubernetesConfig,
        KubeError,
    >)
        ensures
            self.master_replicas is Some ==> (r matches Err(e) && (e matches
            KubeError::ConfigError(m) && m@
                == "Master replicas cannot be updated: master nodes form a Raft quorum and changing the count requires manual cluster reconfiguration. Supported updates: worker replicas, images, image pull policy, service type, pod templates and dynamic overrides."@)),
            r is Ok <==> self.master_replicas is None && spec_resolved_cluster_id(
                self.cluster_id,
                *kube_conf,
            ) is Some && {
                let st: Option<Seq<char>> = match self.service_type {
                    Some(v) => Some(v@),
                    None => match *kube_conf {
                        Some(k) => Some(k.service.service_type@),
                        None => None,
                    },
                };
                match st {
                    Some(v) => v == "ClusterIP"@ || v == "NodePort"@ || v == "LoadBalancer"@,
                    None => true,
                }
            },
            r matches Ok(c) ==> {
                &&& Some(c.cluster_id@) == spec_resolved_cluster_id(self.cluster_id, *kube_conf)
                &&& c.namespace@ == (if self.namespace@.len() > 0 && self.namespace@
                    != "default"@ {
                    self.namespace@
                } else {
                    match *kube_conf {
                        Some(k) => k.namespace@,
                        None => self.namespace@,
                    }
                })
                &&& c.master.replicas == (match *kube_conf {
                    Some(k) => k.master.replicas,
                    None => 1,
                })
                &&& c.worker.replicas == (match self.worker_replicas {
                    Some(v) => v,
                    None => match *kube_conf {
                        Some(k) => k.worker.replicas,
                        None => 3,
                    },
                })
                &&& c.master.image@ == (match self.image {
                    Some(v) => v@,
                    None => match *kube_conf {
                        Some(k) => k.master.image@,
                        None => "docker.io/curvine:latest"@,
                    },
                })
                &&& c.worker.image@ == (match self.image {
                    Some(v) => v@,
                    None => match *kube_conf {
                        Some(k) => k.worker.image@,
                        None => "docker.io/curvine:latest"@,
                    },
                })
                &&& c.image_pull_policy@ == (match self.image_pull_policy {
                    Some(v) => v@,
                    None => match *kube_conf {
                        Some(k) => k.image_pull_policy@,
                        None => "IfNotPresent"@,
                    },
                })
                &&& crate::dynamic::spec_opt_view(c.master.pod_template) == (match self
                    .master_pod_template {
                    Some(v) => Some(v@),
                    None => match *kube_conf {
                        Some(k) => crate::dynamic::spec_opt_view(k.master.pod_template),
                        None => None,
                    },
                })
                &&& crate::dynamic::spec_opt_view(c.worker.pod_template) == (match self
                    .worker_pod_template {
                    Some(v) => Some(v@),
                    None => match *kube_conf {
                        Some(k) => crate::dynamic::spec_opt_view(k.worker.pod_template),
                        None => None,
                    },
                })
                &&& (c.storage is Some <==> (*kube_conf matches Some(k) && k.storage is Some))
                &&& c.cluster_domain@ == "cluster.local"@
                &&& c.master.resources is None
                &&& c.worker.resources is None
            },
            r matches Err(e) ==> e matches KubeError::ConfigError(_),
    {
        match crate::orchestrate::update_master_replicas_guard(self.master_replicas) {
            Ok(_) => {},
            Err(e) => {
                return Err(e);
            },
        }
        proof {
            reveal_strlit("ClusterIP");
            reveal_strlit("NodePort");
            reveal_strlit("LoadBalancer");
            assert("ClusterIP"@.len() == 9 && "NodePort"@.len() == 8 && "LoadBalancer"@.len()
                == 12);
            reveal_strlit("default");
        }
        let cluster_id: String = match &self.cluster_id {
            Some(v) => v.clone(),
            None => {
                let from_file: Option<String> = match kube_conf {
                    Some(k) => dup_opt_string(&k.cluster_id),
                    None => None,
                };
                match from_file {
                    Some(v) => v,
                    None => {
                        return Err(
                            KubeError::ConfigError(
                                "cluster_id is required (use --cluster-id)".to_owned(),
                            ),
                        );
                    },
                }
            },
        };
        let namespace: String = if self.namespace.as_str().unicode_len() > 0
            && !crate::text::str_eq_str(self.namespace.as_str(), "default") {
            self.namespace.clone()
        } else {
            match kube_conf {
                Some(k) => k.namespace.clone(),
                None => self.namespace.clone(),
            }
        };
        let service_type_str: Option<String> = match &self.service_type {
            Some(v) => Some(v.clone()),
            None => match kube_conf {
                Some(k) => Some(k.service.service_type.clone()),
                None => None,
            },
        };
        let service_type = match service_type_str {
            Some(st) => match ServiceType::from_str_name(st.as_str()) {
                Ok(t) => t,
                Err(e) => {
                    return Err(e);
                },
            },
            None => ServiceType::ClusterIP,
        };
        let storage: Option<StorageConfig> = match kube_conf {
            Some(k) => match &k.storage {
                Some(st) => Some(
                    StorageConfig {
                        storage_class: st.storage_class.clone(),
                        master_storage_class: dup_opt_string(&st.master_storage_class),
                        worker_storage_class: dup_opt_string(&st.worker_storage_class),
                        master_size: dup_opt_string(&st.master_size),
                        worker_size: dup_opt_string(&st.worker_size),
                    },
                ),
                None => None,
            },
            None => None,
        };
        Ok(
            KubernetesConfig {
                cluster_id,
                namespace,
                master: MasterConfig {
                    replicas: match kube_conf {
                        Some(k) => k.master.replicas,
                        None => 1,
                    },
                    image: match &self.image {
                        Some(v) => v.clone(),
                        None => match kube_conf {
                            Some(k) => k.master.image.clone(),
                            None => "docker.io/curvine:latest".to_owned(),
                        },
                    },
                    resources: None,
                    node_selector: match kube_conf {
                        Some(k) => dup_opt_kv(&k.master.node_selector),
                        None => None,
                    },
                    affinity: None,
                    pod_template: match &self.master_pod_template {
                        Some(v) => Some(v.clone()),
                        None => match kube_conf {
                            Some(k) => dup_opt_string(&k.master.pod_template),
                            None => None,
                        },
                    },
                    graceful_shutdown: match kube_conf {
                        Some(k) => k.master.graceful_shutdown,
                        None => true,
                    },
                    labels: Vec::new(),
                    annotations: Vec::new(),
                    tolerations: Vec::new(),
                    service_account: None,
                    env_vars: Vec::new(),
                    dns_policy: None,
                    priority_class: None,
                },
                worker: WorkerConfig {
                    replicas: match self.worker_replicas {
                        Some(v) => v,
                        None => match kube_conf {
                            Some(k) => k.worker.replicas,
                            None => 3,
                        },
                    },
                    image: match &self.image {
                        Some(v) => v.clone(),
                        None => match kube_conf {
                            Some(k) => k.worker.image.clone(),
                            None => "docker.io/curvine:latest".to_owned(),
                        },
                    },
                    resources: None,
                    node_selector: match kube_conf {
                        Some(k) => dup_opt_kv(&k.worker.node_selector),
                        None => None,
                    },
                    anti_affinity: false,
                    pod_template: match &self.worker_pod_template {
                        Some(v) => Some(v.clone()),
                        None => match kube_conf {
                            Some(k) => dup_opt_string(&k.worker.pod_template),
                            None => None,
                        },
                    },
                    storage_class: match &storage {
                        Some(st) => Some(st.storage_class.clone()),
                        None => None,
                    },
                    graceful_shutdown: match kube_conf {
                        Some(k) => k.worker.graceful_shutdown,
                        None => true,
                    },
                    host_network: match kube_conf {
                        Some(k) => k.worker.host_network,
                        None => false,
                    },
                    init_container: match kube_conf {
                        Some(k) => k.worker.init_container,
                        None => false,
                    },
                    host_path_storage: None,
                    labels: Vec::new(),
                    annotations: Vec::new(),
                    tolerations: Vec::new(),
                    service_account: None,
                    env_vars: Vec::new(),
                    dns_policy: None,
                    priority_class: None,
                },
                service: ServiceConfig {
                    service_type,
                    annotations: match kube_conf {
                        Some(k) => crate::model::dup_kv(&k.service.annotations),
                        None => Vec::new(),
                    },
                    session_affinity: match kube_conf {
                        Some(k) => dup_opt_string(&k.service.session_affinity),
                        None => None,
                    },
                    external_ips: match kube_conf {
                        Some(k) => dup_strings(&k.service.external_ips),
                        None => Vec::new(),
                    },
                    load_balancer_source_ranges: Vec::new(),
                },
                storage,
                image_pull_policy: match &self.image_pull_policy {
                    Some(v) => v.clone(),
                    None => match kube_conf {
                        Some(k) => k.image_pull_policy.clone(),
                        None => "IfNotPresent".to_owned(),
                    },
                },
                image_pull_secrets: match kube_conf {
                    Some(k) => dup_strings(&k.image_pull_secrets),
                    None => Vec::new(),
                },
                cluster_domain: "cluster.local".to_owned(),
            },
        )
    }
}

} // verus!

