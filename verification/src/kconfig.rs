//! The authoritative, fully-resolved cluster specification and its
//! static validation: naming rules, quorum-safe master replica count,
//! non-zero replicas, and pull-policy membership.

use vstd::prelude::*;
use vstd::string::StrSliceExecFns;

use crate::errors::KubeError;
use crate::model::{Affinity, ResourceRequirements, Toleration};
use crate::text::str_eq_str;

verus! {

#[derive(Debug, Clone)]
pub struct KubernetesConfig {
    pub cluster_id: String,
    pub namespace: String,
    pub master: MasterConfig,
    pub worker: WorkerConfig,
    pub service: ServiceConfig,
    pub storage: Option<StorageConfig>,
    pub image_pull_policy: String,
    pub image_pull_secrets: Vec<String>,
    /// The platform-internal domain suffix of generated hostnames.
    pub cluster_domain: String,
}

#[derive(Debug, Clone)]
pub struct MasterConfig {
    pub replicas: u32,
    pub image: String,
    pub resources: Option<ResourceRequirements>,
    pub node_selector: Option<Vec<(String, String)>>,
    pub affinity: Option<Affinity>,
    pub pod_template: Option<String>,
    pub graceful_shutdown: bool,
    pub labels: Vec<(String, String)>,
    pub annotations: Vec<(String, String)>,
    pub tolerations: Vec<Toleration>,
    pub service_account: Option<String>,
    pub env_vars: Vec<(String, String)>,
    pub dns_policy: Option<String>,
    pub priority_class: Option<String>,
}

#[derive(Debug, Clone)]
pub struct WorkerConfig {
    pub replicas: u32,
    pub image: String,
    pub resources: Option<ResourceRequirements>,
    pub node_selector: Option<Vec<(String, String)>>,
    pub anti_affinity: bool,
    pub pod_template: Option<String>,
    pub storage_class: Option<String>,
    pub graceful_shutdown: bool,
    pub host_network: bool,
    pub init_container: bool,
    /// Per-path node directory overrides that take precedence over
    /// tier-based volume selection.
    pub host_path_storage: Option<Vec<(String, String)>>,
    pub labels: Vec<(String, String)>,
    pub annotations: Vec<(String, String)>,
    pub tolerations: Vec<Toleration>,
    pub service_account: Option<String>,
    pub env_vars: Vec<(String, String)>,
    pub dns_policy: Option<String>,
    pub priority_class: Option<String>,
}

#[derive(Debug, Clone)]
pub struct ServiceConfig {
    pub service_type: ServiceType,
    pub annotations: Vec<(String, String)>,
    pub session_affinity: Option<String>,
    pub external_ips: Vec<String>,
    pub load_balancer_source_ranges: Vec<String>,
}

#[derive(Debug, Clone, Copy, PartialEq, Eq, Structural)]
pub enum ServiceType {
    ClusterIP,
    NodePort,
    LoadBalancer,
}

impl ServiceType {
    pub fn as_str(&self) -> (r: &'static str)
        ensures
            *self == ServiceType::ClusterIP ==> r@ == "ClusterIP"@,
            *self == ServiceType::NodePort ==> r@ == "NodePort"@,
            *self == ServiceType::LoadBalancer ==> r@ == "LoadBalancer"@,
    {
        match self {
            ServiceType::ClusterIP => "ClusterIP",
            ServiceType::NodePort => "NodePort",
            ServiceType::LoadBalancer => "LoadBalancer",
        }
    }

    /// The exposure type a configuration string names; anything else is
    /// a configuration error.
    pub fn from_str_name(s: &str) -> (r: Result<ServiceType, KubeError>)
        ensures
            match r {
                Ok(t) => (t == ServiceType::ClusterIP && s@ == "ClusterIP"@) || (t
                    == ServiceType::NodePort && s@ == "NodePort"@) || (t
                    == ServiceType::LoadBalancer && s@ == "LoadBalancer"@),
                Err(e) => s@ != "ClusterIP"@ && s@ != "NodePort"@ && s@ != "LoadBalancer"@ && (
                e matches KubeError::ConfigError(m) && m@ == "Invalid service type: "@ + s@),
            },
    {
        if str_eq_str(s, "ClusterIP") {
            Ok(ServiceType::ClusterIP)
        } else if str_eq_str(s, "NodePort") {
            Ok(ServiceType::NodePort)
        } else if str_eq_str(s, "LoadBalancer") {
            Ok(ServiceType::LoadBalancer)
        } else {
            let mut m = "Invalid service type: ".to_owned();
            m.append(s);
            Err(KubeError::ConfigError(m))
        }
    }
}

#[derive(Debug, Clone)]
pub struct StorageConfig {
    pub storage_class: String,
    pub master_storage_class: Option<String>,
    pub worker_storage_class: Option<String>,
    pub master_size: Option<String>,
    pub worker_size: Option<String>,
}

/// A legal resource name: one to 253 characters, each a lowercase
/// ASCII letter, a digit or a hyphen, with an alphanumeric character
/// first and last.
pub open spec fn spec_valid_k8s_name(s: Seq<char>) -> bool {
    &&& 1 <= s.len() <= 253
    &&& forall|j: int|
        0 <= j < s.len() ==> (('a' <= #[trigger] s[j] && s[j] <= 'z') || ('0' <= s[j] && s[j]
            <= '9') || s[j] == '-')
    &&& s[0] != '-'
    &&& s[s.len() - 1] != '-'
}

pub fn is_valid_k8s_name(name: &str) -> (r: bool)
    ensures
        r == spec_valid_k8s_name(name@),
{
    let len = name.unicode_len();
    if len == 0 || len > 253 {
        return false;
    }
    let mut j: usize = 0;
    while j < len
        invariant
            len == name@.len(),
            j <= len,
            forall|i: int|
                0 <= i < j ==> (('a' <= #[trigger] name@[i] && name@[i] <= 'z') || ('0'
                    <= name@[i] && name@[i] <= '9') || name@[i] == '-'),
        decreases len - j,
    {
        let c = name.get_char(j);
        let ok = ('a' <= c && c <= 'z') || ('0' <= c && c <= '9') || c == '-';
        if !ok {
            return false;
        }
        j += 1;
    }
    name.get_char(0) != '-' && name.get_char(len - 1) != '-'
}

/// The accepted image pull policies.
pub open spec fn spec_valid_pull_policy(p: Seq<char>) -> bool {
    p == "Always"@ || p == "IfNotPresent"@ || p == "Never"@
}

pub fn is_valid_pull_policy(p: &str) -> (r: bool)
    ensures
        r == spec_valid_pull_policy(p@),
{
    str_eq_str(p, "Always") || str_eq_str(p, "IfNotPresent") || str_eq_str(p, "Never")
}

/// Everything the static validator asks of a resolved specification.
pub open spec fn spec_validate_ok(c: &KubernetesConfig) -> bool {
    &&& spec_valid_k8s_name(c.cluster_id@)
    &&& c.cluster_id@.len() <= 45
    &&& c.master.replicas > 0
    &&& c.master.replicas % 2 == 1
    &&& c.worker.replicas > 0
    &&& spec_valid_pull_policy(c.image_pull_policy@)
}

impl KubernetesConfig {
    /// Static validation: the specification passes exactly when its
    /// cluster identifier is a legal name of at most 45 characters, the
    /// master replica count is odd and positive, the worker replica
    /// count is positive, and the pull policy is one of the accepted
    /// three.
    pub fn validate(&self) -> (r: Result<(), KubeError>)
        ensures
            r is Ok <==> spec_validate_ok(self),
            r matches Err(e) ==> e matches KubeError::ConfigError(_),
            !spec_valid_k8s_name(self.cluster_id@) ==> (r matches Err(e) && (e matches
            KubeError::ConfigError(m) && m@ == "Invalid cluster_id: "@ + self.cluster_id@)),
            spec_valid_k8s_name(self.cluster_id@) && self.cluster_id@.len() > 45 ==> (r matches
            Err(e) && (e matches KubeError::ConfigError(m) && m@
                == "cluster_id too long (max 45 chars): "@ + self.cluster_id@)),
            spec_valid_k8s_name(self.cluster_id@) && self.cluster_id@.len() <= 45
                && self.master.replicas == 0 ==> (r matches Err(e) && (e matches
            KubeError::ConfigError(m) && m@ == "master.replicas must be > 0"@)),
            spec_valid_k8s_name(self.cluster_id@) && self.cluster_id@.len() <= 45
                && self.master.replicas > 0 && self.master.replicas % 2 == 0 ==> (r matches Err(
            e) && (e matches KubeError::ConfigError(m) && m@
                == "master.replicas should be odd for Raft (recommended: 3, 5, 7)"@)),
            spec_valid_k8s_name(self.cluster_id@) && self.cluster_id@.len() <= 45
                && self.master.replicas > 0 && self.master.replicas % 2 == 1
                && self.worker.replicas == 0 ==> (r matches Err(e) && (e matches
            KubeError::ConfigError(m) && m@ == "worker.replicas must be > 0"@)),
            spec_valid_k8s_name(self.cluster_id@) && self.cluster_id@.len() <= 45
                && self.master.replicas > 0 && self.master.replicas % 2 == 1
                && self.worker.replicas > 0 && !spec_valid_pull_policy(self.image_pull_policy@)
                ==> (r matches Err(e) && (e matches KubeError::ConfigError(m) && m@
                == "Invalid image_pull_policy: "@ + self.image_pull_policy@)),
    {
        if !is_valid_k8s_name(self.cluster_id.as_str()) {
            let mut m = "Invalid cluster_id: ".to_owned();
            m.append(self.cluster_id.as_str());
            return Err(KubeError::ConfigError(m));
        }
        if self.cluster_id.as_str().unicode_len() > 45 {
            let mut m = "cluster_id too long (max 45 chars): ".to_owned();
            m.append(self.cluster_id.as_str());
            return Err(KubeError::ConfigError(m));
        }
        if self.master.replicas == 0 {
            return Err(KubeError::ConfigError("master.replicas must be > 0".to_owned()));
        }
        if self.master.replicas % 2 == 0 {
            return Err(
                KubeError::ConfigError(
                    "master.replicas should be odd for Raft (recommended: 3, 5, 7)".to_owned(),
                ),
            );
        }
        if self.worker.replicas == 0 {
            return Err(KubeError::ConfigError("worker.replicas must be > 0".to_owned()));
        }
        if !is_valid_pull_policy(self.image_pull_policy.as_str()) {
            let mut m = "Invalid image_pull_policy: ".to_owned();
            m.append(self.image_pull_policy.as_str());
            return Err(KubeError::ConfigError(m));
        }
        Ok(())
    }
}


/// The client block size the memory-tier check measures against: the
/// explicit byte count when set, else the parsed size text.
pub open spec fn spec_block_size(c: &crate::conf::ClusterConf) -> Option<nat> {
    if c.client.block_size > 0 {
        Some(c.client.block_size as nat)
    } else {
        crate::conf::spec_parse_size(c.client.block_size_str@)
    }
}

/// Whether entry `i` is a bounded memory-tier directory smaller than
/// the block size — a configuration that cannot hold one block.
pub open spec fn spec_mem_too_small(c: &crate::conf::ClusterConf, i: int, block: nat) -> bool {
    &&& crate::conf::spec_dd_tier(c.worker.data_dir@[i]@) == crate::conf::StorageType::Mem
    &&& crate::conf::spec_dd_capacity(c.worker.data_dir@[i]@) > 0
    &&& crate::conf::spec_dd_capacity(c.worker.data_dir@[i]@) < block
}

/// The message a too-small memory directory produces: the capacity
/// and block size in bytes and whole mebibytes, and the smallest
/// acceptable bound.
pub open spec fn spec_mem_too_small_msg(cap: nat, block: nat) -> Seq<char> {
    "Worker data_dir MEM size ("@ + crate::text::spec_dec(cap) + " bytes, ~"@
        + crate::text::spec_dec(cap / 0x100000) + "MB) is less than worker block size ("@
        + crate::text::spec_dec(block) + " bytes, ~"@ + crate::text::spec_dec(block / 0x100000)
        + "MB). Increase the MEM size to at least "@ + crate::text::spec_dec(
        block / 0x100000 + 1,
    ) + "MB, use disk storage, or remove the MEM size limit."@
}

/// Checks every memory-tier data directory against the client block
/// size: a bounded in-memory directory smaller than one block is
/// rejected with both sizes and the smallest acceptable bound.
#[verifier::loop_isolation(false)]
pub fn validate_worker_mem_size(c: &crate::conf::ClusterConf) -> (r: Result<(), KubeError>)
    ensures
        r is Ok <==> (spec_block_size(c) is Some && forall|i: int|
            0 <= i < c.worker.data_dir@.len() ==> crate::conf::spec_dd_ok(
                #[trigger] c.worker.data_dir@[i]@,
            ) && !spec_mem_too_small(c, i, spec_block_size(c)->0)),
        r matches Err(e) ==> e matches KubeError::ConfigError(_) || e matches
            KubeError::ValidationError(_),
{
    let block: u64 = if c.client.block_size > 0 {
        c.client.block_size as u64
    } else {
        match crate::conf::parse_size_string(c.client.block_size_str.as_str()) {
            Ok(v) => v,
            Err(e) => {
                let inner = match e {
                    KubeError::ConfigError(m) => m,
                    _ => {
                        proof {
                            assert(false);
                        }
                        "".to_owned()
                    },
                };
                let mut m = "Invalid block_size_str: ".to_owned();
                m.append(inner.as_str());
                return Err(KubeError::ConfigError(m));
            },
        }
    };
    let mut i: usize = 0;
    while i < c.worker.data_dir.len()
        invariant
            i <= c.worker.data_dir@.len(),
            spec_block_size(c) == Some(block as nat),
            forall|j: int|
                0 <= j < i ==> crate::conf::spec_dd_ok(#[trigger] c.worker.data_dir@[j]@)
                    && !spec_mem_too_small(c, j, block as nat),
        decreases c.worker.data_dir@.len() - i,
    {
        let dd = match crate::conf::WorkerDataDir::parse_data_dir(
            c.worker.data_dir[i].as_str(),
        ) {
            Ok(d) => d,
            Err(e) => {
                let inner = match e {
                    KubeError::ConfigError(m) => m,
                    _ => {
                        proof {
                            assert(false);
                        }
                        "".to_owned()
                    },
                };
                let mut m = "Invalid data_dir format: ".to_owned();
                m.append(inner.as_str());
                return Err(KubeError::ConfigError(m));
            },
        };
        let is_mem = match dd.storage_type {
            crate::conf::StorageType::Mem => true,
            _ => false,
        };
        if is_mem && dd.capacity > 0 && dd.capacity < block {
            let mut m = "Worker data_dir MEM size (".to_owned();
            m.append(crate::text::fmt_u64(dd.capacity).as_str());
            m.append(" bytes, ~");
            m.append(crate::text::fmt_u64(dd.capacity / 0x100000).as_str());
            m.append("MB) is less than worker block size (");
            m.append(crate::text::fmt_u64(block).as_str());
            m.append(" bytes, ~");
            m.append(crate::text::fmt_u64(block / 0x100000).as_str());
            m.append("MB). Increase the MEM size to at least ");
            m.append(crate::text::fmt_u64(block / 0x100000 + 1).as_str());
            m.append("MB, use disk storage, or remove the MEM size limit.");
            proof {
                assert(m@ == spec_mem_too_small_msg(dd.capacity as nat, block as nat));
            }
            return Err(KubeError::ValidationError(m));
        }
        i += 1;
    }
    Ok(())
}

} // verus!
