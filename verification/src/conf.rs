//! The declarative cluster configuration: the document an operator edits,
//! held as plain values, with its built-in defaults, the size-string
//! syntax, and the bracketed worker data-directory syntax.

use vstd::prelude::*;
use vstd::string::StrSliceExecFns;

use crate::errors::KubeError;
use crate::text::{parse_u64_digits, spec_all_digits, spec_digits_val, spec_trim, trim_str};

verus! {

#[derive(Debug, Clone)]
pub struct ClusterConf {
    pub format_master: bool,
    pub format_worker: bool,
    pub testing: bool,
    pub cluster_id: String,
    pub master: MasterConf,
    pub journal: JournalConf,
    pub worker: WorkerConf,
    pub client: ClientConf,
    pub fuse: FuseConf,
    pub s3_gateway: S3GatewayConf,
    pub job: JobConf,
}

#[derive(Debug, Clone)]
pub struct InetAddr {
    pub hostname: String,
    pub port: u16,
}

impl InetAddr {
    pub fn new(hostname: String, port: u16) -> (r: Self)
        ensures
            r.hostname == hostname,
            r.port == port,
    {
        Self { hostname, port }
    }
}

#[derive(Debug, Clone)]
pub struct RaftPeer {
    pub id: u64,
    pub hostname: String,
    pub port: u16,
}

#[derive(Debug, Clone, Copy, PartialEq, Eq, Structural)]
pub enum StorageType {
    Mem,
    Ssd,
    Hdd,
    Disk,
    Ufs,
}

/// Case-insensitive match of `c` against a lowercase ASCII letter.
pub open spec fn spec_eq_ci(c: char, lower: char) -> bool {
    c == lower || ('a' <= lower && lower <= 'z' && c as int == lower as int - 32)
}

pub open spec fn spec_eq_ci_seq(s: Seq<char>, lower: Seq<char>) -> bool {
    s.len() == lower.len() && forall|j: int| 0 <= j < s.len() ==> spec_eq_ci(s[j], lower[j])
}

fn char_eq_ci(c: char, lower: char) -> (r: bool)
    ensures
        r == spec_eq_ci(c, lower),
{
    c == lower || ('a' <= lower && lower <= 'z' && (c as u32) + 32 == lower as u32)
}

fn str_eq_ci(s: &str, lower: &str) -> (r: bool)
    ensures
        r == spec_eq_ci_seq(s@, lower@),
{
    let slen = s.unicode_len();
    let llen = lower.unicode_len();
    if slen != llen {
        return false;
    }
    let mut i: usize = 0;
    while i < slen
        invariant
            slen == s@.len(),
            llen == lower@.len(),
            slen == llen,
            i <= slen,
            forall|j: int| 0 <= j < i ==> spec_eq_ci(s@[j], lower@[j]),
        decreases slen - i,
    {
        if !char_eq_ci(s.get_char(i), lower.get_char(i)) {
            return false;
        }
        i += 1;
    }
    true
}

/// The storage tier a tier tag names; an unknown tag falls back to the
/// generic disk tier.
pub open spec fn spec_storage_type_from_name(s: Seq<char>) -> StorageType {
    if spec_eq_ci_seq(s, "mem"@) {
        StorageType::Mem
    } else if spec_eq_ci_seq(s, "ssd"@) {
        StorageType::Ssd
    } else if spec_eq_ci_seq(s, "hdd"@) {
        StorageType::Hdd
    } else if spec_eq_ci_seq(s, "disk"@) {
        StorageType::Disk
    } else if spec_eq_ci_seq(s, "ufs"@) {
        StorageType::Ufs
    } else {
        StorageType::Disk
    }
}

impl StorageType {
    pub fn from_str_name(s: &str) -> (r: Self)
        ensures
            r == spec_storage_type_from_name(s@),
    {
        if str_eq_ci(s, "mem") {
            Self::Mem
        } else if str_eq_ci(s, "ssd") {
            Self::Ssd
        } else if str_eq_ci(s, "hdd") {
            Self::Hdd
        } else if str_eq_ci(s, "disk") {
            Self::Disk
        } else if str_eq_ci(s, "ufs") {
            Self::Ufs
        } else {
            Self::Disk
        }
    }
}

#[derive(Debug, Clone)]
pub struct WorkerDataDir {
    pub storage_type: StorageType,
    pub capacity: u64,
    pub path: String,
}

#[derive(Debug, Clone)]
pub struct MasterConf {
    pub hostname: String,
    pub rpc_port: u16,
    pub web_port: u16,
    pub io_threads: usize,
    pub worker_threads: usize,
    pub io_timeout: String,
    pub io_close_idle: bool,
    pub meta_dir: String,
    pub meta_disable_wal: bool,
    pub meta_compression_type: String,
    pub meta_db_write_buffer_size: String,
    pub meta_write_buffer_size: String,
    pub min_block_size: i64,
    pub max_block_size: i64,
    pub min_replication: u16,
    pub max_replication: u16,
    pub max_path_len: usize,
    pub max_path_depth: usize,
    pub retry_cache_enable: bool,
    pub retry_cache_size: u64,
    pub retry_cache_ttl: String,
    pub block_report_limit: usize,
    pub worker_policy: String,
    pub executor_threads: usize,
    pub executor_channel_size: usize,
    pub heartbeat_interval: String,
    pub worker_check_interval: String,
    pub worker_blacklist_interval: String,
    pub worker_lost_interval: String,
    pub audit_logging_enabled: bool,
    pub block_replication_enabled: bool,
    pub block_replication_concurrency_limit: usize,
    pub ttl_checker_retry_attempts: u32,
    pub ttl_checker_interval: String,
    pub ttl_bucket_interval: String,
}

#[derive(Debug, Clone)]
pub struct JournalConf {
    pub enable: bool,
    pub group_name: String,
    pub hostname: String,
    pub rpc_port: u16,
    pub io_threads: usize,
    pub worker_threads: usize,
    pub message_size: usize,
    pub journal_addrs: Option<Vec<RaftPeer>>,
    pub journal_dir: String,
    pub writer_debug: bool,
    pub writer_channel_size: usize,
    pub writer_flush_batch_size: u64,
    pub writer_flush_batch_ms: u64,
    pub snapshot_interval: String,
    pub snapshot_entries: u64,
    pub snapshot_read_chunk_size: usize,
    pub conn_retry_max_duration_ms: u64,
    pub conn_retry_min_sleep_ms: u64,
    pub conn_retry_max_sleep_ms: u64,
    pub rpc_close_idle: bool,
    pub rpc_retry_max_duration_ms: u64,
    pub rpc_retry_min_sleep_ms: u64,
    pub rpc_retry_max_sleep_ms: u64,
    pub conn_timeout_ms: u64,
    pub io_timeout_ms: u64,
    pub conn_size: usize,
    pub raft_poll_interval_ms: u64,
    pub raft_tick_interval_ms: u64,
    pub raft_election_tick: usize,
    pub raft_heartbeat_tick: usize,
    pub raft_min_election_ticks: usize,
    pub raft_max_election_ticks: usize,
    pub raft_check_quorum: bool,
    pub raft_max_size_per_msg: u64,
    pub raft_max_inflight_msgs: usize,
    pub raft_max_committed_size_per_ready: u64,
    pub raft_retry_cache_size: u64,
    pub raft_retry_cache_ttl: String,
}

#[derive(Debug, Clone)]
pub struct WorkerConf {
    pub hostname: String,
    pub rpc_port: u16,
    pub web_port: u16,
    pub io_threads: usize,
    pub worker_threads: usize,
    pub io_timeout: String,
    pub io_close_idle: bool,
    pub data_dir: Vec<String>,
    pub tier_alias: Vec<(String, Vec<i32>)>,
    pub enable_tiered_store: bool,
    pub tiered_store_levels: Vec<String>,
    pub evict_batch_size: usize,
    pub evictor_enabled: bool,
    pub max_concurrent_read_rpcs: usize,
    pub max_concurrent_write_rpcs: usize,
    pub heartbeat_interval: String,
    pub filesystem_check_interval: String,
    pub block_remover_interval: String,
}

#[derive(Debug, Clone)]
pub struct ClientConf {
    pub hostname: String,
    pub master_addrs: Option<Vec<InetAddr>>,
    pub block_size: i64,
    pub block_size_str: String,
    pub write_type: String,
    pub read_type: String,
    pub io_retry_max_duration_ms: u64,
    pub io_retry_min_sleep_ms: u64,
    pub io_retry_max_sleep_ms: u64,
    pub worker_io_timeout_ms: u64,
    pub master_io_timeout_ms: u64,
    pub conn_size: usize,
    pub kubernetes: Option<KubernetesConf>,
}

#[derive(Debug, Clone)]
pub struct KubernetesConf {
    pub namespace: String,
    pub cluster_id: Option<String>,
    pub master: KubernetesMasterConf,
    pub worker: KubernetesWorkerConf,
    pub service: KubernetesServiceConf,
    pub storage: Option<KubernetesStorageConf>,
    pub image_pull_policy: String,
    pub image_pull_secrets: Vec<String>,
}

#[derive(Debug, Clone)]
pub struct KubernetesMasterConf {
    pub replicas: u32,
    pub image: String,
    pub pod_template: Option<String>,
    pub node_selector: Option<Vec<(String, String)>>,
    pub graceful_shutdown: bool,
}

#[derive(Debug, Clone)]
pub struct KubernetesWorkerConf {
    pub replicas: u32,
    pub image: String,
    pub pod_template: Option<String>,
    pub node_selector: Option<Vec<(String, String)>>,
    pub storage_class: Option<String>,
    pub graceful_shutdown: bool,
    pub host_network: bool,
    pub init_container: bool,
}

#[derive(Debug, Clone)]
pub struct KubernetesServiceConf {
    pub service_type: String,
    pub annotations: Vec<(String, String)>,
    pub session_affinity: Option<String>,
    pub external_ips: Vec<String>,
}

#[derive(Debug, Clone)]
pub struct KubernetesStorageConf {
    pub storage_class: String,
    pub master_storage_class: Option<String>,
    pub worker_storage_class: Option<String>,
    pub master_size: Option<String>,
    pub worker_size: Option<String>,
}

#[derive(Debug, Clone)]
pub struct FuseConf {
    pub mount_path: String,
    pub max_idle_threads: usize,
}

#[derive(Debug, Clone)]
pub struct JobConf {
    pub enabled: bool,
    pub temp_folder: String,
    pub batch_size: usize,
}

#[derive(Debug, Clone)]
pub struct S3GatewayConf {
    pub hostname: String,
    pub port: u16,
    pub enabled: bool,
}

impl Default for MasterConf {
    fn default() -> (r: Self)
        ensures
            r.hostname@ == "localhost"@,
            r.rpc_port == 8995,
            r.web_port == 9000,
            r.io_threads == 4,
            r.worker_threads == 4,
            r.io_timeout@ == "10m"@,
            r.io_close_idle,
            r.meta_dir@ == "/tmp/curvine/master/meta"@,
            r.meta_disable_wal,
            r.meta_compression_type@ == "none"@,
            r.meta_db_write_buffer_size@ == "0"@,
            r.meta_write_buffer_size@ == "64MB"@,
            r.min_block_size == 1048576,
            r.max_block_size == 107374182400i64,
            r.min_replication == 1,
            r.max_replication == 100,
            r.max_path_len == 8000,
            r.max_path_depth == 1000,
            r.retry_cache_enable,
            r.retry_cache_size == 100000,
            r.retry_cache_ttl@ == "10m"@,
            r.block_report_limit == 1000,
            r.worker_policy@ == "local"@,
            r.executor_threads == 10,
            r.executor_channel_size == 1000,
            r.heartbeat_interval@ == "3s"@,
            r.worker_check_interval@ == "10s"@,
            r.worker_blacklist_interval@ == "30s"@,
            r.worker_lost_interval@ == "10m"@,
            r.audit_logging_enabled,
            !r.block_replication_enabled,
            r.block_replication_concurrency_limit == 1000,
            r.ttl_checker_retry_attempts == 3,
            r.ttl_checker_interval@ == "1h"@,
            r.ttl_bucket_interval@ == "1h"@,
    {
        Self {
            hostname: "localhost".to_owned(),
            rpc_port: 8995,
            web_port: 9000,
            io_threads: 4,
            worker_threads: 4,
            io_timeout: "10m".to_owned(),
            io_close_idle: true,
            meta_dir: "/tmp/curvine/master/meta".to_owned(),
            meta_disable_wal: true,
            meta_compression_type: "none".to_owned(),
            meta_db_write_buffer_size: "0".to_owned(),
            meta_write_buffer_size: "64MB".to_owned(),
            min_block_size: 1048576,
            max_block_size: 107374182400i64,
            min_replication: 1,
            max_replication: 100,
            max_path_len: 8000,
            max_path_depth: 1000,
            retry_cache_enable: true,
            retry_cache_size: 100000,
            retry_cache_ttl: "10m".to_owned(),
            block_report_limit: 1000,
            worker_policy: "local".to_owned(),
            executor_threads: 10,
            executor_channel_size: 1000,
            heartbeat_interval: "3s".to_owned(),
            worker_check_interval: "10s".to_owned(),
            worker_blacklist_interval: "30s".to_owned(),
            worker_lost_interval: "10m".to_owned(),
            audit_logging_enabled: true,
            block_replication_enabled: false,
            block_replication_concurrency_limit: 1000,
            ttl_checker_retry_attempts: 3,
            ttl_checker_interval: "1h".to_owned(),
            ttl_bucket_interval: "1h".to_owned(),
        }
    }
}

impl Default for JournalConf {
    fn default() -> (r: Self)
        ensures
            r.enable,
            r.group_name@ == "raft-group"@,
            r.hostname@ == "localhost"@,
            r.rpc_port == 8996,
            r.io_threads == 8,
            r.worker_threads == 8,
            r.message_size == 200,
            r.journal_addrs is None,
            r.journal_dir@ == "/tmp/curvine/master/journal"@,
            !r.writer_debug,
            r.writer_channel_size == 0,
            r.writer_flush_batch_size == 1000,
            r.writer_flush_batch_ms == 100,
            r.snapshot_interval@ == "6h"@,
            r.snapshot_entries == 100000,
            r.snapshot_read_chunk_size == 1048576,
            r.conn_retry_max_duration_ms == 0,
            r.conn_retry_min_sleep_ms == 10000,
            r.conn_retry_max_sleep_ms == 10000,
            !r.rpc_close_idle,
            r.rpc_retry_max_duration_ms == 60000,
            r.rpc_retry_min_sleep_ms == 20000,
            r.rpc_retry_max_sleep_ms == 20000,
            r.conn_timeout_ms == 30000,
            r.io_timeout_ms == 60000,
            r.conn_size == 1,
            r.raft_poll_interval_ms == 100,
            r.raft_tick_interval_ms == 1000,
            r.raft_election_tick == 10,
            r.raft_heartbeat_tick == 3,
            r.raft_min_election_ticks == 10,
            r.raft_max_election_ticks == 30,
            r.raft_check_quorum,
            r.raft_max_size_per_msg == 1048576,
            r.raft_max_inflight_msgs == 256,
            r.raft_max_committed_size_per_ready == 16777216,
            r.raft_retry_cache_size == 100000,
            r.raft_retry_cache_ttl@ == "10m"@,
    {
        Self {
            enable: true,
            group_name: "raft-group".to_owned(),
            hostname: "localhost".to_owned(),
            rpc_port: 8996,
            io_threads: 8,
            worker_threads: 8,
            message_size: 200,
            journal_addrs: None,
            journal_dir: "/tmp/curvine/master/journal".to_owned(),
            writer_debug: false,
            writer_channel_size: 0,
            writer_flush_batch_size: 1000,
            writer_flush_batch_ms: 100,
            snapshot_interval: "6h".to_owned(),
            snapshot_entries: 100000,
            snapshot_read_chunk_size: 1048576,
            conn_retry_max_duration_ms: 0,
            conn_retry_min_sleep_ms: 10000,
            conn_retry_max_sleep_ms: 10000,
            rpc_close_idle: false,
            rpc_retry_max_duration_ms: 60000,
            rpc_retry_min_sleep_ms: 20000,
            rpc_retry_max_sleep_ms: 20000,
            conn_timeout_ms: 30000,
            io_timeout_ms: 60000,
            conn_size: 1,
            raft_poll_interval_ms: 100,
            raft_tick_interval_ms: 1000,
            raft_election_tick: 10,
            raft_heartbeat_tick: 3,
            raft_min_election_ticks: 10,
            raft_max_election_ticks: 30,
            raft_check_quorum: true,
            raft_max_size_per_msg: 1048576,
            raft_max_inflight_msgs: 256,
            raft_max_committed_size_per_ready: 16777216,
            raft_retry_cache_size: 100000,
            raft_retry_cache_ttl: "10m".to_owned(),
        }
    }
}

impl Default for WorkerConf {
    fn default() -> (r: Self)
        ensures
            r.hostname@ == "localhost"@,
            r.rpc_port == 8997,
            r.web_port == 9001,
            r.io_threads == 4,
            r.worker_threads == 4,
            r.io_timeout@ == "10m"@,
            !r.io_close_idle,
            r.data_dir@ == Seq::<String>::empty(),
            r.tier_alias@ == Seq::<(String, Vec<i32>)>::empty(),
            !r.enable_tiered_store,
            r.tiered_store_levels@ == Seq::<String>::empty(),
            r.evict_batch_size == 1000,
            !r.evictor_enabled,
            r.max_concurrent_read_rpcs == 100,
            r.max_concurrent_write_rpcs == 100,
            r.heartbeat_interval@ == "1s"@,
            r.filesystem_check_interval@ == "1m"@,
            r.block_remover_interval@ == "1h"@,
    {
        Self {
            hostname: "localhost".to_owned(),
            rpc_port: 8997,
            web_port: 9001,
            io_threads: 4,
            worker_threads: 4,
            io_timeout: "10m".to_owned(),
            io_close_idle: false,
            data_dir: Vec::new(),
            tier_alias: Vec::new(),
            enable_tiered_store: false,
            tiered_store_levels: Vec::new(),
            evict_batch_size: 1000,
            evictor_enabled: false,
            max_concurrent_read_rpcs: 100,
            max_concurrent_write_rpcs: 100,
            heartbeat_interval: "1s".to_owned(),
            filesystem_check_interval: "1m".to_owned(),
            block_remover_interval: "1h".to_owned(),
        }
    }
}

impl Default for ClientConf {
    fn default() -> (r: Self)
        ensures
            r.hostname@ == "localhost"@,
            r.master_addrs is None,
            r.block_size == 0,
            r.block_size_str@ == "128MB"@,
            r.write_type@ == "cache_through"@,
            r.read_type@ == "cache"@,
            r.io_retry_max_duration_ms == 30000,
            r.io_retry_min_sleep_ms == 100,
            r.io_retry_max_sleep_ms == 5000,
            r.worker_io_timeout_ms == 60000,
            r.master_io_timeout_ms == 60000,
            r.conn_size == 1,
            r.kubernetes is None,
    {
        Self {
            hostname: "localhost".to_owned(),
            master_addrs: None,
            block_size: 0,
            block_size_str: "128MB".to_owned(),
            write_type: "cache_through".to_owned(),
            read_type: "cache".to_owned(),
            io_retry_max_duration_ms: 30000,
            io_retry_min_sleep_ms: 100,
            io_retry_max_sleep_ms: 5000,
            worker_io_timeout_ms: 60000,
            master_io_timeout_ms: 60000,
            conn_size: 1,
            kubernetes: None,
        }
    }
}

impl Default for KubernetesConf {
    fn default() -> (r: Self)
        ensures
            r.namespace@ == "default"@,
            r.cluster_id is None,
            r.storage is None,
            r.image_pull_policy@ == "IfNotPresent"@,
            r.image_pull_secrets@ == Seq::<String>::empty(),
    {
        Self {
            namespace: "default".to_owned(),
            cluster_id: None,
            master: KubernetesMasterConf::default(),
            worker: KubernetesWorkerConf::default(),
            service: KubernetesServiceConf::default(),
            storage: None,
            image_pull_policy: "IfNotPresent".to_owned(),
            image_pull_secrets: Vec::new(),
        }
    }
}

impl Default for KubernetesMasterConf {
    fn default() -> (r: Self)
        ensures
            r.replicas == 3,
            r.image@ == "docker.io/curvine:latest"@,
            r.pod_template is None,
            r.node_selector is None,
            r.graceful_shutdown,
    {
        Self {
            replicas: 3,
            image: "docker.io/curvine:latest".to_owned(),
            pod_template: None,
            node_selector: None,
            graceful_shutdown: true,
        }
    }
}

impl Default for KubernetesWorkerConf {
    fn default() -> (r: Self)
        ensures
            r.replicas == 3,
            r.image@ == "docker.io/curvine:latest"@,
            r.pod_template is None,
            r.node_selector is None,
            r.storage_class is None,
            r.graceful_shutdown,
            !r.host_network,
            !r.init_container,
    {
        Self {
            replicas: 3,
            image: "docker.io/curvine:latest".to_owned(),
            pod_template: None,
            node_selector: None,
            storage_class: None,
            graceful_shutdown: true,
            host_network: false,
            init_container: false,
        }
    }
}

impl Default for KubernetesServiceConf {
    fn default() -> (r: Self)
        ensures
            r.service_type@ == "ClusterIP"@,
            r.annotations@ == Seq::<(String, String)>::empty(),
            r.session_affinity is None,
            r.external_ips@ == Seq::<String>::empty(),
    {
        Self {
            service_type: "ClusterIP".to_owned(),
            annotations: Vec::new(),
            session_affinity: None,
            external_ips: Vec::new(),
        }
    }
}

impl Default for KubernetesStorageConf {
    fn default() -> (r: Self)
        ensures
            r.storage_class@ == ""@,
            r.master_storage_class is None,
            r.worker_storage_class is None,
            r.master_size is None,
            r.worker_size is None,
    {
        Self {
            storage_class: "".to_owned(),
            master_storage_class: None,
            worker_storage_class: None,
            master_size: None,
            worker_size: None,
        }
    }
}

impl Default for FuseConf {
    fn default() -> (r: Self)
        ensures
            r.mount_path@ == "/mnt/curvine"@,
            r.max_idle_threads == 10,
    {
        Self { mount_path: "/mnt/curvine".to_owned(), max_idle_threads: 10 }
    }
}

impl Default for JobConf {
    fn default() -> (r: Self)
        ensures
            !r.enabled,
            r.temp_folder@ == "/tmp/curvine/job"@,
            r.batch_size == 1000,
    {
        Self { enabled: false, temp_folder: "/tmp/curvine/job".to_owned(), batch_size: 1000 }
    }
}

impl Default for S3GatewayConf {
    fn default() -> (r: Self)
        ensures
            r.hostname@ == "localhost"@,
            r.port == 9002,
            !r.enabled,
    {
        Self { hostname: "localhost".to_owned(), port: 9002, enabled: false }
    }
}

impl Default for ClusterConf {
    fn default() -> (r: Self)
        ensures
            !r.format_master,
            !r.format_worker,
            !r.testing,
            r.cluster_id@ == "curvine"@,
    {
        Self {
            format_master: false,
            format_worker: false,
            testing: false,
            cluster_id: "curvine".to_owned(),
            master: MasterConf::default(),
            journal: JournalConf::default(),
            worker: WorkerConf::default(),
            client: ClientConf::default(),
            fuse: FuseConf::default(),
            s3_gateway: S3GatewayConf::default(),
            job: JobConf::default(),
        }
    }
}

impl ClientConf {
    /// An explicitly supplied master address list may not be empty;
    /// an absent list is generated later and passes.
    pub fn init(&mut self) -> (r: Result<(), KubeError>)
        ensures
            r is Ok <==> !(old(self).master_addrs matches Some(a) && a@.len() == 0),
            r matches Err(e) ==> (e matches KubeError::ConfigError(m) && m@
                == "client.master_addrs cannot be empty when provided"@),
            *final(self) == *old(self),
    {
        match &self.master_addrs {
            Some(addrs) => {
                if addrs.len() == 0 {
                    Err(
                        KubeError::ConfigError(
                            "client.master_addrs cannot be empty when provided".to_owned(),
                        ),
                    )
                } else {
                    Ok(())
                }
            },
            None => Ok(()),
        }
    }
}

impl FuseConf {
    pub fn init(&mut self) -> (r: Result<(), KubeError>)
        ensures
            r is Ok,
            *final(self) == *old(self),
    {
        Ok(())
    }
}

impl JobConf {
    pub fn init(&mut self) -> (r: Result<(), KubeError>)
        ensures
            r is Ok,
            *final(self) == *old(self),
    {
        Ok(())
    }
}

/// The multiplier a size suffix stands for; text without a recognized
/// suffix counts plain bytes.
pub open spec fn spec_size_unit(t: Seq<char>) -> nat {
    if t.len() >= 2 && spec_eq_ci_seq(t.subrange(t.len() - 2, t.len() as int), "tb"@) {
        0x10000000000
    } else if t.len() >= 2 && spec_eq_ci_seq(t.subrange(t.len() - 2, t.len() as int), "gb"@) {
        0x40000000
    } else if t.len() >= 2 && spec_eq_ci_seq(t.subrange(t.len() - 2, t.len() as int), "mb"@) {
        0x100000
    } else if t.len() >= 2 && spec_eq_ci_seq(t.subrange(t.len() - 2, t.len() as int), "kb"@) {
        0x400
    } else {
        1
    }
}

/// The digit portion of a trimmed size string: what stands before the
/// recognized suffix, or the whole text.
pub open spec fn spec_size_num_part(t: Seq<char>) -> Seq<char> {
    if t.len() >= 2 && spec_eq_ci_seq(t.subrange(t.len() - 2, t.len() as int), "tb"@) {
        t.subrange(0, t.len() - 2)
    } else if t.len() >= 2 && spec_eq_ci_seq(t.subrange(t.len() - 2, t.len() as int), "gb"@) {
        t.subrange(0, t.len() - 2)
    } else if t.len() >= 2 && spec_eq_ci_seq(t.subrange(t.len() - 2, t.len() as int), "mb"@) {
        t.subrange(0, t.len() - 2)
    } else if t.len() >= 2 && spec_eq_ci_seq(t.subrange(t.len() - 2, t.len() as int), "kb"@) {
        t.subrange(0, t.len() - 2)
    } else if t.len() >= 1 && spec_eq_ci(t[t.len() - 1], 'b') {
        t.subrange(0, t.len() - 1)
    } else {
        t
    }
}

/// The value of a size string such as `100GB` or `64MB`: its digits
/// times its suffix's multiplier, when the digits parse and the product
/// fits an unsigned 64-bit value.
pub open spec fn spec_parse_size(s: Seq<char>) -> Option<nat> {
    let t = spec_trim(s);
    let d = spec_trim(spec_size_num_part(t));
    if spec_all_digits(d) && spec_digits_val(d) * spec_size_unit(t) <= u64::MAX {
        Some(spec_digits_val(d) * spec_size_unit(t))
    } else {
        None
    }
}

/// A configured directory as it stands inside a pod: an absolute path
/// unchanged, a relative one placed under the application home.
pub open spec fn spec_resolve_path(p: Seq<char>) -> Seq<char> {
    if crate::text::spec_is_absolute(p) {
        p
    } else {
        "/app/curvine/"@ + p
    }
}

pub fn resolve_app_path(p: &str) -> (r: String)
    ensures
        r@ == spec_resolve_path(p@),
{
    if crate::text::is_absolute_path(p) {
        p.to_owned()
    } else {
        let mut s = "/app/curvine/".to_owned();
        s.append(p);
        s
    }
}

pub open spec fn spec_is_alpha(c: char) -> bool {
    ('a' <= c && c <= 'z') || ('A' <= c && c <= 'Z')
}

pub open spec fn spec_is_word_char(c: char) -> bool {
    spec_is_alpha(c) || ('0' <= c && c <= '9') || c == '_'
}

pub open spec fn spec_all_alpha(s: Seq<char>) -> bool {
    forall|j: int| 0 <= j < s.len() ==> spec_is_alpha(s[j])
}

/// The index of the first `c` at or after `i`, or -1 when there is none.
pub open spec fn spec_find_char(s: Seq<char>, c: char, i: int) -> int
    decreases s.len() - i,
    when 0 <= i <= s.len()
{
    if i >= s.len() {
        -1
    } else if s[i] == c {
        i
    } else {
        spec_find_char(s, c, i + 1)
    }
}

pub open spec fn spec_count_char(s: Seq<char>, c: char) -> nat
    decreases s.len(),
{
    if s.len() == 0 {
        0
    } else {
        spec_count_char(s.drop_last(), c) + (if s.last() == c {
            1nat
        } else {
            0nat
        })
    }
}

/// Where the bracketed prefix of a data directory string closes: the
/// first `]` after the opening bracket.
pub open spec fn spec_dd_close(s: Seq<char>) -> int {
    spec_find_char(s, ']', 1)
}

/// True when the string carries a usable bracketed prefix: it opens with
/// `[`, a non-empty run of word characters and colons follows, a `]`
/// closes it, and a non-empty path remains.  A string without one — an
/// empty prefix included — stands for a plain path on the generic disk
/// tier.
pub open spec fn spec_dd_matched(s: Seq<char>) -> bool {
    &&& s.len() > 0
    &&& s[0] == '['
    &&& spec_dd_close(s) > 1
    &&& forall|j: int|
        1 <= j < spec_dd_close(s) ==> spec_is_word_char(#[trigger] s[j]) || s[j] == ':'
    &&& spec_dd_close(s) + 1 < s.len()
}


/// The bracketed prefix, for a matched entry.
pub open spec fn spec_dd_prefix(s: Seq<char>) -> Seq<char> {
    s.subrange(1, spec_dd_close(s))
}

/// The storage tier an entry names: the tag of its prefix, or the
/// generic disk tier when the prefix is absent or carries only a
/// capacity.
pub open spec fn spec_dd_tier(s: Seq<char>) -> StorageType {
    if !spec_dd_matched(s) {
        StorageType::Disk
    } else {
        let p = spec_dd_prefix(s);
        if spec_count_char(p, ':') == 0 {
            if spec_all_alpha(p) {
                spec_storage_type_from_name(p)
            } else {
                StorageType::Disk
            }
        } else {
            spec_storage_type_from_name(p.subrange(0, spec_find_char(p, ':', 0)))
        }
    }
}

/// The capacity text inside the prefix, when one stands there.
pub open spec fn spec_dd_cap_part(s: Seq<char>) -> Option<Seq<char>> {
    if !spec_dd_matched(s) {
        None
    } else {
        let p = spec_dd_prefix(s);
        if spec_count_char(p, ':') == 0 {
            if spec_all_alpha(p) {
                None
            } else {
                Some(p)
            }
        } else {
            Some(p.subrange(spec_find_char(p, ':', 0) + 1, p.len() as int))
        }
    }
}

/// The capacity in bytes; zero means unbounded.
pub open spec fn spec_dd_capacity(s: Seq<char>) -> nat {
    match spec_dd_cap_part(s) {
        None => 0,
        Some(c) => match spec_parse_size(c) {
            Some(v) => v,
            None => 0,
        },
    }
}

/// The filesystem path of the entry: what follows the prefix, or the
/// whole text when no prefix matched.
pub open spec fn spec_dd_path(s: Seq<char>) -> Seq<char> {
    if spec_dd_matched(s) {
        s.subrange(spec_dd_close(s) + 1, s.len() as int)
    } else {
        s
    }
}

/// Whether the entry parses: at most one colon in the prefix, and a
/// capacity text that is a well-formed size.
pub open spec fn spec_dd_ok(s: Seq<char>) -> bool {
    !spec_dd_matched(s) || (spec_count_char(spec_dd_prefix(s), ':') <= 1 && (
    match spec_dd_cap_part(s) {
        None => true,
        Some(c) => spec_parse_size(c) is Some,
    }))
}

/// The message a malformed entry produces.
pub open spec fn spec_dd_err_msg(s: Seq<char>) -> Seq<char> {
    if spec_count_char(spec_dd_prefix(s), ':') >= 2 {
        "Incorrect data format "@ + s
    } else {
        "Invalid size string: "@ + (match spec_dd_cap_part(s) {
            Some(c) => c,
            None => Seq::empty(),
        })
    }
}

impl WorkerDataDir {
    /// Parses one worker data directory entry of the form
    /// `[TIER:CAPACITY]path`.  The prefix is optional; a purely
    /// alphabetic prefix is a tier with no capacity bound; a prefix
    /// without a tier tag is a capacity on the generic disk tier; more
    /// than one colon is an error, as is an unparsable capacity.
    #[verifier::rlimit(50)]
    pub fn parse_data_dir(s: &str) -> (r: Result<WorkerDataDir, KubeError>)
        ensures
            r is Ok <==> spec_dd_ok(s@),
            r matches Ok(d) ==> d.storage_type == spec_dd_tier(s@) && d.capacity
                == spec_dd_capacity(s@) && d.path@ == spec_dd_path(s@),
            r matches Err(e) ==> (e matches KubeError::ConfigError(m) && m@ == spec_dd_err_msg(
                s@,
            )),
    {
        let len = s.unicode_len();
        if len == 0 || s.get_char(0) != '[' {
            return Ok(
                WorkerDataDir {
                    storage_type: StorageType::Disk,
                    capacity: 0,
                    path: s.to_owned(),
                },
            );
        }
        let mut close: usize = 1;
        while close < len && s.get_char(close) != ']'
            invariant
                len == s@.len(),
                1 <= close <= len,
                spec_find_char(s@, ']', 1) == spec_find_char(s@, ']', close as int),
            decreases len - close,
        {
            close += 1;
        }
        if close >= len || close == 1 || close + 1 >= len {
            // no closing bracket, an empty prefix, or an empty path
            assert(!spec_dd_matched(s@));
            return Ok(
                WorkerDataDir {
                    storage_type: StorageType::Disk,
                    capacity: 0,
                    path: s.to_owned(),
                },
            );
        }
        assert(spec_dd_close(s@) == close);
        let mut j: usize = 1;
        while j < close
            invariant
                len == s@.len(),
                1 <= j <= close < len,
                spec_dd_close(s@) == close,
                forall|i: int| 1 <= i < j ==> spec_is_word_char(#[trigger] s@[i]) || s@[i] == ':',
        decreases close - j,
        {
            let c = s.get_char(j);
            let word = ('a' <= c && c <= 'z') || ('A' <= c && c <= 'Z') || ('0' <= c && c <= '9')
                || c == '_' || c == ':';
            if !word {
                assert(!spec_dd_matched(s@));
                return Ok(
                    WorkerDataDir {
                        storage_type: StorageType::Disk,
                        capacity: 0,
                        path: s.to_owned(),
                    },
                );
            }
            j += 1;
        }
        assert(spec_dd_matched(s@));
        let prefix = s.substring_char(1, close).to_owned();
        let path = s.substring_char(close + 1, len).to_owned();
        let ghost p = s@.subrange(1, close as int);
        assert(prefix@ == p);
        let plen = prefix.as_str().unicode_len();
        // count the colons of the prefix and note the first
        let mut ncolon: usize = 0;
        let mut first_colon: usize = 0;
        let mut have_colon = false;
        let mut i: usize = 0;
        while i < plen
            invariant
                plen == p.len(),
                prefix@ == p,
                i <= plen,
                ncolon <= i,
                ncolon == spec_count_char(p.take(i as int), ':'),
                have_colon <==> ncolon > 0,
                have_colon ==> first_colon < i && p[first_colon as int] == ':' && spec_find_char(
                    p,
                    ':',
                    0,
                ) == first_colon,
                !have_colon ==> spec_find_char(p, ':', 0) == spec_find_char(p, ':', i as int),
            decreases plen - i,
        {
            let c = prefix.as_str().get_char(i);
            proof {
                assert(p.take(i + 1).drop_last() =~= p.take(i as int));
            }
            if c == ':' {
                if !have_colon {
                    first_colon = i;
                    have_colon = true;
                }
                ncolon += 1;
            }
            i += 1;
        }
        proof {
            assert(p.take(plen as int) =~= p);
        }
        if ncolon == 0 {
            let mut all_alpha = true;
            let mut a: usize = 0;
            while a < plen
                invariant
                    plen == p.len(),
                    prefix@ == p,
                    a <= plen,
                    all_alpha == (forall|i: int| 0 <= i < a ==> spec_is_alpha(p[i])),
                decreases plen - a,
            {
                let c = prefix.as_str().get_char(a);
                let al = ('a' <= c && c <= 'z') || ('A' <= c && c <= 'Z');
                if !al {
                    all_alpha = false;
                }
                a += 1;
            }
            if all_alpha {
                Ok(
                    WorkerDataDir {
                        storage_type: StorageType::from_str_name(prefix.as_str()),
                        capacity: 0,
                        path,
                    },
                )
            } else {
                match parse_size_string(prefix.as_str()) {
                    Ok(capacity) => Ok(
                        WorkerDataDir { storage_type: StorageType::Disk, capacity, path },
                    ),
                    Err(e) => Err(e),
                }
            }
        } else if ncolon == 1 {
            let tier = prefix.as_str().substring_char(0, first_colon);
            let cap = prefix.as_str().substring_char(first_colon + 1, plen);
            match parse_size_string(cap) {
                Ok(capacity) => Ok(
                    WorkerDataDir { storage_type: StorageType::from_str_name(tier), capacity, path },
                ),
                Err(e) => Err(e),
            }
        } else {
            let mut m = "Incorrect data format ".to_owned();
            m.append(s);
            Err(KubeError::ConfigError(m))
        }
    }
}

pub fn parse_size_string(s: &str) -> (r: Result<u64, KubeError>)
    ensures
        match r {
            Ok(v) => spec_parse_size(s@) == Some(v as nat),
            Err(e) => spec_parse_size(s@) is None && (e matches KubeError::ConfigError(m)
                && m@ == "Invalid size string: "@ + s@),
        },
{
    let t = trim_str(s);
    let tlen = t.as_str().unicode_len();
    proof {
        reveal_strlit("tb");
        reveal_strlit("gb");
        reveal_strlit("mb");
        reveal_strlit("kb");
        assert("tb"@ =~= seq!['t', 'b']);
        assert("gb"@ =~= seq!['g', 'b']);
        assert("mb"@ =~= seq!['m', 'b']);
        assert("kb"@ =~= seq!['k', 'b']);
        if tlen >= 2 {
            assert(t@.subrange(tlen - 2, tlen as int) =~= seq![t@[tlen - 2], t@[tlen - 1]]);
        }
    }
    let (num_part, unit): (String, u64) = if tlen >= 2 && char_eq_ci(
        t.as_str().get_char(tlen - 2),
        't',
    ) && char_eq_ci(t.as_str().get_char(tlen - 1), 'b') {
        proof {
            assert(t@.subrange(tlen - 2, tlen as int) =~= seq![t@[tlen - 2], t@[tlen - 1]]);
        }
        (t.as_str().substring_char(0, tlen - 2).to_owned(), 0x10000000000)
    } else if tlen >= 2 && char_eq_ci(t.as_str().get_char(tlen - 2), 'g') && char_eq_ci(
        t.as_str().get_char(tlen - 1),
        'b',
    ) {
        proof {
            assert(t@.subrange(tlen - 2, tlen as int) =~= seq![t@[tlen - 2], t@[tlen - 1]]);
        }
        (t.as_str().substring_char(0, tlen - 2).to_owned(), 0x40000000)
    } else if tlen >= 2 && char_eq_ci(t.as_str().get_char(tlen - 2), 'm') && char_eq_ci(
        t.as_str().get_char(tlen - 1),
        'b',
    ) {
        proof {
            assert(t@.subrange(tlen - 2, tlen as int) =~= seq![t@[tlen - 2], t@[tlen - 1]]);
        }
        (t.as_str().substring_char(0, tlen - 2).to_owned(), 0x100000)
    } else if tlen >= 2 && char_eq_ci(t.as_str().get_char(tlen - 2), 'k') && char_eq_ci(
        t.as_str().get_char(tlen - 1),
        'b',
    ) {
        proof {
            assert(t@.subrange(tlen - 2, tlen as int) =~= seq![t@[tlen - 2], t@[tlen - 1]]);
        }
        (t.as_str().substring_char(0, tlen - 2).to_owned(), 0x400)
    } else if tlen >= 1 && char_eq_ci(t.as_str().get_char(tlen - 1), 'b') {
        proof {
            if tlen >= 2 {
                assert(t@.subrange(tlen - 2, tlen as int) =~= seq![t@[tlen - 2], t@[tlen - 1]]);
            }
        }
        (t.as_str().substring_char(0, tlen - 1).to_owned(), 1)
    } else {
        proof {
            if tlen >= 2 {
                assert(t@.subrange(tlen - 2, tlen as int) =~= seq![t@[tlen - 2], t@[tlen - 1]]);
            }
        }
        (t.as_str().substring_char(0, tlen).to_owned(), 1)
    };
    proof {
        assert(num_part@ == spec_size_num_part(t@));
        assert(unit == spec_size_unit(t@));
        if tlen == 0 {
            assert(t@.subrange(0, 0) =~= t@);
        } else {
            assert(t@.subrange(0, tlen as int) =~= t@);
        }
    }
    let digits = trim_str(num_part.as_str());
    let fail_msg = || -> (m: String)
        ensures
            m@ == "Invalid size string: ".view() + s@,
        {
            let mut m = "Invalid size string: ".to_owned();
            m.append(s);
            m
        };
    match parse_u64_digits(digits.as_str()) {
        Some(v) => {
            match v.checked_mul(unit) {
                Some(total) => Ok(total),
                None => Err(KubeError::ConfigError(fail_msg())),
            }
        },
        None => {
            proof {
                if spec_all_digits(digits@) {
                    assert(spec_digits_val(digits@) > u64::MAX);
                    assert(spec_size_unit(t@) >= 1);
                    assert(spec_digits_val(digits@) * spec_size_unit(t@) >= spec_digits_val(
                        digits@,
                    ) * 1) by (nonlinear_arith);
                }
            }
            Err(KubeError::ConfigError(fail_msg()))
        },
    }
}

} // verus!
