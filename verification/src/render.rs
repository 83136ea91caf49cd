//! Renders the cluster-side configuration document: the declarative
//! configuration as one embedded text blob, with the master replica
//! count injected as generated master addresses and Raft journal
//! peers, and with relative metadata and journal paths placed under
//! the application home.  The platform-deployment section of the
//! source document is consumed by the resolver and is not part of the
//! pod-side blob.

use vstd::prelude::*;

use crate::conf::{
    spec_resolve_path, ClusterConf, ClientConf, FuseConf, JobConf, JournalConf, MasterConf,
    S3GatewayConf, WorkerConf,
};
use crate::text::{
    fmt_i64, fmt_u16, fmt_u32, fmt_u64, fmt_usize, quoted_value, spec_dec, spec_dec_int,
    spec_quoted,
};

verus! {

/// One quoted-text line of the blob.
pub open spec fn spec_line_str(key: Seq<char>, v: Seq<char>) -> Seq<char> {
    key + " = "@ + spec_quoted(v) + "\n"@
}

/// One unsigned-number line.
pub open spec fn spec_line_u64(key: Seq<char>, n: nat) -> Seq<char> {
    key + " = "@ + spec_dec(n) + "\n"@
}

/// One signed-number line.
pub open spec fn spec_line_i64(key: Seq<char>, n: int) -> Seq<char> {
    key + " = "@ + spec_dec_int(n) + "\n"@
}

/// One boolean line.
pub open spec fn spec_line_bool(key: Seq<char>, b: bool) -> Seq<char> {
    key + " = "@ + (if b {
        "true"@
    } else {
        "false"@
    }) + "\n"@
}

/// A text-array line's items, comma-joined.
pub open spec fn spec_str_items(vs: Seq<String>) -> Seq<char>
    decreases vs.len(),
{
    if vs.len() == 0 {
        Seq::empty()
    } else if vs.len() == 1 {
        spec_quoted(vs[0]@)
    } else {
        spec_str_items(vs.drop_last()) + ", "@ + spec_quoted(vs.last()@)
    }
}

/// One text-array line.
pub open spec fn spec_line_str_array(key: Seq<char>, vs: Seq<String>) -> Seq<char> {
    key + " = ["@ + spec_str_items(vs) + "]\n"@
}

fn push_line_str(out: &mut String, key: &str, v: &str)
    ensures
        final (out)@ == old(out)@ + spec_line_str(key@, v@),
{
    out.append(key);
    out.append(" = ");
    out.append(quoted_value(v).as_str());
    out.append("\n");
}

fn push_line_u64(out: &mut String, key: &str, n: u64)
    ensures
        final (out)@ == old(out)@ + spec_line_u64(key@, n as nat),
{
    out.append(key);
    out.append(" = ");
    out.append(fmt_u64(n).as_str());
    out.append("\n");
}

fn push_line_u16(out: &mut String, key: &str, n: u16)
    ensures
        final (out)@ == old(out)@ + spec_line_u64(key@, n as nat),
{
    push_line_u64(out, key, n as u64);
}

fn push_line_u32(out: &mut String, key: &str, n: u32)
    ensures
        final (out)@ == old(out)@ + spec_line_u64(key@, n as nat),
{
    push_line_u64(out, key, n as u64);
}

fn push_line_usize(out: &mut String, key: &str, n: usize)
    ensures
        final (out)@ == old(out)@ + spec_line_u64(key@, n as nat),
{
    push_line_u64(out, key, n as u64);
}

fn push_line_i64(out: &mut String, key: &str, n: i64)
    ensures
        final (out)@ == old(out)@ + spec_line_i64(key@, n as int),
{
    out.append(key);
    out.append(" = ");
    out.append(fmt_i64(n).as_str());
    out.append("\n");
}

fn push_line_bool(out: &mut String, key: &str, b: bool)
    ensures
        final (out)@ == old(out)@ + spec_line_bool(key@, b),
{
    out.append(key);
    out.append(" = ");
    if b {
        out.append("true");
    } else {
        out.append("false");
    }
    out.append("\n");
}

fn push_line_str_array(out: &mut String, key: &str, vs: &Vec<String>)
    ensures
        final (out)@ == old(out)@ + spec_line_str_array(key@, vs@),
{
    out.append(key);
    out.append(" = [");
    let mut i: usize = 0;
    while i < vs.len()
        invariant
            i <= vs@.len(),
            out@ == old(out)@ + key@ + " = ["@ + spec_str_items(vs@.take(i as int)),
        decreases vs@.len() - i,
    {
        if i > 0 {
            out.append(", ");
        }
        out.append(quoted_value(vs[i].as_str()).as_str());
        proof {
            assert(vs@.take(i + 1).drop_last() =~= vs@.take(i as int));
            assert(vs@.take(i + 1).last() == vs@[i as int]);
            if i == 0 {
                assert(spec_str_items(vs@.take(1)) == spec_quoted(vs@[0]@));
                assert(out@ =~= old(out)@ + key@ + " = ["@ + spec_str_items(vs@.take(1)));
            } else {
                assert(out@ =~= old(out)@ + key@ + " = ["@ + spec_str_items(vs@.take(i + 1)));
            }
        }
        i += 1;
    }
    proof {
        assert(vs@.take(vs@.len() as int) =~= vs@);
    }
    out.append("]\n");
    proof {
        assert(out@ =~= old(out)@ + spec_line_str_array(key@, vs@));
    }
}


/// One signed-number-array line's items.
pub open spec fn spec_i32_items(vs: Seq<i32>) -> Seq<char>
    decreases vs.len(),
{
    if vs.len() == 0 {
        Seq::empty()
    } else if vs.len() == 1 {
        spec_dec_int(vs[0] as int)
    } else {
        spec_i32_items(vs.drop_last()) + ", "@ + spec_dec_int(vs.last() as int)
    }
}

pub open spec fn spec_line_i32_array(key: Seq<char>, vs: Seq<i32>) -> Seq<char> {
    key + " = ["@ + spec_i32_items(vs) + "]
"@
}

fn push_line_i32_array(out: &mut String, key: &str, vs: &Vec<i32>)
    ensures
        final (out)@ == old(out)@ + spec_line_i32_array(key@, vs@),
{
    out.append(key);
    out.append(" = [");
    let mut i: usize = 0;
    while i < vs.len()
        invariant
            i <= vs@.len(),
            out@ == old(out)@ + key@ + " = ["@ + spec_i32_items(vs@.take(i as int)),
        decreases vs@.len() - i,
    {
        if i > 0 {
            out.append(", ");
        }
        out.append(crate::text::fmt_i32(vs[i]).as_str());
        proof {
            assert(vs@.take(i + 1).drop_last() =~= vs@.take(i as int));
            assert(vs@.take(i + 1).last() == vs@[i as int]);
            if i == 0 {
                assert(spec_i32_items(vs@.take(1)) == spec_dec_int(vs@[0] as int));
                assert(out@ =~= old(out)@ + key@ + " = ["@ + spec_i32_items(vs@.take(1)));
            } else {
                assert(out@ =~= old(out)@ + key@ + " = ["@ + spec_i32_items(vs@.take(i + 1)));
            }
        }
        i += 1;
    }
    proof {
        assert(vs@.take(vs@.len() as int) =~= vs@);
    }
    out.append("]\n");
    proof {
        assert(out@ =~= old(out)@ + spec_line_i32_array(key@, vs@));
    }
}

/// The top-level scalars of the document.
pub open spec fn spec_top_section(pre: Seq<char>, c: &ClusterConf) -> Seq<char> {
    pre + spec_line_bool("format_master"@, c.format_master) + spec_line_bool(
        "format_worker"@,
        c.format_worker,
    ) + spec_line_bool("testing"@, c.testing) + spec_line_str("cluster_id"@, c.cluster_id@)
}

fn render_top(out: &mut String, c: &ClusterConf)
    ensures
        final (out)@ == spec_top_section(old(out)@, c),
{
    push_line_bool(out, "format_master", c.format_master);
    push_line_bool(out, "format_worker", c.format_worker);
    push_line_bool(out, "testing", c.testing);
    push_line_str(out, "cluster_id", c.cluster_id.as_str());
}

/// The master section; a relative metadata directory is placed under
/// the application home.
pub open spec fn spec_master_section(pre: Seq<char>, m: &MasterConf) -> Seq<char> {
    pre + "[master]\n"@ + spec_line_str("hostname"@, m.hostname@) + spec_line_u64(
        "rpc_port"@,
        m.rpc_port as nat,
    ) + spec_line_u64("web_port"@, m.web_port as nat) + spec_line_u64(
        "io_threads"@,
        m.io_threads as nat,
    ) + spec_line_u64("worker_threads"@, m.worker_threads as nat) + spec_line_str(
        "io_timeout"@,
        m.io_timeout@,
    ) + spec_line_bool("io_close_idle"@, m.io_close_idle) + spec_line_str(
        "meta_dir"@,
        spec_resolve_path(m.meta_dir@),
    ) + spec_line_bool("meta_disable_wal"@, m.meta_disable_wal) + spec_line_str(
        "meta_compression_type"@,
        m.meta_compression_type@,
    ) + spec_line_str("meta_db_write_buffer_size"@, m.meta_db_write_buffer_size@)
        + spec_line_str("meta_write_buffer_size"@, m.meta_write_buffer_size@) + spec_line_i64(
        "min_block_size"@,
        m.min_block_size as int,
    ) + spec_line_i64("max_block_size"@, m.max_block_size as int) + spec_line_u64(
        "min_replication"@,
        m.min_replication as nat,
    ) + spec_line_u64("max_replication"@, m.max_replication as nat) + spec_line_u64(
        "max_path_len"@,
        m.max_path_len as nat,
    ) + spec_line_u64("max_path_depth"@, m.max_path_depth as nat) + spec_line_bool(
        "retry_cache_enable"@,
        m.retry_cache_enable,
    ) + spec_line_u64("retry_cache_size"@, m.retry_cache_size as nat) + spec_line_str(
        "retry_cache_ttl"@,
        m.retry_cache_ttl@,
    ) + spec_line_u64("block_report_limit"@, m.block_report_limit as nat) + spec_line_str(
        "worker_policy"@,
        m.worker_policy@,
    ) + spec_line_u64("executor_threads"@, m.executor_threads as nat) + spec_line_u64(
        "executor_channel_size"@,
        m.executor_channel_size as nat,
    ) + spec_line_str("heartbeat_interval"@, m.heartbeat_interval@) + spec_line_str(
        "worker_check_interval"@,
        m.worker_check_interval@,
    ) + spec_line_str("worker_blacklist_interval"@, m.worker_blacklist_interval@)
        + spec_line_str("worker_lost_interval"@, m.worker_lost_interval@) + spec_line_bool(
        "audit_logging_enabled"@,
        m.audit_logging_enabled,
    ) + spec_line_bool("block_replication_enabled"@, m.block_replication_enabled)
        + spec_line_u64(
        "block_replication_concurrency_limit"@,
        m.block_replication_concurrency_limit as nat,
    ) + spec_line_u64("ttl_checker_retry_attempts"@, m.ttl_checker_retry_attempts as nat)
        + spec_line_str("ttl_checker_interval"@, m.ttl_checker_interval@) + spec_line_str(
        "ttl_bucket_interval"@,
        m.ttl_bucket_interval@,
    )
}

fn render_master(out: &mut String, m: &MasterConf)
    ensures
        final (out)@ == spec_master_section(old(out)@, m),
{
    out.append("[master]\n");
    push_line_str(out, "hostname", m.hostname.as_str());
    push_line_u16(out, "rpc_port", m.rpc_port);
    push_line_u16(out, "web_port", m.web_port);
    push_line_usize(out, "io_threads", m.io_threads);
    push_line_usize(out, "worker_threads", m.worker_threads);
    push_line_str(out, "io_timeout", m.io_timeout.as_str());
    push_line_bool(out, "io_close_idle", m.io_close_idle);
    push_line_str(out, "meta_dir", crate::conf::resolve_app_path(m.meta_dir.as_str()).as_str());
    push_line_bool(out, "meta_disable_wal", m.meta_disable_wal);
    push_line_str(out, "meta_compression_type", m.meta_compression_type.as_str());
    push_line_str(out, "meta_db_write_buffer_size", m.meta_db_write_buffer_size.as_str());
    push_line_str(out, "meta_write_buffer_size", m.meta_write_buffer_size.as_str());
    push_line_i64(out, "min_block_size", m.min_block_size);
    push_line_i64(out, "max_block_size", m.max_block_size);
    push_line_u16(out, "min_replication", m.min_replication);
    push_line_u16(out, "max_replication", m.max_replication);
    push_line_usize(out, "max_path_len", m.max_path_len);
    push_line_usize(out, "max_path_depth", m.max_path_depth);
    push_line_bool(out, "retry_cache_enable", m.retry_cache_enable);
    push_line_u64(out, "retry_cache_size", m.retry_cache_size);
    push_line_str(out, "retry_cache_ttl", m.retry_cache_ttl.as_str());
    push_line_usize(out, "block_report_limit", m.block_report_limit);
    push_line_str(out, "worker_policy", m.worker_policy.as_str());
    push_line_usize(out, "executor_threads", m.executor_threads);
    push_line_usize(out, "executor_channel_size", m.executor_channel_size);
    push_line_str(out, "heartbeat_interval", m.heartbeat_interval.as_str());
    push_line_str(out, "worker_check_interval", m.worker_check_interval.as_str());
    push_line_str(out, "worker_blacklist_interval", m.worker_blacklist_interval.as_str());
    push_line_str(out, "worker_lost_interval", m.worker_lost_interval.as_str());
    push_line_bool(out, "audit_logging_enabled", m.audit_logging_enabled);
    push_line_bool(out, "block_replication_enabled", m.block_replication_enabled);
    push_line_usize(
        out,
        "block_replication_concurrency_limit",
        m.block_replication_concurrency_limit,
    );
    push_line_u32(out, "ttl_checker_retry_attempts", m.ttl_checker_retry_attempts);
    push_line_str(out, "ttl_checker_interval", m.ttl_checker_interval.as_str());
    push_line_str(out, "ttl_bucket_interval", m.ttl_bucket_interval.as_str());
}


/// The stable hostname of master replica `i`.
pub open spec fn spec_master_pod_fqdn(
    cluster_id: Seq<char>,
    i: nat,
    namespace: Seq<char>,
    domain: Seq<char>,
) -> Seq<char> {
    cluster_id + "-master-"@ + spec_dec(i) + "."@ + cluster_id + "-master."@ + namespace
        + ".svc."@ + domain
}

fn master_pod_fqdn(cluster_id: &str, i: u32, namespace: &str, domain: &str) -> (r: String)
    ensures
        r@ == spec_master_pod_fqdn(cluster_id@, i as nat, namespace@, domain@),
{
    let mut h = cluster_id.to_owned();
    h.append("-master-");
    h.append(fmt_u32(i).as_str());
    h.append(".");
    h.append(cluster_id);
    h.append("-master.");
    h.append(namespace);
    h.append(".svc.");
    h.append(domain);
    h
}

/// The Raft peer blocks of the first `n` master replicas: ids start
/// at one, hostnames are the generated per-replica addresses, and the
/// port is the journal RPC port.
pub open spec fn spec_peer_blocks(
    pre: Seq<char>,
    cluster_id: Seq<char>,
    namespace: Seq<char>,
    domain: Seq<char>,
    port: nat,
    n: nat,
) -> Seq<char>
    decreases n,
{
    if n == 0 {
        pre
    } else {
        spec_peer_blocks(pre, cluster_id, namespace, domain, port, (n - 1) as nat)
            + "[[journal.journal_addrs]]\n"@ + spec_line_u64("id"@, n) + spec_line_str(
            "hostname"@,
            spec_master_pod_fqdn(cluster_id, (n - 1) as nat, namespace, domain),
        ) + spec_line_u64("port"@, port)
    }
}

fn render_peer_blocks(
    out: &mut String,
    cluster_id: &str,
    namespace: &str,
    domain: &str,
    port: u16,
    n: u32,
)
    ensures
        final (out)@ == spec_peer_blocks(
            old(out)@,
            cluster_id@,
            namespace@,
            domain@,
            port as nat,
            n as nat,
        ),
{
    let mut i: u32 = 0;
    while i < n
        invariant
            i <= n,
            out@ == spec_peer_blocks(
                old(out)@,
                cluster_id@,
                namespace@,
                domain@,
                port as nat,
                i as nat,
            ),
        decreases n - i,
    {
        out.append("[[journal.journal_addrs]]\n");
        push_line_u64(out, "id", (i as u64) + 1);
        push_line_str(
            out,
            "hostname",
            master_pod_fqdn(cluster_id, i, namespace, domain).as_str(),
        );
        push_line_u64(out, "port", port as u64);
        i += 1;
    }
}

/// The generated client-side master address blocks.
pub open spec fn spec_addr_blocks(
    pre: Seq<char>,
    cluster_id: Seq<char>,
    namespace: Seq<char>,
    domain: Seq<char>,
    port: nat,
    n: nat,
) -> Seq<char>
    decreases n,
{
    if n == 0 {
        pre
    } else {
        spec_addr_blocks(pre, cluster_id, namespace, domain, port, (n - 1) as nat)
            + "[[client.master_addrs]]\n"@ + spec_line_str(
            "hostname"@,
            spec_master_pod_fqdn(cluster_id, (n - 1) as nat, namespace, domain),
        ) + spec_line_u64("port"@, port)
    }
}

fn render_addr_blocks(
    out: &mut String,
    cluster_id: &str,
    namespace: &str,
    domain: &str,
    port: u16,
    n: u32,
)
    ensures
        final (out)@ == spec_addr_blocks(
            old(out)@,
            cluster_id@,
            namespace@,
            domain@,
            port as nat,
            n as nat,
        ),
{
    let mut i: u32 = 0;
    while i < n
        invariant
            i <= n,
            out@ == spec_addr_blocks(
                old(out)@,
                cluster_id@,
                namespace@,
                domain@,
                port as nat,
                i as nat,
            ),
        decreases n - i,
    {
        out.append("[[client.master_addrs]]\n");
        push_line_str(
            out,
            "hostname",
            master_pod_fqdn(cluster_id, i, namespace, domain).as_str(),
        );
        push_line_u64(out, "port", port as u64);
        i += 1;
    }
}

/// The journal section: scalars, a relative journal directory placed
/// under the application home, then the generated Raft peers.
pub open spec fn spec_journal_section(
    pre: Seq<char>,
    j: &JournalConf,
    cluster_id: Seq<char>,
    namespace: Seq<char>,
    domain: Seq<char>,
    replicas: nat,
) -> Seq<char> {
    spec_peer_blocks(
        pre + "[journal]\n"@ + spec_line_bool("enable"@, j.enable) + spec_line_str(
            "group_name"@,
            j.group_name@,
        ) + spec_line_str("hostname"@, j.hostname@) + spec_line_u64(
            "rpc_port"@,
            j.rpc_port as nat,
        ) + spec_line_u64("io_threads"@, j.io_threads as nat) + spec_line_u64(
            "worker_threads"@,
            j.worker_threads as nat,
        ) + spec_line_u64("message_size"@, j.message_size as nat) + spec_line_str(
            "journal_dir"@,
            spec_resolve_path(j.journal_dir@),
        ) + spec_line_bool("writer_debug"@, j.writer_debug) + spec_line_u64(
            "writer_channel_size"@,
            j.writer_channel_size as nat,
        ) + spec_line_u64("writer_flush_batch_size"@, j.writer_flush_batch_size as nat)
            + spec_line_u64("writer_flush_batch_ms"@, j.writer_flush_batch_ms as nat)
            + spec_line_str("snapshot_interval"@, j.snapshot_interval@) + spec_line_u64(
            "snapshot_entries"@,
            j.snapshot_entries as nat,
        ) + spec_line_u64("snapshot_read_chunk_size"@, j.snapshot_read_chunk_size as nat)
            + spec_line_u64("conn_retry_max_duration_ms"@, j.conn_retry_max_duration_ms as nat)
            + spec_line_u64("conn_retry_min_sleep_ms"@, j.conn_retry_min_sleep_ms as nat)
            + spec_line_u64("conn_retry_max_sleep_ms"@, j.conn_retry_max_sleep_ms as nat)
            + spec_line_bool("rpc_close_idle"@, j.rpc_close_idle) + spec_line_u64(
            "rpc_retry_max_duration_ms"@,
            j.rpc_retry_max_duration_ms as nat,
        ) + spec_line_u64("rpc_retry_min_sleep_ms"@, j.rpc_retry_min_sleep_ms as nat)
            + spec_line_u64("rpc_retry_max_sleep_ms"@, j.rpc_retry_max_sleep_ms as nat)
            + spec_line_u64("conn_timeout_ms"@, j.conn_timeout_ms as nat) + spec_line_u64(
            "io_timeout_ms"@,
            j.io_timeout_ms as nat,
        ) + spec_line_u64("conn_size"@, j.conn_size as nat) + spec_line_u64(
            "raft_poll_interval_ms"@,
            j.raft_poll_interval_ms as nat,
        ) + spec_line_u64("raft_tick_interval_ms"@, j.raft_tick_interval_ms as nat)
            + spec_line_u64("raft_election_tick"@, j.raft_election_tick as nat) + spec_line_u64(
            "raft_heartbeat_tick"@,
            j.raft_heartbeat_tick as nat,
        ) + spec_line_u64("raft_min_election_ticks"@, j.raft_min_election_ticks as nat)
            + spec_line_u64("raft_max_election_ticks"@, j.raft_max_election_ticks as nat)
            + spec_line_bool("raft_check_quorum"@, j.raft_check_quorum) + spec_line_u64(
            "raft_max_size_per_msg"@,
            j.raft_max_size_per_msg as nat,
        ) + spec_line_u64("raft_max_inflight_msgs"@, j.raft_max_inflight_msgs as nat)
            + spec_line_u64(
            "raft_max_committed_size_per_ready"@,
            j.raft_max_committed_size_per_ready as nat,
        ) + spec_line_u64("raft_retry_cache_size"@, j.raft_retry_cache_size as nat)
            + spec_line_str("raft_retry_cache_ttl"@, j.raft_retry_cache_ttl@),
        cluster_id,
        namespace,
        domain,
        j.rpc_port as nat,
        replicas,
    )
}

#[verifier::rlimit(50)]
fn render_journal(
    out: &mut String,
    j: &JournalConf,
    cluster_id: &str,
    namespace: &str,
    domain: &str,
    replicas: u32,
)
    ensures
        final (out)@ == spec_journal_section(
            old(out)@,
            j,
            cluster_id@,
            namespace@,
            domain@,
            replicas as nat,
        ),
{
    out.append("[journal]\n");
    push_line_bool(out, "enable", j.enable);
    push_line_str(out, "group_name", j.group_name.as_str());
    push_line_str(out, "hostname", j.hostname.as_str());
    push_line_u16(out, "rpc_port", j.rpc_port);
    push_line_usize(out, "io_threads", j.io_threads);
    push_line_usize(out, "worker_threads", j.worker_threads);
    push_line_usize(out, "message_size", j.message_size);
    push_line_str(
        out,
        "journal_dir",
        crate::conf::resolve_app_path(j.journal_dir.as_str()).as_str(),
    );
    push_line_bool(out, "writer_debug", j.writer_debug);
    push_line_usize(out, "writer_channel_size", j.writer_channel_size);
    push_line_u64(out, "writer_flush_batch_size", j.writer_flush_batch_size);
    push_line_u64(out, "writer_flush_batch_ms", j.writer_flush_batch_ms);
    push_line_str(out, "snapshot_interval", j.snapshot_interval.as_str());
    push_line_u64(out, "snapshot_entries", j.snapshot_entries);
    push_line_usize(out, "snapshot_read_chunk_size", j.snapshot_read_chunk_size);
    push_line_u64(out, "conn_retry_max_duration_ms", j.conn_retry_max_duration_ms);
    push_line_u64(out, "conn_retry_min_sleep_ms", j.conn_retry_min_sleep_ms);
    push_line_u64(out, "conn_retry_max_sleep_ms", j.conn_retry_max_sleep_ms);
    push_line_bool(out, "rpc_close_idle", j.rpc_close_idle);
    push_line_u64(out, "rpc_retry_max_duration_ms", j.rpc_retry_max_duration_ms);
    push_line_u64(out, "rpc_retry_min_sleep_ms", j.rpc_retry_min_sleep_ms);
    push_line_u64(out, "rpc_retry_max_sleep_ms", j.rpc_retry_max_sleep_ms);
    push_line_u64(out, "conn_timeout_ms", j.conn_timeout_ms);
    push_line_u64(out, "io_timeout_ms", j.io_timeout_ms);
    push_line_usize(out, "conn_size", j.conn_size);
    push_line_u64(out, "raft_poll_interval_ms", j.raft_poll_interval_ms);
    push_line_u64(out, "raft_tick_interval_ms", j.raft_tick_interval_ms);
    push_line_usize(out, "raft_election_tick", j.raft_election_tick);
    push_line_usize(out, "raft_heartbeat_tick", j.raft_heartbeat_tick);
    push_line_usize(out, "raft_min_election_ticks", j.raft_min_election_ticks);
    push_line_usize(out, "raft_max_election_ticks", j.raft_max_election_ticks);
    push_line_bool(out, "raft_check_quorum", j.raft_check_quorum);
    push_line_u64(out, "raft_max_size_per_msg", j.raft_max_size_per_msg);
    push_line_usize(out, "raft_max_inflight_msgs", j.raft_max_inflight_msgs);
    push_line_u64(out, "raft_max_committed_size_per_ready", j.raft_max_committed_size_per_ready);
    push_line_u64(out, "raft_retry_cache_size", j.raft_retry_cache_size);
    push_line_str(out, "raft_retry_cache_ttl", j.raft_retry_cache_ttl.as_str());
    render_peer_blocks(out, cluster_id, namespace, domain, j.rpc_port, replicas);
}

/// The per-tier placement aliases, one array line per entry.
pub open spec fn spec_tier_alias_lines(pre: Seq<char>, ta: Seq<(String, Vec<i32>)>) -> Seq<char>
    decreases ta.len(),
{
    if ta.len() == 0 {
        pre
    } else {
        spec_tier_alias_lines(pre, ta.drop_last()) + spec_line_i32_array(
            ta.last().0@,
            ta.last().1@,
        )
    }
}

/// The worker section, with its data directories, tiered-store levels
/// and per-tier aliases.
pub open spec fn spec_worker_section(pre: Seq<char>, w: &WorkerConf) -> Seq<char> {
    spec_tier_alias_lines(
        pre + "[worker]\n"@ + spec_line_str("hostname"@, w.hostname@) + spec_line_u64(
            "rpc_port"@,
            w.rpc_port as nat,
        ) + spec_line_u64("web_port"@, w.web_port as nat) + spec_line_u64(
            "io_threads"@,
            w.io_threads as nat,
        ) + spec_line_u64("worker_threads"@, w.worker_threads as nat) + spec_line_str(
            "io_timeout"@,
            w.io_timeout@,
        ) + spec_line_bool("io_close_idle"@, w.io_close_idle) + spec_line_str_array(
            "data_dir"@,
            w.data_dir@,
        ) + spec_line_bool("enable_tiered_store"@, w.enable_tiered_store)
            + spec_line_str_array("tiered_store_levels"@, w.tiered_store_levels@)
            + spec_line_u64("evict_batch_size"@, w.evict_batch_size as nat) + spec_line_bool(
            "evictor_enabled"@,
            w.evictor_enabled,
        ) + spec_line_u64("max_concurrent_read_rpcs"@, w.max_concurrent_read_rpcs as nat)
            + spec_line_u64("max_concurrent_write_rpcs"@, w.max_concurrent_write_rpcs as nat)
            + spec_line_str("heartbeat_interval"@, w.heartbeat_interval@) + spec_line_str(
            "filesystem_check_interval"@,
            w.filesystem_check_interval@,
        ) + spec_line_str("block_remover_interval"@, w.block_remover_interval@)
            + "[worker.tier_alias]\n"@,
        w.tier_alias@,
    )
}

#[verifier::rlimit(50)]
fn render_worker(out: &mut String, w: &WorkerConf)
    ensures
        final (out)@ == spec_worker_section(old(out)@, w),
{
    out.append("[worker]\n");
    push_line_str(out, "hostname", w.hostname.as_str());
    push_line_u16(out, "rpc_port", w.rpc_port);
    push_line_u16(out, "web_port", w.web_port);
    push_line_usize(out, "io_threads", w.io_threads);
    push_line_usize(out, "worker_threads", w.worker_threads);
    push_line_str(out, "io_timeout", w.io_timeout.as_str());
    push_line_bool(out, "io_close_idle", w.io_close_idle);
    push_line_str_array(out, "data_dir", &w.data_dir);
    push_line_bool(out, "enable_tiered_store", w.enable_tiered_store);
    push_line_str_array(out, "tiered_store_levels", &w.tiered_store_levels);
    push_line_usize(out, "evict_batch_size", w.evict_batch_size);
    push_line_bool(out, "evictor_enabled", w.evictor_enabled);
    push_line_usize(out, "max_concurrent_read_rpcs", w.max_concurrent_read_rpcs);
    push_line_usize(out, "max_concurrent_write_rpcs", w.max_concurrent_write_rpcs);
    push_line_str(out, "heartbeat_interval", w.heartbeat_interval.as_str());
    push_line_str(out, "filesystem_check_interval", w.filesystem_check_interval.as_str());
    push_line_str(out, "block_remover_interval", w.block_remover_interval.as_str());
    out.append("[worker.tier_alias]\n");
    let ghost base = out@;
    let mut i: usize = 0;
    while i < w.tier_alias.len()
        invariant
            i <= w.tier_alias@.len(),
            out@ == spec_tier_alias_lines(base, w.tier_alias@.take(i as int)),
        decreases w.tier_alias@.len() - i,
    {
        proof {
            assert(w.tier_alias@.take(i + 1).drop_last() =~= w.tier_alias@.take(i as int));
            assert(w.tier_alias@.take(i + 1).last() == w.tier_alias@[i as int]);
        }
        push_line_i32_array(out, w.tier_alias[i].0.as_str(), &w.tier_alias[i].1);
        i += 1;
    }
    proof {
        assert(w.tier_alias@.take(w.tier_alias@.len() as int) =~= w.tier_alias@);
    }
}

/// The client section, with the generated master addresses.
pub open spec fn spec_client_section(
    pre: Seq<char>,
    cl: &ClientConf,
    cluster_id: Seq<char>,
    namespace: Seq<char>,
    domain: Seq<char>,
    master_rpc_port: nat,
    replicas: nat,
) -> Seq<char> {
    spec_addr_blocks(
        pre + "[client]\n"@ + spec_line_str("hostname"@, cl.hostname@) + spec_line_str(
            "block_size_str"@,
            cl.block_size_str@,
        ) + spec_line_str("write_type"@, cl.write_type@) + spec_line_str(
            "read_type"@,
            cl.read_type@,
        ) + spec_line_u64("io_retry_max_duration_ms"@, cl.io_retry_max_duration_ms as nat)
            + spec_line_u64("io_retry_min_sleep_ms"@, cl.io_retry_min_sleep_ms as nat)
            + spec_line_u64("io_retry_max_sleep_ms"@, cl.io_retry_max_sleep_ms as nat)
            + spec_line_u64("worker_io_timeout_ms"@, cl.worker_io_timeout_ms as nat)
            + spec_line_u64("master_io_timeout_ms"@, cl.master_io_timeout_ms as nat)
            + spec_line_u64("conn_size"@, cl.conn_size as nat),
        cluster_id,
        namespace,
        domain,
        master_rpc_port,
        replicas,
    )
}

fn render_client(
    out: &mut String,
    cl: &ClientConf,
    cluster_id: &str,
    namespace: &str,
    domain: &str,
    master_rpc_port: u16,
    replicas: u32,
)
    ensures
        final (out)@ == spec_client_section(
            old(out)@,
            cl,
            cluster_id@,
            namespace@,
            domain@,
            master_rpc_port as nat,
            replicas as nat,
        ),
{
    out.append("[client]\n");
    push_line_str(out, "hostname", cl.hostname.as_str());
    push_line_str(out, "block_size_str", cl.block_size_str.as_str());
    push_line_str(out, "write_type", cl.write_type.as_str());
    push_line_str(out, "read_type", cl.read_type.as_str());
    push_line_u64(out, "io_retry_max_duration_ms", cl.io_retry_max_duration_ms);
    push_line_u64(out, "io_retry_min_sleep_ms", cl.io_retry_min_sleep_ms);
    push_line_u64(out, "io_retry_max_sleep_ms", cl.io_retry_max_sleep_ms);
    push_line_u64(out, "worker_io_timeout_ms", cl.worker_io_timeout_ms);
    push_line_u64(out, "master_io_timeout_ms", cl.master_io_timeout_ms);
    push_line_usize(out, "conn_size", cl.conn_size);
    render_addr_blocks(out, cluster_id, namespace, domain, master_rpc_port, replicas);
}

pub open spec fn spec_fuse_section(pre: Seq<char>, f: &FuseConf) -> Seq<char> {
    pre + "[fuse]\n"@ + spec_line_str("mount_path"@, f.mount_path@) + spec_line_u64(
        "max_idle_threads"@,
        f.max_idle_threads as nat,
    )
}

fn render_fuse(out: &mut String, f: &FuseConf)
    ensures
        final (out)@ == spec_fuse_section(old(out)@, f),
{
    out.append("[fuse]\n");
    push_line_str(out, "mount_path", f.mount_path.as_str());
    push_line_usize(out, "max_idle_threads", f.max_idle_threads);
}

pub open spec fn spec_s3_section(pre: Seq<char>, g: &S3GatewayConf) -> Seq<char> {
    pre + "[s3_gateway]\n"@ + spec_line_str("hostname"@, g.hostname@) + spec_line_u64(
        "port"@,
        g.port as nat,
    ) + spec_line_bool("enabled"@, g.enabled)
}

fn render_s3(out: &mut String, g: &S3GatewayConf)
    ensures
        final (out)@ == spec_s3_section(old(out)@, g),
{
    out.append("[s3_gateway]\n");
    push_line_str(out, "hostname", g.hostname.as_str());
    push_line_u16(out, "port", g.port);
    push_line_bool(out, "enabled", g.enabled);
}

pub open spec fn spec_job_section(pre: Seq<char>, j: &JobConf) -> Seq<char> {
    pre + "[job]\n"@ + spec_line_bool("enabled"@, j.enabled) + spec_line_str(
        "temp_folder"@,
        j.temp_folder@,
    ) + spec_line_u64("batch_size"@, j.batch_size as nat)
}

fn render_job(out: &mut String, j: &JobConf)
    ensures
        final (out)@ == spec_job_section(old(out)@, j),
{
    out.append("[job]\n");
    push_line_bool(out, "enabled", j.enabled);
    push_line_str(out, "temp_folder", j.temp_folder.as_str());
    push_line_usize(out, "batch_size", j.batch_size);
}

/// The whole rendered document: every configured field in section
/// order, with the master replica count injected as the generated
/// journal peers and client master addresses, and relative metadata
/// and journal directories placed under the application home.
pub open spec fn spec_rendered_conf(
    conf: &ClusterConf,
    cluster_id: Seq<char>,
    namespace: Seq<char>,
    domain: Seq<char>,
    replicas: nat,
) -> Seq<char> {
    spec_job_section(
        spec_s3_section(
            spec_fuse_section(
                spec_client_section(
                    spec_worker_section(
                        spec_journal_section(
                            spec_master_section(
                                spec_top_section(Seq::empty(), conf),
                                &conf.master,
                            ),
                            &conf.journal,
                            cluster_id,
                            namespace,
                            domain,
                            replicas,
                        ),
                        &conf.worker,
                    ),
                    &conf.client,
                    cluster_id,
                    namespace,
                    domain,
                    conf.master.rpc_port as nat,
                    replicas,
                ),
                &conf.fuse,
            ),
            &conf.s3_gateway,
        ),
        &conf.job,
    )
}

/// Renders the cluster-side configuration blob.
pub fn build_cluster_side_config_with(
    conf: &ClusterConf,
    cluster_id: &str,
    namespace: &str,
    cluster_domain: &str,
    master_replicas: u32,
) -> (r: String)
    ensures
        r@ == spec_rendered_conf(
            conf,
            cluster_id@,
            namespace@,
            cluster_domain@,
            master_replicas as nat,
        ),
{
    let mut out = String::new();
    render_top(&mut out, conf);
    render_master(&mut out, &conf.master);
    render_journal(&mut out, &conf.journal, cluster_id, namespace, cluster_domain, master_replicas);
    render_worker(&mut out, &conf.worker);
    render_client(
        &mut out,
        &conf.client,
        cluster_id,
        namespace,
        cluster_domain,
        conf.master.rpc_port,
        master_replicas,
    );
    render_fuse(&mut out, &conf.fuse);
    render_s3(&mut out, &conf.s3_gateway);
    render_job(&mut out, &conf.job);
    out
}

} // verus!


