//! Fixed numbers of the deployment: ports, probe timings and the
//! readiness loop's bounds.

use vstd::prelude::*;

verus! {

pub const MASTER_RPC_PORT: i32 = 8995;

pub const MASTER_JOURNAL_PORT: i32 = 8996;

pub const MASTER_WEB_PORT: i32 = 9000;

pub const MASTER_WEB1_PORT: i32 = 9001;

pub const WORKER_RPC_PORT: i32 = 8997;

pub const WORKER_WEB_PORT: i32 = 9001;

pub const LIVENESS_INITIAL_DELAY: i32 = 15;

pub const LIVENESS_PERIOD: i32 = 300;

pub const LIVENESS_TIMEOUT: i32 = 60;

pub const LIVENESS_FAILURE_THRESHOLD: i32 = 5;

pub const GRACEFUL_SHUTDOWN_DELAY: u32 = 10;

pub const CONFIG_FILE_MODE: i32 = 420;

pub const SECURITY_PRIVILEGED: bool = true;

/// The readiness loop polls every five seconds.
pub const READY_CHECK_INTERVAL_SECONDS: u64 = 5;

/// The readiness loop gives up after five minutes.
pub const READY_MAX_WAIT_SECONDS: u64 = 300;

/// Failures are classified only after this grace period.
pub const READY_FAILURE_DETECTION_WAIT: u64 = 30;

/// A pod restarted more often than this is a persistent failure.
pub const READY_RESTART_LIMIT: i32 = 5;

} // verus!
