//! Read-only status snapshots and the icon/text classification of a
//! replica count, handed to the renderer as plain data.

use vstd::prelude::*;

verus! {

pub struct StatusIcon;

impl StatusIcon {
    /// The icon for a ready/total pair: all ready, some ready, none
    /// ready, or nothing declared.
    pub fn get_replica_icon(ready: u32, total: u32) -> (r: &'static str)
        ensures
            total == 0 ==> r@ == "?"@,
            total > 0 && ready == total ==> r@ == "\u{2713}"@,
            total > 0 && 0 < ready < total ==> r@ == "\u{26a0}"@,
            total > 0 && ready == 0 ==> r@ == "\u{2717}"@,
    {
        if total == 0 {
            "?"
        } else if ready == total {
            "\u{2713}"
        } else if ready > 0 {
            "\u{26a0}"
        } else {
            "\u{2717}"
        }
    }

    pub fn get_status_text(ready: u32, total: u32) -> (r: &'static str)
        ensures
            total == 0 ==> r@ == "Unknown"@,
            total > 0 && ready == total ==> r@ == "Running"@,
            total > 0 && 0 < ready < total ==> r@ == "Degraded"@,
            total > 0 && ready == 0 ==> r@ == "Failed"@,
    {
        if total == 0 {
            "Unknown"
        } else if ready == total {
            "Running"
        } else if ready > 0 {
            "Degraded"
        } else {
            "Failed"
        }
    }
}

#[derive(Debug, Clone)]
pub struct StatefulSetStatus {
    pub name: String,
    pub replicas: u32,
    pub ready_replicas: u32,
}

#[derive(Debug, Clone)]
pub struct ServiceStatus {
    pub name: String,
    pub cluster_ip: Option<String>,
}

#[derive(Debug, Clone)]
pub struct ConfigMapStatus {
    pub name: String,
}

#[derive(Debug, Clone)]
pub struct ClusterStatus {
    pub cluster_id: String,
    pub master: Option<StatefulSetStatus>,
    pub worker: Option<StatefulSetStatus>,
    pub service: Option<ServiceStatus>,
    pub configmap: Option<ConfigMapStatus>,
}

#[derive(Debug, Clone)]
pub struct ClusterInfo {
    pub cluster_id: String,
    pub namespace: String,
    pub master_replicas: u32,
    pub master_ready: u32,
    pub worker_replicas: u32,
    pub worker_ready: u32,
}

/// The cluster identifier a configuration object's name carries, when
/// the name ends in the configuration suffix.
pub fn cluster_id_of_configmap_name(name: &str) -> (r: Option<String>)
    ensures
        match r {
            Some(id) => name@ == id@ + "-config"@,
            None => !(name@.len() >= 7 && name@.subrange(name@.len() - 7, name@.len() as int)
                == "-config"@),
        },
{
    proof {
        reveal_strlit("-config");
    }
    let len = vstd::string::StrSliceExecFns::unicode_len(name);
    if len < 7 {
        return None;
    }
    let suffix = vstd::string::StrSliceExecFns::substring_char(name, len - 7, len);
    if crate::text::str_eq_str(suffix, "-config") {
        let id = vstd::string::StrSliceExecFns::substring_char(name, 0, len - 7);
        proof {
            assert(name@ =~= id@ + "-config"@);
        }
        Some(id.to_owned())
    } else {
        None
    }
}

} // verus!
