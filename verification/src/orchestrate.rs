//! The deploy/update decision logic and the readiness-poll state
//! machine.  The platform client performs the calls outside the
//! library and hands each observation back as plain values.

use vstd::prelude::*;

use crate::errors::KubeError;

verus! {

/// A first deployment requires that no master replica set of this
/// cluster exists yet; otherwise the operator is pointed at the
/// update command.
pub fn deploy_precheck(master_exists: bool, cluster_id: &str, namespace: &str) -> (r: Result<
    (),
    KubeError,
>)
    ensures
        r is Ok <==> !master_exists,
        r matches Err(e) ==> (e matches KubeError::ValidationError(m) && m@
            == spec_already_exists_msg(cluster_id@, namespace@)),
{
    if master_exists {
        let mut m = "\n Cluster already exists\n\n  Cluster ID: '".to_owned();
        m.append(cluster_id);
        m.append("'\n  Namespace: '");
        m.append(namespace);
        m.append("'\n\n To modify the cluster, use the 'update' command:\n  cv k8s update -c ");
        m.append(cluster_id);
        m.append(
            " [options]\n\n Examples:\n  - Scale workers: cv k8s update -c ",
        );
        m.append(cluster_id);
        m.append(" --worker-replicas 5\n  - Upgrade image: cv k8s update -c ");
        m.append(cluster_id);
        m.append(" --master-image docker.io/curvine:v1.0\n");
        Err(KubeError::ValidationError(m))
    } else {
        Ok(())
    }
}

pub open spec fn spec_already_exists_msg(cluster_id: Seq<char>, namespace: Seq<char>) -> Seq<
    char,
> {
    "\n Cluster already exists\n\n  Cluster ID: '"@ + cluster_id + "'\n  Namespace: '"@
        + namespace + "'\n\n To modify the cluster, use the 'update' command:\n  cv k8s update -c "@
        + cluster_id + " [options]\n\n Examples:\n  - Scale workers: cv k8s update -c "@
        + cluster_id + " --worker-replicas 5\n  - Upgrade image: cv k8s update -c "@
        + cluster_id + " --master-image docker.io/curvine:v1.0\n"@
}

/// An update requires the master replica set to exist; otherwise the
/// operator is pointed at the deploy command.
pub fn update_precheck(master_exists: bool, cluster_id: &str, namespace: &str) -> (r: Result<
    (),
    KubeError,
>)
    ensures
        r is Ok <==> master_exists,
        r matches Err(e) ==> (e matches KubeError::ValidationError(m) && m@
            == spec_not_found_msg(cluster_id@, namespace@)),
{
    if !master_exists {
        let mut m = "\n Cluster not found\n\n  Cluster ID: '".to_owned();
        m.append(cluster_id);
        m.append("'\n  Namespace: '");
        m.append(namespace);
        m.append("'\n\n To create a new cluster, use the 'deploy' command:\n  curvine-kube deploy -c ");
        m.append(cluster_id);
        m.append(" [options]\n");
        Err(KubeError::ValidationError(m))
    } else {
        Ok(())
    }
}

pub open spec fn spec_not_found_msg(cluster_id: Seq<char>, namespace: Seq<char>) -> Seq<char> {
    "\n Cluster not found\n\n  Cluster ID: '"@ + cluster_id + "'\n  Namespace: '"@ + namespace
        + "'\n\n To create a new cluster, use the 'deploy' command:\n  curvine-kube deploy -c "@
        + cluster_id + " [options]\n"@
}

/// Master topology is out of an update's reach: a supplied master
/// replica count is rejected before any resolution is attempted.
pub fn update_master_replicas_guard(master_replicas: Option<u32>) -> (r: Result<(), KubeError>)
    ensures
        r is Ok <==> master_replicas is None,
        r matches Err(e) ==> (e matches KubeError::ConfigError(m) && m@
            == "Master replicas cannot be updated: master nodes form a Raft quorum and changing the count requires manual cluster reconfiguration. Supported updates: worker replicas, images, image pull policy, service type, pod templates and dynamic overrides."@),
{
    match master_replicas {
        None => Ok(()),
        Some(_) => Err(
            KubeError::ConfigError(
                "Master replicas cannot be updated: master nodes form a Raft quorum and changing the count requires manual cluster reconfiguration. Supported updates: worker replicas, images, image pull policy, service type, pod templates and dynamic overrides.".to_owned(),
            ),
        ),
    }
}

/// The replica count the configuration object is rendered with: on an
/// update the count read back from the platform, so that master
/// topology is never reapplied; on a first deployment the configured
/// count.
pub fn effective_master_replicas(
    is_update_mode: bool,
    existing: Option<u32>,
    configured: u32,
) -> (r: u32)
    ensures
        !is_update_mode ==> r == configured,
        is_update_mode ==> r == (match existing {
            Some(v) => v,
            None => configured,
        }),
{
    if is_update_mode {
        match existing {
            Some(v) => v,
            None => configured,
        }
    } else {
        configured
    }
}

/// What one readiness poll observes of one pod's primary container.
#[derive(Debug, Clone)]
pub struct PodObservation {
    pub name: String,
    /// The waiting reason, when the container is waiting.
    pub waiting_reason: Option<String>,
    pub restart_count: i32,
    pub phase: Option<String>,
}

/// What one readiness poll observes of one replica set.
#[derive(Debug, Clone, Copy)]
pub struct ReplicaObservation {
    pub replicas: Option<i32>,
    pub ready_replicas: Option<i32>,
}

/// One readiness poll's full observation.
pub struct PollObservation {
    pub pods: Vec<PodObservation>,
    pub master: Option<ReplicaObservation>,
    pub worker: Option<ReplicaObservation>,
}

/// What the loop does after an observation.
#[derive(Debug)]
pub enum PollOutcome {
    /// Both roles are fully ready in the same cycle.
    Ready,
    /// Sleep for the interval and poll again.
    Continue,
    /// A pod is in a terminal failure state; polling stops at once.
    Fatal(KubeError),
    /// The ceiling was exhausted without success or a fatal failure.
    TimedOut(KubeError),
}

fn is_fatal_reason(reason: &str) -> (r: bool)
    ensures
        r == (reason@ == "CrashLoopBackOff"@ || reason@ == "ImagePullBackOff"@ || reason@
            == "ErrImagePull"@),
{
    crate::text::str_eq_str(reason, "CrashLoopBackOff") || crate::text::str_eq_str(
        reason,
        "ImagePullBackOff",
    ) || crate::text::str_eq_str(reason, "ErrImagePull")
}

/// Whether a pod observation is a terminal failure: a fatal waiting
/// reason, a restart count over the threshold, or the failed phase.
pub open spec fn spec_pod_fatal(p: PodObservation) -> bool {
    ||| (p.waiting_reason matches Some(w) && (w@ == "CrashLoopBackOff"@ || w@
        == "ImagePullBackOff"@ || w@ == "ErrImagePull"@))
    ||| p.restart_count > 5
    ||| (p.phase matches Some(ph) && ph@ == "Failed"@)
}

/// The first terminal pod, or -1.
pub open spec fn spec_first_fatal(pods: Seq<PodObservation>) -> int
    decreases pods.len(),
{
    if pods.len() == 0 {
        -1
    } else if spec_pod_fatal(pods[0]) {
        0
    } else {
        let r = spec_first_fatal(pods.drop_first());
        if r == -1 {
            -1
        } else {
            r + 1
        }
    }
}

proof fn lemma_first_fatal_at(pods: Seq<PodObservation>, i: int)
    requires
        0 <= i < pods.len(),
        spec_pod_fatal(pods[i]),
        forall|j: int| 0 <= j < i ==> !spec_pod_fatal(#[trigger] pods[j]),
    ensures
        spec_first_fatal(pods) == i,
    decreases i,
{
    if i > 0 {
        lemma_first_fatal_at(pods.drop_first(), i - 1);
    }
}

/// The message a terminal pod aborts with: its waiting reason, its
/// restart count, or its failed phase, with where to look next.
pub open spec fn spec_fatal_msg(p: PodObservation, namespace: Seq<char>) -> Seq<char> {
    if p.waiting_reason matches Some(w) && (w@ == "CrashLoopBackOff"@ || w@
        == "ImagePullBackOff"@ || w@ == "ErrImagePull"@) {
        "Pod "@ + p.name@ + " is in "@ + (p.waiting_reason->0)@
            + " state. Check pod logs: kubectl logs -n "@ + namespace + " "@ + p.name@
    } else if p.restart_count > 5 {
        "Pod "@ + p.name@ + " has restarted "@ + crate::text::spec_dec_int(
            p.restart_count as int,
        ) + " times, indicating a persistent failure. Check pod logs: kubectl logs -n "@
            + namespace + " "@ + p.name@
    } else {
        "Pod "@ + p.name@ + " is in Failed state. Check pod events: kubectl describe pod -n "@
            + namespace + " "@ + p.name@
    }
}

/// The message the exhausted ceiling produces: the last observed
/// ready and declared counts of both roles.
pub open spec fn spec_timeout_msg(
    cluster_id: Seq<char>,
    m_ready: int,
    m_total: int,
    w_ready: int,
    w_total: int,
) -> Seq<char> {
    "Cluster "@ + cluster_id
        + " did not become ready within 300 seconds (Master ready: "@
        + crate::text::spec_dec_int(m_ready) + "/"@ + crate::text::spec_dec_int(m_total)
        + ", Worker ready: "@ + crate::text::spec_dec_int(w_ready) + "/"@
        + crate::text::spec_dec_int(w_total) + ")"@
}

/// The observed ready count of a role, zero when unreported.
pub open spec fn spec_obs_ready(o: Option<ReplicaObservation>) -> int {
    match o {
        Some(ro) => match ro.ready_replicas {
            Some(v) => v as int,
            None => 0,
        },
        None => 0,
    }
}

/// The observed declared count of a role, zero when unreported.
pub open spec fn spec_obs_total(o: Option<ReplicaObservation>) -> int {
    match o {
        Some(ro) => match ro.replicas {
            Some(v) => v as int,
            None => 0,
        },
        None => 0,
    }
}

fn obs_counts(o: &Option<ReplicaObservation>) -> (r: (i32, i32))
    ensures
        r.0 as int == spec_obs_ready(*o),
        r.1 as int == spec_obs_total(*o),
{
    match o {
        Some(ro) => (
            match ro.ready_replicas {
                Some(v) => v,
                None => 0,
            },
            match ro.replicas {
                Some(v) => v,
                None => 0,
            },
        ),
        None => (0, 0),
    }
}

/// Whether a role observation reports every declared replica ready.
pub open spec fn spec_role_ready(o: Option<ReplicaObservation>) -> bool {
    o matches Some(ro) && (ro.ready_replicas matches Some(ready) && (ro.replicas matches Some(
        declared,
    ) && ready == declared))
}

/// One step of the readiness loop at `waited` seconds: past the grace
/// period a terminal pod failure aborts at once with a message naming
/// the first failing pod and its condition; then full readiness of
/// master and worker in the same cycle succeeds; past the ceiling the
/// loop times out, reporting the last observed ready and declared
/// counts of both roles.  Failure detection starts only after the
/// thirty-second grace period, and the ceiling is three hundred
/// seconds.
#[verifier::loop_isolation(false)]
pub fn poll_step(waited: u64, obs: &PollObservation, cluster_id: &str, namespace: &str) -> (r:
    PollOutcome)
    ensures
        r is Fatal <==> waited >= 30 && (exists|i: int|
            0 <= i < obs.pods@.len() && spec_pod_fatal(#[trigger] obs.pods@[i])),
        r matches PollOutcome::Fatal(e) ==> {
            let i = spec_first_fatal(obs.pods@);
            &&& 0 <= i
            &&& e matches KubeError::ValidationError(m) && m@ == spec_fatal_msg(
                obs.pods@[i],
                namespace@,
            )
        },
        !(r is Fatal) ==> (r is Ready <==> spec_role_ready(obs.master) && spec_role_ready(
            obs.worker,
        )),
        !(r is Fatal) && !(r is Ready) ==> (r is TimedOut <==> waited >= 300),
        r matches PollOutcome::TimedOut(e) ==> (e matches KubeError::Timeout(m) && m@
            == spec_timeout_msg(
            cluster_id@,
            spec_obs_ready(obs.master),
            spec_obs_total(obs.master),
            spec_obs_ready(obs.worker),
            spec_obs_total(obs.worker),
        )),
{
    if waited >= 30 {
        let mut i: usize = 0;
        while i < obs.pods.len()
            invariant
                i <= obs.pods@.len(),
                forall|j: int| 0 <= j < i ==> !spec_pod_fatal(#[trigger] obs.pods@[j]),
            decreases obs.pods@.len() - i,
        {
            let p = &obs.pods[i];
            let reason_fatal = match &p.waiting_reason {
                Some(w) => is_fatal_reason(w.as_str()),
                None => false,
            };
            if reason_fatal {
                proof {
                    assert(spec_pod_fatal(obs.pods@[i as int]));
                    lemma_first_fatal_at(obs.pods@, i as int);
                }
                let reason = match &p.waiting_reason {
                    Some(w) => w.clone(),
                    None => "".to_owned(),
                };
                let mut m = "Pod ".to_owned();
                m.append(p.name.as_str());
                m.append(" is in ");
                m.append(reason.as_str());
                m.append(" state. Check pod logs: kubectl logs -n ");
                m.append(namespace);
                m.append(" ");
                m.append(p.name.as_str());
                return PollOutcome::Fatal(KubeError::ValidationError(m));
            }
            if p.restart_count > 5 {
                proof {
                    assert(spec_pod_fatal(obs.pods@[i as int]));
                    lemma_first_fatal_at(obs.pods@, i as int);
                }
                let mut m = "Pod ".to_owned();
                m.append(p.name.as_str());
                m.append(" has restarted ");
                m.append(crate::text::fmt_i32(p.restart_count).as_str());
                m.append(" times, indicating a persistent failure. Check pod logs: kubectl logs -n ");
                m.append(namespace);
                m.append(" ");
                m.append(p.name.as_str());
                return PollOutcome::Fatal(KubeError::ValidationError(m));
            }
            let phase_failed = match &p.phase {
                Some(ph) => crate::text::str_eq_str(ph.as_str(), "Failed"),
                None => false,
            };
            if phase_failed {
                proof {
                    assert(spec_pod_fatal(obs.pods@[i as int]));
                    lemma_first_fatal_at(obs.pods@, i as int);
                }
                let mut m = "Pod ".to_owned();
                m.append(p.name.as_str());
                m.append(" is in Failed state. Check pod events: kubectl describe pod -n ");
                m.append(namespace);
                m.append(" ");
                m.append(p.name.as_str());
                return PollOutcome::Fatal(KubeError::ValidationError(m));
            }
            i += 1;
        }
    }
    let master_ready = match &obs.master {
        Some(ro) => match (ro.ready_replicas, ro.replicas) {
            (Some(ready), Some(declared)) => ready == declared,
            _ => false,
        },
        None => false,
    };
    let worker_ready = match &obs.worker {
        Some(ro) => match (ro.ready_replicas, ro.replicas) {
            (Some(ready), Some(declared)) => ready == declared,
            _ => false,
        },
        None => false,
    };
    if master_ready && worker_ready {
        return PollOutcome::Ready;
    }
    if waited >= 300 {
        let (mr, mt) = obs_counts(&obs.master);
        let (wr, wt) = obs_counts(&obs.worker);
        let mut m = "Cluster ".to_owned();
        m.append(cluster_id);
        m.append(" did not become ready within 300 seconds (Master ready: ");
        m.append(crate::text::fmt_i32(mr).as_str());
        m.append("/");
        m.append(crate::text::fmt_i32(mt).as_str());
        m.append(", Worker ready: ");
        m.append(crate::text::fmt_i32(wr).as_str());
        m.append("/");
        m.append(crate::text::fmt_i32(wt).as_str());
        m.append(")");
        return PollOutcome::TimedOut(KubeError::Timeout(m));
    }
    PollOutcome::Continue
}

/// The guard every persistent-volume template of an existing replica
/// set places on a patch: the name, storage class, access modes and
/// requested size may not change; a change asks for delete-and-
/// recreate instead.
pub fn check_pvc_templates_unchanged(
    existing: &Vec<crate::model::PersistentVolumeClaim>,
    proposed: &Vec<crate::model::PersistentVolumeClaim>,
) -> (r: Result<(), KubeError>)
    ensures
        r is Ok <==> spec_pvc_templates_compatible(existing@, proposed@),
        r matches Err(e) ==> e matches KubeError::ConfigError(_),
{
    if existing.len() != proposed.len() {
        return Err(
            KubeError::ConfigError(
                "StatefulSet volumeClaimTemplates count cannot be changed. Please delete and recreate the StatefulSet.".to_owned(),
            ),
        );
    }
    let mut i: usize = 0;
    while i < existing.len()
        invariant
            existing@.len() == proposed@.len(),
            i <= existing@.len(),
            forall|j: int|
                0 <= j < i ==> spec_pvc_compatible(#[trigger] existing@[j], proposed@[j]),
        decreases existing@.len() - i,
    {
        let e = &existing[i];
        let p = &proposed[i];
        if !crate::text::str_eq_str(e.name.as_str(), p.name.as_str()) {
            let mut m = "StatefulSet volumeClaimTemplate[".to_owned();
            m.append(crate::text::fmt_usize(i).as_str());
            m.append("] name cannot be changed. Please delete and recreate the StatefulSet.");
            return Err(KubeError::ConfigError(m));
        }
        let class_ok = match (&e.storage_class_name, &p.storage_class_name) {
            (None, None) => true,
            (Some(a), Some(b)) => crate::text::str_eq_str(a.as_str(), b.as_str()),
            _ => false,
        };
        if !class_ok {
            let mut m = "StatefulSet volumeClaimTemplate[".to_owned();
            m.append(crate::text::fmt_usize(i).as_str());
            m.append(
                "] storageClassName cannot be changed. Please delete and recreate the StatefulSet.",
            );
            return Err(KubeError::ConfigError(m));
        }
        let mut modes_ok = e.access_modes.len() == p.access_modes.len();
        let mut k: usize = 0;
        while k < e.access_modes.len() && k < p.access_modes.len()
            invariant
                k <= e.access_modes@.len(),
                k <= p.access_modes@.len(),
                modes_ok == (e.access_modes@.len() == p.access_modes@.len() && forall|q: int|
                    0 <= q < k ==> e.access_modes@[q]@ == p.access_modes@[q]@),
            decreases e.access_modes@.len() - k,
        {
            if !crate::text::str_eq_str(e.access_modes[k].as_str(), p.access_modes[k].as_str()) {
                modes_ok = false;
            }
            k += 1;
        }
        if !modes_ok {
            let mut m = "StatefulSet volumeClaimTemplate[".to_owned();
            m.append(crate::text::fmt_usize(i).as_str());
            m.append(
                "] accessModes cannot be changed. Please delete and recreate the StatefulSet.",
            );
            return Err(KubeError::ConfigError(m));
        }
        if !crate::text::str_eq_str(e.storage_request.as_str(), p.storage_request.as_str()) {
            let mut m = "StatefulSet volumeClaimTemplate[".to_owned();
            m.append(crate::text::fmt_usize(i).as_str());
            m.append(
                "] storage size cannot be changed. Please delete and recreate the StatefulSet.",
            );
            return Err(KubeError::ConfigError(m));
        }
        i += 1;
    }
    Ok(())
}

/// Two claim templates an upsert may relate: same name, class, access
/// modes and requested size.
pub open spec fn spec_pvc_compatible(
    e: crate::model::PersistentVolumeClaim,
    p: crate::model::PersistentVolumeClaim,
) -> bool {
    &&& e.name@ == p.name@
    &&& (match (e.storage_class_name, p.storage_class_name) {
        (None, None) => true,
        (Some(a), Some(b)) => a@ == b@,
        _ => false,
    })
    &&& e.access_modes@.len() == p.access_modes@.len()
    &&& (forall|q: int|
        0 <= q < e.access_modes@.len() ==> #[trigger] e.access_modes@[q]@ == p.access_modes@[q]@)
    &&& e.storage_request@ == p.storage_request@
}

pub open spec fn spec_pvc_templates_compatible(
    e: Seq<crate::model::PersistentVolumeClaim>,
    p: Seq<crate::model::PersistentVolumeClaim>,
) -> bool {
    e.len() == p.len() && forall|j: int|
        0 <= j < e.len() ==> spec_pvc_compatible(#[trigger] e[j], p[j])
}

} // verus!
