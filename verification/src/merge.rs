//! The pod-template merge engine.  A builder-generated pod is combined
//! with an optional user-supplied template: labels are unioned with the
//! generated entries winning, volumes and mounts are unioned with the
//! template winning, environment variables are unioned with the
//! generated entries winning, and six scalar container fields keep the
//! template's value when it is present and take the generated one
//! otherwise.  Before mounts are unioned, every volume name the
//! template and the generated set share must map to the same path.

use vstd::prelude::*;

use crate::errors::KubeError;
use crate::kv::{kv_extend, spec_kv_last_lookup, spec_kv_lookup};
use crate::model::{Container, EnvVar, Pod, PodMeta, PodSpec, Volume, VolumeMount};
use crate::text::str_eq_str;

verus! {

/// A pod split into "everything but the primary application container"
/// and the primary container alone, so that the merge reasons about
/// exactly one container while carrying every other field verbatim.
#[derive(Debug)]
pub struct CurvinePod {
    pod_without_main_container: Pod,
    main_container: Container,
}

/// The containers that remain when every container under `name` is
/// taken out.
pub open spec fn spec_without_name(cs: Seq<Container>, name: Seq<char>) -> Seq<Container>
    decreases cs.len(),
{
    if cs.len() == 0 {
        Seq::empty()
    } else {
        let pre = spec_without_name(cs.drop_last(), name);
        if cs.last().name@ == name {
            pre
        } else {
            pre.push(cs.last())
        }
    }
}

/// A main container that carries nothing but its name, used when the
/// template does not declare one.
pub open spec fn spec_bare_main(c: Container, name: Seq<char>) -> bool {
    &&& c.name@ == name
    &&& c.image is None
    &&& c.image_pull_policy is None
    &&& c.command is None
    &&& c.args is None
    &&& c.working_dir is None
    &&& c.env is None
    &&& c.ports is None
    &&& c.volume_mounts is None
    &&& c.resources is None
    &&& c.liveness_probe is None
    &&& c.readiness_probe is None
    &&& c.lifecycle is None
    &&& c.security_context is None
}

/// The last container under `name`, if any; the last one wins when a
/// name repeats.
pub open spec fn spec_last_named(cs: Seq<Container>, name: Seq<char>) -> Option<Container>
    decreases cs.len(),
{
    if cs.len() == 0 {
        None
    } else if cs.last().name@ == name {
        Some(cs.last())
    } else {
        spec_last_named(cs.drop_last(), name)
    }
}

impl CurvinePod {
    /// Splits `pod` around the container named `main_container_name`.
    /// When the pod has no such container, the main part is a bare
    /// container of that name; when the pod has no specification at
    /// all, an empty one takes its place.
    pub fn new(pod: Pod, main_container_name: &str) -> (r: CurvinePod)
        ensures
            r.spec_pod().metadata == pod.metadata,
            match pod.spec {
                None => r.spec_pod().spec matches Some(s) && s.containers@
                    == Seq::<Container>::empty() && s.init_containers is None && s.volumes is None
                    && s.node_selector is None && s.affinity is None && s.restart_policy is None
                    && s.service_account_name is None && s.tolerations is None && s.dns_policy
                    is None && s.priority_class_name is None && s.host_network is None,
                Some(ps) => r.spec_pod().spec matches Some(s) && s.containers@
                    == spec_without_name(ps.containers@, main_container_name@)
                    && s.init_containers == ps.init_containers && s.volumes == ps.volumes
                    && s.node_selector == ps.node_selector && s.affinity == ps.affinity
                    && s.restart_policy == ps.restart_policy && s.service_account_name
                    == ps.service_account_name && s.tolerations == ps.tolerations && s.dns_policy
                    == ps.dns_policy && s.priority_class_name == ps.priority_class_name
                    && s.host_network == ps.host_network,
            },
            match pod.spec {
                None => spec_bare_main(r.spec_main(), main_container_name@),
                Some(ps) => match spec_last_named(ps.containers@, main_container_name@) {
                    Some(c) => r.spec_main() == c,
                    None => spec_bare_main(r.spec_main(), main_container_name@),
                },
            },
    {
        let Pod { metadata, spec } = pod;
        match spec {
            None => {
                CurvinePod {
                    pod_without_main_container: Pod { metadata, spec: Some(PodSpec::empty()) },
                    main_container: Container::named(main_container_name.to_owned()),
                }
            },
            Some(ps) => {
                let PodSpec {
                    containers,
                    init_containers,
                    volumes,
                    node_selector,
                    affinity,
                    restart_policy,
                    service_account_name,
                    tolerations,
                    dns_policy,
                    priority_class_name,
                    host_network,
                } = ps;
                let ghost orig = containers@;
                let mut rest = containers;
                let mut others: Vec<Container> = Vec::new();
                let mut main: Option<Container> = None;
                let ghost mut i: int = 0;
                while rest.len() > 0
                    invariant
                        0 <= i <= orig.len(),
                        rest@ == orig.skip(i),
                        others@ == spec_without_name(orig.take(i), main_container_name@),
                        main == spec_last_named(orig.take(i), main_container_name@),
                    decreases rest@.len(),
                {
                    let c = rest.remove(0);
                    proof {
                        assert(c == orig[i]);
                        assert(rest@ =~= orig.skip(i + 1));
                        assert(orig.take(i + 1).drop_last() =~= orig.take(i));
                        assert(orig.take(i + 1).last() == orig[i]);
                    }
                    if str_eq_str(c.name.as_str(), main_container_name) {
                        main = Some(c);
                    } else {
                        others.push(c);
                    }
                    proof {
                        i = i + 1;
                    }
                }
                proof {
                    assert(orig.take(orig.len() as int) =~= orig);
                }
                let main_container = match main {
                    Some(c) => c,
                    None => Container::named(main_container_name.to_owned()),
                };
                CurvinePod {
                    pod_without_main_container: Pod {
                        metadata,
                        spec: Some(
                            PodSpec {
                                containers: others,
                                init_containers,
                                volumes,
                                node_selector,
                                affinity,
                                restart_policy,
                                service_account_name,
                                tolerations,
                                dns_policy,
                                priority_class_name,
                                host_network,
                            },
                        ),
                    },
                    main_container,
                }
            },
        }
    }

    pub fn get_pod_without_main_container(&self) -> (r: &Pod)
        ensures
            *r == self.spec_pod(),
    {
        &self.pod_without_main_container
    }

    pub fn get_main_container(&self) -> (r: &Container)
        ensures
            *r == self.spec_main(),
    {
        &self.main_container
    }

    pub closed spec fn spec_pod(self) -> Pod {
        self.pod_without_main_container
    }

    pub closed spec fn spec_main(self) -> Container {
        self.main_container
    }
}

pub open spec fn spec_has_volume_name(vs: Seq<Volume>, name: Seq<char>) -> bool {
    exists|i: int| 0 <= i < vs.len() && vs[i].name@ == name
}

/// The template's volumes followed by every generated volume whose name
/// the template does not already carry.
pub open spec fn spec_merge_volumes(tpl: Seq<Volume>, gen: Seq<Volume>) -> Seq<Volume>
    decreases gen.len(),
{
    if gen.len() == 0 {
        tpl
    } else {
        let pre = spec_merge_volumes(tpl, gen.drop_last());
        if spec_has_volume_name(tpl, gen.last().name@) {
            pre
        } else {
            pre.push(gen.last())
        }
    }
}

pub open spec fn spec_has_mount_path(ms: Seq<VolumeMount>, path: Seq<char>) -> bool {
    exists|i: int| 0 <= i < ms.len() && ms[i].mount_path@ == path
}

/// The template's mounts followed by every generated mount whose path
/// the template does not already use.
pub open spec fn spec_merge_mounts(tpl: Seq<VolumeMount>, gen: Seq<VolumeMount>) -> Seq<
    VolumeMount,
>
    decreases gen.len(),
{
    if gen.len() == 0 {
        tpl
    } else {
        let pre = spec_merge_mounts(tpl, gen.drop_last());
        if spec_has_mount_path(tpl, gen.last().mount_path@) {
            pre
        } else {
            pre.push(gen.last())
        }
    }
}

/// The position of the first template environment variable under
/// `name`, or -1.
pub open spec fn spec_first_env_idx(es: Seq<EnvVar>, name: Seq<char>) -> int
    decreases es.len(),
{
    if es.len() == 0 {
        -1
    } else if es[0].name@ == name {
        0
    } else {
        let r = spec_first_env_idx(es.drop_first(), name);
        if r == -1 {
            -1
        } else {
            r + 1
        }
    }
}

/// The template's variables with every generated variable written over
/// the template entry of the same name, or appended when the name is
/// new; generated values are authoritative.
pub open spec fn spec_merge_env(tpl: Seq<EnvVar>, gen: Seq<EnvVar>) -> Seq<EnvVar>
    decreases gen.len(),
{
    if gen.len() == 0 {
        tpl
    } else {
        let pre = spec_merge_env(tpl, gen.drop_last());
        let g = gen.last();
        let k = spec_first_env_idx(tpl, g.name@);
        if k >= 0 {
            pre.update(k, g)
        } else {
            pre.push(g)
        }
    }
}

proof fn lemma_first_env_idx_at(es: Seq<EnvVar>, name: Seq<char>, i: int)
    requires
        0 <= i < es.len(),
        es[i].name@ == name,
        forall|j: int| 0 <= j < i ==> es[j].name@ != name,
    ensures
        spec_first_env_idx(es, name) == i,
    decreases i,
{
    if i > 0 {
        lemma_first_env_idx_at(es.drop_first(), name, i - 1);
    }
}

proof fn lemma_first_env_idx_none(es: Seq<EnvVar>, name: Seq<char>)
    requires
        forall|j: int| 0 <= j < es.len() ==> es[j].name@ != name,
    ensures
        spec_first_env_idx(es, name) == -1,
    decreases es.len(),
{
    if es.len() > 0 {
        lemma_first_env_idx_none(es.drop_first(), name);
    }
}

/// The path the generated set requires for a volume name: the path of
/// the last generated mount under that name.
pub open spec fn spec_bm_path(bm: Seq<VolumeMount>, name: Seq<char>) -> Option<Seq<char>>
    decreases bm.len(),
{
    if bm.len() == 0 {
        None
    } else if bm.last().name@ == name {
        Some(bm.last().mount_path@)
    } else {
        spec_bm_path(bm.drop_last(), name)
    }
}

/// True when a template mount shares a volume name with the generated
/// set but points somewhere else.
pub open spec fn spec_mount_conflict(u: VolumeMount, bm: Seq<VolumeMount>) -> bool {
    match spec_bm_path(bm, u.name@) {
        Some(p) => p != u.mount_path@,
        None => false,
    }
}

/// The first conflicting template mount, or -1.
pub open spec fn spec_first_conflict_idx(user: Seq<VolumeMount>, bm: Seq<VolumeMount>) -> int
    decreases user.len(),
{
    if user.len() == 0 {
        -1
    } else if spec_mount_conflict(user[0], bm) {
        0
    } else {
        let r = spec_first_conflict_idx(user.drop_first(), bm);
        if r == -1 {
            -1
        } else {
            r + 1
        }
    }
}

/// The message a mount-path mismatch carries: the volume name, the
/// template's path, the required path, and how to reconcile them.
pub open spec fn spec_mount_conflict_msg(name: Seq<char>, tpl: Seq<char>, req: Seq<char>) -> Seq<
    char,
> {
    "\n Volume mount path mismatch in Pod template\n\n  Volume Name: '"@ + name
        + "'\n  Pod Template mountPath: '"@ + tpl + "'\n  Required mountPath: '"@ + req
        + "'\n\n This volume mount path is determined by your curvine-cluster.toml configuration.\n Either update the Pod template to use the required mountPath, or update the matching directory in curvine-cluster.toml (master.meta_dir, journal.journal_dir, or worker.data_dir without its bracketed prefix).\n"@
}

fn mount_conflict_msg(name: &str, tpl: &str, req: &str) -> (r: String)
    ensures
        r@ == spec_mount_conflict_msg(name@, tpl@, req@),
{
    let mut m = "\n Volume mount path mismatch in Pod template\n\n  Volume Name: '".to_owned();
    m.append(name);
    m.append("'\n  Pod Template mountPath: '");
    m.append(tpl);
    m.append("'\n  Required mountPath: '");
    m.append(req);
    m.append(
        "'\n\n This volume mount path is determined by your curvine-cluster.toml configuration.\n Either update the Pod template to use the required mountPath, or update the matching directory in curvine-cluster.toml (master.meta_dir, journal.journal_dir, or worker.data_dir without its bracketed prefix).\n",
    );
    m
}

/// The required path for `name`, when the generated mounts carry it.
fn bm_lookup(bm: &Vec<VolumeMount>, name: &str) -> (r: Option<String>)
    ensures
        match r {
            Some(p) => spec_bm_path(bm@, name@) == Some(p@),
            None => spec_bm_path(bm@, name@) is None,
        },
{
    let mut cur: Option<String> = None;
    let mut k: usize = 0;
    while k < bm.len()
        invariant
            k <= bm@.len(),
            match cur {
                Some(p) => spec_bm_path(bm@.take(k as int), name@) == Some(p@),
                None => spec_bm_path(bm@.take(k as int), name@) is None,
            },
        decreases bm@.len() - k,
    {
        proof {
            assert(bm@.take(k + 1).drop_last() =~= bm@.take(k as int));
            assert(bm@.take(k + 1).last() == bm@[k as int]);
        }
        if str_eq_str(bm[k].name.as_str(), name) {
            cur = Some(bm[k].mount_path.clone());
        }
        k += 1;
    }
    proof {
        assert(bm@.take(bm@.len() as int) =~= bm@);
    }
    cur
}

/// Checks every template mount against the generated set: a shared
/// volume name must map to a byte-identical path, else the first
/// offender is reported with both paths.
pub fn validate_volume_mounts(user_mounts: &Vec<VolumeMount>, builder_mounts: &Vec<VolumeMount>)
    -> (r: Result<(), KubeError>)
    ensures
        match r {
            Ok(_) => spec_first_conflict_idx(user_mounts@, builder_mounts@) == -1,
            Err(e) => {
                let i = spec_first_conflict_idx(user_mounts@, builder_mounts@);
                &&& i >= 0
                &&& e matches KubeError::ValidationError(m) && m@ == spec_mount_conflict_msg(
                    user_mounts@[i].name@,
                    user_mounts@[i].mount_path@,
                    spec_bm_path(builder_mounts@, user_mounts@[i].name@).unwrap(),
                )
            },
        },
{
    let mut i: usize = 0;
    while i < user_mounts.len()
        invariant
            i <= user_mounts@.len(),
            forall|j: int| 0 <= j < i ==> !spec_mount_conflict(user_mounts@[j], builder_mounts@),
        decreases user_mounts@.len() - i,
    {
        let u = &user_mounts[i];
        match bm_lookup(builder_mounts, u.name.as_str()) {
            Some(expected) => {
                if !str_eq_str(u.mount_path.as_str(), expected.as_str()) {
                    proof {
                        lemma_first_conflict_at(user_mounts@, builder_mounts@, i as int);
                    }
                    return Err(
                        KubeError::ValidationError(
                            mount_conflict_msg(
                                u.name.as_str(),
                                u.mount_path.as_str(),
                                expected.as_str(),
                            ),
                        ),
                    );
                }
            },
            None => {},
        }
        i += 1;
    }
    proof {
        lemma_first_conflict_none(user_mounts@, builder_mounts@);
    }
    Ok(())
}

proof fn lemma_first_conflict_at(user: Seq<VolumeMount>, bm: Seq<VolumeMount>, i: int)
    requires
        0 <= i < user.len(),
        spec_mount_conflict(user[i], bm),
        forall|j: int| 0 <= j < i ==> !spec_mount_conflict(user[j], bm),
    ensures
        spec_first_conflict_idx(user, bm) == i,
    decreases i,
{
    if i > 0 {
        lemma_first_conflict_at(user.drop_first(), bm, i - 1);
    }
}

proof fn lemma_first_conflict_none(user: Seq<VolumeMount>, bm: Seq<VolumeMount>)
    requires
        forall|j: int| 0 <= j < user.len() ==> !spec_mount_conflict(user[j], bm),
    ensures
        spec_first_conflict_idx(user, bm) == -1,
    decreases user.len(),
{
    if user.len() > 0 {
        lemma_first_conflict_none(user.drop_first(), bm);
    }
}

/// A template mount that shares its volume name with the generated set
/// under a different path makes the whole merge fail: the first
/// conflict index is then defined, and `merge_pod_with_template`
/// returns the error carrying both paths.
pub proof fn lemma_conflicting_mount_rejected(
    user: Seq<VolumeMount>,
    bm: Seq<VolumeMount>,
    i: int,
)
    requires
        0 <= i < user.len(),
        spec_mount_conflict(user[i], bm),
    ensures
        spec_first_conflict_idx(user, bm) >= 0,
    decreases user.len(),
{
    if !spec_mount_conflict(user[0], bm) {
        lemma_conflicting_mount_rejected(user.drop_first(), bm, i - 1);
    }
}

pub open spec fn spec_count_mount_path(ms: Seq<VolumeMount>, path: Seq<char>) -> nat
    decreases ms.len(),
{
    if ms.len() == 0 {
        0
    } else {
        spec_count_mount_path(ms.drop_last(), path) + (if ms.last().mount_path@ == path {
            1nat
        } else {
            0nat
        })
    }
}

proof fn lemma_count_pos_has(ms: Seq<VolumeMount>, path: Seq<char>)
    requires
        spec_count_mount_path(ms, path) > 0,
    ensures
        spec_has_mount_path(ms, path),
    decreases ms.len(),
{
    if ms.len() > 0 {
        if ms.last().mount_path@ == path {
            assert(ms[ms.len() - 1].mount_path@ == path);
        } else {
            lemma_count_pos_has(ms.drop_last(), path);
            let i = choose|i: int|
                0 <= i < ms.drop_last().len() && ms.drop_last()[i].mount_path@ == path;
            assert(ms[i].mount_path@ == path);
        }
    }
}

/// A path the template already carries once comes out of the merge
/// exactly once: a generated mount with a matching path is not added
/// again.
pub proof fn lemma_matching_mount_merged_once(
    tpl: Seq<VolumeMount>,
    gen: Seq<VolumeMount>,
    path: Seq<char>,
)
    requires
        spec_count_mount_path(tpl, path) == 1,
    ensures
        spec_count_mount_path(spec_merge_mounts(tpl, gen), path) == 1,
    decreases gen.len(),
{
    if gen.len() > 0 {
        lemma_matching_mount_merged_once(tpl, gen.drop_last(), path);
        let pre = spec_merge_mounts(tpl, gen.drop_last());
        if !spec_has_mount_path(tpl, gen.last().mount_path@) {
            if gen.last().mount_path@ == path {
                lemma_count_pos_has(tpl, path);
            } else {
                assert(pre.push(gen.last()).drop_last() =~= pre);
            }
        }
    }
}

/// The first container of the generated pod, the one the merge reads
/// generated values from.
pub open spec fn spec_builder_container(builder: Pod) -> Option<Container> {
    match builder.spec {
        Some(s) => if s.containers@.len() > 0 {
            Some(s.containers@[0])
        } else {
            None
        },
        None => None,
    }
}

pub open spec fn spec_bc_env(bc: Option<Container>) -> Seq<EnvVar> {
    match bc {
        Some(c) => match c.env {
            Some(e) => e@,
            None => Seq::empty(),
        },
        None => Seq::empty(),
    }
}

pub open spec fn spec_opt_labels(l: Option<Vec<(String, String)>>) -> Seq<(String, String)> {
    match l {
        Some(v) => v@,
        None => Seq::empty(),
    }
}

pub open spec fn spec_opt_mounts(m: Option<Vec<VolumeMount>>) -> Seq<VolumeMount> {
    match m {
        Some(v) => v@,
        None => Seq::empty(),
    }
}

pub open spec fn spec_opt_env(e: Option<Vec<EnvVar>>) -> Seq<EnvVar> {
    match e {
        Some(v) => v@,
        None => Seq::empty(),
    }
}

pub open spec fn spec_opt_volumes(v: Option<Vec<Volume>>) -> Seq<Volume> {
    match v {
        Some(vs) => vs@,
        None => Seq::empty(),
    }
}

/// Whether a resource requirement is absent or carries neither
/// requests nor limits; only then does the generated value fill in.
pub open spec fn spec_resources_trivial(
    r: Option<crate::model::ResourceRequirements>,
) -> bool {
    match r {
        None => true,
        Some(rr) => rr.requests is None && rr.limits is None,
    }
}

/// The merged main container: template fields, with merged environment
/// and mounts, and generated values filled into the six fields the
/// template left empty.
pub open spec fn spec_merged_main(
    tmain: Container,
    bc: Option<Container>,
    gen_mounts: Seq<VolumeMount>,
    out: Container,
) -> bool {
    &&& out.name == tmain.name
    &&& out.image == tmain.image
    &&& out.image_pull_policy == tmain.image_pull_policy
    &&& out.command == tmain.command
    &&& out.ports == tmain.ports
    &&& out.security_context == tmain.security_context
    &&& out.env matches Some(e) && e@ == spec_merge_env(
        spec_opt_env(tmain.env),
        spec_bc_env(bc),
    )
    &&& out.volume_mounts matches Some(m) && m@ == spec_merge_mounts(
        spec_opt_mounts(tmain.volume_mounts),
        gen_mounts,
    )
    &&& out.working_dir == (if tmain.working_dir is Some {
        tmain.working_dir
    } else {
        match bc {
            Some(c) => c.working_dir,
            None => None,
        }
    })
    &&& out.args == (if tmain.args is Some {
        tmain.args
    } else {
        match bc {
            Some(c) => c.args,
            None => None,
        }
    })
    &&& out.resources == (if spec_resources_trivial(tmain.resources) {
        match bc {
            Some(c) => c.resources,
            None => None,
        }
    } else {
        tmain.resources
    })
    &&& out.liveness_probe == (if tmain.liveness_probe is Some {
        tmain.liveness_probe
    } else {
        match bc {
            Some(c) => c.liveness_probe,
            None => None,
        }
    })
    &&& out.readiness_probe == (if tmain.readiness_probe is Some {
        tmain.readiness_probe
    } else {
        match bc {
            Some(c) => c.readiness_probe,
            None => None,
        }
    })
    &&& out.lifecycle == (if tmain.lifecycle is Some {
        tmain.lifecycle
    } else {
        match bc {
            Some(c) => c.lifecycle,
            None => None,
        }
    })
}

/// The merged pod: the template pod's metadata and spec fields carried
/// over, labels unioned with generated entries winning, volumes
/// unioned with template entries winning, and the merged main
/// container appended after the template's other containers.
pub open spec fn spec_merged_pod(
    tpod: Pod,
    tmain: Container,
    builder: Pod,
    gen_volumes: Seq<Volume>,
    gen_mounts: Seq<VolumeMount>,
    gen_labels: Seq<(String, String)>,
    out: Pod,
) -> bool {
    let bc = spec_builder_container(builder);
    &&& out.metadata.name == tpod.metadata.name
    &&& crate::model::opt_vec_view(out.metadata.annotations) == crate::model::opt_vec_view(
        tpod.metadata.annotations,
    )
    &&& out.metadata.labels matches Some(l) && (forall|q: Seq<char>| #[trigger]
        spec_kv_lookup(l@, q) == if spec_kv_last_lookup(gen_labels, q) is Some {
            spec_kv_last_lookup(gen_labels, q)
        } else {
            spec_kv_lookup(spec_opt_labels(tpod.metadata.labels), q)
        })
    &&& match tpod.spec {
        None => out.spec is None,
        Some(ts) => out.spec matches Some(os) && {
            &&& os.volumes matches Some(v) && v@ == spec_merge_volumes(
                spec_opt_volumes(ts.volumes),
                gen_volumes,
            )
            &&& os.containers@.len() == ts.containers@.len() + 1
            &&& forall|i: int|
                0 <= i < ts.containers@.len() ==> os.containers@[i] == ts.containers@[i]
            &&& spec_merged_main(tmain, bc, gen_mounts, os.containers@.last())
            &&& os.init_containers == ts.init_containers
            &&& os.node_selector == ts.node_selector
            &&& os.affinity == ts.affinity
            &&& os.restart_policy == ts.restart_policy
            &&& os.service_account_name == ts.service_account_name
            &&& os.tolerations == ts.tolerations
            &&& os.dns_policy == ts.dns_policy
            &&& os.priority_class_name == ts.priority_class_name
            &&& os.host_network == ts.host_network
        },
    }
}

/// The identity path taken when no template is supplied: the generated
/// pod itself, with the generated volumes attached to its spec and the
/// generated mounts attached to its first container.
pub open spec fn spec_applied_builder(
    builder: Pod,
    volumes: Vec<Volume>,
    mounts: Vec<VolumeMount>,
    out: Pod,
) -> bool {
    match builder.spec {
        None => out == builder,
        Some(s) => {
            &&& out.metadata == builder.metadata
            &&& out.spec matches Some(os)
            &&& (out.spec matches Some(os) ==> {
                &&& os.volumes == Some(volumes)
                &&& os.containers@.len() == s.containers@.len()
                &&& (s.containers@.len() > 0 ==> os.containers@[0] == (Container {
                    volume_mounts: Some(mounts),
                    ..s.containers@[0]
                }))
                &&& forall|i: int|
                    1 <= i < s.containers@.len() ==> os.containers@[i] == s.containers@[i]
                &&& os.init_containers == s.init_containers
                &&& os.node_selector == s.node_selector
                &&& os.affinity == s.affinity
                &&& os.restart_policy == s.restart_policy
                &&& os.service_account_name == s.service_account_name
                &&& os.tolerations == s.tolerations
                &&& os.dns_policy == s.dns_policy
                &&& os.priority_class_name == s.priority_class_name
                &&& os.host_network == s.host_network
            })
        },
    }
}

fn apply_builder_to_pod(pod: Pod, volumes: Vec<Volume>, mounts: Vec<VolumeMount>) -> (r: Pod)
    ensures
        spec_applied_builder(pod, volumes, mounts, r),
{
    let Pod { metadata, spec } = pod;
    match spec {
        None => Pod { metadata, spec: None },
        Some(s) => {
            let PodSpec {
                containers,
                init_containers,
                volumes: _old_volumes,
                node_selector,
                affinity,
                restart_policy,
                service_account_name,
                tolerations,
                dns_policy,
                priority_class_name,
                host_network,
            } = s;
            let ghost orig = containers@;
            let mut containers = containers;
            if containers.len() > 0 {
                let mut c0 = containers.remove(0);
                c0.volume_mounts = Some(mounts);
                containers.insert(0, c0);
                proof {
                    assert(containers@ =~= orig.update(
                        0,
                        Container { volume_mounts: containers@[0].volume_mounts, ..orig[0] },
                    ));
                }
            }
            Pod {
                metadata,
                spec: Some(
                    PodSpec {
                        containers,
                        init_containers,
                        volumes: Some(volumes),
                        node_selector,
                        affinity,
                        restart_policy,
                        service_account_name,
                        tolerations,
                        dns_policy,
                        priority_class_name,
                        host_network,
                    },
                ),
            }
        },
    }
}

/// Combines the generated pod with an optional user template.  Without
/// a template, the generated volumes and mounts are attached to the
/// generated pod as they stand.  With one, labels, volumes, mounts and
/// environment variables are unioned under the engine's precedence
/// rules — after every shared volume name is checked to map to the
/// same path on both sides, a mismatch failing the merge with a
/// message naming the volume and both paths.
pub fn merge_pod_with_template(
    template_pod: Option<CurvinePod>,
    builder_pod: Pod,
    builder_volumes: Vec<Volume>,
    builder_mounts: Vec<VolumeMount>,
    builder_labels: Vec<(String, String)>,
) -> (r: Result<Pod, KubeError>)
    ensures
        match r {
            Ok(p) => match template_pod {
                None => spec_applied_builder(builder_pod, builder_volumes, builder_mounts, p),
                Some(t) => spec_first_conflict_idx(
                    spec_opt_mounts(t.spec_main().volume_mounts),
                    builder_mounts@,
                ) == -1 && spec_merged_pod(
                    t.spec_pod(),
                    t.spec_main(),
                    builder_pod,
                    builder_volumes@,
                    builder_mounts@,
                    builder_labels@,
                    p,
                ),
            },
            Err(e) => template_pod matches Some(t) && {
                let tm = spec_opt_mounts(t.spec_main().volume_mounts);
                let i = spec_first_conflict_idx(tm, builder_mounts@);
                &&& i >= 0
                &&& e matches KubeError::ValidationError(m) && m@ == spec_mount_conflict_msg(
                    tm[i].name@,
                    tm[i].mount_path@,
                    spec_bm_path(builder_mounts@, tm[i].name@).unwrap(),
                )
            },
        },
{
    match template_pod {
        Some(t) => merge_with_template_impl(
            t,
            builder_pod,
            builder_volumes,
            builder_mounts,
            builder_labels,
        ),
        None => Ok(apply_builder_to_pod(builder_pod, builder_volumes, builder_mounts)),
    }
}

#[verifier::rlimit(100)]
fn merge_with_template_impl(
    template: CurvinePod,
    builder_pod: Pod,
    builder_volumes: Vec<Volume>,
    builder_mounts: Vec<VolumeMount>,
    builder_labels: Vec<(String, String)>,
) -> (r: Result<Pod, KubeError>)
    ensures
        match r {
            Ok(p) => spec_first_conflict_idx(
                spec_opt_mounts(template.spec_main().volume_mounts),
                builder_mounts@,
            ) == -1 && spec_merged_pod(
                template.spec_pod(),
                template.spec_main(),
                builder_pod,
                builder_volumes@,
                builder_mounts@,
                builder_labels@,
                p,
            ),
            Err(e) => {
                let tm = spec_opt_mounts(template.spec_main().volume_mounts);
                let i = spec_first_conflict_idx(tm, builder_mounts@);
                &&& i >= 0
                &&& e matches KubeError::ValidationError(m) && m@ == spec_mount_conflict_msg(
                    tm[i].name@,
                    tm[i].mount_path@,
                    spec_bm_path(builder_mounts@, tm[i].name@).unwrap(),
                )
            },
        },
{
    let ghost tpodg = template.pod_without_main_container;
    let ghost tmaing = template.main_container;
    let ghost bpg = builder_pod;
    let CurvinePod { pod_without_main_container: tpod, main_container: tmain } = template;
    let Pod { metadata: tmeta, spec: tspec } = tpod;
    let PodMeta { name: tname, labels: tlabels, annotations: tannots } = tmeta;

    // labels: start from the template's, generated entries win
    let ghost tlabelsg = tlabels;
    let mut labels: Vec<(String, String)> = match tlabels {
        Some(l) => l,
        None => Vec::new(),
    };
    proof {
        assert(labels@ == spec_opt_labels(tlabelsg));
    }
    kv_extend(&mut labels, &builder_labels);

    // template main container, taken apart
    let Container {
        name: m_name,
        image: m_image,
        image_pull_policy: m_ipp,
        command: m_command,
        args: m_args,
        working_dir: m_wd,
        env: m_env,
        ports: m_ports,
        volume_mounts: m_mounts,
        resources: m_res,
        liveness_probe: m_live,
        readiness_probe: m_ready,
        lifecycle: m_lc,
        security_context: m_sec,
    } = tmain;
    let ghost m_env_g = m_env;
    let ghost m_mounts_g = m_mounts;
    let tpl_mounts: Vec<VolumeMount> = match m_mounts {
        Some(m) => m,
        None => Vec::new(),
    };
    proof {
        assert(tpl_mounts@ == spec_opt_mounts(m_mounts_g));
    }

    // generated values come from the generated pod's first container
    let Pod { metadata: _b_meta, spec: b_spec } = builder_pod;
    let bc: Option<Container> = match b_spec {
        Some(s) => {
            let mut cs = s.containers;
            if cs.len() > 0 {
                Some(cs.remove(0))
            } else {
                None
            }
        },
        None => None,
    };
    proof {
        assert(bc == spec_builder_container(bpg));
    }

    // mount paths must agree before anything is unioned
    match validate_volume_mounts(&tpl_mounts, &builder_mounts) {
        Err(e) => {
            return Err(e);
        },
        Ok(_) => {},
    }

    // environment: template variables, generated ones overwrite
    let mut merged_env: Vec<EnvVar> = match m_env {
        Some(e) => e,
        None => Vec::new(),
    };
    let ghost tple = merged_env@;
    proof {
        assert(tple == spec_opt_env(m_env_g));
    }
    let tpl_env_len = merged_env.len();
    let ghost gseq = spec_bc_env(bc);
    let mut gen_env: Vec<EnvVar> = Vec::new();
    let (bc_wd, bc_args, bc_res, bc_live, bc_ready, bc_lc) = match bc {
        Some(c) => {
            let Container {
                env,
                working_dir,
                args,
                resources,
                liveness_probe,
                readiness_probe,
                lifecycle,
                ..
            } = c;
            match env {
                Some(e) => {
                    gen_env = e;
                },
                None => {},
            }
            (working_dir, args, resources, liveness_probe, readiness_probe, lifecycle)
        },
        None => (None, None, None, None, None, None),
    };
    proof {
        assert(gen_env@ == gseq);
    }
    let ghost mut gi: int = 0;
    let mut ge = gen_env;
    while ge.len() > 0
        invariant
            0 <= gi <= gseq.len(),
            ge@ == gseq.skip(gi),
            merged_env@ == spec_merge_env(tple, gseq.take(gi)),
            merged_env@.len() >= tple.len(),
            tpl_env_len == tple.len(),
            forall|j: int| 0 <= j < tple.len() ==> merged_env@[j].name@ == tple[j].name@,
        decreases ge@.len(),
    {
        let g = ge.remove(0);
        proof {
            assert(g == gseq[gi]);
            assert(ge@ =~= gseq.skip(gi + 1));
            assert(gseq.take(gi + 1).drop_last() =~= gseq.take(gi));
            assert(gseq.take(gi + 1).last() == gseq[gi]);
        }
        let mut k: usize = 0;
        let mut found = false;
        let mut idx: usize = 0;
        while k < tpl_env_len
            invariant
                tpl_env_len <= merged_env@.len(),
                tpl_env_len == tple.len(),
                k <= tpl_env_len,
                forall|j: int| 0 <= j < tple.len() ==> merged_env@[j].name@ == tple[j].name@,
                found ==> idx < k && tple[idx as int].name@ == g.name@ && (forall|j: int|
                    0 <= j < idx ==> tple[j].name@ != g.name@),
                !found ==> forall|j: int| 0 <= j < k ==> tple[j].name@ != g.name@,
            decreases tpl_env_len - k,
        {
            if !found && str_eq_str(merged_env[k].name.as_str(), g.name.as_str()) {
                found = true;
                idx = k;
            }
            k += 1;
        }
        if found {
            proof {
                lemma_first_env_idx_at(tple, g.name@, idx as int);
            }
            let ghost pre = merged_env@;
            merged_env.remove(idx);
            merged_env.insert(idx, g);
            proof {
                assert(merged_env@ =~= pre.update(idx as int, g));
            }
        } else {
            proof {
                lemma_first_env_idx_none(tple, g.name@);
            }
            merged_env.push(g);
        }
        proof {
            gi = gi + 1;
        }
    }
    proof {
        assert(gseq.take(gseq.len() as int) =~= gseq);
    }

    // mounts: the template's, then generated mounts under new paths
    let mut merged_mounts = tpl_mounts;
    let ghost tplm = merged_mounts@;
    let tpl_mounts_len = merged_mounts.len();
    let ghost gmseq = builder_mounts@;
    let mut bmv = builder_mounts;
    let ghost mut mi: int = 0;
    while bmv.len() > 0
        invariant
            0 <= mi <= gmseq.len(),
            bmv@ == gmseq.skip(mi),
            merged_mounts@ == spec_merge_mounts(tplm, gmseq.take(mi)),
            merged_mounts@.len() >= tplm.len(),
            tpl_mounts_len == tplm.len(),
            forall|j: int| 0 <= j < tplm.len() ==> merged_mounts@[j] == tplm[j],
        decreases bmv@.len(),
    {
        let g = bmv.remove(0);
        proof {
            assert(g == gmseq[mi]);
            assert(bmv@ =~= gmseq.skip(mi + 1));
            assert(gmseq.take(mi + 1).drop_last() =~= gmseq.take(mi));
            assert(gmseq.take(mi + 1).last() == gmseq[mi]);
        }
        let mut k: usize = 0;
        let mut found = false;
        while k < tpl_mounts_len
            invariant
                tpl_mounts_len <= merged_mounts@.len(),
                tpl_mounts_len == tplm.len(),
                k <= tpl_mounts_len,
                forall|j: int| 0 <= j < tplm.len() ==> merged_mounts@[j] == tplm[j],
                found ==> spec_has_mount_path(tplm, g.mount_path@),
                !found ==> forall|j: int| 0 <= j < k ==> tplm[j].mount_path@ != g.mount_path@,
            decreases tpl_mounts_len - k,
        {
            if !found && str_eq_str(merged_mounts[k].mount_path.as_str(), g.mount_path.as_str()) {
                proof {
                    assert(tplm[k as int].mount_path@ == g.mount_path@);
                    assert(spec_has_mount_path(tplm, g.mount_path@));
                }
                found = true;
            }
            k += 1;
        }
        if !found {
            merged_mounts.push(g);
        }
        proof {
            mi = mi + 1;
        }
    }
    proof {
        assert(gmseq.take(gmseq.len() as int) =~= gmseq);
    }

    // scalar fields: keep the template's when present
    let working_dir = match m_wd {
        Some(w) => Some(w),
        None => bc_wd,
    };
    let args = match m_args {
        Some(a) => Some(a),
        None => bc_args,
    };
    let resources = match m_res {
        None => bc_res,
        Some(rr) => {
            if rr.requests.is_none() && rr.limits.is_none() {
                bc_res
            } else {
                Some(rr)
            }
        },
    };
    let liveness_probe = match m_live {
        Some(p) => Some(p),
        None => bc_live,
    };
    let readiness_probe = match m_ready {
        Some(p) => Some(p),
        None => bc_ready,
    };
    let lifecycle = match m_lc {
        Some(l) => Some(l),
        None => bc_lc,
    };

    let merged_main = Container {
        name: m_name,
        image: m_image,
        image_pull_policy: m_ipp,
        command: m_command,
        args,
        working_dir,
        env: Some(merged_env),
        ports: m_ports,
        volume_mounts: Some(merged_mounts),
        resources,
        liveness_probe,
        readiness_probe,
        lifecycle,
        security_context: m_sec,
    };

    match tspec {
        None => {
            Ok(
                Pod {
                    metadata: PodMeta { name: tname, labels: Some(labels), annotations: tannots },
                    spec: None,
                },
            )
        },
        Some(ts) => {
            let PodSpec {
                containers,
                init_containers,
                volumes,
                node_selector,
                affinity,
                restart_policy,
                service_account_name,
                tolerations,
                dns_policy,
                priority_class_name,
                host_network,
            } = ts;
            // volumes: the template's, then generated volumes under new names
            let ghost volumes_g = volumes;
            let mut merged_volumes: Vec<Volume> = match volumes {
                Some(v) => v,
                None => Vec::new(),
            };
            let ghost tplv = merged_volumes@;
            proof {
                assert(tplv == spec_opt_volumes(volumes_g));
            }
            let tpl_vols_len = merged_volumes.len();
            let ghost gvseq = builder_volumes@;
            let mut bvv = builder_volumes;
            let ghost mut vi: int = 0;
            while bvv.len() > 0
                invariant
                    0 <= vi <= gvseq.len(),
                    bvv@ == gvseq.skip(vi),
                    merged_volumes@ == spec_merge_volumes(tplv, gvseq.take(vi)),
                    merged_volumes@.len() >= tplv.len(),
                    tpl_vols_len == tplv.len(),
                    forall|j: int| 0 <= j < tplv.len() ==> merged_volumes@[j] == tplv[j],
                decreases bvv@.len(),
            {
                let g = bvv.remove(0);
                proof {
                    assert(g == gvseq[vi]);
                    assert(bvv@ =~= gvseq.skip(vi + 1));
                    assert(gvseq.take(vi + 1).drop_last() =~= gvseq.take(vi));
                    assert(gvseq.take(vi + 1).last() == gvseq[vi]);
                }
                let mut k: usize = 0;
                let mut found = false;
                while k < tpl_vols_len
                    invariant
                        tpl_vols_len <= merged_volumes@.len(),
                        tpl_vols_len == tplv.len(),
                        k <= tpl_vols_len,
                        forall|j: int| 0 <= j < tplv.len() ==> merged_volumes@[j] == tplv[j],
                        found ==> spec_has_volume_name(tplv, g.name@),
                        !found ==> forall|j: int| 0 <= j < k ==> tplv[j].name@ != g.name@,
                    decreases tpl_vols_len - k,
                {
                    if !found && str_eq_str(merged_volumes[k].name.as_str(), g.name.as_str()) {
                        proof {
                            assert(tplv[k as int].name@ == g.name@);
                            assert(spec_has_volume_name(tplv, g.name@));
                        }
                        found = true;
                    }
                    k += 1;
                }
                if !found {
                    merged_volumes.push(g);
                }
                proof {
                    vi = vi + 1;
                }
            }
            proof {
                assert(gvseq.take(gvseq.len() as int) =~= gvseq);
            }

            let mut out_containers = containers;
            out_containers.push(merged_main);
            Ok(
                Pod {
                    metadata: PodMeta { name: tname, labels: Some(labels), annotations: tannots },
                    spec: Some(
                        PodSpec {
                            containers: out_containers,
                            init_containers,
                            volumes: Some(merged_volumes),
                            node_selector,
                            affinity,
                            restart_policy,
                            service_account_name,
                            tolerations,
                            dns_policy,
                            priority_class_name,
                            host_network,
                        },
                    ),
                },
            )
        },
    }
}

} // verus!
