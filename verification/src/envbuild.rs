//! Per-role environment variables and the graceful-shutdown hook,
//! built purely from the resolved specification.

use vstd::prelude::*;

use crate::kv::{
    kv_extend, lemma_kv_lookup_at_unique, lemma_kv_lookup_some_index, spec_kv_last_lookup,
    spec_kv_lookup, spec_kv_unique,
};
use crate::model::{EnvVar, Lifecycle};
use crate::text::{fmt_u32, spec_dec};

verus! {

/// The stable per-replica hostname a master resolves for itself.
pub open spec fn spec_master_self_fqdn(
    cluster_id: Seq<char>,
    namespace: Seq<char>,
    domain: Seq<char>,
) -> Seq<char> {
    "$(POD_NAME)."@ + cluster_id + "-master."@ + namespace + ".svc."@ + domain
}

/// The first master's hostname, the address a worker connects to.
pub open spec fn spec_worker_master_addr(
    cluster_id: Seq<char>,
    namespace: Seq<char>,
    domain: Seq<char>,
) -> Seq<char> {
    cluster_id + "-master-0."@ + cluster_id + "-master."@ + namespace + ".svc."@ + domain
}

/// The stable per-replica hostname a worker resolves for itself.
pub open spec fn spec_worker_self_fqdn(
    cluster_id: Seq<char>,
    namespace: Seq<char>,
    domain: Seq<char>,
) -> Seq<char> {
    "$(POD_NAME)."@ + cluster_id + "-worker."@ + namespace + ".svc."@ + domain
}

/// A literal-valued variable.
pub open spec fn spec_env_literal(e: EnvVar, name: Seq<char>, value: Seq<char>) -> bool {
    e.name@ == name && (e.value matches Some(v) && v@ == value) && e.value_from_field is None
}

/// The operator-supplied variables as they stand in a container's
/// environment list: one literal entry per distinct name, carrying the
/// last value given for that name, and nothing else.
pub open spec fn spec_custom_env_tail(tail: Seq<EnvVar>, vars: Seq<(String, String)>) -> bool {
    &&& forall|j: int|
        0 <= j < tail.len() ==> (#[trigger] tail[j]).value_from_field is None && (match tail[j]
            .value {
            Some(v) => spec_kv_last_lookup(vars, tail[j].name@) == Some(v@),
            None => false,
        })
    &&& forall|j1: int, j2: int| 0 <= j1 < j2 < tail.len() ==> tail[j1].name@ != tail[j2].name@
    &&& forall|q: Seq<char>|
        #[trigger] spec_kv_last_lookup(vars, q) is Some ==> exists|j: int|
            0 <= j < tail.len() && (#[trigger] tail[j]).name@ == q
}

/// A variable drawn from the platform's downward API.
pub open spec fn spec_env_field(e: EnvVar, name: Seq<char>, field: Seq<char>) -> bool {
    e.name@ == name && e.value is None && (e.value_from_field matches Some(f) && f@ == field)
}

/// The four variables every Curvine container gets.
pub open spec fn spec_base_env(es: Seq<EnvVar>) -> bool {
    &&& es.len() == 4
    &&& spec_env_literal(es[0], "APP_HOME"@, "/app"@)
    &&& spec_env_literal(es[1], "CURVINE_HOME"@, "/app/curvine"@)
    &&& spec_env_literal(es[2], "CURVINE_CONF_FILE"@, "/app/curvine/conf/curvine-cluster.toml"@)
    &&& spec_env_literal(es[3], "ORPC_BIND_HOSTNAME"@, "0.0.0.0"@)
}

/// The three platform-derived variables.
pub open spec fn spec_k8s_env(es: Seq<EnvVar>, domain: Seq<char>) -> bool {
    &&& es.len() == 3
    &&& spec_env_field(es[0], "POD_IP"@, "status.podIP"@)
    &&& spec_env_field(es[1], "POD_NAMESPACE"@, "metadata.namespace"@)
    &&& spec_env_literal(es[2], "POD_CLUSTER_DOMAIN"@, domain)
}

pub struct EnvironmentBuilder {
    component: &'static str,
    cluster_id: String,
    namespace: String,
    cluster_domain: String,
    custom_vars: Vec<(String, String)>,
}

impl EnvironmentBuilder {
    pub fn new(
        component: &'static str,
        cluster_id: String,
        namespace: String,
        cluster_domain: String,
    ) -> (r: EnvironmentBuilder)
        ensures
            r.spec_component()@ == component@,
            r.spec_cluster_id() == cluster_id,
            r.spec_namespace() == namespace,
            r.spec_cluster_domain() == cluster_domain,
            r.spec_custom_vars() == Seq::<(String, String)>::empty(),
    {
        EnvironmentBuilder {
            component,
            cluster_id,
            namespace,
            cluster_domain,
            custom_vars: Vec::new(),
        }
    }

    pub closed spec fn spec_component(self) -> &'static str {
        self.component
    }

    pub closed spec fn spec_cluster_id(self) -> String {
        self.cluster_id
    }

    pub closed spec fn spec_namespace(self) -> String {
        self.namespace
    }

    pub closed spec fn spec_cluster_domain(self) -> String {
        self.cluster_domain
    }

    pub closed spec fn spec_custom_vars(self) -> Seq<(String, String)> {
        self.custom_vars@
    }

    /// Adds operator-supplied variables: a variable under a name the
    /// builder already carries overwrites the earlier value, a new
    /// name is appended.
    pub fn with_custom_vars(self, vars: &Vec<(String, String)>) -> (r: EnvironmentBuilder)
        ensures
            r.spec_component() == self.spec_component(),
            r.spec_cluster_id() == self.spec_cluster_id(),
            r.spec_namespace() == self.spec_namespace(),
            r.spec_cluster_domain() == self.spec_cluster_domain(),
            forall|q: Seq<char>| #[trigger]
                spec_kv_lookup(r.spec_custom_vars(), q) == if spec_kv_last_lookup(vars@, q)
                    is Some {
                    spec_kv_last_lookup(vars@, q)
                } else {
                    spec_kv_lookup(self.spec_custom_vars(), q)
                },
            spec_kv_unique(self.spec_custom_vars()) ==> spec_kv_unique(r.spec_custom_vars()),
    {
        let EnvironmentBuilder { component, cluster_id, namespace, cluster_domain, custom_vars } =
            self;
        let mut custom_vars = custom_vars;
        kv_extend(&mut custom_vars, vars);
        EnvironmentBuilder { component, cluster_id, namespace, cluster_domain, custom_vars }
    }

    /// The custom section of a built environment list equals the
    /// overwrite-union the builder holds, entry for entry.
    pub proof fn lemma_custom_tail(self, tail: Seq<EnvVar>, vars: Seq<(String, String)>)
        requires
            spec_kv_unique(self.spec_custom_vars()),
            forall|q: Seq<char>| #[trigger]
                spec_kv_lookup(self.spec_custom_vars(), q) == spec_kv_last_lookup(vars, q),
            tail.len() == self.spec_custom_vars().len(),
            forall|i: int|
                0 <= i < self.spec_custom_vars().len() ==> spec_env_literal(
                    #[trigger] tail[i],
                    self.spec_custom_vars()[i].0@,
                    self.spec_custom_vars()[i].1@,
                ),
        ensures
            spec_custom_env_tail(tail, vars),
    {
        let cv = self.spec_custom_vars();
        assert forall|j: int|
            0 <= j < tail.len() implies (#[trigger] tail[j]).value_from_field is None && (
        match tail[j].value {
            Some(v) => spec_kv_last_lookup(vars, tail[j].name@) == Some(v@),
            None => false,
        }) by {
            lemma_kv_lookup_at_unique(cv, j);
            assert(spec_kv_lookup(cv, cv[j].0@) == Some(cv[j].1@));
        }
        assert forall|q: Seq<char>|
            #[trigger] spec_kv_last_lookup(vars, q) is Some implies exists|j: int|
            0 <= j < tail.len() && (#[trigger] tail[j]).name@ == q by {
            assert(spec_kv_lookup(cv, q) is Some);
            lemma_kv_lookup_some_index(cv, q);
            let j = choose|j: int|
                0 <= j < cv.len() && (#[trigger] cv[j]).0@ == q && Some(cv[j].1@)
                    == spec_kv_lookup(cv, q);
            assert(tail[j].name@ == q);
        }
    }

    /// The variables a component's container carries: the base set, the
    /// platform set, the per-component hostnames, then the custom ones.
    #[verifier::loop_isolation(false)]
    pub fn build(self) -> (r: Vec<EnvVar>)
        ensures
            spec_base_env(r@.take(4)),
            spec_k8s_env(r@.subrange(4, 7), self.spec_cluster_domain()@),
            self.spec_component()@ == "master"@ ==> {
                &&& r@.len() == 9 + self.spec_custom_vars().len()
                &&& spec_env_field(r@[7], "POD_NAME"@, "metadata.name"@)
                &&& spec_env_literal(
                    r@[8],
                    "CURVINE_MASTER_HOSTNAME"@,
                    spec_master_self_fqdn(
                        self.spec_cluster_id()@,
                        self.spec_namespace()@,
                        self.spec_cluster_domain()@,
                    ),
                )
                &&& forall|i: int|
                    0 <= i < self.spec_custom_vars().len() ==> spec_env_literal(
                        #[trigger] r@[9 + i],
                        self.spec_custom_vars()[i].0@,
                        self.spec_custom_vars()[i].1@,
                    )
            },
            self.spec_component()@ == "worker"@ ==> {
                &&& r@.len() == 10 + self.spec_custom_vars().len()
                &&& spec_env_field(r@[7], "POD_NAME"@, "metadata.name"@)
                &&& spec_env_literal(
                    r@[8],
                    "CURVINE_MASTER_HOSTNAME"@,
                    spec_worker_master_addr(
                        self.spec_cluster_id()@,
                        self.spec_namespace()@,
                        self.spec_cluster_domain()@,
                    ),
                )
                &&& spec_env_literal(
                    r@[9],
                    "CURVINE_WORKER_HOSTNAME"@,
                    spec_worker_self_fqdn(
                        self.spec_cluster_id()@,
                        self.spec_namespace()@,
                        self.spec_cluster_domain()@,
                    ),
                )
                &&& forall|i: int|
                    0 <= i < self.spec_custom_vars().len() ==> spec_env_literal(
                        #[trigger] r@[10 + i],
                        self.spec_custom_vars()[i].0@,
                        self.spec_custom_vars()[i].1@,
                    )
            },
    {
        proof {
            reveal_strlit("master");
            reveal_strlit("worker");
            assert("master"@.len() == 6);
            assert("worker"@.len() == 6);
            assert("master"@[0] == 'm' && "worker"@[0] == 'w');
            assert("master"@ != "worker"@);
        }
        let EnvironmentBuilder { component, cluster_id, namespace, cluster_domain, custom_vars } =
            self;
        let mut out: Vec<EnvVar> = Vec::new();
        out.push(
            EnvVar {
                name: "APP_HOME".to_owned(),
                value: Some("/app".to_owned()),
                value_from_field: None,
            },
        );
        out.push(
            EnvVar {
                name: "CURVINE_HOME".to_owned(),
                value: Some("/app/curvine".to_owned()),
                value_from_field: None,
            },
        );
        out.push(
            EnvVar {
                name: "CURVINE_CONF_FILE".to_owned(),
                value: Some("/app/curvine/conf/curvine-cluster.toml".to_owned()),
                value_from_field: None,
            },
        );
        out.push(
            EnvVar {
                name: "ORPC_BIND_HOSTNAME".to_owned(),
                value: Some("0.0.0.0".to_owned()),
                value_from_field: None,
            },
        );
        out.push(
            EnvVar {
                name: "POD_IP".to_owned(),
                value: None,
                value_from_field: Some("status.podIP".to_owned()),
            },
        );
        out.push(
            EnvVar {
                name: "POD_NAMESPACE".to_owned(),
                value: None,
                value_from_field: Some("metadata.namespace".to_owned()),
            },
        );
        out.push(
            EnvVar {
                name: "POD_CLUSTER_DOMAIN".to_owned(),
                value: Some(cluster_domain.clone()),
                value_from_field: None,
            },
        );
        if crate::text::str_eq_str(component, "master") {
            out.push(
                EnvVar {
                    name: "POD_NAME".to_owned(),
                    value: None,
                    value_from_field: Some("metadata.name".to_owned()),
                },
            );
            let mut fqdn = "$(POD_NAME).".to_owned();
            fqdn.append(cluster_id.as_str());
            fqdn.append("-master.");
            fqdn.append(namespace.as_str());
            fqdn.append(".svc.");
            fqdn.append(cluster_domain.as_str());
            out.push(
                EnvVar {
                    name: "CURVINE_MASTER_HOSTNAME".to_owned(),
                    value: Some(fqdn),
                    value_from_field: None,
                },
            );
        } else if crate::text::str_eq_str(component, "worker") {
            out.push(
                EnvVar {
                    name: "POD_NAME".to_owned(),
                    value: None,
                    value_from_field: Some("metadata.name".to_owned()),
                },
            );
            let mut master_addr = cluster_id.clone();
            master_addr.append("-master-0.");
            master_addr.append(cluster_id.as_str());
            master_addr.append("-master.");
            master_addr.append(namespace.as_str());
            master_addr.append(".svc.");
            master_addr.append(cluster_domain.as_str());
            out.push(
                EnvVar {
                    name: "CURVINE_MASTER_HOSTNAME".to_owned(),
                    value: Some(master_addr),
                    value_from_field: None,
                },
            );
            let mut worker_fqdn = "$(POD_NAME).".to_owned();
            worker_fqdn.append(cluster_id.as_str());
            worker_fqdn.append("-worker.");
            worker_fqdn.append(namespace.as_str());
            worker_fqdn.append(".svc.");
            worker_fqdn.append(cluster_domain.as_str());
            out.push(
                EnvVar {
                    name: "CURVINE_WORKER_HOSTNAME".to_owned(),
                    value: Some(worker_fqdn),
                    value_from_field: None,
                },
            );
        }
        let ghost fixed = out@;
        proof {
            if component@ == "master"@ {
                assert(fixed.len() == 9);
                assert(spec_env_field(fixed[7], "POD_NAME"@, "metadata.name"@));
                assert(spec_env_literal(
                    fixed[8],
                    "CURVINE_MASTER_HOSTNAME"@,
                    spec_master_self_fqdn(cluster_id@, namespace@, cluster_domain@),
                ));
            }
            if component@ == "worker"@ {
                assert(fixed.len() == 10);
                assert(spec_env_field(fixed[7], "POD_NAME"@, "metadata.name"@));
                assert(spec_env_literal(
                    fixed[8],
                    "CURVINE_MASTER_HOSTNAME"@,
                    spec_worker_master_addr(cluster_id@, namespace@, cluster_domain@),
                ));
                assert(spec_env_literal(
                    fixed[9],
                    "CURVINE_WORKER_HOSTNAME"@,
                    spec_worker_self_fqdn(cluster_id@, namespace@, cluster_domain@),
                ));
            }
        }
        let mut i: usize = 0;
        while i < custom_vars.len()
            invariant
                i <= custom_vars@.len(),
                out@.len() == fixed.len() + i,
                out@.take(fixed.len() as int) == fixed,
                forall|j: int|
                    0 <= j < i ==> spec_env_literal(
                        #[trigger] out@[fixed.len() + j],
                        custom_vars@[j].0@,
                        custom_vars@[j].1@,
                    ),
            decreases custom_vars@.len() - i,
        {
            out.push(
                EnvVar {
                    name: custom_vars[i].0.clone(),
                    value: Some(custom_vars[i].1.clone()),
                    value_from_field: None,
                },
            );
            proof {
                assert(out@.take(fixed.len() as int) =~= fixed);
            }
            i += 1;
        }
        proof {
            assert(forall|j: int| 0 <= j < fixed.len() ==> out@[j] == fixed[j]);
            assert(out@.take(4) =~= fixed.take(4));
            assert(out@.subrange(4, 7) =~= fixed.subrange(4, 7));
        }
        out
    }
}

/// The pre-stop command run when graceful shutdown is enabled: wait,
/// then ask the component to stop, never failing the hook.
pub open spec fn spec_stop_command(component: Seq<char>, delay: nat) -> Seq<char> {
    "sleep "@ + spec_dec(delay) + " && /app/curvine/bin/cv "@ + component + " stop || true"@
}

pub struct LifecycleBuilder;

impl LifecycleBuilder {
    pub fn build_graceful_shutdown(component: &str, graceful_shutdown: bool, shutdown_delay: u32)
        -> (r: Option<Lifecycle>)
        ensures
            !graceful_shutdown ==> r is None,
            graceful_shutdown ==> (r matches Some(l) && (l.pre_stop_command matches Some(c) && {
                &&& c@.len() == 3
                &&& c@[0]@ == "/bin/sh"@
                &&& c@[1]@ == "-c"@
                &&& c@[2]@ == spec_stop_command(component@, shutdown_delay as nat)
            })),
    {
        if !graceful_shutdown {
            return None;
        }
        let mut stop = "sleep ".to_owned();
        stop.append(fmt_u32(shutdown_delay).as_str());
        stop.append(" && /app/curvine/bin/cv ");
        stop.append(component);
        stop.append(" stop || true");
        let mut command: Vec<String> = Vec::new();
        command.push("/bin/sh".to_owned());
        command.push("-c".to_owned());
        command.push(stop);
        Some(Lifecycle { pre_stop_command: Some(command) })
    }

    pub fn build_default_graceful_shutdown(component: &str, graceful_shutdown: bool) -> (r: Option<
        Lifecycle,
    >)
        ensures
            !graceful_shutdown ==> r is None,
            graceful_shutdown ==> (r matches Some(l) && (l.pre_stop_command matches Some(c) && {
                &&& c@.len() == 3
                &&& c@[0]@ == "/bin/sh"@
                &&& c@[1]@ == "-c"@
                &&& c@[2]@ == spec_stop_command(component@, 10)
            })),
    {
        Self::build_graceful_shutdown(component, graceful_shutdown, 10)
    }
}

} // verus!
