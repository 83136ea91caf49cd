//! The externally reachable service: the full master port set plus the
//! worker RPC port, honoring the configured exposure type, session
//! affinity, external addresses and annotations.

use vstd::prelude::*;

use crate::errors::KubeError;
use crate::kconfig::ServiceType;
use crate::model::{config_owner_reference, ObjectMeta, Service, ServicePort};

verus! {

/// One TCP port whose target equals its own number.
pub open spec fn spec_plain_port(p: ServicePort, name: Seq<char>, port: int) -> bool {
    p.name@ == name && p.port == port && p.target_port == port && p.protocol@ == "TCP"@
}

/// The five ports of the client service: the four master ports and the
/// worker RPC port.
pub open spec fn spec_client_service_ports(ps: Seq<ServicePort>) -> bool {
    &&& ps.len() == 5
    &&& spec_plain_port(ps[0], "rpc"@, 8995)
    &&& spec_plain_port(ps[1], "journal"@, 8996)
    &&& spec_plain_port(ps[2], "web"@, 9000)
    &&& spec_plain_port(ps[3], "web1"@, 9001)
    &&& spec_plain_port(ps[4], "worker"@, 8997)
}

/// The selector of both services: the master pods of this cluster.
pub open spec fn spec_master_selector(s: Seq<(String, String)>, cluster_id: Seq<char>) -> bool {
    &&& s.len() == 2
    &&& s[0].0@ == "app"@ && s[0].1@ == cluster_id
    &&& s[1].0@ == "component"@ && s[1].1@ == "master"@
}

pub open spec fn spec_service_labels(l: Seq<(String, String)>, cluster_id: Seq<char>) -> bool {
    &&& l.len() == 3
    &&& l[0].0@ == "app"@ && l[0].1@ == cluster_id
    &&& l[1].0@ == "component"@ && l[1].1@ == "master"@
    &&& l[2].0@ == "type"@ && l[2].1@ == "curvine-native-kubernetes"@
}

pub struct ServiceBuilder {
    pub cluster_id: String,
    pub namespace: String,
    pub service_config: ServiceType,
    pub annotations: Vec<(String, String)>,
    pub session_affinity: Option<String>,
    pub external_ips: Vec<String>,
    pub load_balancer_source_ranges: Vec<String>,
}

fn create_service_port(name: &str, port: i32) -> (r: ServicePort)
    ensures
        spec_plain_port(r, name@, port as int),
{
    ServicePort {
        name: name.to_owned(),
        port,
        target_port: port,
        protocol: "TCP".to_owned(),
    }
}

impl ServiceBuilder {
    pub fn new(
        cluster_id: String,
        namespace: String,
        service_config: ServiceType,
        annotations: Vec<(String, String)>,
    ) -> (r: ServiceBuilder)
        ensures
            r.cluster_id == cluster_id,
            r.namespace == namespace,
            r.service_config == service_config,
            r.annotations@ == annotations@,
            r.session_affinity is None,
            r.external_ips@ == Seq::<String>::empty(),
            r.load_balancer_source_ranges@ == Seq::<String>::empty(),
    {
        ServiceBuilder {
            cluster_id,
            namespace,
            service_config,
            annotations,
            session_affinity: None,
            external_ips: Vec::new(),
            load_balancer_source_ranges: Vec::new(),
        }
    }

    pub fn with_config(
        cluster_id: String,
        namespace: String,
        service_config: ServiceType,
        annotations: Vec<(String, String)>,
        session_affinity: Option<String>,
        external_ips: Vec<String>,
        load_balancer_source_ranges: Vec<String>,
    ) -> (r: ServiceBuilder)
        ensures
            r.cluster_id == cluster_id,
            r.namespace == namespace,
            r.service_config == service_config,
            r.annotations@ == annotations@,
            r.session_affinity == session_affinity,
            r.external_ips@ == external_ips@,
            r.load_balancer_source_ranges@ == load_balancer_source_ranges@,
    {
        ServiceBuilder {
            cluster_id,
            namespace,
            service_config,
            annotations,
            session_affinity,
            external_ips,
            load_balancer_source_ranges,
        }
    }

    pub fn get_labels(&self) -> (r: Vec<(String, String)>)
        ensures
            spec_service_labels(r@, self.cluster_id@),
    {
        let mut labels: Vec<(String, String)> = Vec::new();
        labels.push(("app".to_owned(), self.cluster_id.clone()));
        labels.push(("component".to_owned(), "master".to_owned()));
        labels.push(("type".to_owned(), "curvine-native-kubernetes".to_owned()));
        labels
    }

    pub fn build(&self) -> (r: Result<Service, KubeError>)
        ensures
            r matches Ok(s) && self.spec_built(s, None),
    {
        self.build_with_owner(None)
    }

    /// What the built service is, given the owner uid it carries.
    /// A cluster-internal exposure leaves the address for the platform
    /// to assign; the other exposure types are sent with the explicit
    /// no-address marker in the create payload.
    pub open spec fn spec_built(&self, s: Service, owner_uid: Option<String>) -> bool {
        &&& s.metadata.name matches Some(n) && n@ == self.cluster_id@ + "-master"@
        &&& s.metadata.namespace matches Some(n) && n@ == self.namespace@
        &&& s.metadata.labels matches Some(l) && spec_service_labels(l@, self.cluster_id@)
        &&& (self.annotations@.len() == 0 ==> s.metadata.annotations is None)
        &&& (self.annotations@.len() > 0 ==> (s.metadata.annotations matches Some(a) && a@
            == self.annotations@))
        &&& match owner_uid {
            None => s.metadata.owner_references is None,
            Some(uid) => s.metadata.owner_references matches Some(o) && o@.len() == 1 && {
                &&& o@[0].api_version@ == "v1"@
                &&& o@[0].kind@ == "ConfigMap"@
                &&& o@[0].name@ == self.cluster_id@ + "-config"@
                &&& o@[0].uid == uid
                &&& o@[0].controller
                &&& o@[0].block_owner_deletion
            },
        }
        &&& s.service_type@ == (if self.service_config == ServiceType::ClusterIP {
            "ClusterIP"@
        } else if self.service_config == ServiceType::NodePort {
            "NodePort"@
        } else {
            "LoadBalancer"@
        })
        &&& spec_client_service_ports(s.ports@)
        &&& spec_master_selector(s.selector@, self.cluster_id@)
        &&& (self.service_config == ServiceType::ClusterIP ==> s.cluster_ip is None)
        &&& (self.service_config != ServiceType::ClusterIP ==> (s.cluster_ip matches Some(c)
            && c@ == "None"@))
        &&& s.session_affinity == self.session_affinity
        &&& (self.external_ips@.len() == 0 ==> s.external_ips is None)
        &&& (self.external_ips@.len() > 0 ==> (s.external_ips matches Some(e) && e@
            == self.external_ips@))
        &&& (self.load_balancer_source_ranges@.len() == 0 ==> s.load_balancer_source_ranges
            is None)
        &&& (self.load_balancer_source_ranges@.len() > 0 ==> (s.load_balancer_source_ranges
            matches Some(e) && e@ == self.load_balancer_source_ranges@))
        &&& s.publish_not_ready_addresses is None
    }

    pub fn build_with_owner(&self, owner_uid: Option<String>) -> (r: Result<Service, KubeError>)
        ensures
            r matches Ok(s) && self.spec_built(s, owner_uid),
    {
        let mut ports: Vec<ServicePort> = Vec::new();
        ports.push(create_service_port("rpc", 8995));
        ports.push(create_service_port("journal", 8996));
        ports.push(create_service_port("web", 9000));
        ports.push(create_service_port("web1", 9001));
        ports.push(create_service_port("worker", 8997));

        let mut selector: Vec<(String, String)> = Vec::new();
        selector.push(("app".to_owned(), self.cluster_id.clone()));
        selector.push(("component".to_owned(), "master".to_owned()));

        let annotations = if self.annotations.len() == 0 {
            None
        } else {
            Some(crate::model::dup_kv(&self.annotations))
        };

        let mut name = self.cluster_id.clone();
        name.append("-master");
        let owner_references = match owner_uid {
            Some(uid) => {
                let mut refs = Vec::new();
                refs.push(config_owner_reference(self.cluster_id.as_str(), uid));
                Some(refs)
            },
            None => None,
        };
        let metadata = ObjectMeta {
            name: Some(name),
            namespace: Some(self.namespace.clone()),
            labels: Some(self.get_labels()),
            annotations,
            owner_references,
        };

        let service = Service {
            metadata,
            service_type: self.service_config.as_str().to_owned(),
            ports,
            selector,
            cluster_ip: if matches!(self.service_config, ServiceType::ClusterIP) {
                None
            } else {
                Some("None".to_owned())
            },
            session_affinity: crate::model::dup_opt_string(&self.session_affinity),
            external_ips: if self.external_ips.len() == 0 {
                None
            } else {
                Some(crate::model::dup_strings(&self.external_ips))
            },
            load_balancer_source_ranges: if self.load_balancer_source_ranges.len() == 0 {
                None
            } else {
                Some(crate::model::dup_strings(&self.load_balancer_source_ranges))
            },
            publish_not_ready_addresses: None,
        };

        Ok(service)
    }
}

} // verus!
