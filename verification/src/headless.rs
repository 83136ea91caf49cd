//! The headless service: no assigned address, only the four master
//! ports, giving every master replica a stable DNS name.

use vstd::prelude::*;

use crate::errors::KubeError;
use crate::model::{config_owner_reference, ObjectMeta, Service, ServicePort};
use crate::service::{spec_master_selector, spec_plain_port};

verus! {

/// The four master ports and nothing else.
pub open spec fn spec_headless_ports(ps: Seq<ServicePort>) -> bool {
    &&& ps.len() == 4
    &&& spec_plain_port(ps[0], "rpc"@, 8995)
    &&& spec_plain_port(ps[1], "journal"@, 8996)
    &&& spec_plain_port(ps[2], "web"@, 9000)
    &&& spec_plain_port(ps[3], "web1"@, 9001)
}

pub open spec fn spec_headless_labels(l: Seq<(String, String)>, cluster_id: Seq<char>) -> bool {
    &&& l.len() == 4
    &&& l[0].0@ == "app"@ && l[0].1@ == cluster_id
    &&& l[1].0@ == "component"@ && l[1].1@ == "master"@
    &&& l[2].0@ == "type"@ && l[2].1@ == "curvine-native-kubernetes"@
    &&& l[3].0@ == "service-type"@ && l[3].1@ == "headless"@
}

pub struct HeadlessServiceBuilder {
    pub cluster_id: String,
    pub namespace: String,
}

fn create_service_port(name: &str, port: i32) -> (r: ServicePort)
    ensures
        spec_plain_port(r, name@, port as int),
{
    ServicePort {
        name: name.to_owned(),
        port,
        target_port: port,
        protocol: "TCP".to_owned(),
    }
}

impl HeadlessServiceBuilder {
    pub fn new(cluster_id: String, namespace: String) -> (r: HeadlessServiceBuilder)
        ensures
            r.cluster_id == cluster_id,
            r.namespace == namespace,
    {
        HeadlessServiceBuilder { cluster_id, namespace }
    }

    pub fn get_labels(&self) -> (r: Vec<(String, String)>)
        ensures
            spec_headless_labels(r@, self.cluster_id@),
    {
        let mut labels: Vec<(String, String)> = Vec::new();
        labels.push(("app".to_owned(), self.cluster_id.clone()));
        labels.push(("component".to_owned(), "master".to_owned()));
        labels.push(("type".to_owned(), "curvine-native-kubernetes".to_owned()));
        labels.push(("service-type".to_owned(), "headless".to_owned()));
        labels
    }

    /// What the built headless service is.
    pub open spec fn spec_built(&self, s: Service, owner_uid: Option<String>) -> bool {
        &&& s.metadata.name matches Some(n) && n@ == self.cluster_id@ + "-master-headless"@
        &&& s.metadata.namespace matches Some(n) && n@ == self.namespace@
        &&& s.metadata.labels matches Some(l) && spec_headless_labels(l@, self.cluster_id@)
        &&& s.metadata.annotations is None
        &&& match owner_uid {
            None => s.metadata.owner_references is None,
            Some(uid) => s.metadata.owner_references matches Some(o) && o@.len() == 1 && {
                &&& o@[0].api_version@ == "v1"@
                &&& o@[0].kind@ == "ConfigMap"@
                &&& o@[0].name@ == self.cluster_id@ + "-config"@
                &&& o@[0].uid == uid
                &&& o@[0].controller
                &&& o@[0].block_owner_deletion
            },
        }
        &&& s.service_type@ == "ClusterIP"@
        &&& s.cluster_ip matches Some(c) && c@ == "None"@
        &&& spec_headless_ports(s.ports@)
        &&& spec_master_selector(s.selector@, self.cluster_id@)
        &&& s.session_affinity is None
        &&& s.external_ips is None
        &&& s.load_balancer_source_ranges is None
        &&& s.publish_not_ready_addresses == Some(true)
    }

    pub fn build(&self) -> (r: Result<Service, KubeError>)
        ensures
            r matches Ok(s) && self.spec_built(s, None),
    {
        self.build_with_owner(None)
    }

    pub fn build_with_owner(&self, owner_uid: Option<String>) -> (r: Result<Service, KubeError>)
        ensures
            r matches Ok(s) && self.spec_built(s, owner_uid),
    {
        let mut ports: Vec<ServicePort> = Vec::new();
        ports.push(create_service_port("rpc", 8995));
        ports.push(create_service_port("journal", 8996));
        ports.push(create_service_port("web", 9000));
        ports.push(create_service_port("web1", 9001));

        let mut selector: Vec<(String, String)> = Vec::new();
        selector.push(("app".to_owned(), self.cluster_id.clone()));
        selector.push(("component".to_owned(), "master".to_owned()));

        let mut name = self.cluster_id.clone();
        name.append("-master-headless");
        let owner_references = match owner_uid {
            Some(uid) => {
                let mut refs = Vec::new();
                refs.push(config_owner_reference(self.cluster_id.as_str(), uid));
                Some(refs)
            },
            None => None,
        };
        let metadata = ObjectMeta {
            name: Some(name),
            namespace: Some(self.namespace.clone()),
            labels: Some(self.get_labels()),
            annotations: None,
            owner_references,
        };

        let service = Service {
            metadata,
            service_type: "ClusterIP".to_owned(),
            ports,
            selector,
            cluster_ip: Some("None".to_owned()),
            session_affinity: None,
            external_ips: None,
            load_balancer_source_ranges: None,
            publish_not_ready_addresses: Some(true),
        };

        Ok(service)
    }
}

} // verus!
