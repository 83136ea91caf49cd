//! The configuration object: the rendered cluster-side document under
//! one well-known key, labelled for cluster discovery.

use vstd::prelude::*;

use crate::conf::ClusterConf;
use crate::errors::KubeError;
use crate::kconfig::KubernetesConfig;
use crate::model::{ConfigMap, ObjectMeta};
use crate::render::{build_cluster_side_config_with, spec_rendered_conf};

verus! {

/// Renders the cluster-side document for a resolved specification.
pub struct KubernetesConfigBuilder {
    pub cluster_conf: ClusterConf,
    pub kube_config: KubernetesConfig,
}

impl KubernetesConfigBuilder {
    pub fn new(cluster_conf: ClusterConf, kube_config: KubernetesConfig) -> (r:
        KubernetesConfigBuilder)
        ensures
            r.cluster_conf == cluster_conf,
            r.kube_config == kube_config,
    {
        KubernetesConfigBuilder { cluster_conf, kube_config }
    }

    pub fn build_cluster_side_config(&self) -> (r: Result<String, KubeError>)
        ensures
            r matches Ok(s) && s@ == spec_rendered_conf(
                &self.cluster_conf,
                self.kube_config.cluster_id@,
                self.kube_config.namespace@,
                self.kube_config.cluster_domain@,
                self.kube_config.master.replicas as nat,
            ),
    {
        Ok(
            build_cluster_side_config_with(
                &self.cluster_conf,
                self.kube_config.cluster_id.as_str(),
                self.kube_config.namespace.as_str(),
                self.kube_config.cluster_domain.as_str(),
                self.kube_config.master.replicas,
            ),
        )
    }
}

pub open spec fn spec_config_labels(l: Seq<(String, String)>, cluster_id: Seq<char>) -> bool {
    &&& l.len() == 3
    &&& l[0].0@ == "app"@ && l[0].1@ == cluster_id
    &&& l[1].0@ == "component"@ && l[1].1@ == "config"@
    &&& l[2].0@ == "type"@ && l[2].1@ == "curvine-native-kubernetes"@
}

pub struct ConfigMapBuilder {
    pub cluster_conf: ClusterConf,
    pub cluster_id: String,
    pub namespace: String,
    pub master_replicas: u32,
}

impl ConfigMapBuilder {
    pub fn new(
        cluster_conf: ClusterConf,
        cluster_id: String,
        namespace: String,
        master_replicas: u32,
    ) -> (r: ConfigMapBuilder)
        ensures
            r.cluster_conf == cluster_conf,
            r.cluster_id == cluster_id,
            r.namespace == namespace,
            r.master_replicas == master_replicas,
    {
        ConfigMapBuilder { cluster_conf, cluster_id, namespace, master_replicas }
    }

    pub fn get_labels(&self) -> (r: Vec<(String, String)>)
        ensures
            spec_config_labels(r@, self.cluster_id@),
    {
        let mut labels: Vec<(String, String)> = Vec::new();
        labels.push(("app".to_owned(), self.cluster_id.clone()));
        labels.push(("component".to_owned(), "config".to_owned()));
        labels.push(("type".to_owned(), "curvine-native-kubernetes".to_owned()));
        labels
    }

    /// The configuration object: named for the cluster, labelled for
    /// discovery, carrying the rendered document under its fixed key.
    pub fn build(&self) -> (r: Result<ConfigMap, KubeError>)
        ensures
            r matches Ok(cm) && {
                &&& cm.metadata.name matches Some(n) && n@ == self.cluster_id@ + "-config"@
                &&& cm.metadata.namespace matches Some(n) && n@ == self.namespace@
                &&& cm.metadata.labels matches Some(l) && spec_config_labels(
                    l@,
                    self.cluster_id@,
                )
                &&& cm.metadata.annotations is None
                &&& cm.metadata.owner_references is None
                &&& cm.data@.len() == 1
                &&& cm.data@[0].0@ == "curvine-cluster.toml"@
                &&& cm.data@[0].1@ == spec_rendered_conf(
                    &self.cluster_conf,
                    self.cluster_id@,
                    self.namespace@,
                    "cluster.local"@,
                    self.master_replicas as nat,
                )
            },
    {
        let blob = build_cluster_side_config_with(
            &self.cluster_conf,
            self.cluster_id.as_str(),
            self.namespace.as_str(),
            "cluster.local",
            self.master_replicas,
        );
        let mut name = self.cluster_id.clone();
        name.append("-config");
        let mut data: Vec<(String, String)> = Vec::new();
        data.push(("curvine-cluster.toml".to_owned(), blob));
        Ok(
            ConfigMap {
                metadata: ObjectMeta {
                    name: Some(name),
                    namespace: Some(self.namespace.clone()),
                    labels: Some(self.get_labels()),
                    annotations: None,
                    owner_references: None,
                },
                data,
            },
        )
    }
}

} // verus!
