use curvine_kube::conf::{ClusterConf, StorageType, WorkerDataDir};
use curvine_kube::errors::KubeError;
use curvine_kube::headless::HeadlessServiceBuilder;
use curvine_kube::kconfig::{
    KubernetesConfig, MasterConfig, ServiceConfig, ServiceType, StorageConfig, WorkerConfig,
};
use curvine_kube::master::MasterBuilder;
use curvine_kube::merge::{merge_pod_with_template, CurvinePod};
use curvine_kube::model::{Container, Pod, PodMeta, PodSpec, VolumeMount, VolumeSource};
use curvine_kube::orchestrate::{
    deploy_precheck, poll_step, update_master_replicas_guard, PodObservation, PollObservation,
    PollOutcome, ReplicaObservation,
};
use curvine_kube::service::ServiceBuilder;
use curvine_kube::status::StatusIcon;
use curvine_kube::worker::WorkerBuilder;
use curvine_kube::configmap::{ConfigMapBuilder, KubernetesConfigBuilder};
use curvine_kube::dynamic::{apply_dynamic_overrides, parse_dynamic_configs, parse_kv_pairs};
use curvine_kube::envbuild::EnvironmentBuilder;
use curvine_kube::kconfig::validate_worker_mem_size;
use curvine_kube::resolve::{DeployCommand, UpdateCommand};

fn create_test_cluster_conf() -> ClusterConf {
    let mut conf = ClusterConf::default();
    conf.master.meta_dir = "testing/meta".to_string();
    conf.journal.journal_dir = "testing/journal".to_string();
    conf.worker.data_dir = vec![
        "[MEM:10GB]/data/mem".to_string(),
        "[SSD:100GB]/data/ssd".to_string(),
        "[HDD:500GB]/data/hdd".to_string(),
        "[DISK]testing/data".to_string(),
    ];
    conf
}

fn create_test_kubernetes_config() -> KubernetesConfig {
    KubernetesConfig {
        cluster_id: "test".to_string(),
        namespace: "default".to_string(),
        master: MasterConfig {
            replicas: 3,
            image: "curvine:latest".to_string(),
            resources: None,
            node_selector: None,
            affinity: None,
            pod_template: None,
            graceful_shutdown: false,
            labels: Vec::new(),
            annotations: Vec::new(),
            tolerations: Vec::new(),
            service_account: None,
            env_vars: Vec::new(),
            dns_policy: None,
            priority_class: None,
        },
        worker: WorkerConfig {
            replicas: 3,
            image: "curvine:latest".to_string(),
            resources: None,
            node_selector: None,
            anti_affinity: false,
            pod_template: None,
            storage_class: None,
            graceful_shutdown: false,
            host_network: false,
            init_container: false,
            host_path_storage: None,
            labels: Vec::new(),
            annotations: Vec::new(),
            tolerations: Vec::new(),
            service_account: None,
            env_vars: Vec::new(),
            dns_policy: None,
            priority_class: None,
        },
        service: ServiceConfig {
            service_type: ServiceType::ClusterIP,
            annotations: Vec::new(),
            session_affinity: None,
            external_ips: Vec::new(),
            load_balancer_source_ranges: Vec::new(),
        },
        storage: Some(StorageConfig {
            storage_class: "default".to_string(),
            master_storage_class: None,
            worker_storage_class: None,
            master_size: Some("10Gi".to_string()),
            worker_size: Some("10Gi".to_string()),
        }),
        image_pull_policy: "IfNotPresent".to_string(),
        image_pull_secrets: Vec::new(),
        cluster_domain: "cluster.local".to_string(),
    }
}

#[test]
fn test_get_replica_icon() {
    assert_eq!(StatusIcon::get_replica_icon(3, 3), "\u{2713}");
    assert_eq!(StatusIcon::get_replica_icon(2, 3), "\u{26a0}");
    assert_eq!(StatusIcon::get_replica_icon(0, 3), "\u{2717}");
    assert_eq!(StatusIcon::get_replica_icon(0, 0), "?");
}

#[test]
fn test_get_status_text() {
    assert_eq!(StatusIcon::get_status_text(3, 3), "Running");
    assert_eq!(StatusIcon::get_status_text(2, 3), "Degraded");
    assert_eq!(StatusIcon::get_status_text(0, 3), "Failed");
    assert_eq!(StatusIcon::get_status_text(0, 0), "Unknown");
}

#[test]
fn test_worker_storage_types_parsing() {
    let conf = create_test_cluster_conf();
    assert_eq!(conf.worker.data_dir.len(), 4);
    for data_dir_str in &conf.worker.data_dir {
        let result = WorkerDataDir::parse_data_dir(data_dir_str);
        assert!(result.is_ok(), "Failed to parse: {}", data_dir_str);
    }
}

#[test]
fn test_worker_mem_storage() {
    let data_dir = WorkerDataDir::parse_data_dir("[MEM:10GB]/data/mem").unwrap();
    assert_eq!(data_dir.storage_type, StorageType::Mem);
    assert_eq!(data_dir.capacity, 10 * 1024 * 1024 * 1024);
}

#[test]
fn test_worker_ssd_storage() {
    let data_dir = WorkerDataDir::parse_data_dir("[SSD:100GB]/data/ssd").unwrap();
    assert_eq!(data_dir.storage_type, StorageType::Ssd);
    assert_eq!(data_dir.capacity, 100 * 1024 * 1024 * 1024);
}

#[test]
fn test_worker_hdd_storage() {
    let data_dir = WorkerDataDir::parse_data_dir("[HDD:500GB]/data/hdd").unwrap();
    assert_eq!(data_dir.storage_type, StorageType::Hdd);
    assert_eq!(data_dir.capacity, 500 * 1024 * 1024 * 1024);
}

#[test]
fn test_worker_disk_storage_no_slash() {
    let data_dir = WorkerDataDir::parse_data_dir("[DISK]testing/data").unwrap();
    assert_eq!(data_dir.storage_type, StorageType::Disk);
}

#[test]
fn test_worker_storage_without_capacity() {
    let data_dir = WorkerDataDir::parse_data_dir("[SSD]/data/ssd").unwrap();
    assert_eq!(data_dir.storage_type, StorageType::Ssd);
    assert_eq!(data_dir.capacity, 0);
}

#[test]
fn test_worker_default_storage_type() {
    let data_dir = WorkerDataDir::parse_data_dir("/data/default").unwrap();
    assert_eq!(data_dir.storage_type, StorageType::Disk);
}

#[test]
fn test_worker_ufs_storage() {
    let data_dir = WorkerDataDir::parse_data_dir("[UFS:200GB]/data/ufs").unwrap();
    assert_eq!(data_dir.storage_type, StorageType::Ufs);
    assert_eq!(data_dir.capacity, 200 * 1024 * 1024 * 1024);
}

#[test]
fn test_parse_size_string_values() {
    assert_eq!(curvine_kube::conf::parse_size_string("64MB").unwrap(), 64 * 1024 * 1024);
    assert_eq!(curvine_kube::conf::parse_size_string("1TB").unwrap(), 1024u64 * 1024 * 1024 * 1024);
    assert_eq!(curvine_kube::conf::parse_size_string(" 2 KB ").unwrap(), 2048);
    assert_eq!(curvine_kube::conf::parse_size_string("100").unwrap(), 100);
    assert_eq!(curvine_kube::conf::parse_size_string("7B").unwrap(), 7);
    assert!(curvine_kube::conf::parse_size_string("x1GB").is_err());
    assert!(curvine_kube::conf::parse_size_string("").is_err());
}

#[test]
fn test_data_dir_error_variants() {
    let err = WorkerDataDir::parse_data_dir("[A:B:C]/x").unwrap_err();
    match err {
        KubeError::ConfigError(m) => assert!(m.contains("Incorrect data format")),
        _ => panic!("Expected ConfigError"),
    }
    let err = WorkerDataDir::parse_data_dir("[HDD:zz]/x").unwrap_err();
    match err {
        KubeError::ConfigError(m) => assert!(m.contains("Invalid size string")),
        _ => panic!("Expected ConfigError"),
    }
}

#[test]
fn test_format_bytes_values() {
    assert_eq!(curvine_kube::text::format_bytes(10 * 1024 * 1024 * 1024), "10Gi");
    assert_eq!(curvine_kube::text::format_bytes(1024), "1Ki");
    assert_eq!(curvine_kube::text::format_bytes(5), "5");
    assert_eq!(curvine_kube::text::format_bytes(3 * 1024 * 1024), "3Mi");
}

#[test]
fn test_kubernetes_config_validate_valid() {
    let config = create_test_kubernetes_config();
    assert!(config.validate().is_ok());
}

#[test]
fn test_kubernetes_config_validate_invalid_cluster_id() {
    let mut config = create_test_kubernetes_config();
    config.cluster_id = "Test-Invalid".to_string();
    assert!(config.validate().is_err());
}

#[test]
fn test_kubernetes_config_validate_even_master_replicas() {
    let mut config = create_test_kubernetes_config();
    config.master.replicas = 2;
    assert!(config.validate().is_err());
}

#[test]
fn test_kubernetes_config_validate_zero_master_replicas() {
    let mut config = create_test_kubernetes_config();
    config.master.replicas = 0;
    assert!(config.validate().is_err());
}

#[test]
fn test_kubernetes_config_validate_zero_worker_replicas() {
    let mut config = create_test_kubernetes_config();
    config.worker.replicas = 0;
    assert!(config.validate().is_err());
}

#[test]
fn test_config_validation() {
    let config = create_test_kubernetes_config();
    assert!(config.validate().is_ok());
    let mut invalid_config = config.clone();
    invalid_config.cluster_id = "invalid-cluster-id-with-UPPERCASE".to_string();
    assert!(invalid_config.validate().is_err());
    let mut invalid_config = config.clone();
    invalid_config.master.replicas = 2;
    assert!(invalid_config.validate().is_err());
}

#[test]
fn test_validation_error_display() {
    let err = KubeError::ValidationError("PVC not found".to_string());
    assert!(err.message().contains("PVC not found"));
}

#[test]
fn test_validation_error_from_string() {
    let msg = "Required resource missing";
    let err = KubeError::ValidationError(msg.to_string());
    match err {
        KubeError::ValidationError(s) => assert_eq!(s, msg),
        _ => panic!("Expected ValidationError"),
    }
}

#[test]
fn test_master_service_ports() {
    let config = create_test_kubernetes_config();
    let builder = ServiceBuilder::new(
        "test".to_string(),
        "default".to_string(),
        config.service.service_type,
        Vec::new(),
    );
    let service = builder.build().unwrap();
    assert!(service.ports.len() >= 5);
    let port_names: Vec<&str> = service.ports.iter().map(|p| p.name.as_str()).collect();
    assert!(port_names.contains(&"rpc"));
    assert!(port_names.contains(&"journal"));
    assert!(port_names.contains(&"web"));
    assert!(port_names.contains(&"web1"));
    assert!(port_names.contains(&"worker"));
}

#[test]
fn test_headless_service_ports() {
    let builder = HeadlessServiceBuilder::new("test".to_string(), "default".to_string());
    let service = builder.build().unwrap();
    assert_eq!(service.cluster_ip, Some("None".to_string()));
    assert_eq!(service.ports.len(), 4);
    let port_names: Vec<&str> = service.ports.iter().map(|p| p.name.as_str()).collect();
    assert!(port_names.contains(&"rpc"));
    assert!(port_names.contains(&"journal"));
    assert!(port_names.contains(&"web"));
    assert!(port_names.contains(&"web1"));
    assert!(!port_names.contains(&"worker"));
}

#[test]
fn test_builder_service() {
    let builder = ServiceBuilder::new(
        "test-cluster".to_string(),
        "default".to_string(),
        ServiceType::ClusterIP,
        Vec::new(),
    );
    let service = builder.build().expect("Failed to build Service");
    assert_eq!(service.metadata.name.as_ref().unwrap(), "test-cluster-master");
}

#[test]
fn test_builder_master() {
    let cluster_conf = ClusterConf::default();
    let kube_config = create_test_kubernetes_config();
    let builder = MasterBuilder::new(
        "test-cluster".to_string(),
        "default".to_string(),
        kube_config,
        cluster_conf,
        false,
    );
    let statefulset = builder.build().expect("Failed to build Master StatefulSet");
    assert_eq!(statefulset.metadata.name.as_ref().unwrap(), "test-cluster-master");
    assert_eq!(statefulset.replicas, Some(3));
}

#[test]
fn test_builder_worker() {
    let cluster_conf = ClusterConf::default();
    let kube_config = create_test_kubernetes_config();
    let builder = WorkerBuilder::new(
        "test-cluster".to_string(),
        "default".to_string(),
        kube_config,
        cluster_conf,
    );
    let set = builder.build().expect("Failed to build Worker StatefulSet");
    assert_eq!(set.metadata.name.as_ref().unwrap(), "test-cluster-worker");
    assert_eq!(set.replicas, Some(3));
}

#[test]
fn test_master_relative_path_mount() {
    let mut conf = ClusterConf::default();
    conf.master.meta_dir = "testing/meta".to_string();
    conf.journal.journal_dir = "testing/journal".to_string();
    conf.worker.data_dir = vec!["[DISK]/data".to_string()];
    let config = create_test_kubernetes_config();
    let builder = MasterBuilder::new(
        "test".to_string(),
        "default".to_string(),
        config,
        conf,
        false,
    );
    let mounts = builder.build_volume_mounts_impl().unwrap();
    let meta_mount = mounts.iter().find(|m| m.name == "meta-data").unwrap();
    let journal_mount = mounts.iter().find(|m| m.name == "journal-data").unwrap();
    assert_eq!(meta_mount.mount_path, "/app/curvine/testing/meta");
    assert_eq!(journal_mount.mount_path, "/app/curvine/testing/journal");
}

#[test]
fn test_master_absolute_path_mount() {
    let mut conf = ClusterConf::default();
    conf.master.meta_dir = "/opt/curvine/data/meta".to_string();
    conf.journal.journal_dir = "/opt/curvine/data/journal".to_string();
    conf.worker.data_dir = vec!["[DISK]/data".to_string()];
    let config = create_test_kubernetes_config();
    let builder = MasterBuilder::new(
        "test".to_string(),
        "default".to_string(),
        config,
        conf,
        false,
    );
    let mounts = builder.build_volume_mounts_impl().unwrap();
    let meta_mount = mounts.iter().find(|m| m.name == "meta-data").unwrap();
    let journal_mount = mounts.iter().find(|m| m.name == "journal-data").unwrap();
    assert_eq!(meta_mount.mount_path, "/opt/curvine/data/meta");
    assert_eq!(journal_mount.mount_path, "/opt/curvine/data/journal");
}

#[test]
fn test_worker_mem_volume_creation() {
    let conf = create_test_cluster_conf();
    let config = create_test_kubernetes_config();
    let builder = WorkerBuilder::new("test".to_string(), "default".to_string(), config, conf);
    let volumes = builder.build_volumes_impl().unwrap();
    assert_eq!(volumes.len(), 2);
    let mem_volume = volumes.iter().find(|v| v.name == "data-dir-0").unwrap();
    match &mem_volume.source {
        VolumeSource::EmptyDirMemory { size_limit } => {
            assert_eq!(size_limit.as_deref(), Some("10Gi"));
        },
        _ => panic!("expected an in-memory volume"),
    }
}

#[test]
fn test_worker_persistent_storage_volume_creation() {
    let conf = create_test_cluster_conf();
    let config = create_test_kubernetes_config();
    let builder = WorkerBuilder::new("test".to_string(), "default".to_string(), config, conf);
    let volumes = builder.build_volumes_impl().unwrap();
    assert!(volumes.iter().find(|v| v.name == "data-dir-1").is_none());
    assert_eq!(volumes.len(), 2);
    assert!(volumes.iter().any(|v| v.name == "curvine-conf"));
    assert!(volumes.iter().any(|v| v.name == "data-dir-0"));
}

#[test]
fn test_worker_ufs_volume_creation() {
    let mut conf = ClusterConf::default();
    conf.master.meta_dir = "testing/meta".to_string();
    conf.journal.journal_dir = "testing/journal".to_string();
    conf.worker.data_dir = vec!["[UFS:200GB]/data/ufs".to_string()];
    let config = create_test_kubernetes_config();
    let builder = WorkerBuilder::new("test".to_string(), "default".to_string(), config, conf);
    let volumes = builder.build_volumes_impl().unwrap();
    assert!(volumes.iter().find(|v| v.name == "data-dir-0").is_none());
    assert_eq!(volumes.len(), 1);
    assert!(volumes.iter().any(|v| v.name == "curvine-conf"));
}

#[test]
fn test_worker_claims_skip_memory_tier() {
    let conf = create_test_cluster_conf();
    let config = create_test_kubernetes_config();
    let builder = WorkerBuilder::new("test".to_string(), "default".to_string(), config, conf);
    let claims = builder.build_volume_claim_templates().unwrap().unwrap();
    let names: Vec<&str> = claims.iter().map(|c| c.name.as_str()).collect();
    assert!(!names.contains(&"data-dir-0"));
    assert!(names.contains(&"data-dir-1"));
    assert!(names.contains(&"data-dir-2"));
    assert!(names.contains(&"data-dir-3"));
}

fn template_pod_with_mount(volume_name: &str, mount_path: &str) -> Pod {
    let mut container = Container::named("cv-master".to_string());
    container.volume_mounts = Some(vec![VolumeMount {
        name: volume_name.to_string(),
        mount_path: mount_path.to_string(),
        sub_path: None,
        read_only: None,
    }]);
    Pod {
        metadata: PodMeta { name: None, labels: None, annotations: None },
        spec: Some(PodSpec {
            containers: vec![container],
            init_containers: None,
            volumes: None,
            node_selector: None,
            affinity: None,
            restart_policy: None,
            service_account_name: None,
            tolerations: None,
            dns_policy: None,
            priority_class_name: None,
            host_network: None,
        }),
    }
}

#[test]
fn test_merge_conflicting_mount_path_rejected() {
    let mut conf = ClusterConf::default();
    conf.master.meta_dir = "data/meta".to_string();
    conf.journal.journal_dir = "data/journal".to_string();
    let config = create_test_kubernetes_config();
    let builder = MasterBuilder::new(
        "test".to_string(),
        "default".to_string(),
        config,
        conf,
        false,
    );
    let template = CurvinePod::new(
        template_pod_with_mount("meta-data", "/wrong/path"),
        "cv-master",
    );
    let err = builder.build_with_owner(None, Some(template)).unwrap_err();
    let msg = err.message();
    assert!(msg.contains("meta-data"));
    assert!(msg.contains("/wrong/path"));
    assert!(msg.contains("/app/curvine/data/meta"));
}

#[test]
fn test_merge_matching_mount_path_kept_once() {
    let mut conf = ClusterConf::default();
    conf.master.meta_dir = "data/meta".to_string();
    conf.journal.journal_dir = "data/journal".to_string();
    let config = create_test_kubernetes_config();
    let builder = MasterBuilder::new(
        "test".to_string(),
        "default".to_string(),
        config,
        conf,
        false,
    );
    let template = CurvinePod::new(
        template_pod_with_mount("meta-data", "/app/curvine/data/meta"),
        "cv-master",
    );
    let set = builder.build_with_owner(None, Some(template)).unwrap();
    let spec = set.template_spec.unwrap();
    let main = spec.containers.last().unwrap();
    let mounts = main.volume_mounts.as_ref().unwrap();
    let count = mounts
        .iter()
        .filter(|m| m.mount_path == "/app/curvine/data/meta")
        .count();
    assert_eq!(count, 1);
}

#[test]
fn test_merge_without_template_is_identity() {
    let pod = template_pod_with_mount("x", "/x");
    let merged = merge_pod_with_template(None, pod, Vec::new(), Vec::new(), Vec::new()).unwrap();
    let spec = merged.spec.unwrap();
    assert_eq!(spec.containers.len(), 1);
    assert_eq!(spec.containers[0].name, "cv-master");
    assert_eq!(spec.volumes.as_ref().unwrap().len(), 0);
    assert_eq!(spec.containers[0].volume_mounts.as_ref().unwrap().len(), 0);
}

#[test]
fn test_update_with_master_replicas_rejected() {
    let r = update_master_replicas_guard(Some(5));
    assert!(r.is_err());
    match r.unwrap_err() {
        KubeError::ConfigError(m) => assert!(m.contains("Master replicas cannot be updated")),
        _ => panic!("Expected ConfigError"),
    }
    assert!(update_master_replicas_guard(None).is_ok());
}

#[test]
fn test_deploy_rejected_when_cluster_exists() {
    let r = deploy_precheck(true, "test", "default");
    assert!(r.is_err());
    assert!(deploy_precheck(false, "test", "default").is_ok());
}

#[test]
fn test_validation_fails_before_platform_calls() {
    // an even master replica count fails static validation, so the
    // orchestrator never reaches an existence check or an apply
    let mut config = create_test_kubernetes_config();
    config.master.replicas = 2;
    assert!(config.validate().is_err());
}

#[test]
fn test_poll_aborts_on_restart_count_past_grace() {
    let obs = PollObservation {
        pods: vec![PodObservation {
            name: "test-worker-0".to_string(),
            waiting_reason: None,
            restart_count: 6,
            phase: None,
        }],
        master: Some(ReplicaObservation { replicas: Some(3), ready_replicas: Some(1) }),
        worker: Some(ReplicaObservation { replicas: Some(3), ready_replicas: Some(0) }),
    };
    match poll_step(35, &obs, "test", "default") {
        PollOutcome::Fatal(e) => {
            assert!(e.message().contains("has restarted 6 times"));
        },
        _ => panic!("expected a fatal outcome at t=35s"),
    }
}

#[test]
fn test_poll_tolerates_restarts_within_grace() {
    let obs = PollObservation {
        pods: vec![PodObservation {
            name: "test-worker-0".to_string(),
            waiting_reason: None,
            restart_count: 6,
            phase: None,
        }],
        master: Some(ReplicaObservation { replicas: Some(3), ready_replicas: Some(1) }),
        worker: Some(ReplicaObservation { replicas: Some(3), ready_replicas: Some(0) }),
    };
    match poll_step(25, &obs, "test", "default") {
        PollOutcome::Continue => {},
        _ => panic!("expected the loop to continue inside the grace period"),
    }
}

#[test]
fn test_poll_ready_when_both_roles_ready() {
    let obs = PollObservation {
        pods: Vec::new(),
        master: Some(ReplicaObservation { replicas: Some(3), ready_replicas: Some(3) }),
        worker: Some(ReplicaObservation { replicas: Some(3), ready_replicas: Some(3) }),
    };
    match poll_step(40, &obs, "test", "default") {
        PollOutcome::Ready => {},
        _ => panic!("expected a ready outcome"),
    }
}

#[test]
fn test_poll_times_out_at_ceiling() {
    let obs = PollObservation {
        pods: Vec::new(),
        master: Some(ReplicaObservation { replicas: Some(3), ready_replicas: Some(2) }),
        worker: None,
    };
    match poll_step(300, &obs, "test", "default") {
        PollOutcome::TimedOut(e) => {
            assert!(e.message().contains("did not become ready"));
        },
        _ => panic!("expected a timeout at the ceiling"),
    }
}

#[test]
fn test_deploy_manifest_set_for_three_replicas() {
    // deploy with cluster id `test` and three replicas of each role:
    // a 3-replica master set, a 3-replica worker set, a headless
    // service with 4 ports and a client service with 5
    let conf = create_test_cluster_conf();
    let config = create_test_kubernetes_config();
    let master = MasterBuilder::new(
        "test".to_string(),
        "default".to_string(),
        config.clone(),
        conf.clone(),
        false,
    )
    .build()
    .unwrap();
    assert_eq!(master.replicas, Some(3));
    let worker = WorkerBuilder::new(
        "test".to_string(),
        "default".to_string(),
        config.clone(),
        conf.clone(),
    )
    .build()
    .unwrap();
    assert_eq!(worker.replicas, Some(3));
    let headless = HeadlessServiceBuilder::new("test".to_string(), "default".to_string())
        .build()
        .unwrap();
    assert_eq!(headless.ports.len(), 4);
    let client = ServiceBuilder::new(
        "test".to_string(),
        "default".to_string(),
        ServiceType::ClusterIP,
        Vec::new(),
    )
    .build()
    .unwrap();
    assert_eq!(client.ports.len(), 5);
}


#[test]
fn test_relative_path_resolution() {
    let conf = create_test_cluster_conf();
    let config = create_test_kubernetes_config();
    assert!(!conf.master.meta_dir.starts_with('/'));
    assert!(!conf.journal.journal_dir.starts_with('/'));
    let config_builder = KubernetesConfigBuilder::new(conf.clone(), config.clone());
    let result = config_builder.build_cluster_side_config();
    assert!(result.is_ok());
    let config_str = result.unwrap();
    assert!(config_str.contains("/app/curvine/testing/meta"));
    assert!(config_str.contains("/app/curvine/testing/journal"));
}

#[test]
fn test_absolute_path_preserved() {
    let mut conf = ClusterConf::default();
    conf.master.meta_dir = "/opt/curvine/data/meta".to_string();
    conf.journal.journal_dir = "/opt/curvine/data/journal".to_string();
    conf.worker.data_dir = vec!["[SSD]/data/ssd".to_string()];
    let config = create_test_kubernetes_config();
    let config_builder = KubernetesConfigBuilder::new(conf.clone(), config.clone());
    let result = config_builder.build_cluster_side_config();
    assert!(result.is_ok());
    let config_str = result.unwrap();
    assert!(config_str.contains("/opt/curvine/data/meta"));
    assert!(config_str.contains("/opt/curvine/data/journal"));
}

#[test]
fn test_configmap_builder_build() {
    let conf = create_test_cluster_conf();
    let builder =
        ConfigMapBuilder::new(conf.clone(), "test".to_string(), "default".to_string(), 3);
    let result = builder.build();
    assert!(result.is_ok());
    let configmap = result.unwrap();
    assert_eq!(configmap.metadata.name, Some("test-config".to_string()));
    assert_eq!(configmap.metadata.namespace, Some("default".to_string()));
    assert_eq!(configmap.data.len(), 1);
    assert_eq!(configmap.data[0].0, "curvine-cluster.toml");
}

#[test]
fn test_configmap_builder_labels() {
    let conf = create_test_cluster_conf();
    let builder =
        ConfigMapBuilder::new(conf.clone(), "test".to_string(), "default".to_string(), 3);
    let labels = builder.get_labels();
    assert_eq!(labels[0], ("app".to_string(), "test".to_string()));
    assert_eq!(labels[1], ("component".to_string(), "config".to_string()));
    assert_eq!(
        labels[2],
        ("type".to_string(), "curvine-native-kubernetes".to_string())
    );
}

#[test]
fn test_builder_configmap() {
    let cluster_conf = ClusterConf::default();
    let builder = ConfigMapBuilder::new(
        cluster_conf,
        "test-cluster".to_string(),
        "default".to_string(),
        3,
    );
    let configmap = builder.build().expect("Failed to build ConfigMap");
    assert_eq!(configmap.metadata.name.as_ref().unwrap(), "test-cluster-config");
}

#[test]
fn test_blob_injects_replica_addresses() {
    let conf = create_test_cluster_conf();
    let builder =
        ConfigMapBuilder::new(conf, "test".to_string(), "default".to_string(), 3);
    let blob = builder.build().unwrap().data[0].1.clone();
    assert!(blob.contains("test-master-0.test-master.default.svc.cluster.local"));
    assert!(blob.contains("test-master-2.test-master.default.svc.cluster.local"));
    assert!(!blob.contains("test-master-3.test-master"));
    assert!(blob.contains("[[journal.journal_addrs]]"));
    assert!(blob.contains("[[client.master_addrs]]"));
}

#[test]
fn test_custom_env_overwrites_by_name() {
    let vars = vec![
        ("K".to_string(), "a".to_string()),
        ("K".to_string(), "b".to_string()),
    ];
    let env = EnvironmentBuilder::new(
        "master",
        "test".to_string(),
        "default".to_string(),
        "cluster.local".to_string(),
    )
    .with_custom_vars(&vars)
    .build();
    let hits: Vec<&str> = env
        .iter()
        .filter(|e| e.name == "K")
        .map(|e| e.value.as_deref().unwrap())
        .collect();
    assert_eq!(hits, vec!["b"]);
}

#[test]
fn test_parse_kv_pairs_basic() {
    let pairs = parse_kv_pairs("a=1, b = 2 ,noequals,c=x=y");
    assert_eq!(pairs.len(), 3);
    assert_eq!(pairs[0], ("a".to_string(), "1".to_string()));
    assert_eq!(pairs[1], ("b".to_string(), "2".to_string()));
    assert_eq!(pairs[2], ("c".to_string(), "x=y".to_string()));
}

#[test]
fn test_parse_dynamic_configs_errors() {
    let bad = vec!["novalue".to_string()];
    assert!(parse_dynamic_configs(&bad).is_err());
    let empty_key = vec![" =v".to_string()];
    assert!(parse_dynamic_configs(&empty_key).is_err());
    let ok = vec!["a.b=c".to_string()];
    let parsed = parse_dynamic_configs(&ok).unwrap();
    assert_eq!(parsed[0], ("a.b".to_string(), "c".to_string()));
}

#[test]
fn test_apply_dynamic_overrides_fields() {
    let mut config = create_test_kubernetes_config();
    let overrides = vec![
        ("kubernetes.container.image".to_string(), "base:1".to_string()),
        ("kubernetes.master.image".to_string(), "m:2".to_string()),
        ("kubernetes.worker.replicas".to_string(), "7".to_string()),
        ("kubernetes.master.replicas".to_string(), "oops".to_string()),
        ("kubernetes.master.env.FOO".to_string(), "bar".to_string()),
        ("kubernetes.service.type".to_string(), "NodePort".to_string()),
        ("kubernetes.master.cpu".to_string(), "1.5".to_string()),
        ("kubernetes.some.unknown.key".to_string(), "x".to_string()),
    ];
    apply_dynamic_overrides(&overrides, &mut config);
    assert_eq!(config.master.image, "m:2");
    assert_eq!(config.worker.image, "base:1");
    assert_eq!(config.worker.replicas, 7);
    assert_eq!(config.master.replicas, 3);
    assert!(config.master.env_vars.contains(&("FOO".to_string(), "bar".to_string())));
    assert_eq!(config.service.service_type, curvine_kube::kconfig::ServiceType::NodePort);
    let rr = config.master.resources.as_ref().unwrap();
    let reqs = rr.requests.as_ref().unwrap();
    assert!(reqs.contains(&("cpu".to_string(), "1500m".to_string())));
    assert!(reqs.contains(&("memory".to_string(), "2Gi".to_string())));
}

#[test]
fn test_worker_mem_size_validation() {
    let mut conf = ClusterConf::default();
    conf.worker.data_dir = vec!["[MEM:1MB]/data/mem".to_string()];
    assert!(validate_worker_mem_size(&conf).is_err());
    conf.worker.data_dir = vec!["[MEM:10GB]/data/mem".to_string()];
    assert!(validate_worker_mem_size(&conf).is_ok());
    conf.worker.data_dir = vec!["[MEM]/data/mem".to_string()];
    assert!(validate_worker_mem_size(&conf).is_ok());
}

#[test]
fn test_timeout_reports_progress() {
    let obs = PollObservation {
        pods: Vec::new(),
        master: Some(ReplicaObservation { replicas: Some(3), ready_replicas: Some(2) }),
        worker: Some(ReplicaObservation { replicas: Some(3), ready_replicas: Some(1) }),
    };
    match poll_step(300, &obs, "test", "default") {
        PollOutcome::TimedOut(e) => {
            let m = e.message();
            assert!(m.contains("Master ready: 2/3"));
            assert!(m.contains("Worker ready: 1/3"));
        },
        _ => panic!("expected a timeout at the ceiling"),
    }
}

#[test]
fn test_cluster_id_suffix_parsing() {
    assert_eq!(
        curvine_kube::status::cluster_id_of_configmap_name("demo-config").as_deref(),
        Some("demo")
    );
    assert_eq!(curvine_kube::status::cluster_id_of_configmap_name("demo"), None);
    assert_eq!(curvine_kube::status::cluster_id_of_configmap_name("short"), None);
}


fn default_deploy_command() -> DeployCommand {
    DeployCommand {
        cluster_id: Some("test".to_string()),
        namespace: "default".to_string(),
        image: "docker.io/curvine:latest".to_string(),
        master_replicas: 3,
        worker_replicas: 3,
        master_pod_template: None,
        worker_pod_template: None,
        storage_class: None,
        master_storage_class: None,
        worker_storage_class: None,
        master_storage_size: None,
        worker_storage_size: None,
        service_type: "ClusterIP".to_string(),
        image_pull_policy: "IfNotPresent".to_string(),
    }
}

#[test]
fn test_deploy_resolution_layers() {
    let mut cmd = default_deploy_command();
    cmd.image = "custom:9".to_string();
    cmd.worker_replicas = 5;
    let resolved = cmd.resolve_config(&None).unwrap();
    assert_eq!(resolved.cluster_id, "test");
    assert_eq!(resolved.master.image, "custom:9");
    assert_eq!(resolved.worker.image, "custom:9");
    assert_eq!(resolved.master.replicas, 3);
    assert_eq!(resolved.worker.replicas, 5);
    assert!(resolved.master.graceful_shutdown);
    assert_eq!(resolved.cluster_domain, "cluster.local");
    assert!(resolved.storage.is_none());
}

#[test]
fn test_deploy_resolution_file_layer() {
    let mut cmd = default_deploy_command();
    cmd.cluster_id = None;
    let mut kube_conf = curvine_kube::conf::KubernetesConf::default();
    kube_conf.cluster_id = Some("from-file".to_string());
    kube_conf.master.replicas = 5;
    kube_conf.worker.image = "file-worker:1".to_string();
    let resolved = cmd.resolve_config(&Some(kube_conf)).unwrap();
    assert_eq!(resolved.cluster_id, "from-file");
    assert_eq!(resolved.master.replicas, 5);
    assert_eq!(resolved.worker.image, "file-worker:1");
}

#[test]
fn test_deploy_resolution_requires_cluster_id() {
    let mut cmd = default_deploy_command();
    cmd.cluster_id = None;
    assert!(cmd.resolve_config(&None).is_err());
}

#[test]
fn test_update_resolution_rejects_master_replicas() {
    let cmd = UpdateCommand {
        cluster_id: Some("test".to_string()),
        namespace: "default".to_string(),
        image: None,
        master_replicas: Some(5),
        worker_replicas: None,
        master_pod_template: None,
        worker_pod_template: None,
        service_type: None,
        image_pull_policy: None,
    };
    let err = cmd.resolve_config(&None).unwrap_err();
    match err {
        KubeError::ConfigError(m) => assert!(m.contains("Master replicas cannot be updated")),
        _ => panic!("Expected ConfigError"),
    }
}

#[test]
fn test_update_resolution_worker_replicas() {
    let cmd = UpdateCommand {
        cluster_id: Some("test".to_string()),
        namespace: "default".to_string(),
        image: Some("up:2".to_string()),
        master_replicas: None,
        worker_replicas: Some(9),
        master_pod_template: None,
        worker_pod_template: None,
        service_type: None,
        image_pull_policy: None,
    };
    let resolved = cmd.resolve_config(&None).unwrap();
    assert_eq!(resolved.worker.replicas, 9);
    assert_eq!(resolved.master.replicas, 1);
    assert_eq!(resolved.master.image, "up:2");
}
