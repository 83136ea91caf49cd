//! Deployment engine for a Curvine storage cluster on a container platform.
//!
//! The library is the verified core: configuration resolution, dynamic
//! key-value overrides, validation, manifest construction (config object,
//! master and worker stateful sets, the two services), the pod-template
//! merge engine, and the deploy/update/readiness decision logic.  All
//! platform I/O (the API client, file loading, terminal rendering) lives
//! outside the library and exchanges plain values with it.

pub mod conf;
pub mod configmap;
pub mod dynamic;
pub mod constants;
pub mod envbuild;
pub mod errors;
pub mod headless;
pub mod kconfig;
pub mod kv;
pub mod master;
pub mod merge;
pub mod model;
pub mod orchestrate;
pub mod render;
pub mod resolve;
pub mod service;
pub mod status;
pub mod worker;
pub mod text;

pub use errors::KubeError;
pub use errors::Result;
