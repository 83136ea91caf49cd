//! Error taxonomy of the deployment engine.
//!
//! Configuration errors are always fatal; validation errors carry the
//! context an operator needs to act; not-found errors are recoverable for
//! callers that probe for existence and fatal otherwise; timeouts carry
//! the last observed progress.

use vstd::prelude::*;

verus! {

pub type Result<T> = core::result::Result<T, KubeError>;

#[derive(Debug)]
pub enum KubeError {
    /// A platform API call failed; the payload is the transport's message.
    KubeError(String),
    /// A malformed or missing required configuration field.
    ConfigError(String),
    /// A resource that an operation assumed to exist is absent.
    NotFound { resource_type: String, name: String, namespace: String },
    /// A resource that a first deployment would create already exists.
    AlreadyExists { resource_type: String, name: String, namespace: String },
    /// The readiness ceiling was exhausted; the payload reports progress.
    Timeout(String),
    /// A manifest was rejected before being sent.
    InvalidResource(String),
    /// A pre-flight or merge check failed.
    ValidationError(String),
    /// A file could not be read or written.
    Io(String),
    /// A pod template document could not be parsed.
    YamlParse(String),
    /// A cluster configuration document could not be parsed.
    TomlParse(String),
    /// A serialized resource could not be parsed.
    JsonParse(String),
}

impl KubeError {
    pub fn config_error(context: String) -> (e: KubeError)
        ensures
            e == KubeError::ConfigError(context),
    {
        KubeError::ConfigError(context)
    }

    pub fn not_found(resource_type: String, name: String, namespace: String) -> (e: KubeError)
        ensures
            e == (KubeError::NotFound { resource_type, name, namespace }),
    {
        KubeError::NotFound { resource_type, name, namespace }
    }

    pub fn already_exists(resource_type: String, name: String, namespace: String) -> (e: KubeError)
        ensures
            e == (KubeError::AlreadyExists { resource_type, name, namespace }),
    {
        KubeError::AlreadyExists { resource_type, name, namespace }
    }

    /// The human-readable form of the error, one variant prefix followed
    /// by the payload.
    pub open spec fn spec_message(&self) -> Seq<char> {
        match self {
            KubeError::KubeError(m) => "Kubernetes API error: "@ + m@,
            KubeError::ConfigError(m) => "Configuration error: "@ + m@,
            KubeError::NotFound { resource_type, name, namespace } =>
                "Resource not found: "@ + resource_type@ + " '"@ + name@ + "' in namespace '"@
                    + namespace@ + "'"@,
            KubeError::AlreadyExists { resource_type, name, namespace } =>
                "Resource already exists: "@ + resource_type@ + " '"@ + name@
                    + "' in namespace '"@ + namespace@ + "'"@,
            KubeError::Timeout(m) => "Timeout error: "@ + m@,
            KubeError::InvalidResource(m) => "Invalid resource: "@ + m@,
            KubeError::ValidationError(m) => "Validation error: "@ + m@,
            KubeError::Io(m) => "IO error: "@ + m@,
            KubeError::YamlParse(m) => "YAML parse error: "@ + m@,
            KubeError::TomlParse(m) => "TOML parse error: "@ + m@,
            KubeError::JsonParse(m) => "JSON parse error: "@ + m@,
        }
    }

    pub fn message(&self) -> (r: String)
        ensures
            r@ == self.spec_message(),
    {
        match self {
            KubeError::KubeError(m) => {
                let mut s = "Kubernetes API error: ".to_owned();
                s.append(m.as_str());
                s
            },
            KubeError::ConfigError(m) => {
                let mut s = "Configuration error: ".to_owned();
                s.append(m.as_str());
                s
            },
            KubeError::NotFound { resource_type, name, namespace } => {
                let mut s = "Resource not found: ".to_owned();
                s.append(resource_type.as_str());
                s.append(" '");
                s.append(name.as_str());
                s.append("' in namespace '");
                s.append(namespace.as_str());
                s.append("'");
                s
            },
            KubeError::AlreadyExists { resource_type, name, namespace } => {
                let mut s = "Resource already exists: ".to_owned();
                s.append(resource_type.as_str());
                s.append(" '");
                s.append(name.as_str());
                s.append("' in namespace '");
                s.append(namespace.as_str());
                s.append("'");
                s
            },
            KubeError::Timeout(m) => {
                let mut s = "Timeout error: ".to_owned();
                s.append(m.as_str());
                s
            },
            KubeError::InvalidResource(m) => {
                let mut s = "Invalid resource: ".to_owned();
                s.append(m.as_str());
                s
            },
            KubeError::ValidationError(m) => {
                let mut s = "Validation error: ".to_owned();
                s.append(m.as_str());
                s
            },
            KubeError::Io(m) => {
                let mut s = "IO error: ".to_owned();
                s.append(m.as_str());
                s
            },
            KubeError::YamlParse(m) => {
                let mut s = "YAML parse error: ".to_owned();
                s.append(m.as_str());
                s
            },
            KubeError::TomlParse(m) => {
                let mut s = "TOML parse error: ".to_owned();
                s.append(m.as_str());
                s
            },
            KubeError::JsonParse(m) => {
                let mut s = "JSON parse error: ".to_owned();
                s.append(m.as_str());
                s
            },
        }
    }
}

} // verus!
