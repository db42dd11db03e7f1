//! The JSON-RPC 2.0 service: registration settings, method routing, error
//! replies, and the decisions of the method handlers.
//!
//! The transport (newline-delimited JSON over TCP), the JSON encoding and
//! the file system reads are done by the caller.

use crate::images::{extension_of, file_extension};
use crate::templates::manifest::{manifest_error_text, validation_outcome, TemplateManifest};
use crate::templates::registry::{join_path, path_join};
use crate::text::{owned, push_str, str_eq};
use vstd::prelude::*;

verus! {

/// JSON-RPC 2.0: the request could not be parsed.
pub const PARSE_ERROR: i64 = -32700;

/// JSON-RPC 2.0: the request is not a valid request.
pub const INVALID_REQUEST: i64 = -32600;

/// JSON-RPC 2.0: the method does not exist.
pub const METHOD_NOT_FOUND: i64 = -32601;

/// JSON-RPC 2.0: the parameters are invalid.
pub const INVALID_PARAMS: i64 = -32602;

/// JSON-RPC 2.0: the server failed.
pub const INTERNAL_ERROR: i64 = -32603;

/// Settings for registering with a Unix-socket service registry: where to
/// connect, and the name to register under.
#[derive(Debug, Clone)]
pub struct RegistrationSettings {
    /// Unix domain socket path of the registry.
    pub registry_socket: String,
    /// Logical name this instance registers under.
    pub service_name: String,
}

impl RegistrationSettings {
    /// Settings with an explicit socket path and service name.
    pub fn new(registry_socket: String, service_name: String) -> (r: Self)
        ensures
            r.registry_socket@ == registry_socket@,
            r.service_name@ == service_name@,
    {
        RegistrationSettings { registry_socket, service_name }
    }

    /// Settings with the socket given by the `REGISTRY_SOCKET` environment
    /// variable (`registry_socket_env`), or `/run/ecoPrimals/registry.sock`
    /// when it is not set.
    pub fn with_default_socket(registry_socket_env: Option<String>, service_name: String) -> (r:
        Self)
        ensures
            r.registry_socket@ == match registry_socket_env {
                Some(s) => s@,
                None => "/run/ecoPrimals/registry.sock"@,
            },
            r.service_name@ == service_name@,
    {
        let registry_socket = match registry_socket_env {
            Some(s) => s,
            None => owned("/run/ecoPrimals/registry.sock"),
        };
        RegistrationSettings { registry_socket, service_name }
    }
}

/// The capabilities declared when registering.
pub fn registration_capabilities() -> (r: Vec<&'static str>)
    ensures
        r@.len() == 4,
        r@[0]@ == "image.build"@,
        r@[1]@ == "image.list"@,
        r@[2]@ == "template.validate"@,
        r@[3]@ == "health.check"@,
{
    let mut r: Vec<&'static str> = Vec::new();
    r.push("image.build");
    r.push("image.list");
    r.push("template.validate");
    r.push("health.check");
    r
}

/// The methods served.
#[derive(Debug, Clone, Copy, PartialEq, Eq, Structural)]
pub enum RpcMethod {
    /// `health.liveness`.
    HealthLiveness,
    /// `health.readiness`.
    HealthReadiness,
    /// `health.check`.
    HealthCheck,
    /// `registry.list`.
    RegistryList,
    /// `template.validate`.
    TemplateValidate,
    /// `image.list`.
    ImageList,
}

/// The method named `name`, if it is served.
pub open spec fn method_named(name: Seq<char>) -> Option<RpcMethod> {
    if name == "health.liveness"@ {
        Some(RpcMethod::HealthLiveness)
    } else if name == "health.readiness"@ {
        Some(RpcMethod::HealthReadiness)
    } else if name == "health.check"@ {
        Some(RpcMethod::HealthCheck)
    } else if name == "registry.list"@ {
        Some(RpcMethod::RegistryList)
    } else if name == "template.validate"@ {
        Some(RpcMethod::TemplateValidate)
    } else if name == "image.list"@ {
        Some(RpcMethod::ImageList)
    } else {
        None
    }
}

/// The method named `method`, if it is served.
pub fn dispatch_method(method: &str) -> (r: Option<RpcMethod>)
    ensures
        r == method_named(method@),
{
    if str_eq(method, "health.liveness") {
        Some(RpcMethod::HealthLiveness)
    } else if str_eq(method, "health.readiness") {
        Some(RpcMethod::HealthReadiness)
    } else if str_eq(method, "health.check") {
        Some(RpcMethod::HealthCheck)
    } else if str_eq(method, "registry.list") {
        Some(RpcMethod::RegistryList)
    } else if str_eq(method, "template.validate") {
        Some(RpcMethod::TemplateValidate)
    } else if str_eq(method, "image.list") {
        Some(RpcMethod::ImageList)
    } else {
        None
    }
}

/// Why a method failed.
#[derive(Debug, Clone)]
pub enum MethodError {
    /// The method is not served.
    NotFound,
    /// The parameters are invalid.
    InvalidParams(String),
    /// The server failed.
    Internal(String),
}

/// A JSON-RPC error object (without data).
#[derive(Debug, Clone)]
pub struct RpcError {
    /// Error code.
    pub code: i64,
    /// Error message.
    pub message: String,
}

/// The error answered to a line that is not a JSON-RPC request.
pub fn parse_error(detail: &str) -> (r: RpcError)
    ensures
        r.code == PARSE_ERROR,
        r.message@ == "Parse error: "@ + detail@,
{
    let mut m = owned("Parse error: ");
    push_str(&mut m, detail);
    RpcError { code: PARSE_ERROR, message: m }
}

/// The error answered to a request of another JSON-RPC version than `2.0`,
/// if it is one.
pub fn check_version(jsonrpc: &str) -> (r: Option<RpcError>)
    ensures
        r is None <==> jsonrpc@ == "2.0"@,
        r matches Some(e) ==> e.code == INVALID_REQUEST && e.message@
            == "Invalid JSON-RPC version (must be \"2.0\")"@,
{
    if str_eq(jsonrpc, "2.0") {
        None
    } else {
        Some(
            RpcError {
                code: INVALID_REQUEST,
                message: owned("Invalid JSON-RPC version (must be \"2.0\")"),
            },
        )
    }
}

/// The error answered when method `method` failed with `e`.
pub fn method_error(method: &str, e: MethodError) -> (r: RpcError)
    ensures
        match e {
            MethodError::NotFound => r.code == METHOD_NOT_FOUND && r.message@ == "Method not found: "@
                + method@,
            MethodError::InvalidParams(m) => r.code == INVALID_PARAMS && r.message@ == m@,
            MethodError::Internal(m) => r.code == INTERNAL_ERROR && r.message@ == m@,
        },
{
    match e {
        MethodError::NotFound => {
            let mut m = owned("Method not found: ");
            push_str(&mut m, method);
            RpcError { code: METHOD_NOT_FOUND, message: m }
        },
        MethodError::InvalidParams(m) => RpcError { code: INVALID_PARAMS, message: m },
        MethodError::Internal(m) => RpcError { code: INTERNAL_ERROR, message: m },
    }
}

// ---------------------------------------------------------------------------
// Handlers
// ---------------------------------------------------------------------------

/// The service name reported by liveness.
pub fn service_name() -> (r: &'static str)
    ensures
        r@ == "agent-reagents"@,
{
    "agent-reagents"
}

/// The reply to `health.liveness`.
#[derive(Debug, Clone)]
pub struct LivenessReply {
    /// Always `alive`.
    pub status: String,
    /// The service name.
    pub service: String,
    /// The service's version.
    pub version: String,
}

/// The reply to `health.liveness` from a service of version `version`:
/// status `alive` and the service name.
pub fn liveness_reply(version: &str) -> (r: LivenessReply)
    ensures
        r.status@ == "alive"@,
        r.service@ == "agent-reagents"@,
        r.version@ == version@,
{
    LivenessReply { status: owned("alive"), service: owned(service_name()), version: owned(version) }
}

/// The readiness status: `ready` when the registry directory exists.
pub fn readiness_status(registry_dir_exists: bool) -> (r: &'static str)
    ensures
        r@ == if registry_dir_exists {
            "ready"@
        } else {
            "not_ready"@
        },
{
    if registry_dir_exists {
        "ready"
    } else {
        "not_ready"
    }
}

/// The health status: `healthy` when the registry could be opened.
pub fn health_status(registry_ok: bool) -> (r: &'static str)
    ensures
        r@ == if registry_ok {
            "healthy"@
        } else {
            "degraded"@
        },
{
    if registry_ok {
        "healthy"
    } else {
        "degraded"
    }
}

/// The error of a registry that could not be opened.
pub fn registry_init_error(detail: &str) -> (r: MethodError)
    ensures
        r matches MethodError::Internal(m) && m@ == "registry init: "@ + detail@,
{
    let mut m = owned("registry init: ");
    push_str(&mut m, detail);
    MethodError::Internal(m)
}

/// The error of a directory that could not be read.
pub fn read_dir_error(detail: &str) -> (r: MethodError)
    ensures
        r matches MethodError::Internal(m) && m@ == "read dir: "@ + detail@,
{
    let mut m = owned("read dir: ");
    push_str(&mut m, detail);
    MethodError::Internal(m)
}

/// Where the served images live: `<registry_dir>/templates`.
pub fn images_dir(registry_dir: &str) -> (r: String)
    ensures
        r@ == path_join(registry_dir@, "templates"@),
{
    join_path(registry_dir, "templates")
}

/// Whether a file in the images directory is listed: its extension is
/// `qcow2` or `img`.
pub fn is_listed_image(file_name: &str) -> (r: bool)
    ensures
        r == (file_extension(file_name@) == Some("qcow2"@) || file_extension(file_name@) == Some(
            "img"@,
        )),
{
    match extension_of(file_name) {
        Some(e) => str_eq(e.as_str(), "qcow2") || str_eq(e.as_str(), "img"),
        None => false,
    }
}

/// The answer of `template.validate`.
#[derive(Debug, Clone)]
pub enum TemplateValidation {
    /// The manifest is valid.
    Valid {
        /// Template name.
        name: String,
        /// Template version.
        version: String,
        /// Number of build steps.
        build_steps: usize,
    },
    /// The manifest is not valid, for this reason.
    Invalid(String),
}

/// The path parameter of `template.validate`: the `path` member when it is a string.
pub fn template_path_param(path: Option<String>) -> (r: Result<String, MethodError>)
    ensures
        match path {
            Some(p) => r matches Ok(q) && q@ == p@,
            None => r matches Err(MethodError::InvalidParams(m)) && m@ == "missing \"path\" string"@,
        },
{
    match path {
        Some(p) => Ok(p),
        None => Err(MethodError::InvalidParams(owned("missing \"path\" string"))),
    }
}

/// The answer for a manifest path that does not exist.
pub fn template_file_missing(path: &str) -> (r: TemplateValidation)
    ensures
        r matches TemplateValidation::Invalid(m) && m@ == "file not found: "@ + path@,
{
    let mut m = owned("file not found: ");
    push_str(&mut m, path);
    TemplateValidation::Invalid(m)
}

/// The answer for a manifest file, from its parse: a parse error, the
/// validation error, or the valid manifest's name, version and step count.
pub fn template_validation(parsed: &Result<TemplateManifest, String>) -> (r: TemplateValidation)
    ensures
        match parsed {
            Err(e) => r matches TemplateValidation::Invalid(m) && m@ == "parse error: "@ + e@,
            Ok(manifest) => match validation_outcome(*manifest) {
                Ok(()) => r matches TemplateValidation::Valid { name, version, build_steps } && name@
                    == manifest.name@ && version@ == manifest.version@ && build_steps
                    == manifest.build_steps@.len(),
                Err(err) => r matches TemplateValidation::Invalid(m) && m@ == manifest_error_text(
                    err,
                ),
            },
        },
{
    match parsed {
        Err(e) => {
            let mut m = owned("parse error: ");
            push_str(&mut m, e.as_str());
            TemplateValidation::Invalid(m)
        },
        Ok(manifest) => match manifest.validate() {
            Ok(()) => TemplateValidation::Valid {
                name: manifest.name.clone(),
                version: manifest.version.clone(),
                build_steps: manifest.build_steps.len(),
            },
            Err(err) => TemplateValidation::Invalid(err.message()),
        },
    }
}

} // verus!
