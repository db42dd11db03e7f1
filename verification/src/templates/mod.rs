//! Template registry system: manifests, template records and the registry index.

pub mod manifest;
pub mod registry;

pub use manifest::{
    BuildStep, ManifestError, PciPassthroughConfig, PostBootStep, ResourceConfig,
    TemplateManifest, UserConfig, VerificationCommand, VerificationConfig,
};
pub use registry::{RegistryError, TemplateInfo, TemplateRegistry};
