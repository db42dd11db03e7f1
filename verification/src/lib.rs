//! Manifest-driven VM image building: templates, registry, build planning and verification.

pub mod builder;
pub mod cleanup;
pub mod cli;
mod host;
pub mod images;
pub mod packages;
pub mod server;
pub mod templates;
pub mod text;
