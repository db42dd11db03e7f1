//! Manifest-driven image builder: build states, cloud-init planning, checks.

pub mod cloud_init;
pub mod cloud_init_monitor;
pub mod executor;
pub mod image_builder;
pub mod network;
pub mod post_boot;
pub mod state;
pub mod verification;
pub mod vm_handle;
pub mod vm_reboot;

pub use cloud_init_monitor::{CloudInitStage, CloudInitStatus};
pub use image_builder::ImageBuilder;
pub use network::NetworkMonitor;
pub use state::BuildState;
pub use verification::VerificationResult;
pub use vm_handle::{CloudInitStatusInfo, VmHandle};
