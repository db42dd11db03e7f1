//! Build state tracking for VM image creation.
//!
//! The phases of a build, with the network-aware states used for resilient
//! provisioning. The two installation phases carry their progress within the
//! phase as the IEEE-754 bit pattern of an `f32` (from 0.0 to 1.0); the
//! arithmetic on it is done by the caller.

use crate::text::{concat2, concat3, owned};
use vstd::prelude::*;

verus! {

/// State of the image build process.
#[derive(Debug, Clone)]
pub enum BuildState {
    /// Initial state, not started.
    Idle,
    /// Starting the build process.
    Starting,
    /// Creating the builder VM.
    CreatingVm,
    /// Establishing network connectivity.
    NetworkEstablishment,
    /// Network verified and stable.
    NetworkVerified,
    /// Monitoring the build process.
    Monitoring,
    /// Cloud-init initialization phase.
    CloudInitInit,
    /// Installing system packages.
    InstallingPackages {
        /// Bits of the `f32` progress within this phase (0.0 to 1.0).
        progress_bits: u32,
    },
    /// Installing the COSMIC desktop.
    InstallingCosmic {
        /// Bits of the `f32` progress within this phase (0.0 to 1.0).
        progress_bits: u32,
    },
    /// Installing RustDesk.
    InstallingRustDesk,
    /// Cloud-init completed.
    CloudInitComplete,
    /// Verifying the installation.
    Verifying,
    /// Re-verifying the network after critical operations.
    VerifyingNetwork,
    /// Finalizing the template.
    Finalizing,
    /// Build complete.
    Complete,
    /// Build failed.
    Failed {
        /// Failure reason.
        reason: String,
    },
    /// Network connectivity lost.
    NetworkLost {
        /// Explanation.
        reason: String,
    },
}

/// The states in which network access is required.
pub open spec fn needs_network(s: BuildState) -> bool {
    match s {
        BuildState::NetworkEstablishment | BuildState::NetworkVerified | BuildState::Monitoring
        | BuildState::CloudInitInit | BuildState::InstallingPackages { .. }
        | BuildState::InstallingCosmic { .. } | BuildState::InstallingRustDesk
        | BuildState::CloudInitComplete | BuildState::Verifying | BuildState::VerifyingNetwork => true,
        _ => false,
    }
}

/// The states after which the build does nothing more.
pub open spec fn terminal(s: BuildState) -> bool {
    s is Complete || s is Failed || s is NetworkLost
}

/// The states that record a failure.
pub open spec fn failed(s: BuildState) -> bool {
    s is Failed || s is NetworkLost
}

/// The description of a state; `percent` is the rounded percentage of the
/// phase progress, used by the two installation phases.
pub open spec fn state_description(s: BuildState, percent: Seq<char>) -> Seq<char> {
    match s {
        BuildState::Idle => "Idle"@,
        BuildState::Starting => "Starting build process"@,
        BuildState::CreatingVm => "Creating builder VM"@,
        BuildState::NetworkEstablishment => "Establishing network"@,
        BuildState::NetworkVerified => "Network verified"@,
        BuildState::Monitoring => "Monitoring build"@,
        BuildState::CloudInitInit => "Initializing cloud-init"@,
        BuildState::InstallingPackages { .. } => "Installing packages ("@ + percent + "%)"@,
        BuildState::InstallingCosmic { .. } => "Installing COSMIC desktop ("@ + percent + "%)"@,
        BuildState::InstallingRustDesk => "Installing RustDesk"@,
        BuildState::CloudInitComplete => "Cloud-init complete"@,
        BuildState::Verifying => "Verifying installation"@,
        BuildState::VerifyingNetwork => "Verifying network"@,
        BuildState::Finalizing => "Finalizing template"@,
        BuildState::Complete => "Build complete"@,
        BuildState::Failed { reason } => "Build failed: "@ + reason@,
        BuildState::NetworkLost { reason } => "Network lost: "@ + reason@,
    }
}

impl BuildState {
    /// Whether this state requires network connectivity.
    pub fn requires_network(&self) -> (r: bool)
        ensures
            r == needs_network(*self),
    {
        match self {
            BuildState::NetworkEstablishment | BuildState::NetworkVerified
            | BuildState::Monitoring | BuildState::CloudInitInit
            | BuildState::InstallingPackages { .. } | BuildState::InstallingCosmic { .. }
            | BuildState::InstallingRustDesk | BuildState::CloudInitComplete
            | BuildState::Verifying | BuildState::VerifyingNetwork => true,
            _ => false,
        }
    }

    /// Whether the build is in a terminal state.
    pub fn is_terminal(&self) -> (r: bool)
        ensures
            r == terminal(*self),
    {
        match self {
            BuildState::Complete | BuildState::Failed { .. } | BuildState::NetworkLost { .. } => true,
            _ => false,
        }
    }

    /// Whether the build failed.
    pub fn is_failed(&self) -> (r: bool)
        ensures
            r == failed(*self),
    {
        match self {
            BuildState::Failed { .. } | BuildState::NetworkLost { .. } => true,
            _ => false,
        }
    }

    /// Whether the build is complete.
    pub fn is_complete(&self) -> (r: bool)
        ensures
            r == (*self is Complete),
    {
        match self {
            BuildState::Complete => true,
            _ => false,
        }
    }

    /// A human-readable description; `percent` is the rounded percentage of
    /// the phase progress, shown for the two installation phases.
    pub fn description(&self, percent: &str) -> (r: String)
        ensures
            r@ == state_description(*self, percent@),
    {
        match self {
            BuildState::Idle => owned("Idle"),
            BuildState::Starting => owned("Starting build process"),
            BuildState::CreatingVm => owned("Creating builder VM"),
            BuildState::NetworkEstablishment => owned("Establishing network"),
            BuildState::NetworkVerified => owned("Network verified"),
            BuildState::Monitoring => owned("Monitoring build"),
            BuildState::CloudInitInit => owned("Initializing cloud-init"),
            BuildState::InstallingPackages { .. } => concat3("Installing packages (", percent, "%)"),
            BuildState::InstallingCosmic { .. } => concat3(
                "Installing COSMIC desktop (",
                percent,
                "%)",
            ),
            BuildState::InstallingRustDesk => owned("Installing RustDesk"),
            BuildState::CloudInitComplete => owned("Cloud-init complete"),
            BuildState::Verifying => owned("Verifying installation"),
            BuildState::VerifyingNetwork => owned("Verifying network"),
            BuildState::Finalizing => owned("Finalizing template"),
            BuildState::Complete => owned("Build complete"),
            BuildState::Failed { reason } => concat2("Build failed: ", reason.as_str()),
            BuildState::NetworkLost { reason } => concat2("Network lost: ", reason.as_str()),
        }
    }
}

/// A failed build is in a terminal state.
pub proof fn law_failed_is_terminal(s: BuildState)
    ensures
        failed(s) ==> terminal(s),
{
}

/// A complete build is in a terminal state and has not failed.
pub proof fn law_complete_is_terminal_success(s: BuildState)
    ensures
        s is Complete ==> terminal(s) && !failed(s),
{
}

/// The terminal states are exactly success and the failures.
pub proof fn law_terminal_is_complete_or_failed(s: BuildState)
    ensures
        terminal(s) <==> (s is Complete || failed(s)),
{
}

/// No terminal state requires the network.
pub proof fn law_terminal_needs_no_network(s: BuildState)
    ensures
        terminal(s) ==> !needs_network(s),
{
}

} // verus!
