//! Template manifest definitions.
//!
//! A manifest describes how to build a VM template reproducibly: the base
//! image, the resources of the builder VM, the users, the cloud-init build
//! steps, the post-boot steps run over SSH, and what to verify afterwards.

use crate::text::{clone_opt, clone_strings, has_char, opt_seq, owned, views};
use vstd::prelude::*;

verus! {

/// Default build timeout in seconds (40 minutes).
pub fn default_timeout() -> (r: u64)
    ensures
        r == 2400,
{
    2400
}

/// Default timeout for waiting on cloud-init, in seconds (10 minutes).
pub fn default_cloud_init_timeout() -> (r: u64)
    ensures
        r == 600,
{
    600
}

/// Default wait after a reboot, in seconds (2 minutes).
pub fn default_reboot_wait() -> (r: u64)
    ensures
        r == 120,
{
    120
}

/// Default timeout for a post-boot package installation, in seconds (30 minutes).
pub fn default_package_timeout() -> (r: u64)
    ensures
        r == 1800,
{
    1800
}

/// The default permission string for created or copied files.
pub open spec fn default_file_mode_text() -> Seq<char> {
    seq!['0', '6', '4', '4']
}

/// Default permission string for created or copied files (`0644`).
pub fn default_file_mode() -> (r: String)
    ensures
        r@ == default_file_mode_text(),
{
    let r = owned("0644");
    proof {
        reveal_strlit("0644");
    }
    assert(r@ =~= default_file_mode_text());
    r
}

/// Template manifest: how to build a template.
#[derive(Debug, Clone)]
pub struct TemplateManifest {
    /// Template name.
    pub name: String,
    /// Template version (semver).
    pub version: String,
    /// Base image to build from.
    pub base_image: String,
    /// Description.
    pub description: Option<String>,
    /// VM resources.
    pub resources: ResourceConfig,
    /// PCI devices passed through via VFIO.
    pub pci_passthrough: Vec<PciPassthroughConfig>,
    /// Users to create with cloud-init.
    pub users: Vec<UserConfig>,
    /// Build steps (cloud-init).
    pub build_steps: Vec<BuildStep>,
    /// Post-boot steps (run over SSH after cloud-init completes).
    pub post_boot_steps: Vec<PostBootStep>,
    /// Verification requirements.
    pub verification: VerificationConfig,
    /// Free-form metadata as key/value pairs.
    pub metadata: Vec<(String, String)>,
    /// Creation time (RFC 3339), filled by the builder.
    pub created: Option<String>,
    /// SHA-256 checksum, filled by the builder.
    pub checksum: Option<String>,
}

/// VM resource configuration.
#[derive(Debug, Clone)]
pub struct ResourceConfig {
    /// Memory in MB.
    pub memory_mb: usize,
    /// Number of vCPUs.
    pub vcpus: usize,
    /// Disk size in GB.
    pub disk_gb: usize,
    /// Build timeout in seconds.
    pub timeout_secs: u64,
    /// Static IP address, if any.
    pub static_ip: Option<String>,
}

/// PCI device for VFIO passthrough into the VM.
#[derive(Debug, Clone)]
pub struct PciPassthroughConfig {
    /// PCI bus/device/function (e.g. `0000:4d:00.0`).
    pub bdf: String,
    /// Prevent Function Level Reset on VM shutdown.
    pub no_flr: bool,
}

/// User configuration for cloud-init.
#[derive(Debug, Clone)]
pub struct UserConfig {
    /// Username.
    pub name: String,
    /// Password (hashed by cloud-init).
    pub password: Option<String>,
    /// Groups.
    pub groups: Vec<String>,
    /// SSH authorized keys.
    pub ssh_authorized_keys: Vec<String>,
}

/// Build step (executed by cloud-init).
#[derive(Debug, Clone)]
pub enum BuildStep {
    /// Wait for cloud-init to complete.
    WaitCloudInit {
        /// Max seconds to wait.
        timeout_secs: u64,
    },
    /// Add an APT repository.
    AddRepository {
        /// Short name for `sources.list.d` and keyring files.
        name: String,
        /// Repository URL.
        url: String,
        /// Optional URL of the signing key.
        key_url: Option<String>,
    },
    /// Install packages.
    InstallPackages {
        /// APT package names.
        packages: Vec<String>,
    },
    /// Run a shell command.
    RunCommand {
        /// Shell command run as root.
        command: String,
        /// Optional label.
        description: Option<String>,
    },
    /// Enable a systemd service.
    EnableService {
        /// Unit name.
        service: String,
    },
    /// Create a file with content.
    CreateFile {
        /// Absolute path on the guest.
        path: String,
        /// File contents.
        content: String,
        /// Optional octal mode.
        mode: Option<String>,
    },
    /// Download a file.
    DownloadFile {
        /// HTTP(S) URL.
        url: String,
        /// Destination path on the guest.
        dest: String,
    },
    /// Reboot the VM.
    Reboot {
        /// Seconds to wait after requesting the reboot.
        wait_secs: u64,
    },
}

/// Post-boot step (executed over SSH after cloud-init completes).
#[derive(Debug, Clone)]
pub enum PostBootStep {
    /// Install packages (with retry and timeout).
    InstallPackages {
        /// Package names.
        packages: Vec<String>,
        /// Whether to retry on transient errors.
        retry: bool,
        /// Timeout in seconds.
        timeout_secs: u64,
        /// Optional description.
        description: Option<String>,
    },
    /// Run a shell command.
    RunCommand {
        /// Shell command.
        command: String,
        /// Optional label.
        description: Option<String>,
        /// Timeout in seconds (0 means the default).
        timeout_secs: u64,
    },
    /// Create a file with content.
    CreateFile {
        /// Absolute path on the guest.
        path: String,
        /// File contents.
        content: String,
        /// Octal permission string.
        mode: String,
        /// Optional `user:group` owner.
        owner: Option<String>,
    },
    /// Copy a file from the host to the VM.
    CopyFile {
        /// Host path.
        source: String,
        /// Destination on the guest.
        destination: String,
        /// Octal permission string.
        mode: String,
    },
    /// Fetch a file or directory from the VM to the host.
    FetchFile {
        /// Path on the guest.
        remote_path: String,
        /// Destination on the host.
        local_path: String,
        /// Copy recursively.
        recursive: bool,
    },
    /// Enable a systemd service.
    EnableService {
        /// Unit name.
        service: String,
        /// Start it immediately too.
        start: bool,
    },
    /// Reboot the VM and wait for it to come back.
    Reboot {
        /// Seconds to wait for SSH after the reboot.
        wait_secs: u64,
    },
}


/// The abstract value of a post-boot step: its strings as character sequences.
pub enum PostBootStepView {
    /// See [`PostBootStep::InstallPackages`].
    InstallPackages {
        /// Package names.
        packages: Seq<Seq<char>>,
        /// Retry flag.
        retry: bool,
        /// Timeout in seconds.
        timeout_secs: u64,
        /// Description.
        description: Option<Seq<char>>,
    },
    /// See [`PostBootStep::RunCommand`].
    RunCommand {
        /// Command.
        command: Seq<char>,
        /// Description.
        description: Option<Seq<char>>,
        /// Timeout in seconds.
        timeout_secs: u64,
    },
    /// See [`PostBootStep::CreateFile`].
    CreateFile {
        /// Path.
        path: Seq<char>,
        /// Contents.
        content: Seq<char>,
        /// Mode.
        mode: Seq<char>,
        /// Owner.
        owner: Option<Seq<char>>,
    },
    /// See [`PostBootStep::CopyFile`].
    CopyFile {
        /// Source.
        source: Seq<char>,
        /// Destination.
        destination: Seq<char>,
        /// Mode.
        mode: Seq<char>,
    },
    /// See [`PostBootStep::FetchFile`].
    FetchFile {
        /// Remote path.
        remote_path: Seq<char>,
        /// Local path.
        local_path: Seq<char>,
        /// Recursive flag.
        recursive: bool,
    },
    /// See [`PostBootStep::EnableService`].
    EnableService {
        /// Unit name.
        service: Seq<char>,
        /// Start flag.
        start: bool,
    },
    /// See [`PostBootStep::Reboot`].
    Reboot {
        /// Seconds to wait.
        wait_secs: u64,
    },
}

impl View for PostBootStep {
    type V = PostBootStepView;

    open spec fn view(&self) -> PostBootStepView {
        match *self {
            PostBootStep::InstallPackages { packages, retry, timeout_secs, description } =>
                PostBootStepView::InstallPackages {
                packages: views(packages@),
                retry,
                timeout_secs,
                description: opt_seq(description),
            },
            PostBootStep::RunCommand { command, description, timeout_secs } =>
                PostBootStepView::RunCommand {
                command: command@,
                description: opt_seq(description),
                timeout_secs,
            },
            PostBootStep::CreateFile { path, content, mode, owner } => PostBootStepView::CreateFile {
                path: path@,
                content: content@,
                mode: mode@,
                owner: opt_seq(owner),
            },
            PostBootStep::CopyFile { source, destination, mode } => PostBootStepView::CopyFile {
                source: source@,
                destination: destination@,
                mode: mode@,
            },
            PostBootStep::FetchFile { remote_path, local_path, recursive } =>
                PostBootStepView::FetchFile {
                remote_path: remote_path@,
                local_path: local_path@,
                recursive,
            },
            PostBootStep::EnableService { service, start } => PostBootStepView::EnableService {
                service: service@,
                start,
            },
            PostBootStep::Reboot { wait_secs } => PostBootStepView::Reboot { wait_secs },
        }
    }
}

impl PostBootStep {
    /// A copy with the same abstract value.
    pub fn duplicate(&self) -> (r: Self)
        ensures
            r@ == self@,
    {
        match self {
            PostBootStep::InstallPackages { packages, retry, timeout_secs, description } =>
                PostBootStep::InstallPackages {
                packages: clone_strings(packages),
                retry: *retry,
                timeout_secs: *timeout_secs,
                description: clone_opt(description),
            },
            PostBootStep::RunCommand { command, description, timeout_secs } =>
                PostBootStep::RunCommand {
                command: command.clone(),
                description: clone_opt(description),
                timeout_secs: *timeout_secs,
            },
            PostBootStep::CreateFile { path, content, mode, owner } => PostBootStep::CreateFile {
                path: path.clone(),
                content: content.clone(),
                mode: mode.clone(),
                owner: clone_opt(owner),
            },
            PostBootStep::CopyFile { source, destination, mode } => PostBootStep::CopyFile {
                source: source.clone(),
                destination: destination.clone(),
                mode: mode.clone(),
            },
            PostBootStep::FetchFile { remote_path, local_path, recursive } =>
                PostBootStep::FetchFile {
                remote_path: remote_path.clone(),
                local_path: local_path.clone(),
                recursive: *recursive,
            },
            PostBootStep::EnableService { service, start } => PostBootStep::EnableService {
                service: service.clone(),
                start: *start,
            },
            PostBootStep::Reboot { wait_secs } => PostBootStep::Reboot { wait_secs: *wait_secs },
        }
    }
}

/// Verification configuration.
#[derive(Debug, Clone)]
pub struct VerificationConfig {
    /// Packages that must be installed.
    pub required_packages: Vec<String>,
    /// Services that must be enabled.
    pub required_services: Vec<String>,
    /// Files that must exist.
    pub required_files: Vec<String>,
    /// Commands to run.
    pub verification_commands: Vec<VerificationCommand>,
}

/// Verification command.
#[derive(Debug, Clone)]
pub struct VerificationCommand {
    /// Command to run.
    pub command: String,
    /// Expected exit code.
    pub expected_exit_code: i32,
    /// Description.
    pub description: Option<String>,
}

/// Why a manifest is rejected.
#[derive(Debug, Clone, Copy, PartialEq, Eq, Structural)]
pub enum ManifestError {
    /// The template name is empty.
    EmptyName,
    /// The version has no `.`.
    InvalidVersion,
    /// The base image is empty.
    EmptyBaseImage,
    /// Less than 512 MB of memory.
    MemoryTooSmall,
    /// No vCPU.
    NoVcpus,
    /// Less than 10 GB of disk.
    DiskTooSmall,
}

/// The text of each manifest error.
pub open spec fn manifest_error_text(e: ManifestError) -> Seq<char> {
    match e {
        ManifestError::EmptyName => "Template name cannot be empty"@,
        ManifestError::InvalidVersion => "Version must be in semver format (e.g., 1.0.0)"@,
        ManifestError::EmptyBaseImage => "Base image cannot be empty"@,
        ManifestError::MemoryTooSmall => "Memory must be at least 512 MB"@,
        ManifestError::NoVcpus => "Must have at least 1 vCPU"@,
        ManifestError::DiskTooSmall => "Disk size must be at least 10 GB"@,
    }
}

impl ManifestError {
    /// Human-readable message.
    pub fn message(&self) -> (r: String)
        ensures
            r@ == manifest_error_text(*self),
    {
        match self {
            ManifestError::EmptyName => owned("Template name cannot be empty"),
            ManifestError::InvalidVersion => owned("Version must be in semver format (e.g., 1.0.0)"),
            ManifestError::EmptyBaseImage => owned("Base image cannot be empty"),
            ManifestError::MemoryTooSmall => owned("Memory must be at least 512 MB"),
            ManifestError::NoVcpus => owned("Must have at least 1 vCPU"),
            ManifestError::DiskTooSmall => owned("Disk size must be at least 10 GB"),
        }
    }
}

/// The outcome of validating a manifest: the first rule it breaks, in the
/// order name, version, base image, memory, vCPUs, disk.
pub open spec fn validation_outcome(m: TemplateManifest) -> Result<(), ManifestError> {
    if m.name@.len() == 0 {
        Err(ManifestError::EmptyName)
    } else if !m.version@.contains('.') {
        Err(ManifestError::InvalidVersion)
    } else if m.base_image@.len() == 0 {
        Err(ManifestError::EmptyBaseImage)
    } else if m.resources.memory_mb < 512 {
        Err(ManifestError::MemoryTooSmall)
    } else if m.resources.vcpus < 1 {
        Err(ManifestError::NoVcpus)
    } else if m.resources.disk_gb < 10 {
        Err(ManifestError::DiskTooSmall)
    } else {
        Ok(())
    }
}

impl TemplateManifest {
    /// Validates the manifest.
    pub fn validate(&self) -> (r: Result<(), ManifestError>)
        ensures
            r == validation_outcome(*self),
    {
        if self.name.as_str().is_empty() {
            return Err(ManifestError::EmptyName);
        }
        if !has_char(self.version.as_str(), '.') {
            return Err(ManifestError::InvalidVersion);
        }
        if self.base_image.as_str().is_empty() {
            return Err(ManifestError::EmptyBaseImage);
        }
        if self.resources.memory_mb < 512 {
            return Err(ManifestError::MemoryTooSmall);
        }
        if self.resources.vcpus < 1 {
            return Err(ManifestError::NoVcpus);
        }
        if self.resources.disk_gb < 10 {
            return Err(ManifestError::DiskTooSmall);
        }
        Ok(())
    }
}

} // verus!
