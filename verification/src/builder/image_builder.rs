//! The manifest-driven image builder: its configuration and build state.

use crate::builder::state::BuildState;
use crate::builder::vm_handle::CloudInitStatusInfo;
use crate::templates::manifest::TemplateManifest;
use crate::templates::registry::{join_path, path_join};
use crate::text::{contains, debug_string_list, has_infix, owned, push_str, str_lowercase, to_lowercase, views};
use vstd::prelude::*;

verus! {

/// Image builder for creating VM templates.
///
/// The builder is manifest-driven: the manifest says what to build; the
/// builder keeps the timeout and the current state of the build.
pub struct ImageBuilder {
    manifest: TemplateManifest,
    timeout_secs: u64,
    timeout_subsec_nanos: u32,
    state: BuildState,
    plasmid_bin_path: Option<String>,
}

impl ImageBuilder {
    /// The manifest being built.
    pub closed spec fn spec_manifest(&self) -> TemplateManifest {
        self.manifest
    }

    /// The build timeout: whole seconds and the sub-second nanoseconds.
    pub closed spec fn spec_timeout(&self) -> (u64, u32) {
        (self.timeout_secs, self.timeout_subsec_nanos)
    }

    /// The current build state.
    pub closed spec fn spec_state(&self) -> BuildState {
        self.state
    }

    /// The plasmidBin path, if configured.
    pub closed spec fn spec_plasmid_bin_path(&self) -> Option<Seq<char>> {
        match self.plasmid_bin_path {
            Some(p) => Some(p@),
            None => None,
        }
    }

    /// A builder for `manifest`, idle, with the manifest's timeout.
    pub fn from_manifest(manifest: TemplateManifest) -> (r: Self)
        ensures
            r.spec_manifest() == manifest,
            r.spec_timeout() == (manifest.resources.timeout_secs, 0u32),
            r.spec_state() is Idle,
            r.spec_plasmid_bin_path() is None,
    {
        let timeout_secs = manifest.resources.timeout_secs;
        ImageBuilder {
            manifest,
            timeout_secs,
            timeout_subsec_nanos: 0,
            state: BuildState::Idle,
            plasmid_bin_path: None,
        }
    }

    /// Overrides the build timeout.
    pub fn with_timeout(self, secs: u64, subsec_nanos: u32) -> (r: Self)
        ensures
            r.spec_timeout() == (secs, subsec_nanos),
            r.spec_manifest() == self.spec_manifest(),
            r.spec_state() == self.spec_state(),
            r.spec_plasmid_bin_path() == self.spec_plasmid_bin_path(),
    {
        ImageBuilder { timeout_secs: secs, timeout_subsec_nanos: subsec_nanos, ..self }
    }

    /// Sets a plasmidBin path so that primal binaries are baked into the image.
    pub fn with_plasmid_bin(self, path: String) -> (r: Self)
        ensures
            r.spec_plasmid_bin_path() == Some(path@),
            r.spec_manifest() == self.spec_manifest(),
            r.spec_timeout() == self.spec_timeout(),
            r.spec_state() == self.spec_state(),
    {
        ImageBuilder { plasmid_bin_path: Some(path), ..self }
    }

    /// The plasmidBin path, if configured.
    pub fn plasmid_bin_path(&self) -> (r: Option<&String>)
        ensures
            match r {
                Some(p) => self.spec_plasmid_bin_path() == Some(p@),
                None => self.spec_plasmid_bin_path() is None,
            },
    {
        self.plasmid_bin_path.as_ref()
    }

    /// The current build state.
    pub fn state(&self) -> (r: &BuildState)
        ensures
            *r == self.spec_state(),
    {
        &self.state
    }

    /// The template manifest.
    pub fn manifest(&self) -> (r: &TemplateManifest)
        ensures
            *r == self.spec_manifest(),
    {
        &self.manifest
    }

    /// The VM name (the manifest's name).
    pub fn name(&self) -> (r: &str)
        ensures
            r@ == self.spec_manifest().name@,
    {
        self.manifest.name.as_str()
    }

    /// The build timeout: whole seconds and the sub-second nanoseconds.
    pub fn timeout(&self) -> (r: (u64, u32))
        ensures
            r == self.spec_timeout(),
    {
        (self.timeout_secs, self.timeout_subsec_nanos)
    }

    /// Moves the build to `new_state`.
    pub fn transition_to(&mut self, new_state: BuildState)
        ensures
            final(self).spec_state() == new_state,
            final(self).spec_manifest() == old(self).spec_manifest(),
            final(self).spec_timeout() == old(self).spec_timeout(),
            final(self).spec_plasmid_bin_path() == old(self).spec_plasmid_bin_path(),
    {
        self.state = new_state;
    }

    /// The SSH user: the manifest's first user, or `ubuntu` when it names none.
    pub fn get_username_with_fallback(&self) -> (r: &str)
        ensures
            r@ == if self.spec_manifest().users@.len() > 0 {
                self.spec_manifest().users@[0].name@
            } else {
                "ubuntu"@
            },
    {
        if self.manifest.users.len() > 0 {
            self.manifest.users[0].name.as_str()
        } else {
            "ubuntu"
        }
    }

    /// Infers the APT suite (codename) from a base image file name.
    pub fn infer_suite(base_image: &str) -> (r: &'static str)
        ensures
            r@ == suite_for(str_lowercase(base_image@)),
    {
        let lower = to_lowercase(base_image);
        suite_for_lowercase(lower.as_str())
    }
}

/// The APT suite inferred from an already lowercased base image name.
pub fn suite_for_lowercase(l: &str) -> (r: &'static str)
    ensures
        r@ == suite_for(l@),
{
    if contains(l, "noble") {
        "noble"
    } else if contains(l, "24.04") {
        "noble"
    } else if contains(l, "jammy") {
        "jammy"
    } else if contains(l, "22.04") {
        "jammy"
    } else if contains(l, "focal") {
        "focal"
    } else if contains(l, "20.04") {
        "focal"
    } else if contains(l, "bookworm") {
        "bookworm"
    } else if contains(l, "bullseye") {
        "bullseye"
    } else if contains(l, "trixie") {
        "trixie"
    } else {
        "noble"
    }
}

/// The APT suite inferred from a lowercased base image name: the first of
/// `noble`/`24.04` (noble), `jammy`/`22.04` (jammy), `focal`/`20.04` (focal),
/// `bookworm`, `bullseye`, `trixie` that it mentions, else `noble`.
pub open spec fn suite_for(lower: Seq<char>) -> Seq<char> {
    if has_infix(lower, "noble"@) || has_infix(lower, "24.04"@) {
        "noble"@
    } else if has_infix(lower, "jammy"@) || has_infix(lower, "22.04"@) {
        "jammy"@
    } else if has_infix(lower, "focal"@) || has_infix(lower, "20.04"@) {
        "focal"@
    } else if has_infix(lower, "bookworm"@) {
        "bookworm"@
    } else if has_infix(lower, "bullseye"@) {
        "bullseye"@
    } else if has_infix(lower, "trixie"@) {
        "trixie"@
    } else {
        "noble"@
    }
}

/// What one poll of a running build found.
#[derive(Debug, Clone)]
pub enum MonitorStep {
    /// The VM powered off: the build process ended.
    PoweredOff,
    /// Cloud-init finished: the build is complete.
    Finished,
    /// Cloud-init reported errors: the build fails with this message.
    Failed(String),
    /// Cloud-init is still running, with this status.
    Running(String),
    /// The status could not be read (SSH may not be ready): poll again.
    StatusUnavailable,
}

/// How the monitoring of a build ended.
#[derive(Debug, Clone)]
pub enum MonitorOutcome {
    /// The build process finished.
    Completed,
    /// The build process failed with this reason.
    Failed(String),
    /// The build did not finish within the timeout.
    TimedOut,
}

impl ImageBuilder {
    /// One poll of the build process: whether the VM still runs, then the
    /// cloud-init status read from it. A finished cloud-init completes the build.
    pub fn monitor_step(&mut self, vm_running: bool, status: &Result<CloudInitStatusInfo, String>) -> (r:
        MonitorStep)
        ensures
            final(self).spec_manifest() == old(self).spec_manifest(),
            final(self).spec_timeout() == old(self).spec_timeout(),
            final(self).spec_plasmid_bin_path() == old(self).spec_plasmid_bin_path(),
            !vm_running ==> r is PoweredOff && final(self).spec_state() == old(self).spec_state(),
            vm_running ==> match status {
                Ok(info) => if info.finished {
                    r is Finished && final(self).spec_state() is Complete
                } else if info.errors@.len() > 0 {
                    r matches MonitorStep::Failed(m) && m@ == "Cloud-init failed: "@
                        + debug_string_list(views(info.errors@)) && final(self).spec_state()
                        == old(self).spec_state()
                } else {
                    r matches MonitorStep::Running(s) && s@ == info.status@
                        && final(self).spec_state() == old(self).spec_state()
                },
                Err(_) => r is StatusUnavailable
                    && final(self).spec_state() == old(self).spec_state(),
            },
    {
        if !vm_running {
            return MonitorStep::PoweredOff;
        }
        match status {
            Ok(info) => {
                if info.finished {
                    self.transition_to(BuildState::Complete);
                    MonitorStep::Finished
                } else if info.errors.len() > 0 {
                    MonitorStep::Failed(info.failure_message())
                } else {
                    MonitorStep::Running(info.status.clone())
                }
            },
            Err(_) => MonitorStep::StatusUnavailable,
        }
    }

    /// Records how the monitoring ended; says whether the build goes on. A
    /// failure records its reason, a timeout the reason `Build timeout`.
    pub fn finish_monitoring(&mut self, outcome: MonitorOutcome) -> (r: bool)
        ensures
            final(self).spec_manifest() == old(self).spec_manifest(),
            final(self).spec_timeout() == old(self).spec_timeout(),
            final(self).spec_plasmid_bin_path() == old(self).spec_plasmid_bin_path(),
            r == (outcome is Completed),
            outcome is Completed ==> final(self).spec_state() == old(self).spec_state(),
            outcome matches MonitorOutcome::Failed(e) ==> (final(self).spec_state() matches BuildState::Failed { reason }
                && reason@ == e@),
            outcome is TimedOut ==> (final(self).spec_state() matches BuildState::Failed { reason }
                && reason@ == "Build timeout"@),
    {
        match outcome {
            MonitorOutcome::Completed => true,
            MonitorOutcome::Failed(e) => {
                self.transition_to(BuildState::Failed { reason: e });
                false
            },
            MonitorOutcome::TimedOut => {
                self.transition_to(BuildState::Failed { reason: owned("Build timeout") });
                false
            },
        }
    }

    /// Records the verification outcome; says whether the build goes on. A
    /// failed verification records the reason `Verification failed`.
    pub fn finish_verification(&mut self, passed: bool) -> (r: bool)
        ensures
            final(self).spec_manifest() == old(self).spec_manifest(),
            final(self).spec_timeout() == old(self).spec_timeout(),
            final(self).spec_plasmid_bin_path() == old(self).spec_plasmid_bin_path(),
            r == passed,
            passed ==> final(self).spec_state() == old(self).spec_state(),
            !passed ==> (final(self).spec_state() matches BuildState::Failed { reason }
                && reason@ == "Verification failed"@),
    {
        if !passed {
            self.transition_to(BuildState::Failed { reason: owned("Verification failed") });
        }
        passed
    }

    /// The cloud-init YAML of the former fixed COSMIC build (superseded by
    /// the manifest-driven plan), with `ssh_public_key` for the `cosmic` user.
    pub fn _create_cosmic_cloud_init_yaml_deprecated(ssh_public_key: &str) -> (r: String)
        ensures
            r@ == cosmic_yaml_head() + ssh_public_key@ + cosmic_yaml_tail(),
    {
        let mut r = owned(COSMIC_YAML_HEAD);
        push_str(&mut r, ssh_public_key);
        push_str(&mut r, COSMIC_YAML_TAIL);
        r
    }
}

/// The former fixed COSMIC cloud-init YAML, up to the SSH key.
pub const COSMIC_YAML_HEAD: &'static str = "#cloud-config\nusers:\n  - name: cosmic\n    groups: users, admin, sudo\n    sudo: ALL=(ALL) NOPASSWD:ALL\n    shell: /bin/bash\n    lock_passwd: false\n    ssh_authorized_keys:\n      - ";

/// The former fixed COSMIC cloud-init YAML, after the SSH key.
pub const COSMIC_YAML_TAIL: &'static str = "\n\nchpasswd:\n  list: |\n    cosmic:cosmic2025\n  expire: false\n\npackage_update: true\npackage_upgrade: true\n\npackages:\n  - build-essential\n  - git\n  - curl\n  - wget\n  - vim\n  - libwayland-client0\n  - libwayland-server0\n  - xwayland\n  - software-properties-common\n  - gnupg2\n  - ca-certificates\n  - openssh-server\n  - avahi-daemon\n  - net-tools\n  - dbus-x11\n  - pipewire\n  - wireplumber\n\nruncmd:\n  - echo \"Adding System76 COSMIC repository...\"\n  - curl -fsSL https://apt.system76.com/signing-key.asc | gpg --dearmor -o /etc/apt/keyrings/system76.gpg\n  - echo \"deb [signed-by=/etc/apt/keyrings/system76.gpg] https://apt.system76.com/cosmic noble main\" | tee /etc/apt/sources.list.d/system76-cosmic.list\n  - apt-get update\n  - echo \"Installing COSMIC Desktop...\"\n  - DEBIAN_FRONTEND=noninteractive apt-get install -y cosmic-session cosmic-greeter cosmic-comp cosmic-panel cosmic-launcher cosmic-applets cosmic-settings cosmic-files cosmic-term cosmic-edit\n  - systemctl enable cosmic-greeter\n  - systemctl set-default graphical.target\n  - systemctl enable ssh\n  - systemctl start ssh\n  - apt-get autoremove -y\n  - apt-get clean\n  - sync\n\npower_state:\n  mode: poweroff\n  timeout: 2400\n  condition: true\n\nfinal_message: |\n  COSMIC installation complete!\n  System will power off.\n";

/// The view of the YAML head.
pub open spec fn cosmic_yaml_head() -> Seq<char> {
    COSMIC_YAML_HEAD@
}

/// The view of the YAML tail.
pub open spec fn cosmic_yaml_tail() -> Seq<char> {
    COSMIC_YAML_TAIL@
}

// ---------------------------------------------------------------------------
// SSH key discovery
// ---------------------------------------------------------------------------

/// The home directory of the user who invoked `sudo`.
pub fn sudo_user_home(sudo_user: &str) -> (r: String)
    ensures
        r@ == "/home/"@ + sudo_user@,
{
    let mut r = owned("/home/");
    push_str(&mut r, sudo_user);
    r
}

/// The private keys looked for under a home directory, in order.
pub open spec fn ssh_key_candidates_text(home: Seq<char>) -> Seq<Seq<char>> {
    seq![
        path_join(home, ".ssh/id_ed25519"@),
        path_join(home, ".ssh/id_rsa"@),
        path_join(home, ".ssh/id_ecdsa"@),
    ]
}

/// The private keys looked for under a home directory, in order: ED25519, RSA, ECDSA.
pub fn ssh_key_candidates(home: &str) -> (r: Vec<String>)
    ensures
        views(r@) == ssh_key_candidates_text(home@),
{
    let mut r: Vec<String> = Vec::new();
    r.push(join_path(home, ".ssh/id_ed25519"));
    r.push(join_path(home, ".ssh/id_rsa"));
    r.push(join_path(home, ".ssh/id_ecdsa"));
    assert(views(r@) =~= ssh_key_candidates_text(home@));
    r
}

} // verus!
