//! Post-boot steps: what each step runs on the VM once cloud-init is done,
//! and the monitored package installation.
//!
//! The SSH calls, file transfers and waits are made by the caller, in the
//! order given here.

use crate::builder::vm_reboot::RebootConfig;
use crate::templates::manifest::PostBootStep;
use crate::text::{
    debug_string_list, debug_strings, decimal, join, join_strings, owned, parse_bounded, parse_u64,
    push_decimal, push_str, str_eq, trim, trim_str, views,
};
use vstd::prelude::*;

verus! {

/// The SSH command timeout used when a step gives none (0).
pub open spec fn default_command_timeout() -> u64 {
    120
}

/// The timeout of a command: `timeout_secs`, or the default when it is 0.
pub open spec fn effective_timeout_spec(timeout_secs: u64) -> u64 {
    if timeout_secs == 0 {
        default_command_timeout()
    } else {
        timeout_secs
    }
}

/// The timeout of a command: `timeout_secs`, or 120 s when it is 0
/// (0 means "use the default", not "instantly").
pub fn effective_timeout(timeout_secs: u64) -> (r: u64)
    ensures
        r == effective_timeout_spec(timeout_secs),
{
    if timeout_secs == 0 {
        120
    } else {
        timeout_secs
    }
}

/// The error of a command that ran out of time.
pub fn command_timeout_message(timeout_secs: u64) -> (r: String)
    ensures
        r@ == "Command timed out after "@ + decimal(effective_timeout_spec(timeout_secs) as nat)
            + "s"@,
{
    let mut r = owned("Command timed out after ");
    push_decimal(&mut r, effective_timeout(timeout_secs));
    push_str(&mut r, "s");
    r
}

/// What a post-boot step asks of the VM, one action at a time.
#[derive(Debug, Clone)]
pub enum PostBootAction {
    /// Run a command over SSH within a timeout (0 means the default).
    Exec {
        /// Shell command.
        command: String,
        /// Timeout in seconds.
        timeout_secs: u64,
    },
    /// Run a command over SSH, trying up to `attempts` times, 5 s apart.
    RetryExec {
        /// Shell command.
        command: String,
        /// Timeout of each try in seconds.
        timeout_secs: u64,
        /// Number of tries.
        attempts: usize,
    },
    /// Install packages with the monitored install script.
    MonitoredInstall {
        /// Package names.
        packages: Vec<String>,
        /// Overall timeout in seconds.
        timeout_secs: u64,
    },
    /// Copy a host file to the guest.
    Push {
        /// Host path.
        source: String,
        /// Guest path.
        destination: String,
    },
    /// Fetch a guest file or directory to the host.
    Fetch {
        /// Guest path.
        remote_path: String,
        /// Host path.
        local_path: String,
        /// Copy recursively.
        recursive: bool,
    },
    /// Reboot the VM and wait for it with this configuration.
    Reboot(RebootConfig),
}

/// The abstract value of a post-boot action.
pub enum PostBootActionView {
    /// See [`PostBootAction::Exec`].
    Exec {
        /// Command.
        command: Seq<char>,
        /// Timeout.
        timeout_secs: u64,
    },
    /// See [`PostBootAction::RetryExec`].
    RetryExec {
        /// Command.
        command: Seq<char>,
        /// Timeout.
        timeout_secs: u64,
        /// Tries.
        attempts: usize,
    },
    /// See [`PostBootAction::MonitoredInstall`].
    MonitoredInstall {
        /// Packages.
        packages: Seq<Seq<char>>,
        /// Timeout.
        timeout_secs: u64,
    },
    /// See [`PostBootAction::Push`].
    Push {
        /// Source.
        source: Seq<char>,
        /// Destination.
        destination: Seq<char>,
    },
    /// See [`PostBootAction::Fetch`].
    Fetch {
        /// Remote path.
        remote_path: Seq<char>,
        /// Local path.
        local_path: Seq<char>,
        /// Recursive.
        recursive: bool,
    },
    /// See [`PostBootAction::Reboot`].
    Reboot(RebootConfig),
}

impl View for PostBootAction {
    type V = PostBootActionView;

    open spec fn view(&self) -> PostBootActionView {
        match *self {
            PostBootAction::Exec { command, timeout_secs } => PostBootActionView::Exec {
                command: command@,
                timeout_secs,
            },
            PostBootAction::RetryExec { command, timeout_secs, attempts } =>
                PostBootActionView::RetryExec { command: command@, timeout_secs, attempts },
            PostBootAction::MonitoredInstall { packages, timeout_secs } =>
                PostBootActionView::MonitoredInstall { packages: views(packages@), timeout_secs },
            PostBootAction::Push { source, destination } => PostBootActionView::Push {
                source: source@,
                destination: destination@,
            },
            PostBootAction::Fetch { remote_path, local_path, recursive } =>
                PostBootActionView::Fetch {
                remote_path: remote_path@,
                local_path: local_path@,
                recursive,
            },
            PostBootAction::Reboot(c) => PostBootActionView::Reboot(c),
        }
    }
}

/// The views of a sequence of post-boot actions.
pub open spec fn post_boot_action_views(s: Seq<PostBootAction>) -> Seq<PostBootActionView> {
    s.map_values(|a: PostBootAction| a@)
}

/// The reboot configuration of a post-boot reboot step.
pub open spec fn reboot_step_config(wait_secs: u64) -> RebootConfig {
    RebootConfig {
        initial_wait_secs: wait_secs,
        max_wait_secs: 600,
        check_interval_secs: 5,
        stabilization_wait_secs: 10,
        gather_diagnostics: true,
    }
}

/// The actions of one post-boot step; `install_command` is the package
/// manager's install command (such as `apt-get install -y`).
pub open spec fn post_boot_actions(step: PostBootStep, install_command: Seq<char>) -> Seq<
    PostBootActionView,
> {
    match step {
        PostBootStep::InstallPackages { packages, retry, timeout_secs, .. } => if retry {
            seq![
                PostBootActionView::RetryExec {
                    command: "sudo "@ + install_command + " "@ + join(views(packages@), " "@),
                    timeout_secs,
                    attempts: 3,
                },
            ]
        } else {
            seq![PostBootActionView::MonitoredInstall { packages: views(packages@), timeout_secs }]
        },
        PostBootStep::RunCommand { command, timeout_secs, .. } => seq![
            PostBootActionView::Exec { command: command@, timeout_secs },
        ],
        PostBootStep::CreateFile { path, content, mode, owner } => seq![
            PostBootActionView::Exec {
                command: "sudo tee "@ + path@ + " > /dev/null <<'EOFAGENTREAGENTS'\n"@ + content@
                    + "\nEOFAGENTREAGENTS"@,
                timeout_secs: 60,
            },
            PostBootActionView::Exec {
                command: "sudo chmod "@ + mode@ + " "@ + path@,
                timeout_secs: 10,
            },
        ] + match owner {
            Some(o) => seq![
                PostBootActionView::Exec {
                    command: "sudo chown "@ + o@ + " "@ + path@,
                    timeout_secs: 10,
                },
            ],
            None => Seq::empty(),
        },
        PostBootStep::CopyFile { source, destination, mode } => seq![
            PostBootActionView::Push { source: source@, destination: destination@ },
            PostBootActionView::Exec {
                command: "sudo chmod "@ + mode@ + " "@ + destination@,
                timeout_secs: 10,
            },
        ],
        PostBootStep::FetchFile { remote_path, local_path, recursive } => seq![
            PostBootActionView::Fetch {
                remote_path: remote_path@,
                local_path: local_path@,
                recursive,
            },
        ],
        PostBootStep::EnableService { service, start } => seq![
            PostBootActionView::Exec {
                command: "sudo systemctl enable "@ + service@,
                timeout_secs: 30,
            },
        ] + if start {
            seq![
                PostBootActionView::Exec {
                    command: "sudo systemctl start "@ + service@,
                    timeout_secs: 60,
                },
            ]
        } else {
            Seq::empty()
        },
        PostBootStep::Reboot { wait_secs } => seq![
            PostBootActionView::Reboot(reboot_step_config(wait_secs)),
        ],
    }
}

/// The actions of one post-boot step, in order; `install_command` is the
/// package manager's install command.
pub fn post_boot_step_actions(step: &PostBootStep, install_command: &str) -> (r: Vec<
    PostBootAction,
>)
    ensures
        post_boot_action_views(r@) == post_boot_actions(*step, install_command@),
{
    let mut r: Vec<PostBootAction> = Vec::new();
    match step {
        PostBootStep::InstallPackages { packages, retry, timeout_secs, .. } => {
            if *retry {
                let mut c = owned("sudo ");
                push_str(&mut c, install_command);
                push_str(&mut c, " ");
                let joined = join_strings(packages, " ");
                push_str(&mut c, joined.as_str());
                r.push(
                    PostBootAction::RetryExec { command: c, timeout_secs: *timeout_secs, attempts: 3 },
                );
            } else {
                let ps = crate::text::clone_strings(packages);
                r.push(PostBootAction::MonitoredInstall { packages: ps, timeout_secs: *timeout_secs });
            }
        },
        PostBootStep::RunCommand { command, timeout_secs, .. } => {
            r.push(PostBootAction::Exec { command: command.clone(), timeout_secs: *timeout_secs });
        },
        PostBootStep::CreateFile { path, content, mode, owner } => {
            let mut c = owned("sudo tee ");
            push_str(&mut c, path.as_str());
            push_str(&mut c, " > /dev/null <<'EOFAGENTREAGENTS'\n");
            push_str(&mut c, content.as_str());
            push_str(&mut c, "\nEOFAGENTREAGENTS");
            r.push(PostBootAction::Exec { command: c, timeout_secs: 60 });
            let mut m = owned("sudo chmod ");
            push_str(&mut m, mode.as_str());
            push_str(&mut m, " ");
            push_str(&mut m, path.as_str());
            r.push(PostBootAction::Exec { command: m, timeout_secs: 10 });
            let ghost two = post_boot_action_views(r@);
            match owner {
                Some(o) => {
                    let mut w = owned("sudo chown ");
                    push_str(&mut w, o.as_str());
                    push_str(&mut w, " ");
                    push_str(&mut w, path.as_str());
                    r.push(PostBootAction::Exec { command: w, timeout_secs: 10 });
                },
                None => {
                    assert(post_boot_action_views(r@) =~= two + Seq::<PostBootActionView>::empty());
                },
            }
        },
        PostBootStep::CopyFile { source, destination, mode } => {
            r.push(PostBootAction::Push { source: source.clone(), destination: destination.clone() });
            let mut m = owned("sudo chmod ");
            push_str(&mut m, mode.as_str());
            push_str(&mut m, " ");
            push_str(&mut m, destination.as_str());
            r.push(PostBootAction::Exec { command: m, timeout_secs: 10 });
        },
        PostBootStep::FetchFile { remote_path, local_path, recursive } => {
            r.push(
                PostBootAction::Fetch {
                    remote_path: remote_path.clone(),
                    local_path: local_path.clone(),
                    recursive: *recursive,
                },
            );
        },
        PostBootStep::EnableService { service, start } => {
            let mut e = owned("sudo systemctl enable ");
            push_str(&mut e, service.as_str());
            r.push(PostBootAction::Exec { command: e, timeout_secs: 30 });
            let ghost one = post_boot_action_views(r@);
            if *start {
                let mut s = owned("sudo systemctl start ");
                push_str(&mut s, service.as_str());
                r.push(PostBootAction::Exec { command: s, timeout_secs: 60 });
            } else {
                assert(post_boot_action_views(r@) =~= one + Seq::<PostBootActionView>::empty());
            }
        },
        PostBootStep::Reboot { wait_secs } => {
            r.push(PostBootAction::Reboot(RebootConfig::for_reboot_step(*wait_secs)));
        },
    }
    assert(post_boot_action_views(r@) =~= post_boot_actions(*step, install_command@));
    r
}

/// The context added to the error of a failing post-boot step, when it has one.
pub open spec fn step_failure_context_text(step: PostBootStep) -> Option<Seq<char>> {
    match step {
        PostBootStep::InstallPackages { packages, .. } => Some(
            "Failed to install packages: "@ + debug_string_list(views(packages@)),
        ),
        PostBootStep::RunCommand { command, .. } => Some("Failed to run command: "@ + command@),
        PostBootStep::CopyFile { source, destination, .. } => Some(
            "Failed to copy "@ + source@ + " to guest:"@ + destination@,
        ),
        PostBootStep::FetchFile { remote_path, .. } => Some(
            "Failed to fetch "@ + remote_path@ + " from guest"@,
        ),
        PostBootStep::Reboot { .. } => Some("Failed to complete VM reboot"@),
        _ => None,
    }
}

/// The context added to the error of a failing post-boot step, when it has one.
pub fn step_failure_context(step: &PostBootStep) -> (r: Option<String>)
    ensures
        crate::text::opt_seq(r) == step_failure_context_text(*step),
{
    match step {
        PostBootStep::InstallPackages { packages, .. } => {
            let mut m = owned("Failed to install packages: ");
            let d = debug_strings(packages);
            push_str(&mut m, d.as_str());
            Some(m)
        },
        PostBootStep::RunCommand { command, .. } => {
            let mut m = owned("Failed to run command: ");
            push_str(&mut m, command.as_str());
            Some(m)
        },
        PostBootStep::CopyFile { source, destination, .. } => {
            let mut m = owned("Failed to copy ");
            push_str(&mut m, source.as_str());
            push_str(&mut m, " to guest:");
            push_str(&mut m, destination.as_str());
            Some(m)
        },
        PostBootStep::FetchFile { remote_path, .. } => {
            let mut m = owned("Failed to fetch ");
            push_str(&mut m, remote_path.as_str());
            push_str(&mut m, " from guest");
            Some(m)
        },
        PostBootStep::Reboot { .. } => Some(owned("Failed to complete VM reboot")),
        _ => None,
    }
}

/// The context added to the error of step `index` (from 0) of `count`.
pub fn post_boot_step_context(index: usize, count: usize) -> (r: String)
    requires
        index < usize::MAX,
    ensures
        r@ == "Failed to execute post-boot step "@ + decimal((index + 1) as nat) + "/"@ + decimal(
            count as nat,
        ),
{
    let mut m = owned("Failed to execute post-boot step ");
    push_decimal(&mut m, (index + 1) as u64);
    push_str(&mut m, "/");
    push_decimal(&mut m, count as u64);
    m
}

// ---------------------------------------------------------------------------
// Monitored package installation
// ---------------------------------------------------------------------------

/// The files of one monitored installation, named by a unique id: the
/// progress log, the completion marker and the install script.
#[derive(Debug, Clone)]
pub struct InstallScript {
    /// Log of the install output.
    pub marker_file: String,
    /// Written when the install finished.
    pub completion_marker: String,
    /// The install script.
    pub script_path: String,
}

/// The environment set before an APT install.
pub open spec fn apt_preamble() -> Seq<char> {
    "export DEBIAN_FRONTEND=noninteractive\nexport NEEDRESTART_MODE=a\nexport NEEDRESTART_SUSPEND=1"@
}

impl InstallScript {
    /// The files for the installation numbered `unique_id`.
    pub fn new(unique_id: u64) -> (r: Self)
        ensures
            r.marker_file@ == "/tmp/pkg-progress-"@ + decimal(unique_id as nat) + ".log"@,
            r.completion_marker@ == "/tmp/pkg-complete-"@ + decimal(unique_id as nat),
            r.script_path@ == "/tmp/pkg-install-"@ + decimal(unique_id as nat) + ".sh"@,
    {
        let mut marker_file = owned("/tmp/pkg-progress-");
        push_decimal(&mut marker_file, unique_id);
        push_str(&mut marker_file, ".log");
        let mut completion_marker = owned("/tmp/pkg-complete-");
        push_decimal(&mut completion_marker, unique_id);
        let mut script_path = owned("/tmp/pkg-install-");
        push_decimal(&mut script_path, unique_id);
        push_str(&mut script_path, ".sh");
        InstallScript { marker_file, completion_marker, script_path }
    }

    /// Removes the three files.
    pub fn cleanup_command(&self) -> (r: String)
        ensures
            r@ == "rm -f "@ + self.marker_file@ + " "@ + self.completion_marker@ + " "@
                + self.script_path@,
    {
        let mut r = owned("rm -f ");
        push_str(&mut r, self.marker_file.as_str());
        push_str(&mut r, " ");
        push_str(&mut r, self.completion_marker.as_str());
        push_str(&mut r, " ");
        push_str(&mut r, self.script_path.as_str());
        r
    }

    /// The install script: the APT environment when `apt`, the install
    /// command logging to the progress file, then the completion marker.
    pub open spec fn content_text(
        &self,
        install_command: Seq<char>,
        packages: Seq<Seq<char>>,
        apt: bool,
    ) -> Seq<char> {
        "#!/bin/bash\n# Auto-generated package install script\n"@ + (if apt {
            apt_preamble()
        } else {
            Seq::empty()
        }) + "\n\n# Run install and log output\nsudo "@ + install_command + " "@ + join(
            packages,
            " "@,
        ) + " 2>&1 | tee "@ + self.marker_file@ + "\n\n# Write completion marker\necho \"DONE\" > "@
            + self.completion_marker@ + "\n"@
    }

    /// The install script.
    pub fn content(&self, install_command: &str, packages: &Vec<String>, apt: bool) -> (r: String)
        ensures
            r@ == self.content_text(install_command@, views(packages@), apt),
    {
        let mut r = owned("#!/bin/bash\n# Auto-generated package install script\n");
        if apt {
            push_str(
                &mut r,
                "export DEBIAN_FRONTEND=noninteractive\nexport NEEDRESTART_MODE=a\nexport NEEDRESTART_SUSPEND=1",
            );
        }
        push_str(&mut r, "\n\n# Run install and log output\nsudo ");
        push_str(&mut r, install_command);
        push_str(&mut r, " ");
        let joined = join_strings(packages, " ");
        push_str(&mut r, joined.as_str());
        push_str(&mut r, " 2>&1 | tee ");
        push_str(&mut r, self.marker_file.as_str());
        push_str(&mut r, "\n\n# Write completion marker\necho \"DONE\" > ");
        push_str(&mut r, self.completion_marker.as_str());
        push_str(&mut r, "\n");
        assert(r@ =~= self.content_text(install_command@, views(packages@), apt));
        r
    }

    /// Writes `content` as the install script and makes it executable.
    pub fn write_command(&self, content: &str) -> (r: String)
        ensures
            r@ == "cat > "@ + self.script_path@ + " << 'SCRIPT_EOF'\n"@ + content@
                + "\nSCRIPT_EOF\nchmod +x "@ + self.script_path@,
    {
        let mut r = owned("cat > ");
        push_str(&mut r, self.script_path.as_str());
        push_str(&mut r, " << 'SCRIPT_EOF'\n");
        push_str(&mut r, content);
        push_str(&mut r, "\nSCRIPT_EOF\nchmod +x ");
        push_str(&mut r, self.script_path.as_str());
        r
    }

    /// Starts the install script in the background.
    pub fn launch_command(&self) -> (r: String)
        ensures
            r@ == "nohup "@ + self.script_path@ + " > /dev/null 2>&1 &"@,
    {
        let mut r = owned("nohup ");
        push_str(&mut r, self.script_path.as_str());
        push_str(&mut r, " > /dev/null 2>&1 &");
        r
    }

    /// Answers `done` once the completion marker exists, `running` before.
    pub fn completion_check_command(&self) -> (r: String)
        ensures
            r@ == "test -f "@ + self.completion_marker@ + " && echo 'done' || echo 'running'"@,
    {
        let mut r = owned("test -f ");
        push_str(&mut r, self.completion_marker.as_str());
        push_str(&mut r, " && echo 'done' || echo 'running'");
        r
    }

    /// Answers the size of the progress log in bytes (0 when missing).
    pub fn log_size_command(&self) -> (r: String)
        ensures
            r@ == "stat -c %s "@ + self.marker_file@ + " 2>/dev/null || echo 0"@,
    {
        let mut r = owned("stat -c %s ");
        push_str(&mut r, self.marker_file.as_str());
        push_str(&mut r, " 2>/dev/null || echo 0");
        r
    }

    /// The last three lines of the progress log, shown when the install stalls.
    pub fn stall_tail_command(&self) -> (r: String)
        ensures
            r@ == "tail -3 "@ + self.marker_file@ + " 2>/dev/null || echo 'No log yet'"@,
    {
        let mut r = owned("tail -3 ");
        push_str(&mut r, self.marker_file.as_str());
        push_str(&mut r, " 2>/dev/null || echo 'No log yet'");
        r
    }

    /// The last line of the progress log, shown as progress.
    pub fn progress_tail_command(&self) -> (r: String)
        ensures
            r@ == "tail -1 "@ + self.marker_file@ + " 2>/dev/null"@,
    {
        let mut r = owned("tail -1 ");
        push_str(&mut r, self.marker_file.as_str());
        push_str(&mut r, " 2>/dev/null");
        r
    }
}

/// The error of an install that ran out of time.
pub fn install_timeout_message(timeout_secs: u64) -> (r: String)
    ensures
        r@ == "apt-get install timed out after "@ + decimal(timeout_secs as nat) + "s"@,
{
    let mut r = owned("apt-get install timed out after ");
    push_decimal(&mut r, timeout_secs);
    push_str(&mut r, "s");
    r
}

/// Whether the completion check answered `done` (a failed check counts as
/// `error`, which is not `done`).
pub open spec fn install_done_spec(reply: Result<String, String>) -> bool {
    reply matches Ok(s) && trim(s@) == "done"@
}

/// Whether the completion check answered `done`.
pub fn install_done(reply: &Result<String, String>) -> (r: bool)
    ensures
        r == install_done_spec(*reply),
{
    match reply {
        Ok(s) => {
            let t = trim_str(s.as_str());
            str_eq(t.as_str(), "done")
        },
        Err(_) => false,
    }
}

/// What to do next while waiting for a monitored install.
#[derive(Debug)]
pub enum InstallWait {
    /// The install finished: stop waiting and clean up.
    Done,
    /// The wait ran out of time: fail with this message.
    TimedOut(String),
    /// Wait five seconds and probe for the completion marker again.
    Probe,
}

/// Whether the last completion check (if any) answered `done`.
pub open spec fn last_check_done(reply: Option<Result<String, String>>) -> bool {
    match reply {
        Some(x) => install_done_spec(x),
        None => false,
    }
}

/// One decision of the wait for a monitored install, given the time since
/// the wait started and the answer of the last completion check (`None`
/// before the first). A `done` answer ends the wait; otherwise the wait
/// fails once the time is strictly over `timeout_secs`; otherwise it probes
/// again. A failed check (SSH error) never ends the wait by itself.
pub fn install_wait_step(
    elapsed_secs: u64,
    elapsed_nanos: u32,
    timeout_secs: u64,
    reply: &Option<Result<String, String>>,
) -> (r: InstallWait)
    ensures
        r is Done <==> last_check_done(*reply),
        r is TimedOut <==> !last_check_done(*reply)
            && crate::builder::vm_handle::exceeds((elapsed_secs, elapsed_nanos), (timeout_secs, 0)),
        r matches InstallWait::TimedOut(m) ==> m@ == "apt-get install timed out after "@ + decimal(
            timeout_secs as nat,
        ) + "s"@,
{
    let done = match reply {
        Some(x) => install_done(x),
        None => false,
    };
    if done {
        InstallWait::Done
    } else if crate::builder::vm_handle::elapsed_exceeds(
        elapsed_secs,
        elapsed_nanos,
        timeout_secs,
        0,
    ) {
        InstallWait::TimedOut(install_timeout_message(timeout_secs))
    } else {
        InstallWait::Probe
    }
}

/// The log size read from an answer: its trimmed text as a number, or 0
/// when it is not one or the query failed.
pub open spec fn log_size_spec(reply: Result<String, String>) -> u64 {
    match reply {
        Ok(s) => match parse_bounded(trim(s@), u64::MAX as nat) {
            Some(n) => n as u64,
            None => 0,
        },
        Err(_) => 0,
    }
}

/// Whether a progress line is worth showing: not blank once trimmed, and
/// shorter than 200 bytes.
pub open spec fn progress_line_shown_spec(line: Seq<char>) -> bool {
    trim(line).len() > 0 && vstd::utf8::encode_utf8(trim(line)).len() < 200
}

/// Whether a progress line is worth showing.
pub fn progress_line_shown(line: &str) -> (r: bool)
    ensures
        r == progress_line_shown_spec(line@),
{
    let t = trim_str(line);
    !t.as_str().is_empty() && t.as_str().as_bytes().len() < 200
}

/// What a progress poll reports.
#[derive(Debug, Clone, Copy, PartialEq, Eq)]
pub enum InstallProgress {
    /// The log grew: report its size in KiB and show its last line.
    Growing {
        /// Log size in KiB.
        kb: u64,
    },
    /// The log has not grown for six polls in a row: show its tail.
    Stalled,
    /// The log has not grown, not yet for six polls.
    Quiet,
}

/// The progress of a monitored install, from the size of its log.
#[derive(Debug)]
pub struct InstallMonitor {
    last_size: u64,
    stall_count: u32,
}

impl InstallMonitor {
    /// The well-formedness of the monitor: fewer than six quiet polls pending.
    #[verifier::type_invariant]
    spec fn wf(&self) -> bool {
        self.stall_count < 6
    }

    /// The log size at the last poll.
    pub closed spec fn spec_last_size(&self) -> u64 {
        self.last_size
    }

    /// The quiet polls since the log last grew or a stall was reported.
    pub closed spec fn spec_stall_count(&self) -> u32 {
        self.stall_count
    }

    /// Nothing logged, no quiet poll yet.
    pub fn new() -> (r: Self)
        ensures
            r.spec_last_size() == 0,
            r.spec_stall_count() == 0,
    {
        InstallMonitor { last_size: 0, stall_count: 0 }
    }

    /// Records the answer to the log size query. A log that did not grow
    /// counts one quiet poll, and the sixth in a row is a stall (the count
    /// then starts again); a log that changed size resets the count.
    pub fn on_log_size(&mut self, reply: &Result<String, String>) -> (r: InstallProgress)
        ensures
            final(self).spec_last_size() == log_size_spec(*reply),
            final(self).spec_stall_count() < 6,
            log_size_spec(*reply) == old(self).spec_last_size() && old(self).spec_stall_count() + 1
                >= 6 ==> r is Stalled && final(self).spec_stall_count() == 0,
            log_size_spec(*reply) == old(self).spec_last_size() && old(self).spec_stall_count() + 1
                < 6 ==> r is Quiet && final(self).spec_stall_count() == old(self).spec_stall_count()
                + 1,
            log_size_spec(*reply) != old(self).spec_last_size() ==> (r == (InstallProgress::Growing {
                kb: log_size_spec(*reply) / 1024,
            })) && final(self).spec_stall_count() == 0,
    {
        proof {
            use_type_invariant(&*self);
        }
        let size: u64 = match reply {
            Ok(s) => {
                let t = trim_str(s.as_str());
                match parse_u64(t.as_str()) {
                    Some(n) => n,
                    None => 0,
                }
            },
            Err(_) => 0,
        };
        let r = if size == self.last_size {
            if self.stall_count + 1 >= 6 {
                self.stall_count = 0;
                InstallProgress::Stalled
            } else {
                self.stall_count = self.stall_count + 1;
                InstallProgress::Quiet
            }
        } else {
            self.stall_count = 0;
            InstallProgress::Growing { kb: size / 1024 }
        };
        self.last_size = size;
        r
    }
}

// ---------------------------------------------------------------------------
// Laws
// ---------------------------------------------------------------------------

/// Copying a file pushes it from the host source to the guest destination,
/// then sets the step's mode on the copied file: the `chmod` targets the
/// destination the file was pushed to, never the host path.
pub proof fn law_copy_file_sets_mode_on_destination(
    source: String,
    destination: String,
    mode: String,
    install_command: Seq<char>,
)
    ensures
        ({
            let a = post_boot_actions(
                (PostBootStep::CopyFile { source, destination, mode }),
                install_command,
            );
            &&& a.len() == 2
            &&& a[0] matches PostBootActionView::Push { source: s, destination: d } && s == source@
                && d == destination@
            &&& a[1] matches PostBootActionView::Exec { command, .. } && command == "sudo chmod "@
                + mode@ + " "@ + destination@
        }),
{
}

} // verus!
