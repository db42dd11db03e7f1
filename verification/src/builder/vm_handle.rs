//! The builder VM as the build logic sees it: its identity, the SSH command
//! lines used to reach it, and the reading of what it answers.
//!
//! The connection itself (the virtualization backend and the SSH session)
//! belongs to the program that drives the build; this module holds what the
//! build decides from plain values.

use crate::text::{
    debug_string_list, debug_strings, has_infix, has_prefix, join, join_strings, lines, lines_of,
    owned, push_signed_decimal, push_str, str_eq, str_lowercase, to_lowercase, trim, trim_str, views,
    contains, starts_with,
};
use vstd::prelude::*;

verus! {

/// Handle to a running builder VM: its name, libvirt id and IP address.
#[derive(Debug, Clone)]
pub struct VmHandle {
    name: String,
    id: String,
    ip_address: String,
}

impl VmHandle {
    /// The VM's name.
    pub closed spec fn spec_name(&self) -> Seq<char> {
        self.name@
    }

    /// The VM's id.
    pub closed spec fn spec_id(&self) -> Seq<char> {
        self.id@
    }

    /// The VM's IP address.
    pub closed spec fn spec_ip_address(&self) -> Seq<char> {
        self.ip_address@
    }

    /// A handle for the VM `name` with id `id`, reachable at `ip_address`.
    pub fn new(name: String, id: String, ip_address: String) -> (r: Self)
        ensures
            r.spec_name() == name@,
            r.spec_id() == id@,
            r.spec_ip_address() == ip_address@,
    {
        VmHandle { name, id, ip_address }
    }

    /// The VM's IP address.
    pub fn ip_address(&self) -> (r: &str)
        ensures
            r@ == self.spec_ip_address(),
    {
        self.ip_address.as_str()
    }

    /// The VM's name.
    pub fn name(&self) -> (r: &str)
        ensures
            r@ == self.spec_name(),
    {
        self.name.as_str()
    }

    /// The VM's id.
    pub fn id(&self) -> (r: &str)
        ensures
            r@ == self.spec_id(),
    {
        self.id.as_str()
    }

    /// The same VM, now reachable at `ip_address`.
    pub fn with_ip_address(self, ip_address: String) -> (r: Self)
        ensures
            r.spec_name() == self.spec_name(),
            r.spec_id() == self.spec_id(),
            r.spec_ip_address() == ip_address@,
    {
        VmHandle { ip_address, ..self }
    }

    /// The arguments of the `ssh` command line that reaches `user@ip`:
    /// host checking off, quiet, non-interactive, and the private key when one was found.
    pub fn ssh_cli_args(user: &str, ip: &str, key: Option<&str>) -> (r: Vec<String>)
        ensures
            views(r@) == ssh_cli_args_text(user@, ip@, opt_text(key)),
    {
        let mut args: Vec<String> = Vec::new();
        args.push(owned("-o"));
        args.push(owned("StrictHostKeyChecking=no"));
        args.push(owned("-o"));
        args.push(owned("UserKnownHostsFile=/dev/null"));
        args.push(owned("-o"));
        args.push(owned("LogLevel=ERROR"));
        args.push(owned("-o"));
        args.push(owned("BatchMode=yes"));
        let ghost head = views(args@);
        match key {
            Some(k) => {
                args.push(owned("-i"));
                args.push(owned(k));
                assert(views(args@) =~= head + seq!["-i"@, k@]);
            },
            None => {
                assert(views(args@) =~= head + Seq::<Seq<char>>::empty());
            },
        }
        let ghost mid = views(args@);
        let mut target = owned(user);
        push_str(&mut target, "@");
        push_str(&mut target, ip);
        args.push(target);
        assert(views(args@) =~= mid.push(user@ + "@"@ + ip@));
        args
    }

    /// The stderr of a failed SSH command without the benign SSH warnings:
    /// lines mentioning `warning: permanently added` or `warning: permanent`,
    /// lines starting with `warning:` (in any case), and blank lines are dropped.
    pub fn filter_ssh_warnings(stderr: &str) -> (r: String)
        ensures
            r@ == filtered_ssh_text(stderr@),
    {
        let ls = lines_of(stderr);
        let mut kept: Vec<String> = Vec::new();
        let mut i: usize = 0;
        while i < ls.len()
            invariant
                i <= ls@.len(),
                views(ls@) == lines(stderr@),
                views(kept@) == kept_ssh_lines(views(ls@).take(i as int)),
            decreases ls.len() - i,
        {
            assert(views(ls@).take(i + 1).drop_last() =~= views(ls@).take(i as int));
            let line = ls[i].as_str();
            let lower = to_lowercase(line);
            let benign = is_benign_ssh_line(line, lower.as_str());
            assert(benign == benign_ssh_line(ls@[i as int]@));
            if !benign {
                let ghost before = views(kept@);
                kept.push(ls[i].clone());
                assert(views(kept@) =~= before.push(ls@[i as int]@));
            }
            i = i + 1;
        }
        assert(views(ls@).take(ls@.len() as int) =~= views(ls@));
        join_strings(&kept, "\n")
    }

    /// The message of a failed SSH command: its exit code (`-1` when it has
    /// none) and its filtered stderr, or a generic text when nothing is left.
    pub fn ssh_failure_message(exit_code: Option<i32>, stderr: &str) -> (r: String)
        ensures
            r@ == ssh_failure_text(exit_code, filtered_ssh_text(stderr@)),
    {
        let filtered = Self::filter_ssh_warnings(stderr);
        let mut r = owned("Command failed with exit code ");
        let code: i64 = match exit_code {
            Some(c) => c as i64,
            None => -1,
        };
        push_signed_decimal(&mut r, code);
        push_str(&mut r, ": ");
        if filtered.as_str().is_empty() {
            push_str(&mut r, "Command returned non-zero exit code");
        } else {
            push_str(&mut r, filtered.as_str());
        }
        r
    }

    /// The query for cloud-init's status, as JSON.
    pub fn cloud_init_status_command() -> (r: &'static str)
        ensures
            r@ == "cloud-init status --format=json"@,
    {
        "cloud-init status --format=json"
    }

    /// The query for cloud-init's detailed stages.
    pub fn cloud_init_stages_command() -> (r: &'static str)
        ensures
            r@ == "cloud-init status --long 2>/dev/null || echo 'unavailable'"@,
    {
        "cloud-init status --long 2>/dev/null || echo 'unavailable'"
    }

    /// The stage lines of the detailed cloud-init status: the lines that
    /// mention `stage:`, trimmed.
    pub fn cloud_init_stages(output: &str) -> (r: Vec<String>)
        ensures
            views(r@) == stage_lines(lines(output@)),
    {
        let ls = lines_of(output);
        let mut r: Vec<String> = Vec::new();
        let mut i: usize = 0;
        while i < ls.len()
            invariant
                i <= ls@.len(),
                views(ls@) == lines(output@),
                views(r@) == stage_lines(views(ls@).take(i as int)),
            decreases ls.len() - i,
        {
            assert(views(ls@).take(i + 1).drop_last() =~= views(ls@).take(i as int));
            if contains(ls[i].as_str(), "stage:") {
                let ghost before = views(r@);
                r.push(trim_str(ls[i].as_str()));
                assert(views(r@) =~= before.push(trim(ls@[i as int]@)));
            }
            i = i + 1;
        }
        assert(views(ls@).take(ls@.len() as int) =~= views(ls@));
        r
    }

    /// The command whose success tells that `package` is installed.
    pub fn package_installed_command(package: &str) -> (r: String)
        ensures
            r@ == "dpkg -l "@ + package@ + " 2>/dev/null | grep -q '^ii'"@,
    {
        let mut r = owned("dpkg -l ");
        push_str(&mut r, package);
        push_str(&mut r, " 2>/dev/null | grep -q '^ii'");
        r
    }

    /// The command that installs `packages` non-interactively after an update.
    pub fn install_packages_command(packages: &Vec<String>) -> (r: String)
        ensures
            r@ == "sudo apt-get update && sudo DEBIAN_FRONTEND=noninteractive apt-get install -y "@
                + join(views(packages@), " "@),
    {
        let mut r = owned(
            "sudo apt-get update && sudo DEBIAN_FRONTEND=noninteractive apt-get install -y ",
        );
        let joined = join_strings(packages, " ");
        push_str(&mut r, joined.as_str());
        r
    }
}

/// The view of an optional string slice.
pub open spec fn opt_text(o: Option<&str>) -> Option<Seq<char>> {
    match o {
        Some(s) => Some(s@),
        None => None,
    }
}

/// The `ssh` arguments for `user@ip`, with `-i key` when a key is given.
pub open spec fn ssh_cli_args_text(user: Seq<char>, ip: Seq<char>, key: Option<Seq<char>>) -> Seq<
    Seq<char>,
> {
    seq![
        "-o"@,
        "StrictHostKeyChecking=no"@,
        "-o"@,
        "UserKnownHostsFile=/dev/null"@,
        "-o"@,
        "LogLevel=ERROR"@,
        "-o"@,
        "BatchMode=yes"@,
    ] + match key {
        Some(k) => seq!["-i"@, k],
        None => Seq::empty(),
    } + seq![user + "@"@ + ip]
}

/// A benign SSH stderr line: an informational warning or a blank line.
pub open spec fn benign_ssh_line(line: Seq<char>) -> bool {
    benign_with_lowercase(line, str_lowercase(line))
}

/// Whether an SSH stderr line is benign, given the line and its lowercased text.
pub open spec fn benign_with_lowercase(line: Seq<char>, l: Seq<char>) -> bool {
    ||| has_infix(l, "warning: permanently added"@)
    ||| has_infix(l, "warning: permanent"@)
    ||| has_prefix(l, "warning:"@)
    ||| trim(line).len() == 0
}

/// Whether an SSH stderr line is benign, given the line and its lowercased text.
pub fn is_benign_ssh_line(line: &str, lower: &str) -> (r: bool)
    ensures
        r == benign_with_lowercase(line@, lower@),
{
    let t = trim_str(line);
    contains(lower, "warning: permanently added") || contains(lower, "warning: permanent")
        || starts_with(lower, "warning:") || t.as_str().is_empty()
}

/// The lines of `ls` that are not benign, in order.
pub open spec fn kept_ssh_lines(ls: Seq<Seq<char>>) -> Seq<Seq<char>>
    decreases ls.len(),
{
    if ls.len() == 0 {
        Seq::empty()
    } else {
        let prev = kept_ssh_lines(ls.drop_last());
        if benign_ssh_line(ls.last()) {
            prev
        } else {
            prev.push(ls.last())
        }
    }
}

/// The SSH warning filter keeps no benign line, and keeps no more lines
/// than it was given.
pub proof fn law_kept_lines_not_benign(ls: Seq<Seq<char>>)
    ensures
        forall|i: int|
            0 <= i < kept_ssh_lines(ls).len() ==> !benign_ssh_line(#[trigger] kept_ssh_lines(ls)[i]),
        kept_ssh_lines(ls).len() <= ls.len(),
    decreases ls.len(),
{
    if ls.len() > 0 {
        law_kept_lines_not_benign(ls.drop_last());
    }
}

/// Stderr with no benign line keeps every line, in order.
pub proof fn law_no_benign_line_keeps_all(ls: Seq<Seq<char>>)
    requires
        forall|i: int| 0 <= i < ls.len() ==> !benign_ssh_line(#[trigger] ls[i]),
    ensures
        kept_ssh_lines(ls) == ls,
    decreases ls.len(),
{
    if ls.len() > 0 {
        assert(!benign_ssh_line(ls[ls.len() - 1]));
        law_no_benign_line_keeps_all(ls.drop_last());
        assert(ls.drop_last().push(ls.last()) =~= ls);
    }
}

/// SSH stderr with the benign lines dropped, the rest joined by newlines.
pub open spec fn filtered_ssh_text(stderr: Seq<char>) -> Seq<char> {
    join(kept_ssh_lines(lines(stderr)), "\n"@)
}

/// The message of a failed SSH command.
pub open spec fn ssh_failure_text(exit_code: Option<i32>, filtered: Seq<char>) -> Seq<char> {
    let code = match exit_code {
        Some(c) => c as int,
        None => -1,
    };
    "Command failed with exit code "@ + crate::text::signed_decimal(code) + ": "@ + if filtered.len()
        == 0 {
        "Command returned non-zero exit code"@
    } else {
        filtered
    }
}

/// The lines that mention `stage:`, trimmed.
pub open spec fn stage_lines(ls: Seq<Seq<char>>) -> Seq<Seq<char>>
    decreases ls.len(),
{
    if ls.len() == 0 {
        Seq::empty()
    } else {
        let prev = stage_lines(ls.drop_last());
        if has_infix(ls.last(), "stage:"@) {
            prev.push(trim(ls.last()))
        } else {
            prev
        }
    }
}

// ---------------------------------------------------------------------------
// Cloud-init status
// ---------------------------------------------------------------------------

/// Cloud-init status from an SSH query.
#[derive(Debug, Clone)]
pub struct CloudInitStatusInfo {
    /// Raw status string (`unknown` when the answer has none).
    pub status: String,
    /// Whether cloud-init reports that it is still running.
    pub running: bool,
    /// Whether cloud-init reports that it finished.
    pub finished: bool,
    /// Messages from the status output.
    pub errors: Vec<String>,
}

/// The strings among optional entries, in order.
pub open spec fn present_strings(items: Seq<Option<String>>) -> Seq<Seq<char>>
    decreases items.len(),
{
    if items.len() == 0 {
        Seq::empty()
    } else {
        let prev = present_strings(items.drop_last());
        match items.last() {
            Some(s) => prev.push(s@),
            None => prev,
        }
    }
}

impl CloudInitStatusInfo {
    /// The status read from the fields of cloud-init's JSON answer: `status`
    /// is the `status` member when it is a string, `errors` the `errors`
    /// member when it is an array (each entry when it is a string).
    pub fn from_json_fields(status: Option<String>, errors: Option<Vec<Option<String>>>) -> (r:
        Self)
        ensures
            r.status@ == match status {
                Some(s) => s@,
                None => "unknown"@,
            },
            r.running == (status matches Some(s) && s@ == "running"@),
            r.finished == (status matches Some(s) && s@ == "done"@),
            views(r.errors@) == match errors {
                Some(es) => present_strings(es@),
                None => Seq::empty(),
            },
    {
        let (running, finished) = match &status {
            Some(s) => (str_eq(s.as_str(), "running"), str_eq(s.as_str(), "done")),
            None => (false, false),
        };
        let status_text = match status {
            Some(s) => s,
            None => owned("unknown"),
        };
        let mut errs: Vec<String> = Vec::new();
        match errors {
            Some(es) => {
                let mut i: usize = 0;
                while i < es.len()
                    invariant
                        i <= es@.len(),
                        views(errs@) == present_strings(es@.take(i as int)),
                    decreases es.len() - i,
                {
                    assert(es@.take(i + 1).drop_last() =~= es@.take(i as int));
                    match &es[i] {
                        Some(e) => {
                            let ghost before = views(errs@);
                            errs.push(e.clone());
                            assert(views(errs@) =~= before.push(e@));
                        },
                        None => {},
                    }
                    i = i + 1;
                }
                assert(es@.take(es@.len() as int) =~= es@);
            },
            None => {
                assert(views(errs@) =~= Seq::<Seq<char>>::empty());
            },
        }
        CloudInitStatusInfo { status: status_text, running, finished, errors: errs }
    }

    /// The failure message for this status's errors.
    pub fn failure_message(&self) -> (r: String)
        ensures
            r@ == "Cloud-init failed: "@ + debug_string_list(views(self.errors@)),
    {
        let mut r = owned("Cloud-init failed: ");
        let d = debug_strings(&self.errors);
        push_str(&mut r, d.as_str());
        r
    }
}

// ---------------------------------------------------------------------------
// Waiting for cloud-init
// ---------------------------------------------------------------------------

/// Whether an elapsed time (whole seconds and nanoseconds) is strictly
/// longer than a limit (whole seconds and nanoseconds).
pub open spec fn exceeds(elapsed: (u64, u32), limit: (u64, u32)) -> bool {
    elapsed.0 > limit.0 || (elapsed.0 == limit.0 && elapsed.1 > limit.1)
}

/// Whether an elapsed time is strictly longer than a limit.
pub fn elapsed_exceeds(elapsed_secs: u64, elapsed_nanos: u32, limit_secs: u64, limit_nanos: u32) -> (r:
    bool)
    ensures
        r == exceeds((elapsed_secs, elapsed_nanos), (limit_secs, limit_nanos)),
{
    elapsed_secs > limit_secs || (elapsed_secs == limit_secs && elapsed_nanos > limit_nanos)
}

/// What one poll of cloud-init's status means while waiting for it.
#[derive(Debug, Clone)]
pub enum CloudInitPoll {
    /// The wait took longer than its timeout.
    TimedOut,
    /// Cloud-init finished: report `done` and stop.
    Done,
    /// Cloud-init reported errors: report and fail with this message.
    Failed(String),
    /// A new status to report; it becomes the last status seen.
    Progress(String),
    /// The same status as before: nothing to report.
    Unchanged,
    /// No status could be read (SSH may not be up yet): report waiting.
    WaitingForSsh,
}

/// One step of the wait for cloud-init: first the timeout, then the status
/// read (`reply`), compared with the last status reported.
pub fn cloud_init_poll(timed_out: bool, reply: &Result<CloudInitStatusInfo, String>, last_status: &str) -> (r:
    CloudInitPoll)
    ensures
        timed_out ==> r is TimedOut,
        !timed_out ==> match reply {
            Ok(info) => if info.finished {
                r is Done
            } else if info.errors@.len() > 0 {
                r matches CloudInitPoll::Failed(m) && m@ == "Cloud-init failed: "@
                    + debug_string_list(views(info.errors@))
            } else if info.status@ != last_status@ {
                r matches CloudInitPoll::Progress(s) && s@ == info.status@
            } else {
                r is Unchanged
            },
            Err(_) => r is WaitingForSsh,
        },
{
    if timed_out {
        return CloudInitPoll::TimedOut;
    }
    match reply {
        Ok(info) => {
            if info.finished {
                CloudInitPoll::Done
            } else if info.errors.len() > 0 {
                CloudInitPoll::Failed(info.failure_message())
            } else if !str_eq(info.status.as_str(), last_status) {
                CloudInitPoll::Progress(info.status.clone())
            } else {
                CloudInitPoll::Unchanged
            }
        },
        Err(_) => CloudInitPoll::WaitingForSsh,
    }
}

} // verus!
