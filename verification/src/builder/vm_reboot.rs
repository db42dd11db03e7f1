//! Reboot recovery: waiting for SSH after a reboot, reading boot diagnostics,
//! and explaining a reboot that did not come back.
//!
//! The waits and the SSH calls are made by the caller; this module says what
//! to send, what each answer means, and what to report.

use crate::text::{
    bool_text, decimal, lines, lines_of, owned, parse_bounded, parse_u32, push_bool,
    push_decimal, push_str, str_eq, trim, trim_str, views,
};
use vstd::prelude::*;

verus! {

/// Detailed reboot state information for diagnostics.
#[derive(Debug, Clone)]
pub struct RebootState {
    /// Elapsed seconds since the reboot was initiated.
    pub elapsed_secs: u64,
    /// Whether the VM is running.
    pub vm_running: bool,
    /// Whether SSH is responsive.
    pub ssh_responsive: bool,
    /// Last SSH error, if any.
    pub ssh_error: Option<String>,
    /// Boot diagnostics, if gathered.
    pub boot_diagnostics: Option<BootDiagnostics>,
}

/// Boot diagnostics gathered from the VM.
#[derive(Debug, Clone)]
pub struct BootDiagnostics {
    /// Whether systemd reached multi-user.target.
    pub systemd_multi_user: bool,
    /// Whether systemd reached graphical.target.
    pub systemd_graphical: bool,
    /// Whether the SSH service is active.
    pub ssh_service_active: bool,
    /// Whether a network address other than loopback is configured.
    pub network_configured: bool,
    /// Recent boot messages (the journal's last lines).
    pub recent_boot_messages: Vec<String>,
}

/// Configuration for reboot recovery.
#[derive(Debug, Clone)]
pub struct RebootConfig {
    /// Initial wait before checking SSH (seconds).
    pub initial_wait_secs: u64,
    /// Maximum total time to wait for the reboot (seconds).
    pub max_wait_secs: u64,
    /// Interval between SSH checks (seconds).
    pub check_interval_secs: u64,
    /// Wait after SSH responds, for the system to settle (seconds).
    pub stabilization_wait_secs: u64,
    /// Whether to gather detailed diagnostics.
    pub gather_diagnostics: bool,
}

impl Default for RebootConfig {
    /// Two minutes before the first check, ten minutes at most, a check every
    /// five seconds, ten seconds to settle, diagnostics on.
    fn default() -> (r: Self)
        ensures
            r.initial_wait_secs == 120,
            r.max_wait_secs == 600,
            r.check_interval_secs == 5,
            r.stabilization_wait_secs == 10,
            r.gather_diagnostics,
    {
        RebootConfig {
            initial_wait_secs: 120,
            max_wait_secs: 600,
            check_interval_secs: 5,
            stabilization_wait_secs: 10,
            gather_diagnostics: true,
        }
    }
}

impl RebootConfig {
    /// The reboot configuration used by a post-boot reboot step that waits
    /// `wait_secs` first: otherwise as the default.
    pub fn for_reboot_step(wait_secs: u64) -> (r: Self)
        ensures
            r.initial_wait_secs == wait_secs,
            r.max_wait_secs == 600,
            r.check_interval_secs == 5,
            r.stabilization_wait_secs == 10,
            r.gather_diagnostics,
    {
        RebootConfig {
            initial_wait_secs: wait_secs,
            max_wait_secs: 600,
            check_interval_secs: 5,
            stabilization_wait_secs: 10,
            gather_diagnostics: true,
        }
    }

    /// How many times boot diagnostics are read: none when the configuration
    /// turns them off; once after SSH answered; up to three times (stopping at
    /// the first success) when the wait ran out.
    pub fn diagnostic_attempts(&self, ssh_responsive: bool) -> (r: u32)
        ensures
            r == if !self.gather_diagnostics {
                0u32
            } else if ssh_responsive {
                1u32
            } else {
                3u32
            },
    {
        if !self.gather_diagnostics {
            0
        } else if ssh_responsive {
            1
        } else {
            3
        }
    }

    /// How many SSH checks fit in the maximum wait.
    pub fn max_attempts(&self) -> (r: u64)
        requires
            self.check_interval_secs > 0,
        ensures
            r == self.max_wait_secs / self.check_interval_secs,
    {
        self.max_wait_secs / self.check_interval_secs
    }
}

// ---------------------------------------------------------------------------
// Commands
// ---------------------------------------------------------------------------

/// The command that reboots the VM.
pub fn reboot_command() -> (r: &'static str)
    ensures
        r@ == "sudo shutdown -r now"@,
{
    "sudo shutdown -r now"
}

/// The probe sent over SSH to see whether the VM is back.
pub fn reboot_probe_command() -> (r: &'static str)
    ensures
        r@ == "echo 'reboot-check'"@,
{
    "echo 'reboot-check'"
}

/// The diagnostic queries, in order: multi-user target, graphical target,
/// SSH service, configured addresses, recent journal.
pub fn diagnostic_commands() -> (r: Vec<&'static str>)
    ensures
        r@.len() == 5,
        r@[0]@ == "systemctl is-active multi-user.target 2>/dev/null"@,
        r@[1]@ == "systemctl is-active graphical.target 2>/dev/null"@,
        r@[2]@ == "systemctl is-active ssh 2>/dev/null || systemctl is-active sshd 2>/dev/null"@,
        r@[3]@ == "ip addr show | grep 'inet ' | grep -v '127.0.0.1' | wc -l"@,
        r@[4]@ == "journalctl -b -n 20 --no-pager 2>/dev/null"@,
{
    let mut r: Vec<&'static str> = Vec::new();
    r.push("systemctl is-active multi-user.target 2>/dev/null");
    r.push("systemctl is-active graphical.target 2>/dev/null");
    r.push("systemctl is-active ssh 2>/dev/null || systemctl is-active sshd 2>/dev/null");
    r.push("ip addr show | grep 'inet ' | grep -v '127.0.0.1' | wc -l");
    r.push("journalctl -b -n 20 --no-pager 2>/dev/null");
    r
}

// ---------------------------------------------------------------------------
// Reading the answers
// ---------------------------------------------------------------------------

/// Whether a probe answer shows the VM back: `reboot-check`, up to surrounding whitespace.
pub open spec fn probe_ok(output: Seq<char>) -> bool {
    trim(output) == "reboot-check"@
}

/// Whether a `systemctl is-active` answer says `active`.
pub open spec fn active_reply(reply: Result<String, String>) -> bool {
    reply matches Ok(s) && trim(s@) == "active"@
}

/// Whether the address count answer shows at least one configured address
/// (an unreadable answer counts as none).
pub open spec fn network_reply(reply: Result<String, String>) -> bool {
    reply matches Ok(s) && parse_bounded(trim(s@), u32::MAX as nat) matches Some(n) && n > 0
}

/// The journal lines of an answer (none when the query failed).
pub open spec fn journal_reply(reply: Result<String, String>) -> Seq<Seq<char>> {
    match reply {
        Ok(s) => lines(s@),
        Err(_) => Seq::empty(),
    }
}

/// Whether a `systemctl is-active` answer says `active`.
fn is_active(reply: &Result<String, String>) -> (r: bool)
    ensures
        r == active_reply(*reply),
{
    match reply {
        Ok(s) => {
            let t = trim_str(s.as_str());
            str_eq(t.as_str(), "active")
        },
        Err(_) => false,
    }
}

impl BootDiagnostics {
    /// The diagnostics read from the answers to the diagnostic queries, in
    /// the order of `diagnostic_commands`.
    pub fn from_replies(
        multi_user: &Result<String, String>,
        graphical: &Result<String, String>,
        ssh: &Result<String, String>,
        network: &Result<String, String>,
        journal: &Result<String, String>,
    ) -> (r: Self)
        ensures
            r.systemd_multi_user == active_reply(*multi_user),
            r.systemd_graphical == active_reply(*graphical),
            r.ssh_service_active == active_reply(*ssh),
            r.network_configured == network_reply(*network),
            views(r.recent_boot_messages@) == journal_reply(*journal),
    {
        let net = match network {
            Ok(s) => {
                let t = trim_str(s.as_str());
                match parse_u32(t.as_str()) {
                    Some(n) => n > 0,
                    None => false,
                }
            },
            Err(_) => false,
        };
        let msgs = match journal {
            Ok(s) => lines_of(s.as_str()),
            Err(_) => {
                let v: Vec<String> = Vec::new();
                assert(views(v@) =~= Seq::<Seq<char>>::empty());
                v
            },
        };
        BootDiagnostics {
            systemd_multi_user: is_active(multi_user),
            systemd_graphical: is_active(graphical),
            ssh_service_active: is_active(ssh),
            network_configured: net,
            recent_boot_messages: msgs,
        }
    }
}

// ---------------------------------------------------------------------------
// Waiting for SSH
// ---------------------------------------------------------------------------

/// The SSH checks made while waiting for the VM to come back.
#[derive(Debug, Clone)]
pub struct RebootTracker {
    max_attempts: u64,
    attempt: u64,
    last_error: Option<String>,
}

impl RebootTracker {
    /// The number of checks allowed.
    pub closed spec fn spec_max_attempts(&self) -> u64 {
        self.max_attempts
    }

    /// The number of checks made.
    pub closed spec fn spec_attempt(&self) -> u64 {
        self.attempt
    }

    /// The error of the last check that could not reach SSH, if any.
    pub closed spec fn spec_last_error(&self) -> Option<Seq<char>> {
        match self.last_error {
            Some(e) => Some(e@),
            None => None,
        }
    }

    /// No check made yet; as many allowed as fit in the configured wait.
    pub fn new(config: &RebootConfig) -> (r: Self)
        requires
            config.check_interval_secs > 0,
        ensures
            r.spec_max_attempts() == config.max_wait_secs / config.check_interval_secs,
            r.spec_attempt() == 0,
            r.spec_last_error() is None,
    {
        RebootTracker { max_attempts: config.max_attempts(), attempt: 0, last_error: None }
    }

    /// The number of checks allowed.
    pub fn max_attempts(&self) -> (r: u64)
        ensures
            r == self.spec_max_attempts(),
    {
        self.max_attempts
    }

    /// The number of checks made.
    pub fn attempt(&self) -> (r: u64)
        ensures
            r == self.spec_attempt(),
    {
        self.attempt
    }

    /// Whether another check may be made.
    pub fn has_attempts_left(&self) -> (r: bool)
        ensures
            r == (self.spec_attempt() < self.spec_max_attempts()),
    {
        self.attempt < self.max_attempts
    }

    /// Records the answer to one probe, `elapsed_secs` after the reboot was
    /// sent. A `reboot-check` answer gives the final state; another answer
    /// changes nothing more; an error is remembered as the last SSH error.
    pub fn record(&mut self, elapsed_secs: u64, reply: Result<String, String>) -> (r: Option<
        RebootState,
    >)
        requires
            old(self).spec_attempt() < old(self).spec_max_attempts(),
        ensures
            final(self).spec_attempt() == old(self).spec_attempt() + 1,
            final(self).spec_max_attempts() == old(self).spec_max_attempts(),
            match reply {
                Ok(o) => final(self).spec_last_error() == old(self).spec_last_error() && if probe_ok(
                    o@,
                ) {
                    r matches Some(st) && st.elapsed_secs == elapsed_secs && st.vm_running
                        && st.ssh_responsive && st.ssh_error is None && st.boot_diagnostics is None
                } else {
                    r is None
                },
                Err(e) => r is None && final(self).spec_last_error() == Some(e@),
            },
    {
        self.attempt = self.attempt + 1;
        match reply {
            Ok(o) => {
                let t = trim_str(o.as_str());
                if str_eq(t.as_str(), "reboot-check") {
                    Some(
                        RebootState {
                            elapsed_secs,
                            vm_running: true,
                            ssh_responsive: true,
                            ssh_error: None,
                            boot_diagnostics: None,
                        },
                    )
                } else {
                    None
                }
            },
            Err(e) => {
                self.last_error = Some(e);
                None
            },
        }
    }

    /// The error reported when the VM did not come back: the time waited,
    /// the checks made, the diagnostics (or what could cause their absence),
    /// and the last SSH error.
    pub fn timeout_error(&self, elapsed_secs: u64, diagnostics: &Option<BootDiagnostics>) -> (r:
        String)
        ensures
            r@ == reboot_failure_text(
                elapsed_secs,
                self.spec_max_attempts(),
                *diagnostics,
                self.spec_last_error(),
            ),
    {
        let mut r = owned("VM did not respond to SSH after reboot (waited ");
        push_decimal(&mut r, elapsed_secs / 60);
        push_str(&mut r, "m ");
        push_decimal(&mut r, elapsed_secs % 60);
        push_str(&mut r, "s, ");
        push_decimal(&mut r, self.max_attempts);
        push_str(&mut r, " attempts)");
        match diagnostics {
            Some(d) => push_diagnostics_report(&mut r, d),
            None => push_str(&mut r, no_diagnostics_text()),
        }
        match &self.last_error {
            Some(e) => {
                push_str(&mut r, "\n\n🔍 Last SSH error: ");
                push_str(&mut r, e.as_str());
                push_str(&mut r, "\n");
            },
            None => {},
        }
        r
    }
}

/// The final state of a reboot once SSH answered, and whether to wait for
/// the system to settle: diagnostics that were gathered are attached and no
/// settling wait follows; without them the settling wait follows.
pub fn finish_reboot(state: RebootState, diagnostics: Option<BootDiagnostics>) -> (r: (
    RebootState,
    bool,
))
    ensures
        r.0.elapsed_secs == state.elapsed_secs,
        r.0.vm_running == state.vm_running,
        r.0.ssh_responsive == state.ssh_responsive,
        r.0.ssh_error == state.ssh_error,
        r.0.boot_diagnostics == match diagnostics {
            Some(d) => Some(d),
            None => state.boot_diagnostics,
        },
        r.1 == (diagnostics is None),
{
    match diagnostics {
        Some(d) => (RebootState { boot_diagnostics: Some(d), ..state }, false),
        None => (state, true),
    }
}

// ---------------------------------------------------------------------------
// The failure report
// ---------------------------------------------------------------------------

/// At most the first ten boot messages.
pub open spec fn first_ten(ms: Seq<Seq<char>>) -> Seq<Seq<char>> {
    if ms.len() <= 10 {
        ms
    } else {
        ms.take(10)
    }
}

/// Each boot message on its own indented line.
pub open spec fn boot_message_lines(ms: Seq<Seq<char>>) -> Seq<char>
    decreases ms.len(),
{
    if ms.len() == 0 {
        Seq::empty()
    } else {
        boot_message_lines(ms.drop_last()) + "\n  "@ + ms.last() + "\n"@
    }
}

/// One flag line of the diagnostics section.
pub open spec fn flag_line(label: Seq<char>, b: bool) -> Seq<char> {
    label + bool_text(b) + "\n"@
}

/// The flag lines of the diagnostics section.
pub open spec fn flags_report(d: BootDiagnostics) -> Seq<char> {
    "\n\n📊 Boot Diagnostics:"@ + flag_line("\n  • Systemd multi-user target: "@, d.systemd_multi_user)
        + flag_line("\n  • Systemd graphical target: "@, d.systemd_graphical) + flag_line(
        "\n  • SSH service active: "@,
        d.ssh_service_active,
    ) + flag_line("\n  • Network configured: "@, d.network_configured)
}

/// The recent boot messages of the diagnostics section (at most ten).
pub open spec fn messages_report(ms: Seq<Seq<char>>) -> Seq<char> {
    if ms.len() > 0 {
        "\n\n📝 Recent boot messages:"@ + boot_message_lines(first_ten(ms))
    } else {
        Seq::empty()
    }
}

/// The suggested actions of the diagnostics section.
pub open spec fn actions_report(d: BootDiagnostics) -> Seq<char> {
    "\n\n💡 Suggested actions:"@ + (if !d.systemd_multi_user {
        "\n  • System not reaching multi-user target - check systemd services"@
    } else {
        Seq::empty()
    }) + (if !d.ssh_service_active {
        "\n  • SSH service not starting - check sshd configuration"@
    } else {
        Seq::empty()
    }) + (if !d.network_configured {
        "\n  • Network not configured - check cloud-init network settings"@
    } else {
        Seq::empty()
    })
}

/// The diagnostics section of the failure report, with the suggested actions.
pub open spec fn diagnostics_report(d: BootDiagnostics) -> Seq<char> {
    flags_report(d) + messages_report(views(d.recent_boot_messages@)) + actions_report(d)
}

/// The section of the failure report when no diagnostics could be gathered.
pub open spec fn no_diagnostics_report() -> Seq<char> {
    "\n\n⚠️  Could not gather diagnostics (SSH completely unresponsive)\n\n💡 Possible causes:\n  • VM failed to boot (check libvirt console logs)\n  • Desktop environment taking longer than expected to initialize\n  • SSH service not starting on boot\n  • Network configuration issue preventing SSH access"@
}

/// The failure report of a reboot that did not come back.
pub open spec fn reboot_failure_text(
    elapsed_secs: u64,
    attempts: u64,
    diagnostics: Option<BootDiagnostics>,
    last_error: Option<Seq<char>>,
) -> Seq<char> {
    "VM did not respond to SSH after reboot (waited "@ + decimal((elapsed_secs / 60) as nat) + "m "@
        + decimal((elapsed_secs % 60) as nat) + "s, "@ + decimal(attempts as nat) + " attempts)"@
        + match diagnostics {
        Some(d) => diagnostics_report(d),
        None => no_diagnostics_report(),
    } + match last_error {
        Some(e) => "\n\n🔍 Last SSH error: "@ + e + "\n"@,
        None => Seq::empty(),
    }
}

/// The section of the failure report when no diagnostics could be gathered.
fn no_diagnostics_text() -> (r: &'static str)
    ensures
        r@ == no_diagnostics_report(),
{
    "\n\n⚠️  Could not gather diagnostics (SSH completely unresponsive)\n\n💡 Possible causes:\n  • VM failed to boot (check libvirt console logs)\n  • Desktop environment taking longer than expected to initialize\n  • SSH service not starting on boot\n  • Network configuration issue preventing SSH access"
}

/// Appends one flag line.
fn push_flag(out: &mut String, label: &str, b: bool)
    ensures
        final(out)@ == old(out)@ + flag_line(label@, b),
{
    let ghost start = out@;
    push_str(out, label);
    push_bool(out, b);
    push_str(out, "\n");
    assert(out@ =~= start + flag_line(label@, b));
}

/// Appends the flag lines of the diagnostics section.
fn push_flags(out: &mut String, d: &BootDiagnostics)
    ensures
        final(out)@ == old(out)@ + flags_report(*d),
{
    let ghost start = out@;
    push_str(out, "\n\n📊 Boot Diagnostics:");
    let ghost s0 = out@;
    push_flag(out, "\n  • Systemd multi-user target: ", d.systemd_multi_user);
    let ghost s1 = out@;
    push_flag(out, "\n  • Systemd graphical target: ", d.systemd_graphical);
    let ghost s2 = out@;
    push_flag(out, "\n  • SSH service active: ", d.ssh_service_active);
    let ghost s3 = out@;
    push_flag(out, "\n  • Network configured: ", d.network_configured);
    let ghost h = "\n\n📊 Boot Diagnostics:"@;
    let ghost f1 = flag_line("\n  • Systemd multi-user target: "@, d.systemd_multi_user);
    let ghost f2 = flag_line("\n  • Systemd graphical target: "@, d.systemd_graphical);
    let ghost f3 = flag_line("\n  • SSH service active: "@, d.ssh_service_active);
    let ghost f4 = flag_line("\n  • Network configured: "@, d.network_configured);
    assert(out@ == start + h + f1 + f2 + f3 + f4);
    assert(start + h + f1 + f2 + f3 + f4 =~= start + (h + f1 + f2 + f3 + f4));
}

/// Appends the recent boot messages of the diagnostics section.
fn push_messages(out: &mut String, ms: &Vec<String>)
    ensures
        final(out)@ == old(out)@ + messages_report(views(ms@)),
{
    let ghost start = out@;
    let ghost msv = views(ms@);
    if ms.len() > 0 {
        push_str(out, "\n\n📝 Recent boot messages:");
        let ghost head = out@;
        let n: usize = if ms.len() < 10 {
            ms.len()
        } else {
            10
        };
        let mut i: usize = 0;
        while i < n
            invariant
                i <= n <= ms@.len(),
                msv == views(ms@),
                out@ == head + boot_message_lines(msv.take(i as int)),
            decreases n - i,
        {
            assert(msv.take(i + 1).drop_last() =~= msv.take(i as int));
            push_str(out, "\n  ");
            push_str(out, ms[i].as_str());
            push_str(out, "\n");
            i = i + 1;
        }
        assert(msv.take(n as int) =~= first_ten(msv));
        assert(out@ =~= start + messages_report(msv));
    } else {
        assert(out@ =~= start + messages_report(msv));
    }
}

/// Appends the suggested actions of the diagnostics section.
fn push_actions(out: &mut String, d: &BootDiagnostics)
    ensures
        final(out)@ == old(out)@ + actions_report(*d),
{
    let ghost start = out@;
    push_str(out, "\n\n💡 Suggested actions:");
    let ghost a0 = out@;
    if !d.systemd_multi_user {
        push_str(out, "\n  • System not reaching multi-user target - check systemd services");
    } else {
        assert(out@ =~= a0 + Seq::<char>::empty());
    }
    let ghost a1 = out@;
    if !d.ssh_service_active {
        push_str(out, "\n  • SSH service not starting - check sshd configuration");
    } else {
        assert(out@ =~= a1 + Seq::<char>::empty());
    }
    let ghost a2 = out@;
    if !d.network_configured {
        push_str(out, "\n  • Network not configured - check cloud-init network settings");
    } else {
        assert(out@ =~= a2 + Seq::<char>::empty());
    }
    assert(out@ =~= start + actions_report(*d));
}

/// Appends the diagnostics section of the failure report.
fn push_diagnostics_report(out: &mut String, d: &BootDiagnostics)
    ensures
        final(out)@ == old(out)@ + diagnostics_report(*d),
{
    let ghost start = out@;
    push_flags(out, d);
    push_messages(out, &d.recent_boot_messages);
    push_actions(out, d);
    assert(out@ =~= start + diagnostics_report(*d));
}

} // verus!
