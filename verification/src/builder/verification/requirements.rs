//! Checks of a built VM against its manifest: what each probe's answer means.
//!
//! A probe's answer is given as `Ok(output)` when the remote command succeeded
//! and `Err(message)` when it failed.

use super::package::{first_line, first_line_of, opt_view};
use super::{shell_escape, shell_quoted, PackageVerificationResult, VerificationCheck, VerificationMethod};
use crate::templates::manifest::{BuildStep, TemplateManifest, VerificationCommand, VerificationConfig};
use crate::text::{
    concat2, contains, decimal, has_infix, has_prefix, join, join_strings, lines, lines_of, owned,
    parse_bounded, starts_with,
    parse_u64, push_decimal, push_signed_decimal, push_str, signed_decimal, str_eq, str_lowercase,
    to_lowercase, trim, trim_str, views,
};
use vstd::prelude::*;

verus! {

/// The SSH user for a manifest: its first user, or `ubuntu`.
pub open spec fn ssh_user_text(m: TemplateManifest) -> Seq<char> {
    if m.users@.len() > 0 {
        m.users@[0].name@
    } else {
        "ubuntu"@
    }
}

/// The SSH user for a manifest: its first user, or `ubuntu`.
pub fn ssh_username(m: &TemplateManifest) -> (r: String)
    ensures
        r@ == ssh_user_text(*m),
{
    if m.users.len() > 0 {
        m.users[0].name.clone()
    } else {
        owned("ubuntu")
    }
}

/// The packages installed by the build steps, in order.
pub open spec fn build_packages(steps: Seq<BuildStep>) -> Seq<Seq<char>>
    decreases steps.len(),
{
    if steps.len() == 0 {
        Seq::empty()
    } else {
        build_packages(steps.drop_last()) + match steps.last() {
            BuildStep::InstallPackages { packages } => views(packages@),
            _ => Seq::empty(),
        }
    }
}

/// Appends copies of `src` to `dst`.
pub fn append_copies(dst: &mut Vec<String>, src: &Vec<String>)
    ensures
        views(final(dst)@) == views(old(dst)@) + views(src@),
{
    let ghost d0 = views(dst@);
    let mut i: usize = 0;
    while i < src.len()
        invariant
            i <= src@.len(),
            views(dst@) == d0 + views(src@).take(i as int),
        decreases src.len() - i,
    {
        let ghost before = views(dst@);
        dst.push(src[i].clone());
        assert(views(dst@) =~= before.push(src@[i as int]@));
        i = i + 1;
        assert(views(dst@) =~= d0 + views(src@).take(i as int));
    }
    assert(views(src@).take(src@.len() as int) =~= views(src@));
}

/// The packages installed by the build steps of a manifest, in order.
pub fn build_step_packages(m: &TemplateManifest) -> (r: Vec<String>)
    ensures
        views(r@) == build_packages(m.build_steps@),
{
    let mut r: Vec<String> = Vec::new();
    let mut i: usize = 0;
    while i < m.build_steps.len()
        invariant
            i <= m.build_steps@.len(),
            views(r@) == build_packages(m.build_steps@.take(i as int)),
        decreases m.build_steps.len() - i,
    {
        proof {
            assert(m.build_steps@.take(i + 1).drop_last() =~= m.build_steps@.take(i as int));
        }
        match &m.build_steps[i] {
            BuildStep::InstallPackages { packages } => {
                append_copies(&mut r, packages);
            },
            _ => {
                assert(views(r@) =~= views(r@) + Seq::<Seq<char>>::empty());
            },
        }
        i = i + 1;
    }
    assert(m.build_steps@.take(m.build_steps@.len() as int) =~= m.build_steps@);
    r
}

/// The details of a package check that ran to completion.
pub open spec fn package_details_text(r: PackageVerificationResult) -> Option<Seq<char>> {
    if r.installed {
        match r.method {
            VerificationMethod::InstalledByDependency(dep) => Some(
                "Installed as dependency of "@ + dep@,
            ),
            _ => match r.details.version {
                Some(v) => Some("Version: "@ + v@),
                None => None,
            },
        }
    } else {
        let alts = r.details.alternatives_checked@;
        let with_alts = if alts.len() > 0 {
            "Not installed. "@ + "Variants checked: "@ + join(views(alts), ", "@) + ". "@
        } else {
            "Not installed. "@
        };
        Some(
            match r.details.raw_output {
                Some(raw) => if raw@.len() > 0 && lines(raw@).len() > 0 {
                    with_alts + "Info: "@ + trim(lines(raw@)[0])
                } else {
                    with_alts
                },
                None => with_alts,
            },
        )
    }
}

/// The check of a package installed by the build steps.
pub open spec fn package_check_text(
    package: Seq<char>,
    outcome: Result<PackageVerificationResult, String>,
    c: VerificationCheck,
) -> bool {
    &&& c.name@ == "Package: "@ + package
    &&& match outcome {
        Ok(r) => c.passed == r.installed && opt_view(c.details) == package_details_text(r),
        Err(e) => !c.passed && opt_view(c.details) == Some("Verification system error: "@ + e@),
    }
}

fn package_details(r: &PackageVerificationResult) -> (d: Option<String>)
    ensures
        opt_view(d) == package_details_text(*r),
{
    if r.installed {
        match &r.method {
            VerificationMethod::InstalledByDependency(dep) => Some(
                concat2("Installed as dependency of ", dep.as_str()),
            ),
            _ => match &r.details.version {
                Some(v) => Some(concat2("Version: ", v.as_str())),
                None => None,
            },
        }
    } else {
        let mut msg = owned("Not installed. ");
        if r.details.alternatives_checked.len() > 0 {
            push_str(&mut msg, "Variants checked: ");
            let joined = join_strings(&r.details.alternatives_checked, ", ");
            push_str(&mut msg, joined.as_str());
            push_str(&mut msg, ". ");
        }
        match &r.details.raw_output {
            Some(raw) => {
                let ls = crate::text::lines_of(raw.as_str());
                if !raw.as_str().is_empty() && ls.len() > 0 {
                    assert(views(ls@)[0] == ls@[0]@);
                    push_str(&mut msg, "Info: ");
                    let t = trim_str(ls[0].as_str());
                    push_str(&mut msg, t.as_str());
                }
            },
            None => {},
        }
        Some(msg)
    }
}

/// The check of a package installed by the build steps, from the outcome of
/// its robust verification.
pub fn package_check(package: &str, outcome: &Result<PackageVerificationResult, String>) -> (c:
    VerificationCheck)
    ensures
        package_check_text(package@, *outcome, c),
{
    let name = concat2("Package: ", package);
    match outcome {
        Ok(r) => VerificationCheck { name, passed: r.installed, details: package_details(r) },
        Err(e) => VerificationCheck {
            name,
            passed: false,
            details: Some(concat2("Verification system error: ", e.as_str())),
        },
    }
}

/// The check of a package the manifest's verification section requires.
pub open spec fn required_package_check_text(
    package: Seq<char>,
    outcome: Result<PackageVerificationResult, String>,
    c: VerificationCheck,
) -> bool {
    &&& c.name@ == "Required package: "@ + package
    &&& match outcome {
        Ok(r) => c.passed == r.installed && opt_view(c.details) == if r.installed {
            match r.details.version {
                Some(v) => Some("Version: "@ + v@),
                None => None,
            }
        } else {
            Some("Not installed"@)
        },
        Err(e) => !c.passed && opt_view(c.details) == Some("Verification error: "@ + e@),
    }
}

/// The check of a package the manifest's verification section requires.
pub fn required_package_check(
    package: &str,
    outcome: &Result<PackageVerificationResult, String>,
) -> (c: VerificationCheck)
    ensures
        required_package_check_text(package@, *outcome, c),
{
    let name = concat2("Required package: ", package);
    match outcome {
        Ok(r) => {
            let details = if r.installed {
                match &r.details.version {
                    Some(v) => Some(concat2("Version: ", v.as_str())),
                    None => None,
                }
            } else {
                Some(owned("Not installed"))
            };
            VerificationCheck { name, passed: r.installed, details }
        },
        Err(e) => VerificationCheck {
            name,
            passed: false,
            details: Some(concat2("Verification error: ", e.as_str())),
        },
    }
}

/// The probe of whether a service is enabled.
pub open spec fn service_command_text(service: Seq<char>) -> Seq<char> {
    "systemctl is-enabled "@ + shell_quoted(service) + " 2>&1"@
}

/// The probe of whether a service is enabled.
pub fn service_command(service: &str) -> (r: String)
    ensures
        r@ == service_command_text(service@),
{
    let mut r = owned("systemctl is-enabled ");
    let q = shell_escape(service);
    push_str(&mut r, q.as_str());
    push_str(&mut r, " 2>&1");
    r
}

/// The check of a required service: enabled when `systemctl is-enabled`
/// answers `enabled`, `static` or `alias`.
pub open spec fn service_check_text(service: Seq<char>, outcome: Result<String, String>, c: VerificationCheck) -> bool {
    &&& c.name@ == "Required service: "@ + service
    &&& match outcome {
        Ok(out) => {
            let t = trim(out@);
            &&& c.passed == (t == "enabled"@ || t == "static"@ || t == "alias"@)
            &&& opt_view(c.details) == Some("Status: "@ + t)
        },
        Err(e) => !c.passed && opt_view(c.details) == Some("Check failed: "@ + e@),
    }
}

/// The check of a required service.
pub fn service_check(service: &str, outcome: &Result<String, String>) -> (c: VerificationCheck)
    ensures
        service_check_text(service@, *outcome, c),
{
    let name = concat2("Required service: ", service);
    match outcome {
        Ok(out) => {
            let t = trim_str(out.as_str());
            let passed = str_eq(t.as_str(), "enabled") || str_eq(t.as_str(), "static") || str_eq(
                t.as_str(),
                "alias",
            );
            VerificationCheck { name, passed, details: Some(concat2("Status: ", t.as_str())) }
        },
        Err(e) => VerificationCheck {
            name,
            passed: false,
            details: Some(concat2("Check failed: ", e.as_str())),
        },
    }
}

/// The probe of whether a file exists.
pub open spec fn file_command_text(path: Seq<char>) -> Seq<char> {
    "test -e "@ + shell_quoted(path) + " && echo exists || echo missing"@
}

/// The probe of whether a file exists.
pub fn file_command(path: &str) -> (r: String)
    ensures
        r@ == file_command_text(path@),
{
    let mut r = owned("test -e ");
    let q = shell_escape(path);
    push_str(&mut r, q.as_str());
    push_str(&mut r, " && echo exists || echo missing");
    r
}

/// The check of a required file: present when the probe answers `exists`.
pub open spec fn file_check_text(path: Seq<char>, outcome: Result<String, String>, c: VerificationCheck) -> bool {
    &&& c.name@ == "Required file: "@ + path
    &&& match outcome {
        Ok(out) => c.passed == (trim(out@) == "exists"@) && opt_view(c.details) == Some(trim(out@)),
        Err(e) => !c.passed && opt_view(c.details) == Some("Check failed: "@ + e@),
    }
}

/// The check of a required file.
pub fn file_check(path: &str, outcome: &Result<String, String>) -> (c: VerificationCheck)
    ensures
        file_check_text(path@, *outcome, c),
{
    let name = concat2("Required file: ", path);
    match outcome {
        Ok(out) => {
            let t = trim_str(out.as_str());
            let passed = str_eq(t.as_str(), "exists");
            VerificationCheck { name, passed, details: Some(t) }
        },
        Err(e) => VerificationCheck {
            name,
            passed: false,
            details: Some(concat2("Check failed: ", e.as_str())),
        },
    }
}

/// The line that reports a verification command's exit status starts with this.
pub open spec fn exit_marker() -> Seq<char> {
    "__exit_status="@
}

/// The probe run for a verification command: the command, then a line that
/// reports its exit status on a line of its own (after whatever it printed).
pub open spec fn command_probe_text(command: Seq<char>) -> Seq<char> {
    command + "\nprintf '\\n__exit_status=%s\\n' \"$?\""@
}

/// The probe run for a verification command.
pub fn command_probe(command: &str) -> (r: String)
    ensures
        r@ == command_probe_text(command@),
{
    concat2(command, "\nprintf '\\n__exit_status=%s\\n' \"$?\"")
}

/// The exit status reported in the answer of a command probe: its last line
/// is the marker followed by a number (`None` when it is not).
pub open spec fn reported_exit_status(out: Seq<char>) -> Option<nat> {
    let ls = lines(out);
    if ls.len() > 0 && has_prefix(ls.last(), exit_marker()) {
        parse_bounded(
            ls.last().subrange(exit_marker().len() as int, ls.last().len() as int),
            u32::MAX as nat,
        )
    } else {
        None
    }
}

/// The exit status of a verification command from its probe's outcome: none
/// when the probe itself failed (an SSH error) or reported no status.
pub open spec fn probe_exit_status(outcome: Result<String, String>) -> Option<nat> {
    match outcome {
        Ok(out) => reported_exit_status(out@),
        Err(_) => None,
    }
}

/// Whether a verification command exited with the expected exit code.
pub open spec fn command_passes(vc: VerificationCommand, outcome: Result<String, String>) -> bool {
    probe_exit_status(outcome) matches Some(s) && s == vc.expected_exit_code as int
}

/// The exit status reported in the answer of a command probe.
pub fn exit_status_of(out: &str) -> (r: Option<u32>)
    ensures
        r matches Some(v) ==> reported_exit_status(out@) == Some(v as nat),
        r is None ==> reported_exit_status(out@) is None,
{
    let ls = lines_of(out);
    if ls.len() == 0 {
        return None;
    }
    let last = ls[ls.len() - 1].as_str();
    assert(last@ == lines(out@).last());
    if !starts_with(last, "__exit_status=") {
        return None;
    }
    proof {
        reveal_strlit("__exit_status=");
    }
    let v = crate::text::chars_of(last);
    let rest = crate::text::string_of_range(&v, 14, v.len());
    crate::text::parse_u32(rest.as_str())
}

/// Whether a verification command exited with the expected exit code.
pub fn command_succeeded(vc: &VerificationCommand, outcome: &Result<String, String>) -> (r: bool)
    ensures
        r == command_passes(*vc, *outcome),
{
    match outcome {
        Ok(out) => match exit_status_of(out.as_str()) {
            Some(s) => (s as i64) == (vc.expected_exit_code as i64),
            None => false,
        },
        Err(_) => false,
    }
}

/// The check of a verification command: it passes exactly when the command
/// exited with the expected exit code.
pub open spec fn command_check_text(vc: VerificationCommand, outcome: Result<String, String>, c: VerificationCheck) -> bool {
    &&& c.name@ == match vc.description {
        Some(d) => d@,
        None => "Command: "@ + vc.command@,
    }
    &&& c.passed == command_passes(vc, outcome)
    &&& match outcome {
        Ok(out) => match reported_exit_status(out@) {
            Some(s) => if s == vc.expected_exit_code as int {
                if vc.expected_exit_code == 0 {
                    opt_view(c.details) == Some(first_line(out@))
                } else {
                    opt_view(c.details) == Some(
                        "Non-zero exit (expected "@ + signed_decimal(vc.expected_exit_code as int)
                            + ")"@,
                    )
                }
            } else {
                opt_view(c.details) == Some(
                    "Expected exit code "@ + signed_decimal(vc.expected_exit_code as int) + ", got "@
                        + decimal(s),
                )
            },
            None => opt_view(c.details) == Some("No exit status reported"@),
        },
        Err(e) => opt_view(c.details) == Some("Command failed: "@ + e@),
    }
}

/// The check of a verification command, from the outcome of its probe
/// ([`command_probe`]).
pub fn command_check(vc: &VerificationCommand, outcome: &Result<String, String>) -> (c:
    VerificationCheck)
    ensures
        command_check_text(*vc, *outcome, c),
        c.passed == command_passes(*vc, *outcome),
{
    let name = match &vc.description {
        Some(d) => d.clone(),
        None => concat2("Command: ", vc.command.as_str()),
    };
    match outcome {
        Ok(out) => match exit_status_of(out.as_str()) {
            Some(s) => {
                if (s as i64) == (vc.expected_exit_code as i64) {
                    if vc.expected_exit_code == 0 {
                        VerificationCheck {
                            name,
                            passed: true,
                            details: Some(first_line_of(out.as_str())),
                        }
                    } else {
                        let mut d = owned("Non-zero exit (expected ");
                        push_signed_decimal(&mut d, vc.expected_exit_code as i64);
                        push_str(&mut d, ")");
                        VerificationCheck { name, passed: true, details: Some(d) }
                    }
                } else {
                    let mut d = owned("Expected exit code ");
                    push_signed_decimal(&mut d, vc.expected_exit_code as i64);
                    push_str(&mut d, ", got ");
                    push_decimal(&mut d, s as u64);
                    VerificationCheck { name, passed: false, details: Some(d) }
                }
            },
            None => VerificationCheck {
                name,
                passed: false,
                details: Some(owned("No exit status reported")),
            },
        },
        Err(e) => VerificationCheck {
            name,
            passed: false,
            details: Some(concat2("Command failed: ", e.as_str())),
        },
    }
}

/// The names and probes of the setup indicators for `user`.
pub open spec fn indicator_probes_text(user: Seq<char>) -> Seq<(Seq<char>, Seq<char>)> {
    seq![
        ("Cloud-init complete"@, "test -f /var/lib/cloud/instance/boot-finished"@),
        ("User home exists"@, "test -d /home/"@ + user),
        ("SSH authorized_keys"@, "test -f /home/"@ + user + "/.ssh/authorized_keys"@),
    ]
}

/// The names and probes of the setup indicators for `user`.
pub fn indicator_probes(user: &str) -> (r: Vec<(String, String)>)
    ensures
        r@.map_values(|p: (String, String)| (p.0@, p.1@)) == indicator_probes_text(user@),
{
    let mut r: Vec<(String, String)> = Vec::new();
    r.push(
        (owned("Cloud-init complete"), owned("test -f /var/lib/cloud/instance/boot-finished")),
    );
    r.push((owned("User home exists"), concat2("test -d /home/", user)));
    let mut keys = concat2("test -f /home/", user);
    push_str(&mut keys, "/.ssh/authorized_keys");
    r.push((owned("SSH authorized_keys"), keys));
    assert(r@.map_values(|p: (String, String)| (p.0@, p.1@)) =~= indicator_probes_text(user@));
    r
}

/// The check of a probe that passes when the command succeeds.
pub open spec fn probe_check_text(name: Seq<char>, outcome: Result<String, String>, c: VerificationCheck) -> bool {
    &&& c.name@ == name
    &&& match outcome {
        Ok(_) => c.passed && c.details is None,
        Err(e) => !c.passed && opt_view(c.details) == Some("Check failed: "@ + e@),
    }
}

/// The check of a probe that passes when the command succeeds.
pub fn probe_check(name: &str, outcome: &Result<String, String>) -> (c: VerificationCheck)
    ensures
        probe_check_text(name@, *outcome, c),
{
    match outcome {
        Ok(_) => VerificationCheck { name: owned(name), passed: true, details: None },
        Err(e) => VerificationCheck {
            name: owned(name),
            passed: false,
            details: Some(concat2("Check failed: ", e.as_str())),
        },
    }
}

/// Whether a manifest builds a desktop image (its lowercased name mentions `desktop`).
pub fn is_desktop_manifest(m: &TemplateManifest) -> (r: bool)
    ensures
        r == has_infix(str_lowercase(m.name@), "desktop"@),
{
    let lower = to_lowercase(m.name.as_str());
    contains(lower.as_str(), "desktop")
}

/// The probe counting installed display packages.
pub fn desktop_probe() -> (r: String)
    ensures
        r@ == "dpkg -l 2>/dev/null | grep -Ec '(xorg|wayland|gdm|sddm|lightdm)' || rpm -qa 2>/dev/null | grep -Ec '(xorg|wayland|gdm|sddm)' || echo 0"@,
{
    owned(
        "dpkg -l 2>/dev/null | grep -Ec '(xorg|wayland|gdm|sddm|lightdm)' || rpm -qa 2>/dev/null | grep -Ec '(xorg|wayland|gdm|sddm)' || echo 0",
    )
}

/// The desktop check: passes when the count of display packages (an
/// unparsable answer counts as 0) is positive.
pub open spec fn desktop_check_text(outcome: Result<String, String>, c: VerificationCheck) -> bool {
    &&& c.name@ == "Desktop Environment"@
    &&& match outcome {
        Ok(out) => {
            let n = match parse_bounded(trim(out@), usize::MAX as nat) {
                Some(v) => v,
                None => 0,
            };
            if n > 0 {
                c.passed && opt_view(c.details) == Some(decimal(n) + " desktop packages found"@)
            } else {
                !c.passed && opt_view(c.details) == Some("No desktop packages found"@)
            }
        },
        Err(e) => !c.passed && opt_view(c.details) == Some("Desktop check failed: "@ + e@),
    }
}

/// The desktop check from the answer of [`desktop_probe`].
pub fn desktop_check(outcome: &Result<String, String>) -> (c: VerificationCheck)
    ensures
        desktop_check_text(*outcome, c),
{
    let name = owned("Desktop Environment");
    match outcome {
        Ok(out) => {
            let t = trim_str(out.as_str());
            let n: u64 = match parse_u64(t.as_str()) {
                Some(v) => if v <= usize::MAX as u64 {
                    v
                } else {
                    0
                },
                None => 0,
            };
            if n > 0 {
                let mut d = String::new();
                push_decimal(&mut d, n);
                push_str(&mut d, " desktop packages found");
                assert(d@ =~= decimal(n as nat) + " desktop packages found"@);
                VerificationCheck { name, passed: true, details: Some(d) }
            } else {
                VerificationCheck {
                    name,
                    passed: false,
                    details: Some(owned("No desktop packages found")),
                }
            }
        },
        Err(e) => VerificationCheck {
            name,
            passed: false,
            details: Some(concat2("Desktop check failed: ", e.as_str())),
        },
    }
}

/// The responsiveness check: passes when `uptime` succeeded; a failure keeps its message.
pub fn responsive_check(outcome: &Result<String, String>) -> (c: VerificationCheck)
    ensures
        c.name@ == "System responsive"@,
        c.passed == (*outcome is Ok),
        opt_view(c.details) == match *outcome {
            Ok(_) => None,
            Err(e) => Some(e@),
        },
{
    VerificationCheck {
        name: owned("System responsive"),
        passed: outcome.is_ok(),
        details: match outcome {
            Ok(_) => None,
            Err(e) => Some(e.clone()),
        },
    }
}

/// The probe of the root filesystem's usage percentage.
pub fn disk_probe() -> (r: String)
    ensures
        r@ == "df -h / | tail -1 | awk '{print $5}' | sed 's/%//'"@,
{
    owned("df -h / | tail -1 | awk '{print $5}' | sed 's/%//'")
}

/// The disk check: passes when usage is below 90% (an unparsable answer counts as 100%).
pub open spec fn disk_check_text(outcome: Result<String, String>, c: VerificationCheck) -> bool {
    &&& c.name@ == "Disk space"@
    &&& match outcome {
        Ok(out) => {
            let u = match parse_bounded(trim(out@), u32::MAX as nat) {
                Some(v) => v,
                None => 100,
            };
            if u < 90 {
                c.passed && opt_view(c.details) == Some("Disk usage: "@ + decimal(u) + "%"@)
            } else {
                !c.passed && opt_view(c.details) == Some("Disk usage too high: "@ + decimal(u) + "%"@)
            }
        },
        Err(e) => !c.passed && opt_view(c.details) == Some("Disk check failed: "@ + e@),
    }
}

/// The disk check from the answer of [`disk_probe`].
pub fn disk_check(outcome: &Result<String, String>) -> (c: VerificationCheck)
    ensures
        disk_check_text(*outcome, c),
{
    let name = owned("Disk space");
    match outcome {
        Ok(out) => {
            let t = trim_str(out.as_str());
            let u: u64 = match parse_u64(t.as_str()) {
                Some(v) => if v <= u32::MAX as u64 {
                    v
                } else {
                    100
                },
                None => 100,
            };
            let mut d = if u < 90 {
                owned("Disk usage: ")
            } else {
                owned("Disk usage too high: ")
            };
            push_decimal(&mut d, u);
            push_str(&mut d, "%");
            VerificationCheck { name, passed: u < 90, details: Some(d) }
        },
        Err(e) => VerificationCheck {
            name,
            passed: false,
            details: Some(concat2("Disk check failed: ", e.as_str())),
        },
    }
}

// ---------------------------------------------------------------------------
// The checks of the manifest's verification section
// ---------------------------------------------------------------------------

/// `checks` are the required-package checks of `packages`, one per package
/// in order, from the matching outcomes.
pub open spec fn required_package_checks(
    packages: Seq<String>,
    outcomes: Seq<Result<PackageVerificationResult, String>>,
    checks: Seq<VerificationCheck>,
) -> bool {
    &&& checks.len() == packages.len()
    &&& forall|i: int|
        0 <= i < checks.len() ==> required_package_check_text(
            packages[i]@,
            outcomes[i],
            #[trigger] checks[i],
        )
}

/// `checks` are the service checks of `services`, one per service in order.
pub open spec fn service_checks(
    services: Seq<String>,
    outcomes: Seq<Result<String, String>>,
    checks: Seq<VerificationCheck>,
) -> bool {
    &&& checks.len() == services.len()
    &&& forall|i: int|
        0 <= i < checks.len() ==> service_check_text(services[i]@, outcomes[i], #[trigger] checks[i])
}

/// `checks` are the file checks of `files`, one per file in order.
pub open spec fn file_checks(
    files: Seq<String>,
    outcomes: Seq<Result<String, String>>,
    checks: Seq<VerificationCheck>,
) -> bool {
    &&& checks.len() == files.len()
    &&& forall|i: int|
        0 <= i < checks.len() ==> file_check_text(files[i]@, outcomes[i], #[trigger] checks[i])
}

/// `checks` are the checks of the verification commands, one per command in order.
pub open spec fn command_checks(
    commands: Seq<VerificationCommand>,
    outcomes: Seq<Result<String, String>>,
    checks: Seq<VerificationCheck>,
) -> bool {
    &&& checks.len() == commands.len()
    &&& forall|i: int|
        0 <= i < checks.len() ==> command_check_text(commands[i], outcomes[i], #[trigger] checks[i])
}

fn required_package_check_list(
    packages: &Vec<String>,
    outcomes: &Vec<Result<PackageVerificationResult, String>>,
) -> (cs: Vec<VerificationCheck>)
    requires
        outcomes@.len() == packages@.len(),
    ensures
        required_package_checks(packages@, outcomes@, cs@),
{
    let mut cs: Vec<VerificationCheck> = Vec::new();
    let mut i: usize = 0;
    while i < packages.len()
        invariant
            i <= packages@.len(),
            outcomes@.len() == packages@.len(),
            required_package_checks(packages@.take(i as int), outcomes@, cs@),
        decreases packages.len() - i,
    {
        let c = required_package_check(packages[i].as_str(), &outcomes[i]);
        cs.push(c);
        i = i + 1;
    }
    assert(packages@.take(packages@.len() as int) =~= packages@);
    cs
}

fn service_check_list(services: &Vec<String>, outcomes: &Vec<Result<String, String>>) -> (cs: Vec<
    VerificationCheck,
>)
    requires
        outcomes@.len() == services@.len(),
    ensures
        service_checks(services@, outcomes@, cs@),
{
    let mut cs: Vec<VerificationCheck> = Vec::new();
    let mut i: usize = 0;
    while i < services.len()
        invariant
            i <= services@.len(),
            outcomes@.len() == services@.len(),
            service_checks(services@.take(i as int), outcomes@, cs@),
        decreases services.len() - i,
    {
        let c = service_check(services[i].as_str(), &outcomes[i]);
        cs.push(c);
        i = i + 1;
    }
    assert(services@.take(services@.len() as int) =~= services@);
    cs
}

fn file_check_list(files: &Vec<String>, outcomes: &Vec<Result<String, String>>) -> (cs: Vec<
    VerificationCheck,
>)
    requires
        outcomes@.len() == files@.len(),
    ensures
        file_checks(files@, outcomes@, cs@),
{
    let mut cs: Vec<VerificationCheck> = Vec::new();
    let mut i: usize = 0;
    while i < files.len()
        invariant
            i <= files@.len(),
            outcomes@.len() == files@.len(),
            file_checks(files@.take(i as int), outcomes@, cs@),
        decreases files.len() - i,
    {
        let c = file_check(files[i].as_str(), &outcomes[i]);
        cs.push(c);
        i = i + 1;
    }
    assert(files@.take(files@.len() as int) =~= files@);
    cs
}

fn command_check_list(
    commands: &Vec<VerificationCommand>,
    outcomes: &Vec<Result<String, String>>,
) -> (cs: Vec<VerificationCheck>)
    requires
        outcomes@.len() == commands@.len(),
    ensures
        command_checks(commands@, outcomes@, cs@),
{
    let mut cs: Vec<VerificationCheck> = Vec::new();
    let mut i: usize = 0;
    while i < commands.len()
        invariant
            i <= commands@.len(),
            outcomes@.len() == commands@.len(),
            command_checks(commands@.take(i as int), outcomes@, cs@),
        decreases commands.len() - i,
    {
        let c = command_check(&commands[i], &outcomes[i]);
        cs.push(c);
        i = i + 1;
    }
    assert(commands@.take(commands@.len() as int) =~= commands@);
    cs
}

/// The checks of the manifest's verification section, from the outcome of
/// each probe (in the manifest's order): the required-package checks, then
/// the service checks, then the file checks, then the command checks.
pub fn requirement_checks(
    v: &VerificationConfig,
    packages: &Vec<Result<PackageVerificationResult, String>>,
    services: &Vec<Result<String, String>>,
    files: &Vec<Result<String, String>>,
    commands: &Vec<Result<String, String>>,
) -> (cs: Vec<VerificationCheck>)
    requires
        packages@.len() == v.required_packages@.len(),
        services@.len() == v.required_services@.len(),
        files@.len() == v.required_files@.len(),
        commands@.len() == v.verification_commands@.len(),
    ensures
        cs@.len() == v.required_packages@.len() + v.required_services@.len()
            + v.required_files@.len() + v.verification_commands@.len(),
        required_package_checks(
            v.required_packages@,
            packages@,
            cs@.subrange(0, v.required_packages@.len() as int),
        ),
        service_checks(
            v.required_services@,
            services@,
            cs@.subrange(
                v.required_packages@.len() as int,
                (v.required_packages@.len() + v.required_services@.len()) as int,
            ),
        ),
        file_checks(
            v.required_files@,
            files@,
            cs@.subrange(
                (v.required_packages@.len() + v.required_services@.len()) as int,
                (v.required_packages@.len() + v.required_services@.len()
                    + v.required_files@.len()) as int,
            ),
        ),
        command_checks(
            v.verification_commands@,
            commands@,
            cs@.subrange(
                (v.required_packages@.len() + v.required_services@.len()
                    + v.required_files@.len()) as int,
                cs@.len() as int,
            ),
        ),
{
    let mut cs = required_package_check_list(&v.required_packages, packages);
    let mut s = service_check_list(&v.required_services, services);
    let mut f = file_check_list(&v.required_files, files);
    let mut c = command_check_list(&v.verification_commands, commands);
    let ghost p0 = cs@;
    let ghost s0 = s@;
    let ghost f0 = f@;
    let ghost c0 = c@;
    cs.append(&mut s);
    cs.append(&mut f);
    cs.append(&mut c);
    assert(cs@ == p0 + s0 + f0 + c0);
    let ghost np = p0.len() as int;
    let ghost ns = s0.len() as int;
    let ghost nf = f0.len() as int;
    assert(cs@.subrange(0, np) =~= p0);
    assert(cs@.subrange(np, np + ns) =~= s0);
    assert(cs@.subrange(np + ns, np + ns + nf) =~= f0);
    assert(cs@.subrange(np + ns + nf, cs@.len() as int) =~= c0);
    cs
}

// ---------------------------------------------------------------------------
// Laws
// ---------------------------------------------------------------------------

/// A required service passes exactly when `systemctl is-enabled` answers,
/// once trimmed, `enabled`, `static` or `alias`: a static unit (one without
/// an install section, such as `dbus`) counts as enabled; any other answer fails.
pub proof fn law_service_check_states(service: Seq<char>, out: String, c: VerificationCheck)
    requires
        service_check_text(service, Ok(out), c),
    ensures
        trim(out@) == "enabled"@ ==> c.passed,
        trim(out@) == "static"@ ==> c.passed,
        trim(out@) == "alias"@ ==> c.passed,
        trim(out@) != "enabled"@ && trim(out@) != "static"@ && trim(out@) != "alias"@ ==> !c.passed,
{
}

/// A service check's verdict depends only on the trimmed answer, and a probe
/// that failed never passes.
pub proof fn law_service_check_ignores_whitespace(
    service: Seq<char>,
    out1: String,
    out2: String,
    e: String,
    c1: VerificationCheck,
    c2: VerificationCheck,
    c3: VerificationCheck,
)
    requires
        service_check_text(service, Ok(out1), c1),
        service_check_text(service, Ok(out2), c2),
        service_check_text(service, Err(e), c3),
        trim(out1@) == trim(out2@),
    ensures
        c1.passed == c2.passed,
        !c3.passed,
{
}

} // verus!
