//! The step decisions of the build: the requirement check list, the install
//! wait, the package verification chain, and the readings of lowercased text.

use agent_reagents::builder::cloud_init::is_standard_lowercase;
use agent_reagents::builder::cloud_init_monitor::{stage_from_lowercase, CloudInitStage};
use agent_reagents::builder::image_builder::suite_for_lowercase;
use agent_reagents::builder::post_boot::{install_wait_step, InstallWait};
use agent_reagents::builder::verification::package::dependency_outcome;
use agent_reagents::builder::verification::probe::{
    next_package_probe, package_probe_command, PackageProbeState,
};
use agent_reagents::builder::verification::requirements::{
    command_check, command_probe, command_succeeded, exit_status_of, requirement_checks,
};
use agent_reagents::builder::verification::VerificationMethod;
use agent_reagents::builder::vm_handle::is_benign_ssh_line;
use agent_reagents::builder::vm_reboot::RebootConfig;
use agent_reagents::server::liveness_reply;
use agent_reagents::templates::manifest::{VerificationCommand, VerificationConfig};

fn ok(s: &str) -> Result<String, String> {
    Ok(s.to_string())
}

fn err(s: &str) -> Result<String, String> {
    Err(s.to_string())
}

#[test]
fn requirement_checks_are_grouped_in_manifest_order() {
    let v = VerificationConfig {
        required_packages: vec!["curl".to_string()],
        required_services: vec!["ssh".to_string(), "cron".to_string()],
        required_files: vec!["/etc/motd".to_string()],
        verification_commands: vec![VerificationCommand {
            command: "true".to_string(),
            expected_exit_code: 0,
            description: None,
        }],
    };
    let packages = vec![Ok(dependency_outcome("curl", "ubuntu-minimal"))];
    let services = vec![ok("enabled\n"), ok("disabled\n")];
    let files = vec![err("ssh down")];
    let commands = vec![ok("fine\n\n__exit_status=0\n")];
    let cs = requirement_checks(&v, &packages, &services, &files, &commands);
    let names: Vec<&str> = cs.iter().map(|c| c.name.as_str()).collect();
    assert_eq!(
        names,
        vec![
            "Required package: curl",
            "Required service: ssh",
            "Required service: cron",
            "Required file: /etc/motd",
            "Command: true",
        ]
    );
    let passed: Vec<bool> = cs.iter().map(|c| c.passed).collect();
    assert_eq!(passed, vec![true, true, false, false, true]);
    assert_eq!(cs[3].details.as_deref(), Some("Check failed: ssh down"));
}

#[test]
fn install_wait_stops_on_done_times_out_and_survives_ssh_errors() {
    assert!(matches!(install_wait_step(0, 0, 60, &None), InstallWait::Probe));
    assert!(matches!(install_wait_step(10, 0, 60, &Some(ok("running\n"))), InstallWait::Probe));
    assert!(matches!(install_wait_step(10, 0, 60, &Some(err("ssh busy"))), InstallWait::Probe));
    // A "done" answer ends the wait even past the limit.
    assert!(matches!(install_wait_step(99, 0, 60, &Some(ok(" done \n"))), InstallWait::Done));
    // Exactly at the limit the wait goes on; strictly past it, it fails.
    assert!(matches!(install_wait_step(60, 0, 60, &Some(err("x"))), InstallWait::Probe));
    match install_wait_step(60, 1, 60, &Some(err("x"))) {
        InstallWait::TimedOut(m) => assert_eq!(m, "apt-get install timed out after 60s"),
        other => panic!("expected a timeout, got {:?}", other),
    }
}

#[test]
fn package_probe_order_when_nothing_confirms() {
    let p = "libfoo";
    let mut st = PackageProbeState::DpkgQuery;
    let mut commands = Vec::new();
    let result = loop {
        let cmd = package_probe_command(p, &st).expect("each state here has a probe");
        commands.push(cmd);
        match next_package_probe(p, st, err("failed")) {
            Ok(r) => break r,
            Err(next) => st = next,
        }
    };
    assert_eq!(commands[0], "dpkg-query -W -f='${Status}|${Version}|${Package}' 'libfoo' 2>&1");
    assert_eq!(commands[1], "dpkg -l 'libfoo' 2>&1");
    assert_eq!(commands[2], "apt-cache policy 'libfoo' 2>&1");
    assert_eq!(
        commands[3],
        "apt-cache rdepends --installed 'libfoo' 2>&1 | tail -n +3 | head -20"
    );
    assert_eq!(commands[4], "dpkg-query -W 'libfoo:amd64' 2>&1");
    assert_eq!(commands.len(), 4 + 4 + 2);
    assert_eq!(commands[8], "dpkg-query -W ''libfoo'*' 2>&1 | head -5");
    assert_eq!(commands[9], "apt-cache search 'libfoo' | head -5 2>&1");
    assert!(!result.installed);
    assert!(matches!(result.method, VerificationMethod::AllFailed));
    assert_eq!(
        result.details.alternatives_checked,
        vec!["libfoo:amd64", "libfoo", "libfoo-dev", "liblibfoo", "libfoo:all"]
            .into_iter()
            .filter(|v| *v != "libfoo")
            .map(String::from)
            .collect::<Vec<_>>()
    );
    assert_eq!(result.details.raw_output.as_deref(), Some(""));
}

#[test]
fn package_probe_arch_and_wildcard_retries() {
    let p = "foo";
    // dpkg-query ran but did not confirm: the :amd64 variant is queried next.
    let st = next_package_probe(p, PackageProbeState::DpkgQuery, ok("unknown")).unwrap_err();
    assert_eq!(
        package_probe_command(p, &st).unwrap(),
        "dpkg-query -W -f='${Status}|${Version}|${Package}' 'foo:amd64' 2>&1"
    );
    let r = next_package_probe(p, st, ok("install ok installed|1.2|foo:amd64")).unwrap();
    assert!(r.installed);
    assert!(matches!(r.method, VerificationMethod::DpkgQuery));
    assert_eq!(r.details.actual_name.as_deref(), Some("foo:amd64"));
    assert_eq!(r.details.version.as_deref(), Some("1.2"));

    // dpkg -l ran without a match: the wildcard form follows.
    let st = next_package_probe(p, PackageProbeState::DpkgList, ok("nothing")).unwrap_err();
    assert_eq!(package_probe_command(p, &st).unwrap(), "dpkg -l ''foo':*' 2>&1");
    let r = next_package_probe(p, st, ok("ii  foo:i386  2.0  i386  desc")).unwrap();
    assert!(matches!(r.method, VerificationMethod::DpkgList));
    assert_eq!(r.details.version.as_deref(), Some("2.0"));
}

#[test]
fn package_probe_first_installed_dependent_confirms() {
    let p = "libbar";
    let st = next_package_probe(p, PackageProbeState::Rdepends, ok("app-one\n|alt\napp-two\n"))
        .unwrap_err();
    assert_eq!(package_probe_command(p, &st).unwrap(), "dpkg-query -W 'app-one' 2>/dev/null");
    let st = next_package_probe(p, st, err("not installed")).unwrap_err();
    assert_eq!(package_probe_command(p, &st).unwrap(), "dpkg-query -W 'app-two' 2>/dev/null");
    let r = next_package_probe(p, st, ok("")).unwrap();
    assert!(r.installed);
    assert!(matches!(r.method, VerificationMethod::InstalledByDependency(ref d) if d == "app-two"));
    assert_eq!(r.details.raw_output.as_deref(), Some("Required by: app-two"));
}

#[test]
fn lowercased_readings() {
    assert!(matches!(stage_from_lowercase("modules-config running"), Some(CloudInitStage::Config)));
    assert!(matches!(stage_from_lowercase("running init-local"), Some(CloudInitStage::Init)));
    assert!(stage_from_lowercase("Init").is_none());
    assert!(is_standard_lowercase("curl"));
    assert!(!is_standard_lowercase("Curl"));
    assert!(!is_standard_lowercase("jq"));
    assert!(is_benign_ssh_line("Warning: x", "warning: x"));
    assert!(!is_benign_ssh_line("Warning: x", "Warning: x"));
    assert!(is_benign_ssh_line("   ", "   "));
    assert!(!is_benign_ssh_line("Permission denied", "permission denied"));
    assert_eq!(suite_for_lowercase("debian-12-bookworm.qcow2"), "bookworm");
    assert_eq!(suite_for_lowercase("ubuntu-22.04.img"), "jammy");
    assert_eq!(suite_for_lowercase("JAMMY.img"), "noble");
}

#[test]
fn reboot_diagnostic_attempts() {
    let mut c = RebootConfig::default();
    assert_eq!(c.diagnostic_attempts(true), 1);
    assert_eq!(c.diagnostic_attempts(false), 3);
    c.gather_diagnostics = false;
    assert_eq!(c.diagnostic_attempts(true), 0);
    assert_eq!(c.diagnostic_attempts(false), 0);
}

#[test]
fn liveness_reply_is_alive_with_service_name() {
    let r = liveness_reply("0.1.0");
    assert_eq!(r.status, "alive");
    assert_eq!(r.service, "agent-reagents");
    assert_eq!(r.version, "0.1.0");
}

fn expecting(code: i32) -> VerificationCommand {
    VerificationCommand {
        command: "grep -q x /etc/y".to_string(),
        expected_exit_code: code,
        description: None,
    }
}

#[test]
fn command_probe_reports_the_exit_status() {
    assert_eq!(
        command_probe("grep -q x /etc/y"),
        "grep -q x /etc/y\nprintf '\\n__exit_status=%s\\n' \"$?\""
    );
    assert_eq!(exit_status_of("out\n\n__exit_status=2\n"), Some(2));
    assert_eq!(exit_status_of("__exit_status=0"), Some(0));
    assert_eq!(exit_status_of("__exit_status=\n"), None);
    assert_eq!(exit_status_of("no marker\n"), None);
    assert_eq!(exit_status_of("__exit_status=1\ntrailing\n"), None);
}

#[test]
fn command_check_passes_only_on_the_expected_exit_code() {
    // Expected 2, exited 1: fails.
    let c = command_check(&expecting(2), &ok("\n__exit_status=1\n"));
    assert!(!c.passed);
    assert_eq!(c.details.as_deref(), Some("Expected exit code 2, got 1"));
    // Expected 2, exited 2: passes.
    let c = command_check(&expecting(2), &ok("\n__exit_status=2\n"));
    assert!(c.passed);
    assert_eq!(c.details.as_deref(), Some("Non-zero exit (expected 2)"));
    // Expected 0, exited 0: passes with the first output line.
    let c = command_check(&expecting(0), &ok("hello\nworld\n\n__exit_status=0\n"));
    assert!(c.passed);
    assert_eq!(c.details.as_deref(), Some("hello"));
    // Expected 0, exited 3: fails.
    let c = command_check(&expecting(0), &ok("\n__exit_status=3\n"));
    assert!(!c.passed);
    assert_eq!(c.details.as_deref(), Some("Expected exit code 0, got 3"));
    // A transport error fails whatever is expected.
    let c = command_check(&expecting(2), &err("connection reset"));
    assert!(!c.passed);
    assert_eq!(c.details.as_deref(), Some("Command failed: connection reset"));
    // No status reported: fails.
    let c = command_check(&expecting(0), &ok("hello\n"));
    assert!(!c.passed);
    assert_eq!(c.details.as_deref(), Some("No exit status reported"));
    assert!(command_succeeded(&expecting(5), &ok("\n__exit_status=5\n")));
    assert!(!command_succeeded(&expecting(-1), &ok("\n__exit_status=255\n")));
}
