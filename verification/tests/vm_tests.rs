//! The VM handle, reboot recovery, network policy, post-boot steps and build
//! step execution.

use agent_reagents::builder::executor::{execute_build_step, verify_from_manifest, BuildStepAction};
use agent_reagents::builder::network::{
    after_recovery, recovery_commands, BannerRead, MonitorAction, NetworkMonitor, RetryTracker,
};
use agent_reagents::builder::post_boot::{
    command_timeout_message, effective_timeout, install_done, install_timeout_message,
    post_boot_step_actions, post_boot_step_context, progress_line_shown, step_failure_context,
    InstallMonitor, InstallProgress, InstallScript, PostBootAction,
};
use agent_reagents::builder::vm_handle::{
    cloud_init_poll, elapsed_exceeds, CloudInitPoll, CloudInitStatusInfo, VmHandle,
};
use agent_reagents::builder::vm_reboot::{
    diagnostic_commands, finish_reboot, reboot_command, reboot_probe_command, BootDiagnostics,
    RebootConfig, RebootState, RebootTracker,
};
use agent_reagents::templates::manifest::{
    BuildStep, PostBootStep, ResourceConfig, TemplateManifest, VerificationCommand,
    VerificationConfig,
};

fn manifest_with(verification: VerificationConfig) -> TemplateManifest {
    TemplateManifest {
        name: "m".to_string(),
        version: "1.0.0".to_string(),
        base_image: "b.img".to_string(),
        description: None,
        resources: ResourceConfig {
            memory_mb: 2048,
            vcpus: 2,
            disk_gb: 30,
            timeout_secs: 2400,
            static_ip: None,
        },
        pci_passthrough: vec![],
        users: vec![],
        build_steps: vec![],
        post_boot_steps: vec![],
        verification,
        metadata: vec![],
        created: None,
        checksum: None,
    }
}

// ---------------------------------------------------------------------------
// VM handle
// ---------------------------------------------------------------------------

#[test]
fn filter_ssh_warnings_strips_benign_lines() {
    let raw = "Warning: Permanently added '10.0.0.1' (ED25519) to the list of known hosts.\n\
         actual error: permission denied\n";
    let filtered = VmHandle::filter_ssh_warnings(raw);
    assert!(filtered.contains("permission denied"));
    assert!(!filtered.to_lowercase().contains("permanently added"));
}

#[test]
fn filter_ssh_warnings_empty_when_only_warnings() {
    let raw = "Warning: Permanently added host key\n";
    let filtered = VmHandle::filter_ssh_warnings(raw);
    assert!(filtered.is_empty());
}

#[test]
fn filter_ssh_warnings_drops_permanent_variant_and_generic_warning_prefix() {
    let raw = "Warning: permanent host key for 'x' added\n\
         real problem: connection refused\n\
         warning: something else\n";
    let filtered = VmHandle::filter_ssh_warnings(raw);
    assert!(filtered.contains("connection refused"));
    assert!(!filtered.to_lowercase().contains("permanent host"));
    assert!(!filtered.contains("something else"));
}

#[test]
fn filter_ssh_warnings_preserves_non_warning_stderr() {
    let raw = "Permission denied (publickey).\n";
    assert_eq!(VmHandle::filter_ssh_warnings(raw), raw.trim_end());
}

#[test]
fn filter_ssh_warnings_joins_kept_lines_and_drops_blank_ones() {
    let raw = "first\n\n   \nWARNING: loud\nsecond\r\n";
    assert_eq!(VmHandle::filter_ssh_warnings(raw), "first\nsecond");
}

#[test]
fn ssh_failure_message_texts() {
    assert_eq!(
        VmHandle::ssh_failure_message(Some(255), "Warning: Permanently added x\n"),
        "Command failed with exit code 255: Command returned non-zero exit code"
    );
    assert_eq!(
        VmHandle::ssh_failure_message(None, "boom\n"),
        "Command failed with exit code -1: boom"
    );
}

#[test]
fn vm_handle_accessors() {
    let vm = VmHandle::new("vm1".to_string(), "id-1".to_string(), "10.0.0.2".to_string());
    assert_eq!(vm.name(), "vm1");
    assert_eq!(vm.id(), "id-1");
    assert_eq!(vm.ip_address(), "10.0.0.2");
    let moved = vm.with_ip_address("10.0.0.3".to_string());
    assert_eq!(moved.ip_address(), "10.0.0.3");
    assert_eq!(moved.name(), "vm1");
}

#[test]
fn ssh_cli_args_with_and_without_key() {
    let args = VmHandle::ssh_cli_args("ubuntu", "10.0.0.9", None);
    assert_eq!(
        args,
        vec![
            "-o",
            "StrictHostKeyChecking=no",
            "-o",
            "UserKnownHostsFile=/dev/null",
            "-o",
            "LogLevel=ERROR",
            "-o",
            "BatchMode=yes",
            "ubuntu@10.0.0.9"
        ]
    );
    let keyed = VmHandle::ssh_cli_args("u", "h", Some("/k"));
    assert_eq!(keyed.len(), 11);
    assert_eq!(keyed[8], "-i");
    assert_eq!(keyed[9], "/k");
    assert_eq!(keyed[10], "u@h");
}

#[test]
fn cloud_init_stage_lines() {
    let out = "status: running\n  stage: modules-config  \nboot: x\nstage: final\n";
    assert_eq!(
        VmHandle::cloud_init_stages(out),
        vec!["stage: modules-config".to_string(), "stage: final".to_string()]
    );
    assert!(VmHandle::cloud_init_stages("unavailable\n").is_empty());
}

#[test]
fn package_commands() {
    assert_eq!(
        VmHandle::package_installed_command("htop"),
        "dpkg -l htop 2>/dev/null | grep -q '^ii'"
    );
    assert_eq!(
        VmHandle::install_packages_command(&vec!["a".to_string(), "b".to_string()]),
        "sudo apt-get update && sudo DEBIAN_FRONTEND=noninteractive apt-get install -y a b"
    );
    assert_eq!(
        VmHandle::cloud_init_status_command(),
        "cloud-init status --format=json"
    );
}

#[test]
fn cloud_init_status_from_json_fields() {
    let info = CloudInitStatusInfo::from_json_fields(
        Some("running".to_string()),
        Some(vec![Some("e1".to_string()), None, Some("e2".to_string())]),
    );
    assert!(info.running);
    assert!(!info.finished);
    assert_eq!(info.errors, vec!["e1".to_string(), "e2".to_string()]);
    let unknown = CloudInitStatusInfo::from_json_fields(None, None);
    assert_eq!(unknown.status, "unknown");
    assert!(!unknown.running && !unknown.finished);
    assert!(unknown.errors.is_empty());
    let done = CloudInitStatusInfo::from_json_fields(Some("done".to_string()), Some(vec![]));
    assert!(done.finished);
}

#[test]
fn cloud_init_poll_decisions() {
    let running = Ok(CloudInitStatusInfo::from_json_fields(
        Some("running".to_string()),
        None,
    ));
    assert!(matches!(cloud_init_poll(true, &running, ""), CloudInitPoll::TimedOut));
    assert!(matches!(
        cloud_init_poll(false, &running, ""),
        CloudInitPoll::Progress(s) if s == "running"
    ));
    assert!(matches!(
        cloud_init_poll(false, &running, "running"),
        CloudInitPoll::Unchanged
    ));
    assert!(matches!(
        cloud_init_poll(false, &Err("x".to_string()), ""),
        CloudInitPoll::WaitingForSsh
    ));
    let failed = Ok(CloudInitStatusInfo::from_json_fields(
        Some("error".to_string()),
        Some(vec![Some("a \"b\"".to_string())]),
    ));
    assert!(matches!(
        cloud_init_poll(false, &failed, ""),
        CloudInitPoll::Failed(m) if m == "Cloud-init failed: [\"a \\\"b\\\"\"]"
    ));
    let done = Ok(CloudInitStatusInfo::from_json_fields(Some("done".to_string()), None));
    assert!(matches!(cloud_init_poll(false, &done, ""), CloudInitPoll::Done));
}

#[test]
fn elapsed_comparison() {
    assert!(!elapsed_exceeds(10, 0, 10, 0));
    assert!(elapsed_exceeds(10, 1, 10, 0));
    assert!(elapsed_exceeds(11, 0, 10, 5));
    assert!(!elapsed_exceeds(9, 999, 10, 0));
}

// ---------------------------------------------------------------------------
// Reboot
// ---------------------------------------------------------------------------

#[test]
fn reboot_config_default_sensible() {
    let c = RebootConfig::default();
    assert!(c.initial_wait_secs > 0);
    assert!(c.max_wait_secs >= c.initial_wait_secs);
    assert!(c.check_interval_secs > 0);
    assert!(c.gather_diagnostics);
}

#[test]
fn reboot_state_clone_and_fields() {
    let s = RebootState {
        elapsed_secs: 3,
        vm_running: true,
        ssh_responsive: true,
        ssh_error: None,
        boot_diagnostics: None,
    };
    let c = s;
    assert_eq!(c.elapsed_secs, 3);
}

#[test]
fn boot_diagnostics_default_empty_messages() {
    let d = BootDiagnostics {
        systemd_multi_user: false,
        systemd_graphical: true,
        ssh_service_active: false,
        network_configured: true,
        recent_boot_messages: vec!["line".to_string()],
    };
    assert_eq!(d.recent_boot_messages.len(), 1);
}

#[test]
fn reboot_commands_and_attempts() {
    assert_eq!(reboot_command(), "sudo shutdown -r now");
    assert_eq!(reboot_probe_command(), "echo 'reboot-check'");
    assert_eq!(diagnostic_commands().len(), 5);
    assert_eq!(RebootConfig::default().max_attempts(), 120);
    let step = RebootConfig::for_reboot_step(30);
    assert_eq!(step.initial_wait_secs, 30);
    assert_eq!(step.max_wait_secs, 600);
}

#[test]
fn reboot_tracker_records_probes() {
    let mut t = RebootTracker::new(&RebootConfig::default());
    assert_eq!(t.max_attempts(), 120);
    assert!(t.has_attempts_left());
    assert!(t.record(130, Err("refused".to_string())).is_none());
    assert!(t.record(135, Ok("garbage".to_string())).is_none());
    let st = t.record(140, Ok("  reboot-check\n".to_string())).expect("back");
    assert_eq!(st.elapsed_secs, 140);
    assert!(st.ssh_responsive && st.vm_running);
    assert_eq!(t.attempt(), 3);
}

#[test]
fn reboot_timeout_error_without_diagnostics() {
    let mut t = RebootTracker::new(&RebootConfig {
        initial_wait_secs: 1,
        max_wait_secs: 10,
        check_interval_secs: 5,
        stabilization_wait_secs: 1,
        gather_diagnostics: false,
    });
    t.record(61, Err("Connection refused".to_string()));
    let msg = t.timeout_error(125, &None);
    assert!(msg.starts_with("VM did not respond to SSH after reboot (waited 2m 5s, 2 attempts)"));
    assert!(msg.contains("Could not gather diagnostics (SSH completely unresponsive)"));
    assert!(msg.contains("Possible causes:"));
    assert!(msg.ends_with("Last SSH error: Connection refused\n"));
}

#[test]
fn reboot_timeout_error_with_diagnostics() {
    let t = RebootTracker::new(&RebootConfig::default());
    let diag = BootDiagnostics {
        systemd_multi_user: false,
        systemd_graphical: true,
        ssh_service_active: false,
        network_configured: true,
        recent_boot_messages: (0..12).map(|i| format!("m{i}")).collect(),
    };
    let msg = t.timeout_error(600, &Some(diag));
    assert!(msg.contains("(waited 10m 0s, 120 attempts)"));
    assert!(msg.contains("\n  • Systemd multi-user target: false\n"));
    assert!(msg.contains("\n  • Systemd graphical target: true\n"));
    assert!(msg.contains("\n  m9\n"));
    assert!(!msg.contains("m10"));
    assert!(msg.contains("System not reaching multi-user target"));
    assert!(msg.contains("SSH service not starting"));
    assert!(!msg.contains("Network not configured"));
    assert!(!msg.contains("Last SSH error"));
}

#[test]
fn boot_diagnostics_from_replies() {
    let d = BootDiagnostics::from_replies(
        &Ok("active\n".to_string()),
        &Ok("inactive\n".to_string()),
        &Err("no".to_string()),
        &Ok(" 2\n".to_string()),
        &Ok("a\nb\n".to_string()),
    );
    assert!(d.systemd_multi_user);
    assert!(!d.systemd_graphical);
    assert!(!d.ssh_service_active);
    assert!(d.network_configured);
    assert_eq!(d.recent_boot_messages, vec!["a".to_string(), "b".to_string()]);
    let none = BootDiagnostics::from_replies(
        &Err("x".to_string()),
        &Err("x".to_string()),
        &Err("x".to_string()),
        &Ok("zero".to_string()),
        &Err("x".to_string()),
    );
    assert!(!none.network_configured);
    assert!(none.recent_boot_messages.is_empty());
}

#[test]
fn finish_reboot_waits_only_without_diagnostics() {
    let st = RebootState {
        elapsed_secs: 9,
        vm_running: true,
        ssh_responsive: true,
        ssh_error: None,
        boot_diagnostics: None,
    };
    let (s1, wait1) = finish_reboot(st.clone(), None);
    assert!(wait1);
    assert!(s1.boot_diagnostics.is_none());
    let d = BootDiagnostics {
        systemd_multi_user: true,
        systemd_graphical: true,
        ssh_service_active: true,
        network_configured: true,
        recent_boot_messages: vec![],
    };
    let (s2, wait2) = finish_reboot(st, Some(d));
    assert!(!wait2);
    assert!(s2.boot_diagnostics.is_some());
}

// ---------------------------------------------------------------------------
// Network
// ---------------------------------------------------------------------------

#[test]
fn test_network_monitor_configuration() {
    let monitor = NetworkMonitor::new("192.168.122.10".to_string())
        .with_check_interval(5, 0)
        .with_max_failures(5)
        .with_check_timeout(10, 0);

    assert_eq!(monitor.check_interval(), (5, 0));
    assert_eq!(monitor.max_failures(), 5);
    assert_eq!(monitor.check_timeout(), (10, 0));
}

#[test]
fn test_network_monitor_creation() {
    let monitor = NetworkMonitor::new("192.168.122.10".to_string());
    assert_eq!(monitor.vm_ip(), "192.168.122.10");
    assert_eq!(monitor.ssh_port(), 22);
    assert_eq!(monitor.max_failures(), 3);
}

#[test]
fn banner_checks() {
    let m = NetworkMonitor::new("10.0.0.1".to_string());
    assert!(m
        .check_banner(&BannerRead::Bytes(b"SSH-2.0-OpenSSH".to_vec()))
        .is_ok());
    assert_eq!(
        m.check_banner(&BannerRead::Bytes(b"HTTP/1.1 400".to_vec())),
        Err("unexpected banner from 10.0.0.1 (12 bytes, starts with [72, 84, 84, 80, 47, 49, 46, 49])".to_string())
    );
    assert_eq!(
        m.check_banner(&BannerRead::Bytes(b"SS".to_vec())),
        Err("unexpected banner from 10.0.0.1 (2 bytes, starts with [83, 83])".to_string())
    );
    assert_eq!(
        m.check_banner(&BannerRead::NotReady),
        Err("SSH banner not ready on 10.0.0.1".to_string())
    );
    assert_eq!(
        m.check_banner(&BannerRead::Failed("reset".to_string())),
        Err("reading SSH banner from 10.0.0.1: reset".to_string())
    );
}

#[test]
fn failure_counting_triggers_recovery() {
    let m = NetworkMonitor::new("h".to_string());
    let (f1, a1) = m.on_check(0, false);
    assert_eq!((f1, a1), (1, MonitorAction::Retry));
    let (f2, a2) = m.on_check(f1, false);
    assert_eq!((f2, a2), (2, MonitorAction::Retry));
    let (f3, a3) = m.on_check(f2, false);
    assert_eq!((f3, a3), (3, MonitorAction::Recover));
    assert_eq!(after_recovery(f3, false), 3);
    assert_eq!(after_recovery(f3, true), 0);
    assert_eq!(m.on_check(f3, true), (0, MonitorAction::Healthy));
}

#[test]
fn recovery_strategies_in_order() {
    let cmds = recovery_commands();
    assert_eq!(cmds.len(), 3);
    assert_eq!(cmds[0], "sudo systemctl restart systemd-networkd");
    assert_eq!(cmds[1], "sudo netplan apply");
    assert!(cmds[2].contains("ip link set"));
}

#[test]
fn retry_tracker_keeps_last_error() {
    let mut t = RetryTracker::new(3);
    assert_eq!(t.final_error("Network verification failed"), "Network verification failed");
    assert!(t.record_failure("e1".to_string()));
    assert!(t.record_failure("e2".to_string()));
    assert!(!t.record_failure("e3".to_string()));
    assert!(!t.has_attempts_left());
    assert_eq!(t.attempt(), 3);
    assert_eq!(t.final_error("All retries failed"), "e3");
}

// ---------------------------------------------------------------------------
// Post-boot steps
// ---------------------------------------------------------------------------

#[test]
fn zero_timeout_means_default() {
    assert_eq!(effective_timeout(0), 120);
    assert_eq!(effective_timeout(7), 7);
    assert_eq!(command_timeout_message(0), "Command timed out after 120s");
}

#[test]
fn post_boot_actions_per_step() {
    let install = PostBootStep::InstallPackages {
        packages: vec!["vim".to_string(), "curl".to_string()],
        retry: true,
        timeout_secs: 300,
        description: None,
    };
    let a = post_boot_step_actions(&install, "apt-get install -y");
    assert!(matches!(
        &a[..],
        [PostBootAction::RetryExec { command, timeout_secs: 300, attempts: 3 }] if command == "sudo apt-get install -y vim curl"
    ));

    let monitored = PostBootStep::InstallPackages {
        packages: vec!["vim".to_string()],
        retry: false,
        timeout_secs: 60,
        description: None,
    };
    assert!(matches!(
        &post_boot_step_actions(&monitored, "apt-get install -y")[..],
        [PostBootAction::MonitoredInstall { timeout_secs: 60, .. }]
    ));

    let file = PostBootStep::CreateFile {
        path: "/etc/foo.conf".to_string(),
        content: "x=1\n".to_string(),
        mode: "0640".to_string(),
        owner: Some("root:root".to_string()),
    };
    let f = post_boot_step_actions(&file, "apt-get install -y");
    assert_eq!(f.len(), 3);
    assert!(matches!(
        &f[0],
        PostBootAction::Exec { command, timeout_secs: 60 } if command == "sudo tee /etc/foo.conf > /dev/null <<'EOFAGENTREAGENTS'\nx=1\n\nEOFAGENTREAGENTS"
    ));
    assert!(matches!(&f[1], PostBootAction::Exec { command, timeout_secs: 10 } if command == "sudo chmod 0640 /etc/foo.conf"));
    assert!(matches!(&f[2], PostBootAction::Exec { command, timeout_secs: 10 } if command == "sudo chown root:root /etc/foo.conf"));

    let svc = PostBootStep::EnableService {
        service: "nginx".to_string(),
        start: true,
    };
    let s = post_boot_step_actions(&svc, "x");
    assert!(matches!(&s[0], PostBootAction::Exec { command, timeout_secs: 30 } if command == "sudo systemctl enable nginx"));
    assert!(matches!(&s[1], PostBootAction::Exec { command, timeout_secs: 60 } if command == "sudo systemctl start nginx"));

    let copy = PostBootStep::CopyFile {
        source: "/host/a".to_string(),
        destination: "/guest/a".to_string(),
        mode: "0644".to_string(),
    };
    let c = post_boot_step_actions(&copy, "x");
    assert!(matches!(&c[0], PostBootAction::Push { source, destination } if source == "/host/a" && destination == "/guest/a"));

    let reboot = post_boot_step_actions(&PostBootStep::Reboot { wait_secs: 30 }, "x");
    assert!(matches!(&reboot[..], [PostBootAction::Reboot(cfg)] if cfg.initial_wait_secs == 30 && cfg.max_wait_secs == 600));
}

#[test]
fn post_boot_failure_contexts() {
    let install = PostBootStep::InstallPackages {
        packages: vec!["vim".to_string()],
        retry: false,
        timeout_secs: 1,
        description: None,
    };
    assert_eq!(
        step_failure_context(&install),
        Some("Failed to install packages: [\"vim\"]".to_string())
    );
    assert_eq!(
        step_failure_context(&PostBootStep::Reboot { wait_secs: 1 }),
        Some("Failed to complete VM reboot".to_string())
    );
    assert_eq!(
        step_failure_context(&PostBootStep::EnableService {
            service: "s".to_string(),
            start: false
        }),
        None
    );
    assert_eq!(post_boot_step_context(0, 3), "Failed to execute post-boot step 1/3");
}

#[test]
fn install_script_files_and_commands() {
    let s = InstallScript::new(12345);
    assert_eq!(s.marker_file, "/tmp/pkg-progress-12345.log");
    assert_eq!(s.completion_marker, "/tmp/pkg-complete-12345");
    assert_eq!(s.script_path, "/tmp/pkg-install-12345.sh");
    assert_eq!(
        s.cleanup_command(),
        "rm -f /tmp/pkg-progress-12345.log /tmp/pkg-complete-12345 /tmp/pkg-install-12345.sh"
    );
    let content = s.content(
        "apt-get install -y",
        &vec!["htop".to_string(), "tree".to_string()],
        true,
    );
    assert!(content.starts_with("#!/bin/bash\n"));
    assert!(content.contains("export DEBIAN_FRONTEND=noninteractive\nexport NEEDRESTART_MODE=a"));
    assert!(content.contains("sudo apt-get install -y htop tree 2>&1 | tee /tmp/pkg-progress-12345.log"));
    assert!(content.ends_with("echo \"DONE\" > /tmp/pkg-complete-12345\n"));
    let plain = s.content("dnf install -y", &vec!["x".to_string()], false);
    assert!(!plain.contains("DEBIAN_FRONTEND"));
    assert_eq!(
        s.launch_command(),
        "nohup /tmp/pkg-install-12345.sh > /dev/null 2>&1 &"
    );
    assert!(s.write_command("BODY").starts_with("cat > /tmp/pkg-install-12345.sh << 'SCRIPT_EOF'\nBODY\nSCRIPT_EOF"));
    assert_eq!(
        s.completion_check_command(),
        "test -f /tmp/pkg-complete-12345 && echo 'done' || echo 'running'"
    );
    assert_eq!(install_timeout_message(90), "apt-get install timed out after 90s");
}

#[test]
fn install_completion_and_progress() {
    assert!(install_done(&Ok("done\n".to_string())));
    assert!(install_done(&Ok("  done  ".to_string())));
    assert!(!install_done(&Ok("running".to_string())));
    assert!(!install_done(&Err("ssh".to_string())));
    assert!(progress_line_shown("  Unpacking x  "));
    assert!(!progress_line_shown("   "));
    assert!(!progress_line_shown(&"x".repeat(200)));

    let mut m = InstallMonitor::new();
    assert_eq!(m.on_log_size(&Ok("2048\n".to_string())), InstallProgress::Growing { kb: 2 });
    for _ in 0..5 {
        assert_eq!(m.on_log_size(&Ok("2048".to_string())), InstallProgress::Quiet);
    }
    assert_eq!(m.on_log_size(&Ok("2048".to_string())), InstallProgress::Stalled);
    assert_eq!(m.on_log_size(&Ok("2048".to_string())), InstallProgress::Quiet);
    assert_eq!(m.on_log_size(&Err("x".to_string())), InstallProgress::Growing { kb: 0 });
}

// ---------------------------------------------------------------------------
// Build steps over SSH and the legacy manifest checks
// ---------------------------------------------------------------------------

#[test]
fn build_step_actions() {
    let repo = BuildStep::AddRepository {
        name: "r".to_string(),
        url: "https://u".to_string(),
        key_url: Some("https://k".to_string()),
    };
    let a = execute_build_step(&repo);
    assert_eq!(a.len(), 3);
    assert!(matches!(&a[0], BuildStepAction::Exec(c) if c == "curl -fsSL https://k | sudo gpg --dearmor -o /usr/share/keyrings/r.gpg"));
    assert!(matches!(&a[1], BuildStepAction::Exec(c) if c == "echo 'deb https://u noble main' | sudo tee /etc/apt/sources.list.d/r.list"));
    assert!(matches!(&a[2], BuildStepAction::Exec(c) if c == "sudo apt-get update"));
    let reboot = execute_build_step(&BuildStep::Reboot { wait_secs: 7 });
    assert!(matches!(
        &reboot[..],
        [BuildStepAction::ExecIgnoringFailure(c), BuildStepAction::Sleep(7), BuildStepAction::WaitCloudInit(300)] if c == "sudo reboot"
    ));
    let file = execute_build_step(&BuildStep::CreateFile {
        path: "/p".to_string(),
        content: "c".to_string(),
        mode: None,
    });
    assert!(matches!(&file[..], [BuildStepAction::Exec(c)] if c == "echo 'c' | sudo tee /p"));
}

#[test]
fn verify_from_manifest_counts_and_errors() {
    let m = manifest_with(VerificationConfig {
        required_packages: vec![
            "cosmic-session".to_string(),
            "cosmic-greeter".to_string(),
            "rustdesk".to_string(),
            "missing".to_string(),
        ],
        required_services: vec!["cosmic-greeter".to_string(), "sshd".to_string()],
        required_files: vec!["/etc/x".to_string()],
        verification_commands: vec![
            VerificationCommand {
                command: "true".to_string(),
                expected_exit_code: 0,
                description: Some("works".to_string()),
            },
            VerificationCommand {
                command: "false".to_string(),
                expected_exit_code: 0,
                description: None,
            },
        ],
    });
    let r = verify_from_manifest(
        &m,
        &vec![true, true, true, false],
        &vec![true, false],
        &vec![false],
        &vec![
            Ok("\n__exit_status=0\n".to_string()),
            Ok("\n__exit_status=1\n".to_string()),
        ],
    );
    assert_eq!(r.checks[0].name, "COSMIC installed");
    assert!(r.checks[0].passed);
    assert_eq!(r.checks[0].details.as_deref(), Some("2 COSMIC packages found"));
    assert!(r.checks[1].passed);
    assert!(r.checks[2].passed);
    assert!(r.checks[3].passed);
    let errors: Vec<&str> = r.checks[4..]
        .iter()
        .map(|c| c.details.as_deref().unwrap())
        .collect();
    assert_eq!(
        errors,
        vec![
            "Package missing not installed",
            "Service sshd not enabled",
            "File /etc/x not found",
            "Verification command failed: false",
        ]
    );
    assert!(!r.passed);
    assert_eq!(r.total, 8);
    assert_eq!(r.failed_count, 4);
}
