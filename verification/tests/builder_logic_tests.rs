//! The build state, cloud-init planning and monitoring, and the image builder.

use agent_reagents::builder::cloud_init::{
    find_local_package, first_existing_candidate, local_package_candidates, CloudInitAction,
};
use agent_reagents::builder::cloud_init_monitor::{
    parse_stage_from_detail, CloudInitStage, CloudInitStatus,
};
use agent_reagents::builder::image_builder::{
    sudo_user_home, ssh_key_candidates, MonitorOutcome, MonitorStep,
};
use agent_reagents::builder::state::BuildState;
use agent_reagents::builder::vm_handle::CloudInitStatusInfo;
use agent_reagents::builder::ImageBuilder;
use agent_reagents::templates::manifest::{
    BuildStep, PostBootStep, ResourceConfig, TemplateManifest, UserConfig, VerificationConfig,
};

fn base_manifest() -> TemplateManifest {
    TemplateManifest {
        name: "t".to_string(),
        version: "1.0.0".to_string(),
        base_image: "base.img".to_string(),
        description: None,
        resources: ResourceConfig {
            memory_mb: 2048,
            vcpus: 2,
            disk_gb: 30,
            timeout_secs: 2400,
            static_ip: None,
        },
        pci_passthrough: vec![],
        users: vec![UserConfig {
            name: "u".to_string(),
            password: None,
            groups: vec![],
            ssh_authorized_keys: vec![],
        }],
        build_steps: vec![],
        post_boot_steps: vec![],
        verification: VerificationConfig {
            required_packages: vec![],
            required_services: vec![],
            required_files: vec![],
            verification_commands: vec![],
        },
        metadata: vec![],
        created: None,
        checksum: None,
    }
}

fn valid_manifest_with_steps() -> TemplateManifest {
    let mut m = base_manifest();
    m.name = "unit".to_string();
    m.users = vec![UserConfig {
        name: "ubuntu".to_string(),
        password: None,
        groups: vec![],
        ssh_authorized_keys: vec![],
    }];
    m.build_steps = vec![
        BuildStep::InstallPackages {
            packages: vec!["jq".to_string()],
        },
        BuildStep::RunCommand {
            command: "echo hi".to_string(),
            description: Some("say hi".to_string()),
        },
        BuildStep::EnableService {
            service: "ssh".to_string(),
        },
        BuildStep::AddRepository {
            name: "ex".to_string(),
            url: "https://example.com/ubuntu".to_string(),
            key_url: Some("https://example.com/key.asc".to_string()),
        },
    ];
    m.post_boot_steps = vec![PostBootStep::InstallPackages {
        packages: vec!["curl".to_string()],
        retry: false,
        timeout_secs: 100,
        description: None,
    }];
    m
}

fn run_commands(actions: &[CloudInitAction]) -> Vec<String> {
    let mut out = Vec::new();
    for a in actions {
        if let CloudInitAction::RunCmd(cmds) = a {
            out.extend(cmds.iter().cloned());
        }
    }
    out
}

fn all_packages(actions: &[CloudInitAction]) -> Vec<String> {
    let mut out = Vec::new();
    for a in actions {
        match a {
            CloudInitAction::Packages(ps) => out.extend(ps.iter().cloned()),
            CloudInitAction::Package(p) => out.push(p.clone()),
            _ => {}
        }
    }
    out
}

// ---------------------------------------------------------------------------
// Build state
// ---------------------------------------------------------------------------

#[test]
fn test_state_terminal() {
    assert!(BuildState::Complete.is_terminal());
    assert!(BuildState::Failed {
        reason: "test".to_string()
    }
    .is_terminal());
    assert!(BuildState::NetworkLost {
        reason: "timeout".to_string()
    }
    .is_terminal());
    assert!(!BuildState::Starting.is_terminal());
}

#[test]
fn test_state_description() {
    let desc = BuildState::InstallingPackages {
        progress_bits: 0.5f32.to_bits(),
    }
    .description("50");
    assert!(desc.contains("50%"));
}

#[test]
fn test_requires_network() {
    assert!(!BuildState::Idle.requires_network());
    assert!(!BuildState::Starting.requires_network());
    assert!(BuildState::NetworkEstablishment.requires_network());
    assert!(BuildState::NetworkVerified.requires_network());
    assert!(BuildState::Monitoring.requires_network());
    assert!(BuildState::Verifying.requires_network());
}

#[test]
fn test_network_lost_state() {
    let state = BuildState::NetworkLost {
        reason: "timeout".to_string(),
    };
    assert!(state.is_terminal());
    assert!(state.is_failed());
    assert!(!state.is_complete());
    assert!(state.description("0").contains("Network lost"));
}

#[test]
fn failed_and_idle_flags() {
    assert!(BuildState::Failed {
        reason: "x".to_string()
    }
    .is_failed());
    assert!(!BuildState::Complete.is_failed());
    assert!(BuildState::Complete.is_complete());
    assert!(!BuildState::Monitoring.is_complete());
}

#[test]
fn state_descriptions_exact() {
    assert_eq!(BuildState::Idle.description("0"), "Idle");
    assert_eq!(
        BuildState::InstallingCosmic { progress_bits: 0 }.description("25"),
        "Installing COSMIC desktop (25%)"
    );
    assert_eq!(
        BuildState::Failed {
            reason: "boom".to_string()
        }
        .description("0"),
        "Build failed: boom"
    );
}

#[test]
fn terminal_states_need_no_network() {
    for s in [
        BuildState::Complete,
        BuildState::Failed {
            reason: "r".to_string(),
        },
        BuildState::NetworkLost {
            reason: "r".to_string(),
        },
    ] {
        assert!(s.is_terminal());
        assert!(!s.requires_network());
        assert!(s.is_complete() || s.is_failed());
    }
}

// ---------------------------------------------------------------------------
// Cloud-init status
// ---------------------------------------------------------------------------

#[test]
fn test_parse_done_status() {
    let status = CloudInitStatus::from_status_fields("done", None, vec![]);
    assert!(status.is_done());
}

#[test]
fn test_parse_running_status() {
    let status = CloudInitStatus::from_status_fields(
        "running",
        Some("Running in stage: init".to_string()),
        vec![],
    );
    assert!(status.is_running());
    if let CloudInitStatus::Running { stage } = status {
        assert_eq!(stage, CloudInitStage::Init);
    } else {
        panic!("Expected Running status");
    }
}

#[test]
fn test_parse_error_status() {
    let status = CloudInitStatus::from_status_fields(
        "error",
        None,
        vec!["Failed to install packages".to_string()],
    );
    assert!(status.is_error());
}

#[test]
fn test_parse_disabled_status() {
    let status = CloudInitStatus::from_status_fields(
        "disabled",
        Some("disabled by marker file".to_string()),
        vec![],
    );
    assert!(status.is_error());
}

#[test]
fn parse_running_detail_matches_stage_heuristics() {
    let status = CloudInitStatus::from_status_fields(
        "running",
        Some("early init local".to_string()),
        vec![],
    );
    match status {
        CloudInitStatus::Running { stage } => assert_eq!(stage, CloudInitStage::Init),
        _ => panic!("expected Running"),
    }

    let st2 = CloudInitStatus::from_status_fields(
        "running",
        Some("no known keywords".to_string()),
        vec![],
    );
    match st2 {
        CloudInitStatus::Running { stage } => {
            assert!(matches!(stage, CloudInitStage::Unknown(_)));
        }
        _ => panic!("expected Running"),
    }
}

#[test]
fn parse_unknown_status_string_becomes_error() {
    let status = CloudInitStatus::from_status_fields("weird", None, vec![]);
    assert!(status.is_error());
}

#[test]
fn cloud_init_status_predicates() {
    assert!(CloudInitStatus::Done.is_done());
    assert!(!CloudInitStatus::Done.is_running());
    let err = CloudInitStatus::Error {
        message: "m".to_string(),
    };
    assert!(err.is_error());
}

#[test]
fn stage_detail_order_prefers_config_over_modules() {
    assert_eq!(
        parse_stage_from_detail("modules-config"),
        Some(CloudInitStage::Config)
    );
    assert_eq!(
        parse_stage_from_detail("final stage"),
        Some(CloudInitStage::Final)
    );
    assert_eq!(parse_stage_from_detail("nothing"), None);
}

// ---------------------------------------------------------------------------
// Image builder
// ---------------------------------------------------------------------------

#[test]
fn image_builder_from_manifest_timeout_and_accessors() {
    let m = valid_manifest_with_steps();
    let b = ImageBuilder::from_manifest(m)
        .with_timeout(60, 0)
        .with_plasmid_bin("/opt/plasmid".to_string());
    assert_eq!(b.name(), "unit");
    assert_eq!(b.plasmid_bin_path(), Some(&"/opt/plasmid".to_string()));
    assert_eq!(b.manifest().name, "unit");
    assert!(matches!(*b.state(), BuildState::Idle));
    assert_eq!(b.timeout(), (60, 0));
}

#[test]
fn builder_timeout_defaults_to_manifest() {
    let b = ImageBuilder::from_manifest(base_manifest());
    assert_eq!(b.timeout(), (2400, 0));
    assert!(b.plasmid_bin_path().is_none());
}

#[test]
fn username_fallback_is_ubuntu() {
    let b = ImageBuilder::from_manifest(base_manifest());
    assert_eq!(b.get_username_with_fallback(), "u");
    let mut m = base_manifest();
    m.users.clear();
    let b2 = ImageBuilder::from_manifest(m);
    assert_eq!(b2.get_username_with_fallback(), "ubuntu");
}

#[test]
fn infer_suite_from_image_names() {
    assert_eq!(ImageBuilder::infer_suite("ubuntu-24.04-server.img"), "noble");
    assert_eq!(ImageBuilder::infer_suite("Jammy-cloud.img"), "jammy");
    assert_eq!(ImageBuilder::infer_suite("focal.qcow2"), "focal");
    assert_eq!(ImageBuilder::infer_suite("debian-BOOKWORM.qcow2"), "bookworm");
    assert_eq!(ImageBuilder::infer_suite("bullseye.img"), "bullseye");
    assert_eq!(ImageBuilder::infer_suite("trixie.img"), "trixie");
    assert_eq!(ImageBuilder::infer_suite("mystery.img"), "noble");
}

#[test]
fn is_standard_apt_package_only_infrastructure() {
    assert!(ImageBuilder::is_standard_apt_package("curl"));
    assert!(ImageBuilder::is_standard_apt_package("CURL"));
    assert!(!ImageBuilder::is_standard_apt_package("firefox"));
}

#[test]
fn extract_cloud_init_packages_from_post_boot() {
    let mut m = base_manifest();
    m.post_boot_steps = vec![
        PostBootStep::InstallPackages {
            packages: vec!["curl".to_string(), "ubuntu-desktop".to_string()],
            retry: false,
            timeout_secs: 100,
            description: None,
        },
        PostBootStep::RunCommand {
            command: "true".to_string(),
            description: None,
            timeout_secs: 1,
        },
    ];
    let b = ImageBuilder::from_manifest(m);
    let pkgs = b.extract_cloud_init_packages();
    assert_eq!(pkgs, vec!["curl".to_string()]);
}

#[test]
fn filter_post_boot_removes_standard_apt_packages() {
    let mut m = base_manifest();
    m.post_boot_steps = vec![PostBootStep::InstallPackages {
        packages: vec!["wget".to_string(), "vim".to_string()],
        retry: true,
        timeout_secs: 50,
        description: Some("d".to_string()),
    }];
    let b = ImageBuilder::from_manifest(m);
    let filtered = b.filter_post_boot_steps();
    assert_eq!(filtered.len(), 1);
    match &filtered[0] {
        PostBootStep::InstallPackages { packages, .. } => {
            assert_eq!(packages, &vec!["vim".to_string()]);
        }
        _ => panic!("expected InstallPackages"),
    }
}

#[test]
fn filter_post_boot_drops_steps_left_empty() {
    let mut m = base_manifest();
    m.post_boot_steps = vec![
        PostBootStep::InstallPackages {
            packages: vec!["curl".to_string(), "net-tools".to_string()],
            retry: false,
            timeout_secs: 10,
            description: None,
        },
        PostBootStep::Reboot { wait_secs: 5 },
    ];
    let b = ImageBuilder::from_manifest(m);
    let filtered = b.filter_post_boot_steps();
    assert_eq!(filtered.len(), 1);
    assert!(matches!(filtered[0], PostBootStep::Reboot { wait_secs: 5 }));
    assert_eq!(
        b.extract_cloud_init_packages(),
        vec!["curl".to_string(), "net-tools".to_string()]
    );
}

#[test]
fn create_cloud_init_includes_packages_and_runcmd() {
    let b = ImageBuilder::from_manifest(valid_manifest_with_steps());
    let ci = b.create_cloud_init("ssh-rsa AAA test".to_string());
    let packages = all_packages(&ci.actions);
    assert!(
        packages.contains(&"jq".to_string()) && packages.contains(&"curl".to_string()),
        "packages: {:?}",
        packages
    );
    let joined = run_commands(&ci.actions).join("\n");
    assert!(
        joined.contains("echo hi") && joined.contains("systemctl enable ssh"),
        "runcmd: {}",
        joined
    );
}

#[test]
fn create_cloud_init_fallback_user_when_manifest_has_no_users() {
    let mut m = valid_manifest_with_steps();
    m.users.clear();
    let b = ImageBuilder::from_manifest(m);
    let ci = b.create_cloud_init("pk".into());
    assert!(ci.actions.iter().any(|a| matches!(
        a,
        CloudInitAction::AddUser { name, .. } if name == "builder"
    )));
}

#[test]
fn create_cloud_init_plan_order() {
    let b = ImageBuilder::from_manifest(valid_manifest_with_steps());
    let ci = b.create_cloud_init_with_locals("KEY".to_string(), &vec![None, None, None, None]);
    assert!(matches!(
        &ci.actions[0],
        CloudInitAction::AddUser { name, ssh_key } if name == "ubuntu" && ssh_key == "KEY"
    ));
    assert!(matches!(&ci.actions[1], CloudInitAction::Packages(p) if p == &vec!["curl".to_string()]));
    assert!(matches!(&ci.actions[2], CloudInitAction::Package(p) if p == "jq"));
    assert!(matches!(&ci.actions[3], CloudInitAction::RunCmd(c) if c == &vec!["echo hi".to_string()]));
    assert!(matches!(
        &ci.actions[4],
        CloudInitAction::RunCmd(c) if c == &vec!["systemctl enable ssh".to_string(), "systemctl start ssh".to_string()]
    ));
    match &ci.actions[5] {
        CloudInitAction::RunCmd(c) => {
            assert_eq!(c.len(), 3);
            assert_eq!(
                c[0],
                "curl -fsSL https://example.com/key.asc | gpg --dearmor -o /etc/apt/keyrings/ex.gpg"
            );
            assert_eq!(
                c[1],
                "echo 'deb [signed-by=/etc/apt/keyrings/ex.gpg] https://example.com/ubuntu noble main' | tee /etc/apt/sources.list.d/ex.list"
            );
            assert_eq!(c[2], "apt-get update");
        }
        _ => panic!("expected the repository commands"),
    }
    assert_eq!(ci.actions.len(), 6);
}

#[test]
fn create_cloud_init_covers_remaining_build_step_variants() {
    let mut m = valid_manifest_with_steps();
    m.build_steps = vec![
        BuildStep::WaitCloudInit { timeout_secs: 99 },
        BuildStep::CreateFile {
            path: "/etc/ci-test.conf".to_string(),
            content: "ok\n".to_string(),
            mode: Some("0644".to_string()),
        },
        BuildStep::DownloadFile {
            url: "https://cdn.example.com/offline.deb".to_string(),
            dest: "/tmp/offline.deb".to_string(),
        },
        BuildStep::DownloadFile {
            url: "https://remote.only/file.bin".to_string(),
            dest: "/tmp/remote.bin".to_string(),
        },
        BuildStep::AddRepository {
            name: "plain".to_string(),
            url: "https://ppa.example.com/ubuntu".to_string(),
            key_url: None,
        },
        BuildStep::Reboot { wait_secs: 1 },
    ];
    let b = ImageBuilder::from_manifest(m);
    let locals = vec![
        None,
        None,
        Some("packages/offline.deb".to_string()),
        None,
        None,
        None,
    ];
    let ci = b.create_cloud_init_with_locals("k".into(), &locals);
    let joined = run_commands(&ci.actions).join("|");
    assert!(joined.contains("EOFAGENTREAGENTS"));
    assert!(joined.contains("offline.deb"));
    assert!(joined.contains("# Local file available at: packages/offline.deb"));
    assert!(joined.contains(
        "curl -fsSL -o /tmp/offline.deb https://cdn.example.com/offline.deb || cp packages/offline.deb /tmp/offline.deb || true"
    ));
    assert!(joined.contains("curl -fsSL -o /tmp/remote.bin"));
    assert!(joined.contains("reboot"));
    assert!(joined.contains("plain"));
}

#[test]
fn find_local_package_returns_none_when_not_present() {
    assert!(find_local_package("https://example.com/missing.deb").is_none());
}

#[test]
fn first_existing_candidate_picks_first_found() {
    let c = local_package_candidates("https://example.com/a/foo.deb");
    assert_eq!(first_existing_candidate(&c, &vec![false, false, false, false]), None);
    assert_eq!(
        first_existing_candidate(&c, &vec![false, true, true, false]),
        Some("debs/remote-desktop/foo.deb".to_string())
    );
    assert_eq!(
        first_existing_candidate(&c, &vec![false, false, true]),
        Some("../packages/foo.deb".to_string())
    );
    assert_eq!(first_existing_candidate(&c, &vec![false]), None);
}

#[test]
fn local_package_candidates_in_order() {
    assert_eq!(
        local_package_candidates("https://example.com/a/foo.deb"),
        vec![
            "packages/foo.deb".to_string(),
            "debs/remote-desktop/foo.deb".to_string(),
            "../packages/foo.deb".to_string(),
            "../debs/remote-desktop/foo.deb".to_string(),
        ]
    );
}

#[test]
fn deprecated_cosmic_yaml_template_includes_key_and_cosmic() {
    let y = ImageBuilder::_create_cosmic_cloud_init_yaml_deprecated("ssh-rsa AAAABASE64");
    assert!(y.contains("#cloud-config"));
    assert!(y.contains("ssh-rsa AAAABASE64"));
    assert!(y.contains("COSMIC"));
    assert!(y.contains("power_state:"));
    assert!(y.contains("      - ssh-rsa AAAABASE64\n\nchpasswd:"));
}

#[test]
fn monitor_step_decisions() {
    let mut b = ImageBuilder::from_manifest(base_manifest());
    let running = Ok(CloudInitStatusInfo::from_json_fields(
        Some("running".to_string()),
        Some(vec![]),
    ));
    assert!(matches!(b.monitor_step(false, &running), MonitorStep::PoweredOff));
    assert!(matches!(b.monitor_step(true, &running), MonitorStep::Running(s) if s == "running"));
    assert!(matches!(
        b.monitor_step(true, &Err("no ssh".to_string())),
        MonitorStep::StatusUnavailable
    ));
    let failed = Ok(CloudInitStatusInfo::from_json_fields(
        Some("error".to_string()),
        Some(vec![Some("boom".to_string())]),
    ));
    assert!(matches!(
        b.monitor_step(true, &failed),
        MonitorStep::Failed(m) if m == "Cloud-init failed: [\"boom\"]"
    ));
    assert!(matches!(*b.state(), BuildState::Idle));
    let done = Ok(CloudInitStatusInfo::from_json_fields(
        Some("done".to_string()),
        None,
    ));
    assert!(matches!(b.monitor_step(true, &done), MonitorStep::Finished));
    assert!(b.state().is_complete());
}

#[test]
fn finish_monitoring_and_verification_record_failures() {
    let mut b = ImageBuilder::from_manifest(base_manifest());
    assert!(b.finish_monitoring(MonitorOutcome::Completed));
    assert!(matches!(*b.state(), BuildState::Idle));
    assert!(!b.finish_monitoring(MonitorOutcome::TimedOut));
    assert!(matches!(b.state(), BuildState::Failed { reason } if reason == "Build timeout"));
    assert!(!b.finish_monitoring(MonitorOutcome::Failed("bad".to_string())));
    assert!(matches!(b.state(), BuildState::Failed { reason } if reason == "bad"));
    let mut b2 = ImageBuilder::from_manifest(base_manifest());
    assert!(!b2.finish_verification(false));
    assert!(matches!(b2.state(), BuildState::Failed { reason } if reason == "Verification failed"));
    assert!(b2.finish_verification(true));
}

#[test]
fn transition_changes_only_the_state() {
    let mut b = ImageBuilder::from_manifest(base_manifest());
    b.transition_to(BuildState::Monitoring);
    assert!(matches!(*b.state(), BuildState::Monitoring));
    assert_eq!(b.name(), "t");
}

#[test]
fn ssh_key_locations() {
    assert_eq!(sudo_user_home("alice"), "/home/alice");
    assert_eq!(
        ssh_key_candidates("/home/alice"),
        vec![
            "/home/alice/.ssh/id_ed25519".to_string(),
            "/home/alice/.ssh/id_rsa".to_string(),
            "/home/alice/.ssh/id_ecdsa".to_string(),
        ]
    );
    assert_eq!(ssh_key_candidates("/root/")[0], "/root/.ssh/id_ed25519");
}
