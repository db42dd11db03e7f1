use agent_reagents::templates::manifest::{ResourceConfig, TemplateManifest, VerificationConfig};
use agent_reagents::builder::verification::{
    shell_escape, PackageDetails, PackageVerificationResult, VerificationCheck, VerificationMethod,
    VerificationResult,
};

#[test]
fn verification_test_verification_result_from_checks() {
    let checks = vec![
        VerificationCheck {
            name: "Test 1".to_string(),
            passed: true,
            details: None,
        },
        VerificationCheck {
            name: "Test 2".to_string(),
            passed: false,
            details: Some("Failed".to_string()),
        },
        VerificationCheck {
            name: "Test 3".to_string(),
            passed: true,
            details: None,
        },
    ];

    let result = VerificationResult::from_checks(checks);

    assert_eq!(result.total, 3);
    assert_eq!(result.passed_count, 2);
    assert_eq!(result.failed_count, 1);
    assert!(!result.passed);
    assert_eq!(result.failed_checks().len(), 1);
}

#[test]
fn verification_test_verification_result_all_passed() {
    let checks = vec![
        VerificationCheck {
            name: "Test 1".to_string(),
            passed: true,
            details: None,
        },
        VerificationCheck {
            name: "Test 2".to_string(),
            passed: true,
            details: None,
        },
    ];

    let result = VerificationResult::from_checks(checks);

    assert_eq!(result.total, 2);
    assert_eq!(result.passed_count, 2);
    assert_eq!(result.failed_count, 0);
    assert!(result.passed);
    assert_eq!(result.failed_checks().len(), 0);
}

#[test]
fn verification_test_shell_escape_simple() {
    assert_eq!(shell_escape("simple"), "'simple'");
}

#[test]
fn verification_test_shell_escape_with_quote() {
    assert_eq!(shell_escape("with'quote"), "'with'\\''quote'");
}

#[test]
fn verification_test_shell_escape_with_space() {
    assert_eq!(shell_escape("with space"), "'with space'");
}

#[test]
fn verification_test_shell_escape_complex() {
    assert_eq!(
        shell_escape("it's a 'complex' case"),
        "'it'\\''s a '\\''complex'\\'' case'"
    );
}

#[test]
fn verification_test_package_verification_result_installed() {
    let result = PackageVerificationResult {
        package: "test-package".to_string(),
        installed: true,
        method: VerificationMethod::DpkgQuery,
        details: PackageDetails {
            actual_name: Some("test-package".to_string()),
            version: Some("1.2.3".to_string()),
            dpkg_status: Some("install ok installed".to_string()),
            ..Default::default()
        },
    };

    assert!(result.installed);
    assert!(matches!(result.method, VerificationMethod::DpkgQuery));
    assert_eq!(result.details.version, Some("1.2.3".to_string()));
}

#[test]
fn verification_test_package_verification_result_dependency() {
    let result = PackageVerificationResult {
        package: "libgtk-3-0".to_string(),
        installed: true,
        method: VerificationMethod::InstalledByDependency("gnome-shell".to_string()),
        details: PackageDetails {
            required_by: vec!["gnome-shell".to_string()],
            ..Default::default()
        },
    };

    assert!(result.installed);
    assert!(matches!(
        result.method,
        VerificationMethod::InstalledByDependency(_)
    ));
    assert_eq!(result.details.required_by.len(), 1);
}

#[test]
fn verification_test_package_details_default() {
    let details = PackageDetails::default();
    assert!(details.actual_name.is_none());
    assert!(details.version.is_none());
    assert!(details.dpkg_status.is_none());
    assert!(details.required_by.is_empty());
    assert!(details.alternatives_checked.is_empty());
    assert!(details.raw_output.is_none());
}

#[test]
fn mod_test_verification_result_from_checks() {
    let checks = vec![
        VerificationCheck {
            name: "Test 1".to_string(),
            passed: true,
            details: None,
        },
        VerificationCheck {
            name: "Test 2".to_string(),
            passed: false,
            details: Some("Failed".to_string()),
        },
        VerificationCheck {
            name: "Test 3".to_string(),
            passed: true,
            details: None,
        },
    ];

    let result = VerificationResult::from_checks(checks);

    assert_eq!(result.total, 3);
    assert_eq!(result.passed_count, 2);
    assert_eq!(result.failed_count, 1);
    assert!(!result.passed);
    assert_eq!(result.failed_checks().len(), 1);
}

#[test]
fn mod_test_verification_result_all_passed() {
    let checks = vec![
        VerificationCheck {
            name: "Test 1".to_string(),
            passed: true,
            details: None,
        },
        VerificationCheck {
            name: "Test 2".to_string(),
            passed: true,
            details: None,
        },
    ];

    let result = VerificationResult::from_checks(checks);

    assert_eq!(result.total, 2);
    assert_eq!(result.passed_count, 2);
    assert_eq!(result.failed_count, 0);
    assert!(result.passed);
    assert_eq!(result.failed_checks().len(), 0);
}

#[test]
fn mod_test_shell_escape_simple() {
    assert_eq!(shell_escape("simple"), "'simple'");
}

#[test]
fn mod_test_shell_escape_with_quote() {
    assert_eq!(shell_escape("with'quote"), "'with'\\''quote'");
}

#[test]
fn mod_test_shell_escape_with_space() {
    assert_eq!(shell_escape("with space"), "'with space'");
}

#[test]
fn mod_test_shell_escape_complex() {
    assert_eq!(
        shell_escape("it's a 'complex' case"),
        "'it'\\''s a '\\''complex'\\'' case'"
    );
}

#[test]
fn mod_test_package_verification_result_installed() {
    let result = PackageVerificationResult {
        package: "test-package".to_string(),
        installed: true,
        method: VerificationMethod::DpkgQuery,
        details: PackageDetails {
            actual_name: Some("test-package".to_string()),
            version: Some("1.2.3".to_string()),
            dpkg_status: Some("install ok installed".to_string()),
            ..Default::default()
        },
    };

    assert!(result.installed);
    assert!(matches!(result.method, VerificationMethod::DpkgQuery));
    assert_eq!(result.details.version, Some("1.2.3".to_string()));
}

#[test]
fn mod_test_package_verification_result_dependency() {
    let result = PackageVerificationResult {
        package: "libgtk-3-0".to_string(),
        installed: true,
        method: VerificationMethod::InstalledByDependency("gnome-shell".to_string()),
        details: PackageDetails {
            required_by: vec!["gnome-shell".to_string()],
            ..Default::default()
        },
    };

    assert!(result.installed);
    assert!(matches!(
        result.method,
        VerificationMethod::InstalledByDependency(_)
    ));
    assert_eq!(result.details.required_by.len(), 1);
}

#[test]
fn mod_test_package_details_default() {
    let details = PackageDetails::default();
    assert!(details.actual_name.is_none());
    assert!(details.version.is_none());
    assert!(details.dpkg_status.is_none());
    assert!(details.required_by.is_empty());
    assert!(details.alternatives_checked.is_empty());
    assert!(details.raw_output.is_none());
}

#[test]
fn verification_result_empty_and_summary() {
    let empty = VerificationResult::from_checks(vec![]);
    assert_eq!(empty.total, 0);
    assert!(empty.passed);
    assert!(empty.summary().contains("0 checks"));

    let all_fail = VerificationResult::from_checks(vec![VerificationCheck {
        name: "a".to_string(),
        passed: false,
        details: Some("nope".to_string()),
    }]);
    assert!(!all_fail.passed);
    assert!(all_fail.summary().contains("failed"));
}

#[test]
fn verification_method_variants_debug() {
    let m = VerificationMethod::AptCache;
    let s = format!("{m:?}");
    assert!(s.contains("AptCache"));
    let dep = VerificationMethod::InstalledByDependency("pkg".into());
    assert!(format!("{dep:?}").contains("InstalledByDependency"));
    assert!(format!("{:?}", VerificationMethod::AllFailed).contains("AllFailed"));
}

#[test]
fn failed_checks_returns_only_failures() {
    let r = VerificationResult::from_checks(vec![
        VerificationCheck {
            name: "ok".to_string(),
            passed: true,
            details: None,
        },
        VerificationCheck {
            name: "bad".to_string(),
            passed: false,
            details: Some("x".to_string()),
        },
    ]);
    let f = r.failed_checks();
    assert_eq!(f.len(), 1);
    assert_eq!(f[0].name, "bad");
}

#[test]
fn summary_all_passed_includes_total() {
    let r = VerificationResult::from_checks(vec![VerificationCheck {
        name: "only".to_string(),
        passed: true,
        details: None,
    }]);
    let s = r.summary();
    assert!(s.contains("All"));
    assert!(s.contains("1 checks"));
}

#[test]
fn summary_exact_texts() {
    let r = VerificationResult::from_checks(vec![
        VerificationCheck { name: "a".to_string(), passed: true, details: None },
        VerificationCheck { name: "b".to_string(), passed: false, details: None },
        VerificationCheck { name: "c".to_string(), passed: false, details: None },
    ]);
    assert_eq!(r.summary(), "1/3 checks passed (2 failed)");
    assert_eq!(r.passed_count + r.failed_count, r.total);
    let ok = VerificationResult::from_checks(vec![VerificationCheck {
        name: "a".to_string(),
        passed: true,
        details: None,
    }]);
    assert_eq!(ok.summary(), "All 1 checks passed");
}

#[test]
fn shell_escape_empty_and_lone_quote() {
    assert_eq!(shell_escape(""), "''");
    assert_eq!(shell_escape("'"), "''\\'''");
}

use agent_reagents::builder::verification::package::{
    all_failed_outcome, apt_cache_outcome, arch_variant, dependency_outcome, dpkg_list_outcome,
    dpkg_query_command, dpkg_query_outcome, first_line_of, package_alternatives, package_variants,
    reverse_dependents, search_report, variant_report, wildcard_report,
};
use agent_reagents::builder::verification::requirements::{
    file_check, package_check, service_check, service_command, ssh_username,
};

#[test]
fn dpkg_query_probe_and_reading() {
    assert_eq!(
        dpkg_query_command("vim"),
        "dpkg-query -W -f='${Status}|${Version}|${Package}' 'vim' 2>&1"
    );
    assert_eq!(arch_variant("vim"), Some("vim:amd64".to_string()));
    assert_eq!(arch_variant("vim:i386"), None);
    let r = dpkg_query_outcome("vim", None, "install ok installed|2:9.1|vim").expect("installed");
    assert!(r.installed);
    assert_eq!(r.details.version.as_deref(), Some("2:9.1"));
    assert_eq!(r.details.actual_name.as_deref(), Some("vim"));
    assert_eq!(r.details.dpkg_status.as_deref(), Some("install ok installed"));
    let q = dpkg_query_outcome("vim", Some("vim:amd64"), "install ok installed|1|x").unwrap();
    assert_eq!(q.details.actual_name.as_deref(), Some("vim:amd64"));
    assert!(dpkg_query_outcome("vim", None, "dpkg-query: no packages found matching vim").is_none());
}

#[test]
fn dpkg_list_and_apt_cache_readings() {
    let out = "Desired=Unknown\nii  htop  3.3.0-4  amd64  interactive processes viewer\n";
    let r = dpkg_list_outcome("htop", true, out).expect("listed");
    assert!(r.installed);
    assert!(matches!(r.method, VerificationMethod::DpkgList));
    assert!(dpkg_list_outcome("htop", true, "rc  htop  1  amd64  x\n").is_none());
    let apt = "htop:\n  Installed: 3.3.0-4\n  Candidate: 3.3.0-4\n";
    let a = apt_cache_outcome("htop", apt).expect("installed");
    assert_eq!(a.details.version.as_deref(), Some("3.3.0-4"));
    assert!(apt_cache_outcome("htop", "htop:\n  Installed: (none)\n").is_none());
}

#[test]
fn dependency_readings() {
    let deps = reverse_dependents("Reverse Depends:\n  gnome-shell\n  |ubuntu-desktop\n");
    assert!(deps.contains(&"gnome-shell".to_string()));
    let r = dependency_outcome("libgtk-3-0", "gnome-shell");
    assert!(r.installed);
    assert!(matches!(r.method, VerificationMethod::InstalledByDependency(ref d) if d == "gnome-shell"));
    assert_eq!(r.details.required_by, vec!["gnome-shell".to_string()]);
}

#[test]
fn diagnostics_variants_and_reports() {
    assert_eq!(
        package_variants("my-pkg"),
        vec![
            "my-pkg:amd64".to_string(),
            "my_pkg".to_string(),
            "my-pkg-dev".to_string(),
            "libmy-pkg".to_string(),
            "my-pkg:all".to_string(),
        ]
    );
    assert_eq!(
        package_variants("plain"),
        vec![
            "plain:amd64".to_string(),
            "plain".to_string(),
            "plain-dev".to_string(),
            "libplain".to_string(),
            "plain:all".to_string(),
        ]
    );
    assert!(!package_alternatives("plain").contains(&"plain".to_string()));
    assert_eq!(package_alternatives("plain").len(), 4);
    assert_eq!(first_line_of("a\nb"), "a");
    assert_eq!(
        variant_report("x-dev", "x-dev\t1.0\n"),
        "Variant x-dev: x-dev\t1.0\nFound as variant: x-dev\n"
    );
    assert_eq!(wildcard_report("x", "no packages found matching x*"), "");
    assert_eq!(search_report("x - a tool"), "\nSimilar packages:\nx - a tool\n");
    let failed = all_failed_outcome("x", vec!["x-dev".to_string()], "raw".to_string());
    assert!(!failed.installed);
    assert!(matches!(failed.method, VerificationMethod::AllFailed));
}

#[test]
fn requirement_checks() {
    let installed = dpkg_query_outcome("vim", None, "install ok installed|1.0|vim").unwrap();
    let c = package_check("vim", &Ok(installed));
    assert_eq!(c.name, "Package: vim");
    assert!(c.passed);
    assert_eq!(c.details.as_deref(), Some("Version: 1.0"));
    let e = package_check("vim", &Err("ssh down".to_string()));
    assert!(!e.passed);
    assert_eq!(e.details.as_deref(), Some("Verification system error: ssh down"));
    assert_eq!(service_command("ssh"), "systemctl is-enabled 'ssh' 2>&1");
    assert!(service_check("ssh", &Ok("enabled\n".to_string())).passed);
    assert!(!file_check("/etc/x", &Ok("missing".to_string())).passed);
    assert!(file_check("/etc/x", &Ok("exists\n".to_string())).passed);
}

#[test]
fn ssh_username_falls_back_to_ubuntu() {
    let m = TemplateManifest {
        name: "n".to_string(),
        version: "1.0".to_string(),
        base_image: "b".to_string(),
        description: None,
        resources: ResourceConfig { memory_mb: 1024, vcpus: 1, disk_gb: 10, timeout_secs: 1, static_ip: None },
        pci_passthrough: vec![],
        users: vec![],
        build_steps: vec![],
        post_boot_steps: vec![],
        verification: VerificationConfig {
            required_packages: vec![],
            required_services: vec![],
            required_files: vec![],
            verification_commands: vec![],
        },
        metadata: vec![],
        created: None,
        checksum: None,
    };
    assert_eq!(ssh_username(&m), "ubuntu");
}
