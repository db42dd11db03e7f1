//! The JSON-RPC service decisions, local images and packages, the cleanup
//! utility and the command-line helpers.

use agent_reagents::cleanup::{age_label, confirmed, pid_label, proc_path, process_exists, vm_disk_files};
use agent_reagents::cli::{
    delete_confirmed, ssh_key_from_file, template_detail_lines, template_summary_line,
    verification_check_count, verified_mark,
};
use agent_reagents::images::{extension_of, Image, ImageManager, ImageType};
use agent_reagents::packages::{Package, PackageManager, PackageType};
use agent_reagents::server::{
    check_version, dispatch_method, health_status, images_dir, is_listed_image, method_error,
    parse_error, readiness_status, registration_capabilities, service_name,
    template_file_missing, template_path_param, template_validation, MethodError,
    RegistrationSettings, RpcMethod, TemplateValidation, INTERNAL_ERROR, INVALID_PARAMS,
    INVALID_REQUEST, METHOD_NOT_FOUND, PARSE_ERROR,
};
use agent_reagents::templates::manifest::{
    ResourceConfig, TemplateManifest, VerificationCommand, VerificationConfig,
};
use agent_reagents::templates::registry::TemplateRegistry;
use agent_reagents::templates::registry::TemplateInfo;

fn manifest(memory_mb: usize) -> TemplateManifest {
    TemplateManifest {
        name: "demo".to_string(),
        version: "1.0.0".to_string(),
        base_image: "/tmp/x.img".to_string(),
        description: None,
        resources: ResourceConfig {
            memory_mb,
            vcpus: 2,
            disk_gb: 30,
            timeout_secs: 2400,
            static_ip: None,
        },
        pci_passthrough: vec![],
        users: vec![],
        build_steps: vec![],
        post_boot_steps: vec![],
        verification: VerificationConfig {
            required_packages: vec!["a".to_string()],
            required_services: vec!["b".to_string(), "c".to_string()],
            required_files: vec![],
            verification_commands: vec![VerificationCommand {
                command: "true".to_string(),
                expected_exit_code: 0,
                description: None,
            }],
        },
        metadata: vec![],
        created: None,
        checksum: None,
    }
}

// ---------------------------------------------------------------------------
// JSON-RPC
// ---------------------------------------------------------------------------

#[test]
fn test_dispatch_unknown_method() {
    assert_eq!(dispatch_method("unknown.method"), None);
}

#[test]
fn dispatch_known_methods() {
    assert_eq!(dispatch_method("health.liveness"), Some(RpcMethod::HealthLiveness));
    assert_eq!(dispatch_method("health.readiness"), Some(RpcMethod::HealthReadiness));
    assert_eq!(dispatch_method("health.check"), Some(RpcMethod::HealthCheck));
    assert_eq!(dispatch_method("registry.list"), Some(RpcMethod::RegistryList));
    assert_eq!(dispatch_method("template.validate"), Some(RpcMethod::TemplateValidate));
    assert_eq!(dispatch_method("image.list"), Some(RpcMethod::ImageList));
    assert_eq!(dispatch_method("image.list "), None);
}

#[test]
fn test_dispatch_parse_error() {
    let e = parse_error("expected value at line 1 column 1");
    assert_eq!(e.code, PARSE_ERROR);
    assert_eq!(e.message, "Parse error: expected value at line 1 column 1");
}

#[test]
fn test_dispatch_invalid_jsonrpc_version() {
    let e = check_version("1.0").expect("rejected");
    assert_eq!(e.code, INVALID_REQUEST);
    assert_eq!(e.message, "Invalid JSON-RPC version (must be \"2.0\")");
    assert!(check_version("2.0").is_none());
}

#[test]
fn dispatch_request_method_not_found_envelope() {
    let e = method_error("no.such.method", MethodError::NotFound);
    assert_eq!(e.code, METHOD_NOT_FOUND);
    assert!(e.message.contains("no.such.method"));
    let p = method_error("x", MethodError::InvalidParams("bad".to_string()));
    assert_eq!((p.code, p.message.as_str()), (INVALID_PARAMS, "bad"));
    let i = method_error("x", MethodError::Internal("oops".to_string()));
    assert_eq!((i.code, i.message.as_str()), (INTERNAL_ERROR, "oops"));
    assert_eq!(METHOD_NOT_FOUND, -32601);
}

#[test]
fn test_health_liveness() {
    assert_eq!(service_name(), "agent-reagents");
}

#[test]
fn readiness_not_ready_when_registry_dir_missing() {
    assert_eq!(readiness_status(false), "not_ready");
    assert_eq!(readiness_status(true), "ready");
}

#[test]
fn test_dispatch_health_readiness() {
    // An existing registry directory answers `health.readiness` with "ready".
    assert_eq!(dispatch_method("health.readiness"), Some(RpcMethod::HealthReadiness));
    assert_eq!(readiness_status(true), "ready");
}

#[test]
fn health_check_healthy_when_registry_initializes() {
    // A registry that opens is healthy and, when fresh, lists no templates.
    let registry = TemplateRegistry::new("/tmp/agent-reagents-health-check");
    assert_eq!(health_status(true), "healthy");
    assert_eq!(registry.list_templates().len(), 0);
}

#[test]
fn health_check_degraded_when_registry_unusable() {
    assert_eq!(health_status(false), "degraded");
    assert_eq!(health_status(true), "healthy");
}

#[test]
fn test_template_validate_missing_path() {
    assert!(matches!(
        template_path_param(None),
        Err(MethodError::InvalidParams(m)) if m == "missing \"path\" string"
    ));
    assert!(matches!(template_path_param(Some("/p".to_string())), Ok(p) if p == "/p"));
}

#[test]
fn template_validate_nonexistent_path_returns_valid_false() {
    match template_file_missing("/no/such/file.yaml") {
        TemplateValidation::Invalid(e) => assert!(e.contains("not found")),
        _ => panic!("expected invalid"),
    }
}

#[test]
fn template_validate_outcomes() {
    match template_validation(&Ok(manifest(2048))) {
        TemplateValidation::Valid {
            name,
            version,
            build_steps,
        } => {
            assert_eq!(name, "demo");
            assert_eq!(version, "1.0.0");
            assert_eq!(build_steps, 0);
        }
        _ => panic!("expected valid"),
    }
    match template_validation(&Ok(manifest(256))) {
        TemplateValidation::Invalid(e) => assert!(e.contains("512") || e.contains("Memory")),
        _ => panic!("expected invalid"),
    }
    match template_validation(&Err("bad yaml".to_string())) {
        TemplateValidation::Invalid(e) => assert_eq!(e, "parse error: bad yaml"),
        _ => panic!("expected invalid"),
    }
}

#[test]
fn registration_settings() {
    let s = RegistrationSettings::new("/run/r.sock".to_string(), "svc".to_string());
    assert_eq!(s.registry_socket, "/run/r.sock");
    assert_eq!(s.service_name, "svc");
    let d = RegistrationSettings::with_default_socket(None, "agent-reagents".to_string());
    assert_eq!(d.registry_socket, "/run/ecoPrimals/registry.sock");
    let e = RegistrationSettings::with_default_socket(Some("/x.sock".to_string()), "a".to_string());
    assert_eq!(e.registry_socket, "/x.sock");
    assert!(registration_capabilities().len() >= 4);
}

#[test]
fn image_list_filter() {
    assert_eq!(images_dir("/reg"), "/reg/templates");
    assert!(is_listed_image("a.qcow2"));
    assert!(is_listed_image("b.img"));
    assert!(!is_listed_image("c.iso"));
    assert!(!is_listed_image(".qcow2"));
    assert!(!is_listed_image("qcow2"));
}

// ---------------------------------------------------------------------------
// Images and packages
// ---------------------------------------------------------------------------

#[test]
fn test_image_type() {
    assert_eq!(ImageType::Cloud, ImageType::Cloud);
    assert_ne!(ImageType::Cloud, ImageType::Iso);
}

#[test]
fn test_package_type() {
    assert_eq!(PackageType::Deb, PackageType::Deb);
    assert_ne!(PackageType::Deb, PackageType::Rpm);
}

#[test]
fn image_directories() {
    let m = ImageManager::new("/r".to_string());
    assert_eq!(m.cloud_images_dir(), "/r/images/cloud");
    assert_eq!(m.iso_images_dir(), "/r/isos");
    assert_eq!(m.templates_dir(), "/r/images/templates");
}

#[test]
fn image_entries_by_extension() {
    let img = ImageManager::image_entry(
        "/r/images/cloud/base.img".to_string(),
        "base.img",
        true,
        true,
        1,
        ImageType::Cloud,
    )
    .expect("image");
    assert_eq!(img.name, "base.img");
    assert_eq!(img.image_type, ImageType::Cloud);
    assert_eq!(img.size_bytes, 1);
    assert!(ImageManager::image_entry("p".to_string(), "readme.txt", true, true, 4, ImageType::Cloud).is_none());
    assert!(ImageManager::image_entry("p".to_string(), "live.iso", true, false, 4, ImageType::Iso).is_none());
    let odd = ImageManager::image_entry("p".to_string(), "x.qcow2", false, true, 0, ImageType::Iso).unwrap();
    assert_eq!(odd.name, "unknown");
}

#[test]
fn find_image_takes_first_match() {
    let mk = |n: &str| Image {
        name: n.to_string(),
        path: format!("/r/{n}"),
        image_type: ImageType::Cloud,
        size_bytes: 0,
    };
    let found = ImageManager::find_image(vec![mk("ubuntu-a.img"), mk("ubuntu-b.img")], "ubuntu").unwrap();
    assert_eq!(found.name, "ubuntu-a.img");
    assert!(ImageManager::find_image(vec![mk("a.img")], "missing").is_none());
}

#[test]
fn file_extensions_follow_path_rules() {
    assert_eq!(extension_of("a.tar.gz"), Some("gz".to_string()));
    assert_eq!(extension_of(".bashrc"), None);
    assert_eq!(extension_of("noext"), None);
    assert_eq!(extension_of("a."), Some(String::new()));
    assert_eq!(extension_of(".a.b"), Some("b".to_string()));
}

#[test]
fn package_types_and_lookup() {
    let pm = PackageManager::new("/r".to_string());
    assert_eq!(pm.packages_dir(), "/r/packages");
    assert_eq!(PackageManager::package_type_for("/r/p/x.deb", "x.deb", true), Some(PackageType::Deb));
    assert_eq!(PackageManager::package_type_for("/r/p/x.rpm", "x.rpm", true), Some(PackageType::Rpm));
    assert_eq!(
        PackageManager::package_type_for("/r/p/x.tar.xz", "x.tar.xz", true),
        Some(PackageType::Tarball)
    );
    assert_eq!(PackageManager::package_type_for("/r/p/x.gz", "x.gz", true), None);
    assert_eq!(PackageManager::package_type_for("/r/p/x.bin", "x.bin", true), None);
    let p = PackageManager::parse_package("/r/p/rustdesk.deb".to_string(), "rustdesk.deb", true, 10).unwrap();
    assert_eq!(p.name, "rustdesk.deb");
    let mk = |n: &str| Package {
        name: n.to_string(),
        path: format!("/r/{n}"),
        package_type: PackageType::Deb,
        size_bytes: 0,
    };
    assert_eq!(
        PackageManager::find_package(vec![mk("a.deb"), mk("rustdesk.deb")], "rust").unwrap().name,
        "rustdesk.deb"
    );
}

// ---------------------------------------------------------------------------
// Cleanup utility and command line
// ---------------------------------------------------------------------------

#[test]
fn cleanup_labels_and_files() {
    assert_eq!(proc_path(42), "/proc/42");
    assert!(process_exists(1));
    assert!(!process_exists(u32::MAX));
    assert_eq!(age_label(3600 + 59 * 60, 3600), "59m");
    assert_eq!(age_label(10_000, 0), "2h");
    assert_eq!(pid_label(7, true), "7");
    assert_eq!(pid_label(7, false), "7*");
    assert_eq!(
        vm_disk_files("vm1"),
        ("vm1.qcow2".to_string(), "vm1-cidata.iso".to_string())
    );
    assert!(confirmed(" yes\n"));
    assert!(!confirmed("y"));
}

#[test]
fn cli_helpers() {
    let info = TemplateInfo {
        name: "t".to_string(),
        version: "1.2".to_string(),
        path: "/r/templates/t.qcow2".to_string(),
        size_bytes: 5,
        checksum: "ab".to_string(),
        verified: true,
    };
    assert_eq!(verified_mark(false), "✗");
    assert_eq!(template_summary_line(&info), "  ✓ t v1.2");
    let lines = template_detail_lines(&info);
    assert_eq!(lines[2], "    Size: 5 bytes");
    assert_eq!(lines[5], "");
    assert_eq!(verification_check_count(&manifest(2048)), 4);
    assert!(delete_confirmed("Y\n"));
    assert!(!delete_confirmed("yes"));
    assert_eq!(ssh_key_from_file("ssh-ed25519 AAA\n"), "ssh-ed25519 AAA");
}
