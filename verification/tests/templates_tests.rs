//! Manifest validation and the template registry.

use agent_reagents::templates::manifest::{
    default_cloud_init_timeout, default_file_mode, default_package_timeout, default_reboot_wait,
    default_timeout, ManifestError, ResourceConfig, TemplateManifest, VerificationConfig,
};
use agent_reagents::templates::registry::{
    checksum_hex, RegistryError, TemplateInfo, TemplateRegistry,
};

fn manifest(name: &str) -> TemplateManifest {
    TemplateManifest {
        name: name.to_string(),
        version: "1.0.0".to_string(),
        base_image: "ubuntu-24.04.img".to_string(),
        description: None,
        resources: ResourceConfig {
            memory_mb: 2048,
            vcpus: 2,
            disk_gb: 30,
            timeout_secs: 2400,
            static_ip: None,
        },
        pci_passthrough: vec![],
        users: vec![],
        build_steps: vec![],
        post_boot_steps: vec![],
        verification: VerificationConfig {
            required_packages: vec![],
            required_services: vec![],
            required_files: vec![],
            verification_commands: vec![],
        },
        metadata: vec![],
        created: None,
        checksum: None,
    }
}

#[test]
fn test_manifest_validation() {
    let mut manifest = manifest("test");
    assert!(manifest.validate().is_ok());

    // Test invalid memory
    manifest.resources.memory_mb = 256;
    assert!(manifest.validate().is_err());
}

#[test]
fn validate_rejects_empty_name_version_base_and_resources() {
    let mut manifest = manifest("");
    manifest.base_image = "x.img".to_string();
    assert!(manifest.validate().is_err());

    manifest.name = "n".to_string();
    manifest.version = "bad".to_string();
    assert!(manifest.validate().is_err());

    manifest.version = "1.0.0".to_string();
    manifest.base_image = String::new();
    assert!(manifest.validate().is_err());

    manifest.base_image = "b.img".to_string();
    manifest.resources.vcpus = 0;
    assert!(manifest.validate().is_err());

    manifest.resources.vcpus = 1;
    manifest.resources.disk_gb = 5;
    assert!(manifest.validate().is_err());
}

#[test]
fn validation_reports_first_broken_rule() {
    let mut m = manifest("");
    m.version = "bad".to_string();
    assert_eq!(m.validate(), Err(ManifestError::EmptyName));
    m.name = "x".to_string();
    assert_eq!(m.validate(), Err(ManifestError::InvalidVersion));
    m.version = "1.0".to_string();
    m.resources.memory_mb = 511;
    assert_eq!(m.validate(), Err(ManifestError::MemoryTooSmall));
    assert_eq!(
        ManifestError::MemoryTooSmall.message(),
        "Memory must be at least 512 MB"
    );
    m.resources.memory_mb = 512;
    m.resources.disk_gb = 9;
    assert_eq!(m.validate(), Err(ManifestError::DiskTooSmall));
    m.resources.disk_gb = 10;
    assert_eq!(m.validate(), Ok(()));
}

#[test]
fn manifest_defaults() {
    assert_eq!(default_timeout(), 2400);
    assert_eq!(default_cloud_init_timeout(), 600);
    assert_eq!(default_reboot_wait(), 120);
    assert_eq!(default_package_timeout(), 1800);
    assert_eq!(default_file_mode(), "0644");
}

#[test]
fn test_registry_creation() {
    let registry = TemplateRegistry::new("/tmp/reagents");
    assert_eq!(registry.list_templates().len(), 0);
    assert_eq!(registry.registry_dir(), "/tmp/reagents/registry");
    assert_eq!(registry.templates_dir(), "/tmp/reagents/templates");
    assert_eq!(registry.index_path(), "/tmp/reagents/registry/index.json");
    assert_eq!(registry.manifest_path("a"), "/tmp/reagents/registry/a.yaml");
}

#[test]
fn register_get_verify_delete_roundtrip() {
    let mut registry = TemplateRegistry::new("/base");
    let manifest = manifest("demo-template");
    let info = registry
        .register_template(&manifest, b"fake-disk")
        .expect("register");
    assert!(info.verified);
    assert_eq!(info.size_bytes, 9);

    assert!(registry.has_template("demo-template"));
    let got = registry.get_template("demo-template").expect("get");
    assert_eq!(got.name, "demo-template");
    assert_eq!(got.version, "1.0.0");
    assert!(got.path.ends_with("demo-template.qcow2"));
    assert_eq!(got.path, "/base/templates/demo-template.qcow2");

    assert!(registry
        .verify_template("demo-template", b"fake-disk")
        .expect("verify"));
    assert!(!registry
        .verify_template("demo-template", b"other-disk")
        .expect("verify"));

    let removed = registry.delete_template("demo-template").expect("delete");
    assert_eq!(removed.name, "demo-template");
    assert!(!registry.has_template("demo-template"));
    assert!(registry.list_templates().is_empty());
}

#[test]
fn register_duplicate_returns_already_exists() {
    let mut registry = TemplateRegistry::new("/base");
    let manifest = manifest("dup");
    registry.register_template(&manifest, b"x").unwrap();

    let err = registry.register_template(&manifest, b"x").expect_err("dup");
    assert!(err.message().contains("already exists"));
    assert!(matches!(err, RegistryError::AlreadyExists(n) if n == "dup"));
    assert_eq!(registry.list_templates().len(), 1);
}

#[test]
fn register_invalid_manifest_is_rejected() {
    let mut registry = TemplateRegistry::new("/base");
    let mut bad = manifest("bad");
    bad.resources.disk_gb = 1;
    let err = registry.register_template(&bad, b"x").expect_err("invalid");
    assert_eq!(
        err.message(),
        "Invalid template: Disk size must be at least 10 GB"
    );
    assert!(!registry.has_template("bad"));
}

#[test]
fn get_template_not_found_maps_to_registry_error() {
    let registry = TemplateRegistry::new("/base");
    let err = registry.get_template("nope").unwrap_err();
    assert!(matches!(err, RegistryError::NotFound(_)));
    assert_eq!(err.message(), "Template not found: nope");
    assert!(matches!(
        registry.verify_template("nope", b""),
        Err(RegistryError::NotFound(_))
    ));
    let mut r2 = TemplateRegistry::new("/base");
    assert!(matches!(r2.delete_template("nope"), Err(RegistryError::NotFound(_))));
}

#[test]
fn checksum_is_lowercase_sha256_hex() {
    assert_eq!(
        checksum_hex(b""),
        "e3b0c44298fc1c149afbf4c8996fb92427ae41e4649b934ca495991b7852b855"
    );
    assert_eq!(
        checksum_hex(b"abc"),
        "ba7816bf8f01cfea414140de5dae2223b00361a396177a9cb410ff61f20015ad"
    );
}

#[test]
fn restore_entry_replaces_by_name() {
    let mut registry = TemplateRegistry::new("/base");
    let info = TemplateInfo {
        name: "a".to_string(),
        version: "1.0".to_string(),
        path: "/x/a.qcow2".to_string(),
        size_bytes: 1,
        checksum: "00".to_string(),
        verified: false,
    };
    registry.restore_entry(info.clone());
    let mut newer = info;
    newer.version = "2.0".to_string();
    registry.restore_entry(newer);
    let all = registry.list_templates();
    assert_eq!(all.len(), 1);
    assert_eq!(all[0].version, "2.0");
    assert_eq!(registry.entries()[0].0, "a");
}

#[test]
fn register_then_delete_leaves_other_templates() {
    let mut registry = TemplateRegistry::new("/base");
    registry.register_template(&manifest("a"), b"1").unwrap();
    registry.register_template(&manifest("b"), b"2").unwrap();
    registry.delete_template("a").unwrap();
    assert!(!registry.has_template("a"));
    let b = registry.get_template("b").unwrap();
    assert_eq!(b.checksum, checksum_hex(b"2"));
    assert!(registry.verify_template("b", b"2").unwrap());
}

#[test]
fn test_template_registry_creation() {
    let registry = TemplateRegistry::new("/tmp/agent-reagents-registry-creation");
    let templates = registry.list_templates();
    assert_eq!(templates.len(), 0);
}
