//! Post-boot script conventions, error handling and logging formats.

/// Test: Shell script content generation
///
/// Validates that generated shell scripts have correct structure
#[test]
fn test_shell_script_generation() {
    let packages = vec!["htop".to_string(), "tree".to_string()];
    let marker_file = "/tmp/test-progress.log";
    let completion_marker = "/tmp/test-complete";

    let script_content = format!(
        r#"#!/bin/bash
sudo /usr/bin/env DEBIAN_FRONTEND=noninteractive NEEDRESTART_MODE=a NEEDRESTART_SUSPEND=1 apt-get install -y {} 2>&1 | tee {}
echo DONE > {}
"#,
        packages.join(" "),
        marker_file,
        completion_marker
    );

    // Validate script structure
    assert!(script_content.contains("#!/bin/bash"), "Missing shebang");
    assert!(
        script_content.contains("DEBIAN_FRONTEND=noninteractive"),
        "Missing DEBIAN_FRONTEND"
    );
    assert!(
        script_content.contains("NEEDRESTART_MODE=a"),
        "Missing NEEDRESTART_MODE"
    );
    assert!(
        script_content.contains("apt-get install -y htop tree"),
        "Missing package list"
    );
    assert!(
        script_content.contains("echo DONE >"),
        "Missing completion marker"
    );
}

/// Test: Error handling patterns
///
/// Validates that Result types are handled idiomatically
#[test]
fn test_result_handling() {
    // Simulate SSH success
    let success_result: Result<String, String> = Ok("done".to_string());

    let status = match success_result {
        Ok(output) => output,
        Err(_e) => "error".to_string(),
    };

    assert_eq!(status, "done", "Success case should return output");

    // Simulate SSH failure
    let failure_result: Result<String, String> = Err("Connection failed".to_string());

    let status = match failure_result {
        Ok(output) => output,
        Err(_e) => "error".to_string(),
    };

    assert_eq!(status, "error", "Failure case should return 'error'");
}

/// Test: Completion marker detection logic
///
/// Validates the idiomatic status checking pattern
#[test]
fn test_completion_detection() {
    // Test various status outputs
    let test_cases = vec![
        ("done", true),
        ("done\n", true),
        ("  done  ", true),
        ("running", false),
        ("", false),
        ("error", false),
    ];

    for (status, should_be_done) in test_cases {
        let is_done = status.trim() == "done";
        assert_eq!(
            is_done, should_be_done,
            "Status '{}' detection failed",
            status
        );
    }
}

/// Test: Environment variable handling
///
/// Validates that all required env vars are set
#[test]
fn test_environment_variables() {
    let env_vars = vec![
        "DEBIAN_FRONTEND=noninteractive",
        "NEEDRESTART_MODE=a",
        "NEEDRESTART_SUSPEND=1",
    ];

    let command = "sudo /usr/bin/env DEBIAN_FRONTEND=noninteractive NEEDRESTART_MODE=a NEEDRESTART_SUSPEND=1 apt-get install -y test";

    for env_var in env_vars {
        assert!(
            command.contains(env_var),
            "Missing environment variable: {}",
            env_var
        );
    }
}

/// Test: Script path format validation
///
/// Validates that script paths are in /tmp with correct naming
#[test]
fn test_script_path_format() {
    let unique_id = 1234567890;
    let script_path = format!("/tmp/apt_install_{}.sh", unique_id);

    assert!(script_path.starts_with("/tmp/"), "Script should be in /tmp");
    assert!(script_path.ends_with(".sh"), "Script should have .sh extension");
    assert!(
        script_path.contains(&unique_id.to_string()),
        "Script should include unique ID"
    );
}

/// Test: Cleanup command generation
///
/// Validates that cleanup removes all temporary files
#[test]
fn test_cleanup_command() {
    let marker_file = "/tmp/apt-progress-12345.log";
    let completion_marker = "/tmp/apt-complete-12345";
    let script_path = "/tmp/apt_install_12345.sh";

    let cleanup_cmd = format!("rm -f {} {} {}", marker_file, completion_marker, script_path);

    assert!(cleanup_cmd.contains(marker_file), "Should clean marker file");
    assert!(
        cleanup_cmd.contains(completion_marker),
        "Should clean completion marker"
    );
    assert!(cleanup_cmd.contains(script_path), "Should clean script file");
    assert!(cleanup_cmd.starts_with("rm -f"), "Should use rm -f");
}

/// Test: Silent error suppression is prevented
///
/// This is the CORE of Evolution #7 - ensuring errors are NEVER silently suppressed
#[test]
fn test_no_silent_errors() {
    // BAD PATTERN (what we fixed):
    // let status = result.unwrap_or_default(); // ❌ Silent suppression

    // GOOD PATTERN (idiomatic Rust):
    let result: Result<String, String> = Err("SSH failed".to_string());

    let status = match result {
        Ok(output) => output,
        Err(e) => {
            // Errors are VISIBLE and LOGGED
            println!("Error detected: {}", e);
            "error".to_string()
        }
    };

    assert_eq!(status, "error", "Errors should be explicitly handled");
}

/// Test: Error propagation with context
///
/// Validates that errors carry meaningful context
#[test]
fn test_error_context() {
    let operation = "SSH check";
    let error_msg = "Connection timeout";

    let result: Result<String, String> = Err(error_msg.to_string());

    let formatted_error = match result {
        Ok(_) => String::new(),
        Err(e) => format!("{} failed: {} (will retry)", operation, e),
    };

    assert!(
        formatted_error.contains(operation),
        "Error should include operation context"
    );
    assert!(
        formatted_error.contains(error_msg),
        "Error should include original message"
    );
    assert!(
        formatted_error.contains("will retry"),
        "Error should indicate retry behavior"
    );
}

/// Test: Debug logging format
///
/// Validates that debug logs provide useful information
#[test]
fn test_debug_log_format() {
    let status = "done";
    let debug_msg = format!("🔍 Completion check: status='{}' (expecting 'done')", status);

    assert!(debug_msg.contains("Completion check"), "Should identify operation");
    assert!(debug_msg.contains(status), "Should show actual status");
    assert!(debug_msg.contains("expecting"), "Should show expected status");
}

/// Test: Progress logging
///
/// Validates that progress information is captured
#[test]
fn test_progress_logging() {
    let package = "htop";
    let script_path = "/tmp/apt_install_12345.sh";

    let create_log = format!("📝 Creating install script on VM: {}", script_path);
    let launch_log = format!("🚀 Launching: apt-get install {} (via script {})", package, script_path);
    let complete_log = "✅ apt-get install completed";

    assert!(create_log.contains(script_path), "Should log script path");
    assert!(launch_log.contains(package), "Should log package name");
    assert!(launch_log.contains("via script"), "Should indicate method");
    assert!(complete_log.contains("completed"), "Should indicate success");
}
