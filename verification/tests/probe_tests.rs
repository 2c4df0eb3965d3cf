use fazrepo::helpers::get_platform_command;
use fazrepo::package_manager::PackageManager;
use fazrepo::package_manager_service::DefaultPackageManagerService;

#[test]
fn test_platform_command() {
    assert_eq!(get_platform_command("npm", false), "npm");
    assert_eq!(get_platform_command("npm", true), "npm.cmd");
}

#[test]
fn test_commands_to_try_unix() {
    let service = DefaultPackageManagerService::new();
    assert_eq!(service.get_commands_to_try("npm", false), vec!["npm"]);
    assert_eq!(service.get_commands_to_try("npm.cmd", false), vec!["npm.cmd"]);
}

#[test]
fn test_commands_to_try_windows() {
    let service = DefaultPackageManagerService::new();
    assert_eq!(
        service.get_commands_to_try("npm.cmd", true),
        vec!["npm.cmd", "npm.exe", "npm"]
    );
    assert_eq!(
        service.get_commands_to_try("yarn", true),
        vec!["yarn.cmd", "yarn.exe", "yarn"]
    );
    assert_eq!(
        service.get_commands_to_try("bun.cmd.cmd", true),
        vec!["bun.cmd", "bun.exe", "bun"]
    );
}

#[test]
fn test_supported_managers() {
    let service = DefaultPackageManagerService::new();
    let managers = service.get_supported_managers(false);
    assert_eq!(managers.len(), 4);
    let names: Vec<&str> = managers.iter().map(|m| m.name.as_str()).collect();
    assert_eq!(names, vec!["npm", "yarn", "pnpm", "bun"]);
    for m in &managers {
        assert_eq!(m.command, m.name);
        assert!(m.version.is_none());
        assert!(m.path.is_none());
        assert!(!m.is_installed);
        assert!(!m.is_working);
    }
    let windows_managers = service.get_supported_managers(true);
    assert_eq!(windows_managers[0].command, "npm.cmd");
}

#[test]
fn test_version_from_output_success() {
    let service = DefaultPackageManagerService::new();
    assert_eq!(
        service.version_from_output(true, "8.19.2\n", "").unwrap(),
        "8.19.2"
    );
    assert_eq!(
        service.version_from_output(true, "  v1.0\nextra", "junk").unwrap(),
        "v1.0"
    );
    assert_eq!(service.version_from_output(true, "", "x").unwrap(), "unknown");
    assert_eq!(service.version_from_output(true, "  \n ", "").unwrap(), "unknown");
}

#[test]
fn test_version_from_output_crlf() {
    let service = DefaultPackageManagerService::new();
    assert_eq!(
        service.version_from_output(true, "1.2.3\r\nrest", "").unwrap(),
        "1.2.3"
    );
}

#[test]
fn test_version_from_output_nonzero_exit() {
    let service = DefaultPackageManagerService::new();
    assert_eq!(
        service.version_from_output(false, "", "error line\nmore").unwrap_err(),
        "error line"
    );
    assert_eq!(
        service.version_from_output(false, "9.0.0\n", "boom\n").unwrap_err(),
        "boom"
    );
}

#[test]
fn test_version_from_output_failure() {
    let service = DefaultPackageManagerService::new();
    assert_eq!(
        service.version_from_output(false, "", "  ").unwrap_err(),
        "Failed to get version"
    );
    assert_eq!(
        service.version_from_output(false, "", "").unwrap_err(),
        "Failed to get version"
    );
    assert_eq!(
        service.version_from_output(false, "9.0.0\n", "").unwrap_err(),
        "Failed to get version"
    );
}

#[test]
fn test_check_result_not_found() {
    let service = DefaultPackageManagerService::new();
    let manager = PackageManager::new("npm", "Node Package Manager", "Node.js package manager", "npm");
    let result = service.check_result_not_found(&manager);
    assert!(!result.success);
    assert_eq!(result.error_message.as_deref(), Some("Command not found"));
    assert_eq!(result.package_manager.name, "npm");
    assert!(!result.package_manager.is_installed);
}

#[test]
fn test_check_result_from_invocation_version_found() {
    let service = DefaultPackageManagerService::new();
    let manager = PackageManager::new("npm", "Node Package Manager", "Node.js package manager", "npm");
    let result =
        service.check_result_from_invocation(&manager, "/usr/bin/npm", true, "9.0.0\n", "");
    assert!(result.success);
    assert!(result.error_message.is_none());
    let pm = &result.package_manager;
    assert_eq!(pm.version.as_deref(), Some("9.0.0"));
    assert_eq!(pm.path.as_deref(), Some("/usr/bin/npm"));
    assert!(pm.is_installed);
    assert!(pm.is_working);
}

#[test]
fn test_check_result_nonzero_exit_uses_stderr() {
    // A resolvable command whose version run exits non-zero with text on
    // standard error is a failed check; the first line of standard error
    // is the error message.
    let service = DefaultPackageManagerService::new();
    let manager = PackageManager::new("npm", "Node Package Manager", "Node.js package manager", "npm");
    let result = service.check_result_from_invocation(
        &manager,
        "/usr/bin/npm",
        false,
        "",
        "npm ERR! boom\nmore",
    );
    assert!(!result.success);
    assert_eq!(result.error_message.as_deref(), Some("npm ERR! boom"));
    let pm = &result.package_manager;
    assert!(pm.version.is_none());
    assert_eq!(pm.path.as_deref(), Some("/usr/bin/npm"));
    assert!(pm.is_installed);
    assert!(!pm.is_working);
}

#[test]
fn test_check_result_from_invocation_no_output() {
    let service = DefaultPackageManagerService::new();
    let manager = PackageManager::new("npm", "Node Package Manager", "Node.js package manager", "npm");
    let result = service.check_result_from_invocation(&manager, "/usr/bin/npm", false, "", "");
    assert!(!result.success);
    assert_eq!(result.error_message.as_deref(), Some("Failed to get version"));
    let pm = &result.package_manager;
    assert!(pm.version.is_none());
    assert_eq!(pm.path.as_deref(), Some("/usr/bin/npm"));
    assert!(pm.is_installed);
    assert!(!pm.is_working);
}

#[test]
fn test_locate_unresolvable_command() {
    let service = DefaultPackageManagerService::new();
    let manager = PackageManager::new(
        "ghost",
        "Ghost Manager",
        "A manager that does not exist",
        "fazrepo-test-command-that-does-not-exist",
    );
    assert!(service.locate_manager(&manager, false).is_none());
}

#[test]
fn test_manager_display_helpers() {
    let manager = PackageManager::new("npm", "Node Package Manager", "Node.js package manager", "npm");
    assert_eq!(manager.get_display_name(), "Node Package Manager (npm)");
    assert_eq!(manager.get_version_display(), "unknown");
    assert_eq!(manager.get_path_display(), "not found");
    let manager = manager
        .with_version(String::from("9.0.0"))
        .with_path(String::from("/usr/bin/npm"));
    assert_eq!(manager.get_version_display(), "9.0.0");
    assert_eq!(manager.get_path_display(), "/usr/bin/npm");
}

#[test]
fn test_manager_builders() {
    let manager = PackageManager::new("bun", "Bun Runtime & Package Manager", "Fast runtime", "bun")
        .mark_installed()
        .mark_working();
    assert!(manager.is_installed);
    assert!(manager.is_working);
    assert_eq!(manager.name, "bun");
    assert_eq!(manager.command, "bun");
}

#[test]
fn test_parse_selection() {
    let service = DefaultPackageManagerService::new();
    assert_eq!(service.parse_selection("npm,yarn"), vec!["npm", "yarn"]);
    assert_eq!(service.parse_selection(" npm , bun "), vec!["npm", "bun"]);
    assert_eq!(service.parse_selection("npm"), vec!["npm"]);
    assert_eq!(service.parse_selection(""), vec![""]);
    assert_eq!(service.parse_selection("npm,,bun"), vec!["npm", "", "bun"]);
}

#[test]
fn test_filter_managers() {
    let service = DefaultPackageManagerService::new();
    let managers = service.get_supported_managers(false);
    let selection = service.parse_selection("bun, npm");
    let kept = service.filter_managers(managers, &selection);
    let names: Vec<&str> = kept.iter().map(|m| m.name.as_str()).collect();
    assert_eq!(names, vec!["npm", "bun"]);

    let managers = service.get_supported_managers(false);
    let selection = service.parse_selection("deno");
    let kept = service.filter_managers(managers, &selection);
    assert!(kept.is_empty());
}
