use fazrepo::config::{AppConfig, OutputFormat};
use fazrepo::config_service::DefaultConfigService;

#[test]
fn test_app_config_defaults() {
    let config = AppConfig::new();
    assert_eq!(config.version, fazrepo::VERSION);
    assert!(!config.initialized);
    assert!(config.templates.is_empty());
    assert!(matches!(config.settings.output_format, OutputFormat::Text));
    assert!(config.settings.color_output);
    assert!(!config.settings.detailed_output);
    assert_eq!(config.settings.default_template, "fullstack-nextjs");
    assert!(config.settings.project_directory.is_none());
}

#[test]
fn test_with_template_insert_and_lookup() {
    let config = AppConfig::new()
        .with_template("one", "first path")
        .with_template("two", "second path");
    assert_eq!(config.templates.len(), 2);
    assert_eq!(config.get_template_path("one").as_deref(), Some("first path"));
    assert_eq!(config.get_template_path("two").as_deref(), Some("second path"));
    assert!(config.get_template_path("three").is_none());
}

#[test]
fn test_with_template_replaces_in_place() {
    let config = AppConfig::new()
        .with_template("one", "old")
        .with_template("two", "kept")
        .with_template("one", "new");
    assert_eq!(config.templates.len(), 2);
    assert_eq!(config.templates[0].0, "one");
    assert_eq!(config.get_template_path("one").as_deref(), Some("new"));
    assert_eq!(config.get_template_path("two").as_deref(), Some("kept"));
}

#[test]
fn test_set_project_directory() {
    let config = AppConfig::new().set_project_directory(String::from("/tmp/projects"));
    assert_eq!(
        config.settings.project_directory.as_deref(),
        Some("/tmp/projects")
    );
    assert!(!config.initialized);
}

#[test]
fn test_initialized_config() {
    let service = DefaultConfigService::new();
    let config = service.initialized_config();
    assert!(config.initialized);
    assert_eq!(config.version, fazrepo::VERSION);
    assert_eq!(
        config.get_template_path("fullstack-nextjs").as_deref(),
        Some("Full-stack Next.js application")
    );
    assert_eq!(
        config.get_template_path("api-express").as_deref(),
        Some("Express.js API with TypeScript")
    );
}

#[test]
fn test_config_path() {
    let service = DefaultConfigService::new();
    assert_eq!(service.get_config_path(), ".fazrepo");
}
