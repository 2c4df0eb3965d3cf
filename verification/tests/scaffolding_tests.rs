use fazrepo::helpers::{is_valid_project_name, sanitize_project_name};
use fazrepo::project::{ProjectCategory, ProjectConfig, ProjectGenerationResult};
use fazrepo::project_service::{DefaultProjectService, PlanOutcome, PlanStep, StepOutcome};

fn demo_config(template: &str) -> ProjectConfig {
    let mut config = ProjectConfig::new("demo", template);
    config.description = String::from("d");
    config.author = String::from("a");
    config.version = String::from("1.0.0");
    config
}

#[test]
fn test_valid_project_names() {
    assert!(is_valid_project_name("my-project"));
    assert!(is_valid_project_name("my_project"));
    assert!(is_valid_project_name("project123"));
    assert!(is_valid_project_name("A"));
}

#[test]
fn test_invalid_project_names() {
    assert!(!is_valid_project_name(""));
    assert!(!is_valid_project_name("my project"));
    assert!(!is_valid_project_name("my\tproject"));
    assert!(!is_valid_project_name("my@project"));
    assert!(!is_valid_project_name("my/project"));
}

#[test]
fn test_validate_error_messages() {
    let service = DefaultProjectService::new();
    assert_eq!(
        service.validate_project_name("").unwrap_err(),
        "Project name cannot be empty"
    );
    assert_eq!(
        service.validate_project_name("my project").unwrap_err(),
        "Project name cannot contain spaces"
    );
    assert_eq!(
        service.validate_project_name("my@project").unwrap_err(),
        "Project name can only contain alphanumeric characters, hyphens, and underscores"
    );
    assert!(service.validate_project_name("my-project").is_ok());
}

#[test]
fn test_sanitize_project_name() {
    assert_eq!(sanitize_project_name("My Project!"), "my-project-");
    assert_eq!(sanitize_project_name("ABC_x-1"), "abc_x-1");
    assert_eq!(sanitize_project_name(""), "");
}

#[test]
fn test_sanitize_result_is_valid() {
    for name in ["My Project!", "a b c", "@@@", "Hello, World", "x"] {
        let sanitized = sanitize_project_name(name);
        assert!(is_valid_project_name(&sanitized));
    }
}

#[test]
fn test_template_blueprint_data() {
    let service = DefaultProjectService::new();
    let templates = service.list_templates();

    let fullstack = &templates[0];
    assert_eq!(
        fullstack.structure.directories,
        vec!["src", "src/app", "src/components", "src/lib", "src/types", "prisma", "public"]
    );
    assert_eq!(
        fullstack.technologies,
        vec!["Next.js", "TypeScript", "Tailwind CSS", "Prisma", "PostgreSQL"]
    );
    let paths: Vec<&str> = fullstack.structure.files.iter().map(|f| f.path.as_str()).collect();
    assert_eq!(
        paths,
        vec!["package.json", "next.config.js", "tailwind.config.js", "tsconfig.json", "README.md"]
    );
    assert!(fullstack.structure.files.iter().all(|f| f.is_template));
    assert!(fullstack.structure.files[0].content.contains("{{PROJECT_NAME}}"));
    assert!(fullstack.dependencies.is_empty());

    let api = &templates[1];
    assert_eq!(
        api.structure.directories,
        vec!["src", "src/routes", "src/middleware", "src/types", "tests"]
    );
    let paths: Vec<&str> = api.structure.files.iter().map(|f| f.path.as_str()).collect();
    assert_eq!(paths, vec!["package.json", "tsconfig.json", "README.md"]);
    assert!(api.structure.files.iter().all(|f| f.is_template));
}

#[test]
fn test_render_round_trip() {
    let service = DefaultProjectService::new();
    let config = demo_config("fullstack-nextjs");
    let out = service.process_template_content("{{PROJECT_NAME}} by {{AUTHOR}} v{{VERSION}}", &config);
    assert_eq!(out, "demo by a v1.0.0");
}

#[test]
fn test_render_leaves_unknown_tokens() {
    let service = DefaultProjectService::new();
    let config = demo_config("fullstack-nextjs");
    let out = service.process_template_content("{{FOO}} {{PROJECT_NAME}}", &config);
    assert_eq!(out, "{{FOO}} demo");
}

#[test]
fn test_render_replaces_every_occurrence() {
    let service = DefaultProjectService::new();
    let config = demo_config("fullstack-nextjs");
    let out = service.process_template_content("{{PROJECT_NAME}}/{{PROJECT_NAME}}", &config);
    assert_eq!(out, "demo/demo");
}

#[test]
fn test_render_license_and_description() {
    let service = DefaultProjectService::new();
    let config = demo_config("fullstack-nextjs");
    let out =
        service.process_template_content("{{PROJECT_DESCRIPTION}} ({{LICENSE}})", &config);
    assert_eq!(out, "d (MIT)");
}

#[test]
fn test_list_templates() {
    let service = DefaultProjectService::new();
    let templates = service.list_templates();
    assert_eq!(templates.len(), 2);
    assert_eq!(templates[0].name, "fullstack-nextjs");
    assert_eq!(templates[1].name, "api-express");
    assert!(matches!(templates[0].category, ProjectCategory::FullStack));
    assert!(matches!(templates[1].category, ProjectCategory::Backend));
    assert_eq!(templates[0].structure.directories.len(), 7);
    assert_eq!(templates[0].structure.files.len(), 5);
    assert_eq!(templates[1].structure.directories.len(), 5);
    assert_eq!(templates[1].structure.files.len(), 3);
}

#[test]
fn test_get_template() {
    let service = DefaultProjectService::new();
    let t = service.get_template("api-express").unwrap();
    assert_eq!(t.name, "api-express");
    assert!(service.get_template("does-not-exist").is_none());
    assert!(service.get_template("FULLSTACK-NEXTJS").is_none());
}

#[test]
fn test_plan_fullstack_and_clean_finish() {
    let service = DefaultProjectService::new();
    let config = ProjectConfig::new("demo", "fullstack-nextjs");
    match service.plan_project(&config) {
        PlanOutcome::Ready(plan) => {
            assert_eq!(plan.root, "demo");
            assert_eq!(plan.steps.len(), 12);
            let outcomes: Vec<StepOutcome> =
                plan.steps.iter().map(|_| StepOutcome::Created).collect();
            let result = service.finish_project("demo", &plan.steps, &outcomes);
            assert!(result.success);
            assert_eq!(result.project_path.as_deref(), Some("demo"));
            assert_eq!(result.files_created.len(), 12);
            assert!(result.errors.is_empty());
            assert!(result.warnings.is_empty());
            assert_eq!(result.files_created[0], "📁 src");
            assert_eq!(result.files_created[7], "📄 package.json");
            assert_eq!(result.files_created[11], "📄 README.md");
        }
        PlanOutcome::Rejected(_) => panic!("expected a plan for a valid request"),
    }
}

#[test]
fn test_plan_api_express_counts() {
    let service = DefaultProjectService::new();
    let config = ProjectConfig::new("demo", "api-express");
    match service.plan_project(&config) {
        PlanOutcome::Ready(plan) => {
            assert_eq!(plan.steps.len(), 8);
        }
        PlanOutcome::Rejected(_) => panic!("expected a plan for a valid request"),
    }
}

#[test]
fn test_plan_substitutes_file_content() {
    let service = DefaultProjectService::new();
    let config = demo_config("api-express");
    match service.plan_project(&config) {
        PlanOutcome::Ready(plan) => match &plan.steps[5] {
            PlanStep::File { path, content } => {
                assert_eq!(path, "package.json");
                assert!(content.contains("\"name\": \"demo\""));
                assert!(content.contains("\"version\": \"1.0.0\""));
                assert!(!content.contains("{{PROJECT_NAME}}"));
            }
            _ => panic!("step after the directories must be the first file"),
        },
        PlanOutcome::Rejected(_) => panic!("expected a plan for a valid request"),
    }
}

#[test]
fn test_unknown_template_rejected() {
    let service = DefaultProjectService::new();
    let config = ProjectConfig::new("demo", "does-not-exist");
    match service.plan_project(&config) {
        PlanOutcome::Rejected(result) => {
            assert!(!result.success);
            assert!(result.project_path.is_none());
            assert!(result.files_created.is_empty());
            assert_eq!(result.errors, vec!["Template 'does-not-exist' not found"]);
        }
        PlanOutcome::Ready(_) => panic!("an unknown template must be rejected"),
    }
}

#[test]
fn test_invalid_name_rejected_before_planning() {
    let service = DefaultProjectService::new();
    let config = ProjectConfig::new("bad name", "fullstack-nextjs");
    match service.plan_project(&config) {
        PlanOutcome::Rejected(result) => {
            assert!(!result.success);
            assert!(result.files_created.is_empty());
            assert_eq!(result.errors, vec!["Project name cannot contain spaces"]);
        }
        PlanOutcome::Ready(_) => panic!("an invalid name must be rejected"),
    }
}

#[test]
fn test_directory_exists_failure() {
    let service = DefaultProjectService::new();
    let result = service.directory_exists_failure("demo");
    assert!(!result.success);
    assert!(result.project_path.is_none());
    assert!(result.files_created.is_empty());
    assert_eq!(result.errors, vec!["Directory 'demo' already exists"]);
}

#[test]
fn test_root_create_failure() {
    let service = DefaultProjectService::new();
    let result = service.root_create_failure("permission denied");
    assert_eq!(
        result.errors,
        vec!["Failed to create project directory: permission denied"]
    );
    assert!(!result.success);
}

#[test]
fn test_partial_failure_keeps_other_markers() {
    let service = DefaultProjectService::new();
    let config = ProjectConfig::new("demo", "fullstack-nextjs");
    match service.plan_project(&config) {
        PlanOutcome::Ready(plan) => {
            let mut outcomes: Vec<StepOutcome> =
                plan.steps.iter().map(|_| StepOutcome::Created).collect();
            outcomes[7] = StepOutcome::Failed {
                message: String::from("permission denied"),
            };
            let result = service.finish_project("demo", &plan.steps, &outcomes);
            assert!(!result.success);
            assert!(result.project_path.is_none());
            assert_eq!(
                result.errors,
                vec!["Failed to create file 'package.json': permission denied"]
            );
            assert_eq!(result.files_created.len(), 11);
            assert!(result.files_created.contains(&String::from("📁 src")));
            assert!(result.files_created.contains(&String::from("📄 README.md")));
            assert!(!result.files_created.contains(&String::from("📄 package.json")));
        }
        PlanOutcome::Rejected(_) => panic!("expected a plan for a valid request"),
    }
}

#[test]
fn test_step_failure_messages() {
    let service = DefaultProjectService::new();
    let steps = vec![
        PlanStep::Dir { path: String::from("src") },
        PlanStep::File {
            path: String::from("src/index.ts"),
            content: String::from(""),
        },
        PlanStep::ConfigEntry {
            name: String::from(".env"),
            content: String::from(""),
        },
    ];
    let outcomes = vec![
        StepOutcome::Failed { message: String::from("e1") },
        StepOutcome::ParentFailed { message: String::from("e2") },
        StepOutcome::Failed { message: String::from("e3") },
    ];
    let result = service.finish_project("demo", &steps, &outcomes);
    assert_eq!(
        result.errors,
        vec![
            "Failed to create directory 'src': e1",
            "Failed to create parent directory for 'src/index.ts': e2",
            "Failed to create config file '.env': e3",
        ]
    );
    assert!(result.files_created.is_empty());
    assert!(!result.success);
}

#[test]
fn test_config_entry_marker() {
    let service = DefaultProjectService::new();
    let steps = vec![PlanStep::ConfigEntry {
        name: String::from(".env"),
        content: String::from("X=1"),
    }];
    let outcomes = vec![StepOutcome::Created];
    let result = service.finish_project("demo", &steps, &outcomes);
    assert!(result.success);
    assert_eq!(result.files_created, vec!["⚙️ .env"]);
}

#[test]
fn test_generation_result_accumulator() {
    let mut result = ProjectGenerationResult::failure(vec![String::from("boom")]);
    assert!(!result.success);
    assert!(result.project_path.is_none());
    result.add_error(String::from("second"));
    result.add_warning(String::from("careful"));
    assert_eq!(result.errors, vec!["boom", "second"]);
    assert_eq!(result.warnings, vec!["careful"]);

    let ok = ProjectGenerationResult::success(
        String::from("demo"),
        vec![String::from("📁 src")],
    );
    assert!(ok.success);
    assert_eq!(ok.project_path.as_deref(), Some("demo"));
    assert_eq!(ok.files_created, vec!["📁 src"]);
    assert!(ok.errors.is_empty());
}

#[test]
fn test_project_config_defaults() {
    let config = ProjectConfig::new("demo", "api-express");
    assert_eq!(config.name, "demo");
    assert_eq!(config.description, "A new project");
    assert_eq!(config.author, "Developer");
    assert_eq!(config.version, "0.1.0");
    assert_eq!(config.license, "MIT");
    assert_eq!(config.template, "api-express");
    assert!(config.customizations.is_empty());
}
