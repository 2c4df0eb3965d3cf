//! Data model of the scaffolding engine: templates, the per-invocation
//! project configuration, and the outcome record of one generation run.

use vstd::prelude::*;
use vstd::string::StringExecFns;

verus! {

/// A named, built-in blueprint for a new project.
#[derive(Debug, Clone)]
pub struct ProjectTemplate {
    pub name: String,
    pub description: String,
    pub category: ProjectCategory,
    pub technologies: Vec<String>,
    pub features: Vec<String>,
    pub dependencies: Vec<(String, Vec<String>)>,
    pub structure: ProjectStructure,
    pub config_files: Vec<ConfigFile>,
}

/// The closed set of template categories.
#[derive(Debug, Clone)]
pub enum ProjectCategory {
    FullStack,
    Frontend,
    Backend,
    Mobile,
    Desktop,
    Library,
    Tool,
}

/// The directories and files a template declares.
#[derive(Debug, Clone)]
pub struct ProjectStructure {
    pub directories: Vec<String>,
    pub files: Vec<ProjectFile>,
}

/// One file of a template: a root-relative path, its content, and whether
/// placeholder substitution runs over the content before writing.
#[derive(Debug, Clone)]
pub struct ProjectFile {
    pub path: String,
    pub content: String,
    pub is_template: bool,
}

/// An auxiliary named content block of a template; always substituted.
#[derive(Debug, Clone)]
pub struct ConfigFile {
    pub name: String,
    pub content: String,
    pub description: String,
}

/// The caller-supplied generation request.
#[derive(Debug, Clone)]
pub struct ProjectConfig {
    pub name: String,
    pub description: String,
    pub author: String,
    pub version: String,
    pub license: String,
    pub template: String,
    pub customizations: Vec<(String, String)>,
}

impl ProjectConfig {
    /// A request for `name` from `template`, with every other field at its
    /// default.
    pub fn new(name: &str, template: &str) -> (r: Self)
        ensures
            r.name@ == name@,
            r.description@ == "A new project"@,
            r.author@ == "Developer"@,
            r.version@ == "0.1.0"@,
            r.license@ == "MIT"@,
            r.template@ == template@,
            r.customizations@.len() == 0,
    {
        Self {
            name: String::from_str(name),
            description: String::from_str("A new project"),
            author: String::from_str("Developer"),
            version: String::from_str("0.1.0"),
            license: String::from_str("MIT"),
            template: String::from_str(template),
            customizations: Vec::new(),
        }
    }
}

/// The outcome record of one materialization attempt. `success` implies an
/// empty error list and a set project path; failure leaves the path unset,
/// while `files_created` still lists whatever landed on disk.
#[derive(Debug, Clone)]
pub struct ProjectGenerationResult {
    pub success: bool,
    pub project_path: Option<String>,
    pub files_created: Vec<String>,
    pub errors: Vec<String>,
    pub warnings: Vec<String>,
}

impl ProjectGenerationResult {
    /// A successful outcome at `project_path` with the given creation
    /// markers.
    pub fn success(project_path: String, files_created: Vec<String>) -> (r: Self)
        ensures
            r.success == true,
            r.project_path == Some(project_path),
            r.files_created == files_created,
            r.errors@.len() == 0,
            r.warnings@.len() == 0,
    {
        Self {
            success: true,
            project_path: Some(project_path),
            files_created,
            errors: Vec::new(),
            warnings: Vec::new(),
        }
    }

    /// A failed outcome carrying the given errors and nothing created.
    pub fn failure(errors: Vec<String>) -> (r: Self)
        ensures
            r.success == false,
            r.project_path is None,
            r.files_created@.len() == 0,
            r.errors == errors,
            r.warnings@.len() == 0,
    {
        Self {
            success: false,
            project_path: None,
            files_created: Vec::new(),
            errors,
            warnings: Vec::new(),
        }
    }

    /// Appends a warning, keeping insertion order.
    pub fn add_warning(&mut self, warning: String)
        ensures
            final(self).warnings@ == old(self).warnings@.push(warning),
            final(self).success == old(self).success,
            final(self).project_path == old(self).project_path,
            final(self).files_created == old(self).files_created,
            final(self).errors == old(self).errors,
    {
        self.warnings.push(warning);
    }

    /// Appends an error, keeping insertion order.
    pub fn add_error(&mut self, error: String)
        ensures
            final(self).errors@ == old(self).errors@.push(error),
            final(self).success == old(self).success,
            final(self).project_path == old(self).project_path,
            final(self).files_created == old(self).files_created,
            final(self).warnings == old(self).warnings,
    {
        self.errors.push(error);
    }
}

} // verus!
