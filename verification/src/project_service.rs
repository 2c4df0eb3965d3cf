//! The scaffolding engine: the built-in template registry, placeholder
//! substitution, project-name validation, and the materialization planner
//! together with the accounting that folds per-step outcomes into one
//! generation result.

use vstd::prelude::*;
use vstd::string::StringExecFns;

use crate::helpers::{name_error, valid_name};
use crate::project::{
    ConfigFile, ProjectCategory, ProjectConfig, ProjectFile, ProjectGenerationResult,
    ProjectStructure, ProjectTemplate,
};
use crate::text::{replace_chars, replace_spec, chars_to_string, seq_views, str_to_chars};

verus! {

/// One placeholder substitution pass over `content`: every occurrence of
/// `{{PROJECT_NAME}}`, `{{PROJECT_DESCRIPTION}}`, `{{AUTHOR}}`, `{{VERSION}}`
/// and `{{LICENSE}}` is replaced by the corresponding field, in that fixed
/// order; unknown tokens are left verbatim.
pub open spec fn render_spec(
    content: Seq<char>,
    name: Seq<char>,
    description: Seq<char>,
    author: Seq<char>,
    version: Seq<char>,
    license: Seq<char>,
) -> Seq<char> {
    let s1 = replace_spec(content, "{{PROJECT_NAME}}"@, name);
    let s2 = replace_spec(s1, "{{PROJECT_DESCRIPTION}}"@, description);
    let s3 = replace_spec(s2, "{{AUTHOR}}"@, author);
    let s4 = replace_spec(s3, "{{VERSION}}"@, version);
    replace_spec(s4, "{{LICENSE}}"@, license)
}

/// `content` rendered against the fields of `config`.
pub open spec fn rendered(content: Seq<char>, config: ProjectConfig) -> Seq<char> {
    render_spec(
        content,
        config.name@,
        config.description@,
        config.author@,
        config.version@,
        config.license@,
    )
}

/// True for the names the built-in registry resolves.
pub open spec fn known_template_name(n: Seq<char>) -> bool {
    n == "fullstack-nextjs"@ || n == "api-express"@
}

/// One declared file, pinned field by field.
pub open spec fn file_data(
    f: ProjectFile,
    path: Seq<char>,
    content: Seq<char>,
    templated: bool,
) -> bool {
    f.path@ == path && f.content@ == content && f.is_template == templated
}

/// The full-stack Next.js blueprint, every field pinned to the built-in
/// data.
pub open spec fn is_fullstack_nextjs_template(t: ProjectTemplate) -> bool {
    &&& t.name@ == "fullstack-nextjs"@
    &&& t.description@
        == "Full-stack Next.js application with TypeScript, Tailwind CSS, and Prisma"@
    &&& t.category is FullStack
    &&& seq_views(t.technologies@) == seq![
        "Next.js"@,
        "TypeScript"@,
        "Tailwind CSS"@,
        "Prisma"@,
        "PostgreSQL"@,
    ]
    &&& seq_views(t.features@) == seq![
        "Authentication"@,
        "Database integration"@,
        "API routes"@,
        "Responsive design"@,
    ]
    &&& t.dependencies@.len() == 0
    &&& seq_views(t.structure.directories@) == seq![
        "src"@,
        "src/app"@,
        "src/components"@,
        "src/lib"@,
        "src/types"@,
        "prisma"@,
        "public"@,
    ]
    &&& t.structure.files@.len() == 5
    &&& file_data(
        t.structure.files@[0],
        "package.json"@,
        "{\n  \"name\": \"{{PROJECT_NAME}}\",\n  \"version\": \"{{VERSION}}\",\n  \"description\": \"{{PROJECT_DESCRIPTION}}\",\n  \"author\": \"{{AUTHOR}}\",\n  \"license\": \"{{LICENSE}}\",\n  \"scripts\": {\n    \"dev\": \"next dev\",\n    \"build\": \"next build\",\n    \"start\": \"next start\"\n  }\n}\n"@,
        true,
    )
    &&& file_data(
        t.structure.files@[1],
        "next.config.js"@,
        "/** {{PROJECT_NAME}} Next.js configuration */\nconst nextConfig = {\n  reactStrictMode: true,\n};\n\nmodule.exports = nextConfig;\n"@,
        true,
    )
    &&& file_data(
        t.structure.files@[2],
        "tailwind.config.js"@,
        "/** {{PROJECT_NAME}} Tailwind configuration */\nmodule.exports = {\n  content: [\"./src/**/*.{js,ts,jsx,tsx}\"],\n  theme: {\n    extend: {},\n  },\n  plugins: [],\n};\n"@,
        true,
    )
    &&& file_data(
        t.structure.files@[3],
        "tsconfig.json"@,
        "{\n  \"compilerOptions\": {\n    \"target\": \"es5\",\n    \"module\": \"esnext\",\n    \"strict\": true,\n    \"jsx\": \"preserve\"\n  },\n  \"include\": [\"src\"]\n}\n"@,
        true,
    )
    &&& file_data(
        t.structure.files@[4],
        "README.md"@,
        "# {{PROJECT_NAME}}\n\n{{PROJECT_DESCRIPTION}}\n\nCreated by {{AUTHOR}}. Version {{VERSION}}. License: {{LICENSE}}.\n"@,
        true,
    )
    &&& t.config_files@.len() == 0
}

/// The Express API blueprint, every field pinned to the built-in data.
pub open spec fn is_api_express_template(t: ProjectTemplate) -> bool {
    &&& t.name@ == "api-express"@
    &&& t.description@ == "Express.js API with TypeScript, validation, and testing setup"@
    &&& t.category is Backend
    &&& seq_views(t.technologies@) == seq![
        "Express.js"@,
        "TypeScript"@,
        "Jest"@,
        "Zod"@,
    ]
    &&& seq_views(t.features@) == seq![
        "REST API"@,
        "Input validation"@,
        "Error handling"@,
        "Testing setup"@,
    ]
    &&& t.dependencies@.len() == 0
    &&& seq_views(t.structure.directories@) == seq![
        "src"@,
        "src/routes"@,
        "src/middleware"@,
        "src/types"@,
        "tests"@,
    ]
    &&& t.structure.files@.len() == 3
    &&& file_data(
        t.structure.files@[0],
        "package.json"@,
        "{\n  \"name\": \"{{PROJECT_NAME}}\",\n  \"version\": \"{{VERSION}}\",\n  \"description\": \"{{PROJECT_DESCRIPTION}}\",\n  \"author\": \"{{AUTHOR}}\",\n  \"license\": \"{{LICENSE}}\",\n  \"scripts\": {\n    \"dev\": \"ts-node src/index.ts\",\n    \"test\": \"jest\"\n  }\n}\n"@,
        true,
    )
    &&& file_data(
        t.structure.files@[1],
        "tsconfig.json"@,
        "{\n  \"compilerOptions\": {\n    \"target\": \"es2020\",\n    \"module\": \"commonjs\",\n    \"strict\": true,\n    \"outDir\": \"dist\"\n  },\n  \"include\": [\"src\"]\n}\n"@,
        true,
    )
    &&& file_data(
        t.structure.files@[2],
        "README.md"@,
        "# {{PROJECT_NAME}}\n\n{{PROJECT_DESCRIPTION}}\n\nCreated by {{AUTHOR}}. Version {{VERSION}}. License: {{LICENSE}}.\n"@,
        true,
    )
    &&& t.config_files@.len() == 0
}

/// The owner of the built-in template set and of project generation.
#[derive(Clone)]
pub struct DefaultProjectService;

impl DefaultProjectService {
    pub fn new() -> (r: Self) {
        Self
    }

    /// Substitutes the five placeholder tokens of `config` into `content`.
    pub fn process_template_content(&self, content: &str, config: &ProjectConfig) -> (r: String)
        ensures
            r@ == rendered(content@, *config),
    {
        let cs = str_to_chars(content);
        let s1 = replace_chars(
            &cs,
            &str_to_chars("{{PROJECT_NAME}}"),
            &str_to_chars(config.name.as_str()),
        );
        let s2 = replace_chars(
            &s1,
            &str_to_chars("{{PROJECT_DESCRIPTION}}"),
            &str_to_chars(config.description.as_str()),
        );
        let s3 = replace_chars(
            &s2,
            &str_to_chars("{{AUTHOR}}"),
            &str_to_chars(config.author.as_str()),
        );
        let s4 = replace_chars(
            &s3,
            &str_to_chars("{{VERSION}}"),
            &str_to_chars(config.version.as_str()),
        );
        let s5 = replace_chars(
            &s4,
            &str_to_chars("{{LICENSE}}"),
            &str_to_chars(config.license.as_str()),
        );
        chars_to_string(&s5)
    }

    /// Rejects a project name that is empty, holds whitespace, or holds a
    /// character outside alphanumerics, hyphens and underscores, reporting
    /// the first violated rule; no filesystem step is taken for a rejected
    /// name.
    pub fn validate_project_name(&self, name: &str) -> (r: Result<(), String>)
        ensures
            (r is Ok) == valid_name(name@),
            r matches Err(m) ==> name_error(name@) == Some(m@),
    {
        let cs = str_to_chars(name);
        if cs.len() == 0 {
            return Err(String::from_str("Project name cannot be empty"));
        }
        let mut i: usize = 0;
        while i < cs.len()
            invariant
                i <= cs@.len(),
                cs@ == name@,
                forall|k: int| 0 <= k < i ==> !crate::text::whitespace_of(cs@[k]),
            decreases cs@.len() - i,
        {
            if crate::text::char_is_whitespace(cs[i]) {
                return Err(String::from_str("Project name cannot contain spaces"));
            }
            i = i + 1;
        }
        let mut j: usize = 0;
        while j < cs.len()
            invariant
                j <= cs@.len(),
                cs@ == name@,
                forall|k: int| 0 <= k < cs@.len() ==> !crate::text::whitespace_of(cs@[k]),
                forall|k: int| 0 <= k < j ==> crate::helpers::allowed_name_char(cs@[k]),
            decreases cs@.len() - j,
        {
            let c = cs[j];
            if !crate::text::char_is_alphanumeric(c) && c != '-' && c != '_' {
                proof {
                    assert(!crate::helpers::allowed_name_char(name@[j as int]));
                    assert(!crate::helpers::all_chars_allowed(name@));
                    assert(!crate::helpers::has_whitespace(name@));
                }
                return Err(
                    String::from_str(
                        "Project name can only contain alphanumeric characters, hyphens, and underscores",
                    ),
                );
            }
            j = j + 1;
        }
        Ok(())
    }

    /// The built-in templates, synthesized afresh on every call so that no
    /// caller can mutate the canonical set.
    fn get_default_templates(&self) -> (ts: Vec<ProjectTemplate>)
        ensures
            ts@.len() == 2,
            is_fullstack_nextjs_template(ts@[0]),
            is_api_express_template(ts@[1]),
            ts@[0].structure.directories@.len() == 7,
            ts@[0].structure.files@.len() == 5,
            ts@[0].config_files@.len() == 0,
            ts@[1].structure.directories@.len() == 5,
            ts@[1].structure.files@.len() == 3,
            ts@[1].config_files@.len() == 0,
    {
        let mut ts: Vec<ProjectTemplate> = Vec::new();
        ts.push(build_fullstack_nextjs());
        ts.push(build_api_express());
        ts
    }

    /// The templates available for generation, in registry order.
    pub fn list_templates(&self) -> (ts: Vec<ProjectTemplate>)
        ensures
            ts@.len() == 2,
            is_fullstack_nextjs_template(ts@[0]),
            is_api_express_template(ts@[1]),
            ts@[0].structure.directories@.len() == 7,
            ts@[0].structure.files@.len() == 5,
            ts@[0].config_files@.len() == 0,
            ts@[1].structure.directories@.len() == 5,
            ts@[1].structure.files@.len() == 3,
            ts@[1].config_files@.len() == 0,
    {
        self.get_default_templates()
    }

    /// Resolves a template by exact, case-sensitive name.
    pub fn get_template(&self, name: &str) -> (r: Option<ProjectTemplate>)
        ensures
            (r is Some) == known_template_name(name@),
            r matches Some(t) ==> t.name@ == name@,
            r matches Some(t) ==> (name@ == "fullstack-nextjs"@ ==> is_fullstack_nextjs_template(
                t,
            ) && t.structure.directories@.len() == 7 && t.structure.files@.len() == 5
                && t.config_files@.len() == 0),
            r matches Some(t) ==> (name@ == "api-express"@ ==> is_api_express_template(t)
                && t.structure.directories@.len() == 5 && t.structure.files@.len() == 3
                && t.config_files@.len() == 0),
    {
        proof {
            reveal_strlit("fullstack-nextjs");
            reveal_strlit("api-express");
            assert("fullstack-nextjs"@.len() == 16);
            assert("api-express"@.len() == 11);
            assert("fullstack-nextjs"@ != "api-express"@);
        }
        let key = String::from_str(name);
        let mut ts = self.get_default_templates();
        if key == ts[0].name {
            Some(ts.remove(0))
        } else if key == ts[1].name {
            Some(ts.remove(1))
        } else {
            None
        }
    }

    /// Decides one generation request up to the filesystem boundary: a name
    /// or template the request must be rejected for yields a completed
    /// single-error failure and no plan; otherwise the full ordered list of
    /// filesystem steps is produced, with all substitution already applied.
    pub fn plan_project(&self, config: &ProjectConfig) -> (r: PlanOutcome)
        ensures
            name_error(config.name@) matches Some(m) ==> (r matches PlanOutcome::Rejected(g)
                && single_error_result(g, m)),
            name_error(config.name@) is None && !known_template_name(config.template@)
                ==> (r matches PlanOutcome::Rejected(g) && single_error_result(
                g,
                "Template '"@ + config.template@ + "' not found"@,
            )),
            name_error(config.name@) is None && known_template_name(config.template@)
                ==> (r matches PlanOutcome::Ready(p) && p.root@ == config.name@
                && p.template.name@ == config.template@ && steps_match(
                p.steps@,
                p.template,
                *config,
            )),
            r matches PlanOutcome::Ready(p) ==> (config.template@ == "fullstack-nextjs"@
                ==> p.steps@.len() == 12) && (config.template@ == "api-express"@
                ==> p.steps@.len() == 8),
    {
        if let Err(e) = self.validate_project_name(config.name.as_str()) {
            let mut errors: Vec<String> = Vec::new();
            errors.push(e);
            return PlanOutcome::Rejected(ProjectGenerationResult::failure(errors));
        }
        let template = match self.get_template(config.template.as_str()) {
            Some(t) => t,
            None => {
                let msg = String::from_str("Template '").concat(config.template.as_str()).concat(
                    "' not found",
                );
                let mut errors: Vec<String> = Vec::new();
                errors.push(msg);
                return PlanOutcome::Rejected(ProjectGenerationResult::failure(errors));
            },
        };
        let steps = self.plan_steps(&template, config);
        PlanOutcome::Ready(MaterializePlan { root: config.name.clone(), template, steps })
    }

    /// The ordered filesystem steps for `template` under `config`.
    fn plan_steps(&self, template: &ProjectTemplate, config: &ProjectConfig) -> (steps: Vec<
        PlanStep,
    >)
        ensures
            steps_match(steps@, *template, *config),
    {
        let ghost d = template.structure.directories@.len() as int;
        let ghost f = template.structure.files@.len() as int;
        let mut steps: Vec<PlanStep> = Vec::new();
        let mut i: usize = 0;
        while i < template.structure.directories.len()
            invariant
                i <= template.structure.directories@.len(),
                steps@.len() == i,
                forall|j: int|
                    0 <= j < i ==> ((#[trigger] steps@[j]) matches PlanStep::Dir { path }
                        && path@ == template.structure.directories@[j]@),
            decreases template.structure.directories@.len() - i,
        {
            steps.push(PlanStep::Dir { path: template.structure.directories[i].clone() });
            i = i + 1;
        }
        let mut k: usize = 0;
        while k < template.structure.files.len()
            invariant
                k <= template.structure.files@.len(),
                d == template.structure.directories@.len() as int,
                steps@.len() == d + k,
                forall|j: int|
                    0 <= j < d ==> ((#[trigger] steps@[j]) matches PlanStep::Dir { path }
                        && path@ == template.structure.directories@[j]@),
                forall|j: int|
                    d <= j < d + k ==> ((#[trigger] steps@[j]) matches PlanStep::File {
                        path,
                        content,
                    } && path@ == template.structure.files@[j - d].path@ && content@ == (
                    if template.structure.files@[j - d].is_template {
                        rendered(template.structure.files@[j - d].content@, *config)
                    } else {
                        template.structure.files@[j - d].content@
                    })),
            decreases template.structure.files@.len() - k,
        {
            let content = if template.structure.files[k].is_template {
                self.process_template_content(template.structure.files[k].content.as_str(), config)
            } else {
                template.structure.files[k].content.clone()
            };
            steps.push(
                PlanStep::File { path: template.structure.files[k].path.clone(), content },
            );
            k = k + 1;
        }
        let mut c: usize = 0;
        while c < template.config_files.len()
            invariant
                c <= template.config_files@.len(),
                d == template.structure.directories@.len() as int,
                f == template.structure.files@.len() as int,
                steps@.len() == d + f + c,
                forall|j: int|
                    0 <= j < d ==> ((#[trigger] steps@[j]) matches PlanStep::Dir { path }
                        && path@ == template.structure.directories@[j]@),
                forall|j: int|
                    d <= j < d + f ==> ((#[trigger] steps@[j]) matches PlanStep::File {
                        path,
                        content,
                    } && path@ == template.structure.files@[j - d].path@ && content@ == (
                    if template.structure.files@[j - d].is_template {
                        rendered(template.structure.files@[j - d].content@, *config)
                    } else {
                        template.structure.files@[j - d].content@
                    })),
                forall|j: int|
                    d + f <= j < d + f + c ==> ((#[trigger] steps@[j])
                        matches PlanStep::ConfigEntry { name, content } && name@
                        == template.config_files@[j - d - f].name@ && content@ == rendered(
                        template.config_files@[j - d - f].content@,
                        *config,
                    )),
            decreases template.config_files@.len() - c,
        {
            let content = self.process_template_content(
                template.config_files[c].content.as_str(),
                config,
            );
            steps.push(
                PlanStep::ConfigEntry { name: template.config_files[c].name.clone(), content },
            );
            c = c + 1;
        }
        steps
    }

    /// The completed failure returned when the target directory already
    /// exists: one error naming the directory, nothing created.
    pub fn directory_exists_failure(&self, name: &str) -> (r: ProjectGenerationResult)
        ensures
            single_error_result(r, "Directory '"@ + name@ + "' already exists"@),
    {
        let msg = String::from_str("Directory '").concat(name).concat("' already exists");
        let mut errors: Vec<String> = Vec::new();
        errors.push(msg);
        ProjectGenerationResult::failure(errors)
    }

    /// The completed failure returned when the project root itself could
    /// not be created.
    pub fn root_create_failure(&self, message: &str) -> (r: ProjectGenerationResult)
        ensures
            single_error_result(r, "Failed to create project directory: "@ + message@),
    {
        let msg = String::from_str("Failed to create project directory: ").concat(message);
        let mut errors: Vec<String> = Vec::new();
        errors.push(msg);
        ProjectGenerationResult::failure(errors)
    }

    /// Folds the per-step outcomes of a run into one result: every
    /// succeeded step contributes its marker and every failed step its
    /// error, both in step order; one recorded error demotes the whole run
    /// to failure, and only a fully clean run carries the project path.
    pub fn finish_project(
        &self,
        project_name: &str,
        steps: &Vec<PlanStep>,
        outcomes: &Vec<StepOutcome>,
    ) -> (r: ProjectGenerationResult)
        requires
            outcomes@.len() == steps@.len(),
        ensures
            seq_views(r.files_created@) == created_markers(steps@, outcomes@),
            seq_views(r.errors@) == step_errors(steps@, outcomes@),
            r.success == (step_errors(steps@, outcomes@).len() == 0),
            r.success ==> (r.project_path matches Some(p) && p@ == project_name@),
            !r.success ==> r.project_path is None,
            r.warnings@.len() == 0,
    {
        let mut files_created: Vec<String> = Vec::new();
        let mut errors: Vec<String> = Vec::new();
        let mut i: usize = 0;
        proof {
            assert(steps@.skip(0) =~= steps@);
            assert(outcomes@.skip(0) =~= outcomes@);
            assert(seq_views(files_created@) =~= Seq::<Seq<char>>::empty());
            assert(seq_views(errors@) =~= Seq::<Seq<char>>::empty());
        }
        while i < steps.len()
            invariant
                i <= steps@.len(),
                outcomes@.len() == steps@.len(),
                seq_views(files_created@) + created_markers(
                    steps@.skip(i as int),
                    outcomes@.skip(i as int),
                ) == created_markers(steps@, outcomes@),
                seq_views(errors@) + step_errors(steps@.skip(i as int), outcomes@.skip(i as int))
                    == step_errors(steps@, outcomes@),
            decreases steps@.len() - i,
        {
            let ghost st = steps@.skip(i as int);
            let ghost ot = outcomes@.skip(i as int);
            proof {
                assert(st[0] == steps@[i as int]);
                assert(ot[0] == outcomes@[i as int]);
                assert(st.drop_first() =~= steps@.skip(i + 1));
                assert(ot.drop_first() =~= outcomes@.skip(i + 1));
            }
            let created = match &outcomes[i] {
                StepOutcome::Created => true,
                _ => false,
            };
            if created {
                let m = marker_string(&steps[i]);
                let ghost before = files_created@;
                files_created.push(m);
                proof {
                    assert(seq_views(files_created@) =~= seq_views(before).push(m@));
                    assert(seq_views(files_created@) + created_markers(
                        steps@.skip(i + 1),
                        outcomes@.skip(i + 1),
                    ) =~= seq_views(before) + created_markers(st, ot));
                }
            } else {
                let e = error_string(&steps[i], &outcomes[i]);
                let ghost before = errors@;
                errors.push(e);
                proof {
                    assert(seq_views(errors@) =~= seq_views(before).push(e@));
                    assert(seq_views(errors@) + step_errors(
                        steps@.skip(i + 1),
                        outcomes@.skip(i + 1),
                    ) =~= seq_views(before) + step_errors(st, ot));
                }
            }
            i = i + 1;
        }
        proof {
            assert(steps@.skip(steps@.len() as int) =~= Seq::<PlanStep>::empty());
            assert(outcomes@.skip(steps@.len() as int) =~= Seq::<StepOutcome>::empty());
            assert(seq_views(files_created@) =~= seq_views(files_created@) + Seq::<
                Seq<char>,
            >::empty());
            assert(seq_views(errors@) =~= seq_views(errors@) + Seq::<Seq<char>>::empty());
        }
        if errors.len() == 0 {
            ProjectGenerationResult::success(String::from_str(project_name), files_created)
        } else {
            ProjectGenerationResult {
                success: false,
                project_path: None,
                files_created,
                errors,
                warnings: Vec::new(),
            }
        }
    }
}

/// The creation marker of one step.
fn marker_string(step: &PlanStep) -> (m: String)
    ensures
        m@ == step_marker(*step),
{
    match step {
        PlanStep::Dir { path } => String::from_str("📁 ").concat(path.as_str()),
        PlanStep::File { path, .. } => String::from_str("📄 ").concat(path.as_str()),
        PlanStep::ConfigEntry { name, .. } => String::from_str("⚙️ ").concat(name.as_str()),
    }
}

/// The error message of one failed step.
fn error_string(step: &PlanStep, out: &StepOutcome) -> (e: String)
    requires
        !is_created(*out),
    ensures
        e@ == step_error(*step, *out),
{
    let message: &String = match out {
        StepOutcome::ParentFailed { message } => message,
        StepOutcome::Failed { message } => message,
        StepOutcome::Created => unreached(),
    };
    let parent_failed = match out {
        StepOutcome::ParentFailed { .. } => true,
        _ => false,
    };
    match step {
        PlanStep::Dir { path } => String::from_str("Failed to create directory '").concat(
            path.as_str(),
        ).concat("': ").concat(message.as_str()),
        PlanStep::File { path, .. } => {
            if parent_failed {
                String::from_str("Failed to create parent directory for '").concat(
                    path.as_str(),
                ).concat("': ").concat(message.as_str())
            } else {
                String::from_str("Failed to create file '").concat(path.as_str()).concat(
                    "': ",
                ).concat(message.as_str())
            }
        },
        PlanStep::ConfigEntry { name, .. } => String::from_str(
            "Failed to create config file '",
        ).concat(name.as_str()).concat("': ").concat(message.as_str()),
    }
}

/// In a run where every step succeeded, no error is recorded and every
/// step's marker appears, in declaration order.
pub proof fn lemma_all_steps_created(steps: Seq<PlanStep>, outs: Seq<StepOutcome>)
    requires
        outs.len() == steps.len(),
        forall|i: int| 0 <= i < outs.len() ==> is_created(outs[i]),
    ensures
        step_errors(steps, outs) == Seq::<Seq<char>>::empty(),
        created_markers(steps, outs) == steps.map_values(|s: PlanStep| step_marker(s)),
    decreases steps.len(),
{
    if steps.len() == 0 {
        assert(created_markers(steps, outs) =~= steps.map_values(|s: PlanStep| step_marker(s)));
    } else {
        lemma_all_steps_created(steps.drop_first(), outs.drop_first());
        assert(step_errors(steps, outs) =~= Seq::<Seq<char>>::empty());
        assert(created_markers(steps, outs) =~= steps.map_values(
            |s: PlanStep| step_marker(s),
        ));
    }
}

/// A clean run over a matching plan records no error and exactly one
/// marker per declared directory, file and config file of the template.
pub proof fn lemma_clean_run_counts(
    t: ProjectTemplate,
    c: ProjectConfig,
    steps: Seq<PlanStep>,
    outs: Seq<StepOutcome>,
)
    requires
        steps_match(steps, t, c),
        outs.len() == steps.len(),
        forall|i: int| 0 <= i < outs.len() ==> is_created(outs[i]),
    ensures
        step_errors(steps, outs).len() == 0,
        created_markers(steps, outs).len() == t.structure.directories@.len()
            + t.structure.files@.len() + t.config_files@.len(),
{
    lemma_all_steps_created(steps, outs);
}

/// In a run where exactly one step failed, the error list is exactly that
/// step's error, and the markers are those of every other step, in order.
pub proof fn lemma_single_failure(steps: Seq<PlanStep>, outs: Seq<StepOutcome>, k: int)
    requires
        outs.len() == steps.len(),
        0 <= k < steps.len(),
        !is_created(outs[k]),
        forall|i: int| 0 <= i < outs.len() && i != k ==> is_created(outs[i]),
    ensures
        step_errors(steps, outs) == seq![step_error(steps[k], outs[k])],
        created_markers(steps, outs) == steps.remove(k).map_values(|s: PlanStep| step_marker(s)),
    decreases steps.len(),
{
    if k == 0 {
        lemma_all_steps_created(steps.drop_first(), outs.drop_first());
        assert(step_errors(steps, outs) =~= seq![step_error(steps[0], outs[0])]);
        assert(steps.remove(0) =~= steps.drop_first());
        assert(created_markers(steps, outs) =~= steps.remove(0).map_values(
            |s: PlanStep| step_marker(s),
        ));
    } else {
        lemma_single_failure(steps.drop_first(), outs.drop_first(), k - 1);
        assert(steps.drop_first()[k - 1] == steps[k]);
        assert(outs.drop_first()[k - 1] == outs[k]);
        assert(step_errors(steps, outs) =~= seq![step_error(steps[k], outs[k])]);
        assert(steps.remove(k).drop_first() =~= steps.drop_first().remove(k - 1));
        assert(created_markers(steps, outs) =~= steps.remove(k).map_values(
            |s: PlanStep| step_marker(s),
        ));
    }
}

/// One filesystem action of a materialization run, in execution order:
/// create a declared directory, write a declared file with its final
/// content, or write an auxiliary config file under the project root.
#[derive(Debug, Clone)]
pub enum PlanStep {
    Dir { path: String },
    File { path: String, content: String },
    ConfigEntry { name: String, content: String },
}

/// What became of one plan step: the entry was created, the parent
/// directory of a file could not be created, or the write itself failed.
#[derive(Debug, Clone)]
pub enum StepOutcome {
    Created,
    ParentFailed { message: String },
    Failed { message: String },
}

/// The actions of one generation run: the root directory to create and the
/// steps to run under it, with the resolved template they came from.
#[derive(Debug, Clone)]
pub struct MaterializePlan {
    pub root: String,
    pub template: ProjectTemplate,
    pub steps: Vec<PlanStep>,
}

/// Either a completed failure result (nothing may touch the filesystem) or
/// a plan ready to run.
#[derive(Debug, Clone)]
pub enum PlanOutcome {
    Rejected(ProjectGenerationResult),
    Ready(MaterializePlan),
}

pub open spec fn is_created(o: StepOutcome) -> bool {
    o is Created
}

pub open spec fn failure_message(o: StepOutcome) -> Seq<char> {
    match o {
        StepOutcome::Created => Seq::empty(),
        StepOutcome::ParentFailed { message } => message@,
        StepOutcome::Failed { message } => message@,
    }
}

/// The creation marker recorded for a step that succeeded.
pub open spec fn step_marker(s: PlanStep) -> Seq<char> {
    match s {
        PlanStep::Dir { path } => "📁 "@ + path@,
        PlanStep::File { path, .. } => "📄 "@ + path@,
        PlanStep::ConfigEntry { name, .. } => "⚙️ "@ + name@,
    }
}

/// The error recorded for a step that failed.
pub open spec fn step_error(s: PlanStep, o: StepOutcome) -> Seq<char> {
    match s {
        PlanStep::Dir { path } => "Failed to create directory '"@ + path@ + "': "@
            + failure_message(o),
        PlanStep::File { path, .. } => if o is ParentFailed {
            "Failed to create parent directory for '"@ + path@ + "': "@ + failure_message(o)
        } else {
            "Failed to create file '"@ + path@ + "': "@ + failure_message(o)
        },
        PlanStep::ConfigEntry { name, .. } => "Failed to create config file '"@ + name@ + "': "@
            + failure_message(o),
    }
}

/// The markers of the steps that succeeded, in step order.
pub open spec fn created_markers(steps: Seq<PlanStep>, outs: Seq<StepOutcome>) -> Seq<Seq<char>>
    decreases steps.len(),
{
    if steps.len() == 0 {
        Seq::empty()
    } else {
        let rest = created_markers(steps.drop_first(), outs.drop_first());
        if is_created(outs[0]) {
            seq![step_marker(steps[0])] + rest
        } else {
            rest
        }
    }
}

/// The errors of the steps that failed, in step order.
pub open spec fn step_errors(steps: Seq<PlanStep>, outs: Seq<StepOutcome>) -> Seq<Seq<char>>
    decreases steps.len(),
{
    if steps.len() == 0 {
        Seq::empty()
    } else {
        let rest = step_errors(steps.drop_first(), outs.drop_first());
        if is_created(outs[0]) {
            rest
        } else {
            seq![step_error(steps[0], outs[0])] + rest
        }
    }
}

/// A failed result whose whole content is the single error `m`.
pub open spec fn single_error_result(g: ProjectGenerationResult, m: Seq<char>) -> bool {
    &&& g.success == false
    &&& g.project_path is None
    &&& g.files_created@.len() == 0
    &&& g.warnings@.len() == 0
    &&& g.errors@.len() == 1
    &&& g.errors@[0]@ == m
}

/// The steps of a plan are exactly the template's declared directories,
/// then its declared files with substitution applied to templated content,
/// then its config files, always substituted — in declaration order.
pub open spec fn steps_match(steps: Seq<PlanStep>, t: ProjectTemplate, c: ProjectConfig) -> bool {
    let d = t.structure.directories@.len() as int;
    let f = t.structure.files@.len() as int;
    let g = t.config_files@.len() as int;
    &&& steps.len() == d + f + g
    &&& forall|j: int|
        0 <= j < d ==> ((#[trigger] steps[j]) matches PlanStep::Dir { path }
            && path@ == t.structure.directories@[j]@)
    &&& forall|j: int|
        d <= j < d + f ==> ((#[trigger] steps[j]) matches PlanStep::File { path, content }
            && path@ == t.structure.files@[j - d].path@ && content@ == (
        if t.structure.files@[j - d].is_template {
            rendered(t.structure.files@[j - d].content@, c)
        } else {
            t.structure.files@[j - d].content@
        }))
    &&& forall|j: int|
        d + f <= j < d + f + g ==> ((#[trigger] steps[j]) matches PlanStep::ConfigEntry {
            name,
            content,
        } && name@ == t.config_files@[j - d - f].name@ && content@ == rendered(
            t.config_files@[j - d - f].content@,
            c,
        ))
}

fn project_file(path: &str, content: &str, is_template: bool) -> (r: ProjectFile)
    ensures
        r.path@ == path@,
        r.content@ == content@,
        r.is_template == is_template,
{
    ProjectFile { path: String::from_str(path), content: String::from_str(content), is_template }
}

fn build_fullstack_nextjs() -> (t: ProjectTemplate)
    ensures
        is_fullstack_nextjs_template(t),
        t.structure.directories@.len() == 7,
        t.structure.files@.len() == 5,
        t.config_files@.len() == 0,
{
    let mut technologies: Vec<String> = Vec::new();
    technologies.push(String::from_str("Next.js"));
    technologies.push(String::from_str("TypeScript"));
    technologies.push(String::from_str("Tailwind CSS"));
    technologies.push(String::from_str("Prisma"));
    technologies.push(String::from_str("PostgreSQL"));
    let mut features: Vec<String> = Vec::new();
    features.push(String::from_str("Authentication"));
    features.push(String::from_str("Database integration"));
    features.push(String::from_str("API routes"));
    features.push(String::from_str("Responsive design"));
    let mut directories: Vec<String> = Vec::new();
    directories.push(String::from_str("src"));
    directories.push(String::from_str("src/app"));
    directories.push(String::from_str("src/components"));
    directories.push(String::from_str("src/lib"));
    directories.push(String::from_str("src/types"));
    directories.push(String::from_str("prisma"));
    directories.push(String::from_str("public"));
    let mut files: Vec<ProjectFile> = Vec::new();
    files.push(
        project_file(
            "package.json",
            "{\n  \"name\": \"{{PROJECT_NAME}}\",\n  \"version\": \"{{VERSION}}\",\n  \"description\": \"{{PROJECT_DESCRIPTION}}\",\n  \"author\": \"{{AUTHOR}}\",\n  \"license\": \"{{LICENSE}}\",\n  \"scripts\": {\n    \"dev\": \"next dev\",\n    \"build\": \"next build\",\n    \"start\": \"next start\"\n  }\n}\n",
            true,
        ),
    );
    files.push(
        project_file(
            "next.config.js",
            "/** {{PROJECT_NAME}} Next.js configuration */\nconst nextConfig = {\n  reactStrictMode: true,\n};\n\nmodule.exports = nextConfig;\n",
            true,
        ),
    );
    files.push(
        project_file(
            "tailwind.config.js",
            "/** {{PROJECT_NAME}} Tailwind configuration */\nmodule.exports = {\n  content: [\"./src/**/*.{js,ts,jsx,tsx}\"],\n  theme: {\n    extend: {},\n  },\n  plugins: [],\n};\n",
            true,
        ),
    );
    files.push(
        project_file(
            "tsconfig.json",
            "{\n  \"compilerOptions\": {\n    \"target\": \"es5\",\n    \"module\": \"esnext\",\n    \"strict\": true,\n    \"jsx\": \"preserve\"\n  },\n  \"include\": [\"src\"]\n}\n",
            true,
        ),
    );
    files.push(
        project_file(
            "README.md",
            "# {{PROJECT_NAME}}\n\n{{PROJECT_DESCRIPTION}}\n\nCreated by {{AUTHOR}}. Version {{VERSION}}. License: {{LICENSE}}.\n",
            true,
        ),
    );
    let t = ProjectTemplate {
        name: String::from_str("fullstack-nextjs"),
        description: String::from_str(
            "Full-stack Next.js application with TypeScript, Tailwind CSS, and Prisma",
        ),
        category: ProjectCategory::FullStack,
        technologies,
        features,
        dependencies: Vec::new(),
        structure: ProjectStructure { directories, files },
        config_files: Vec::new(),
    };
    proof {
        assert(seq_views(t.technologies@) =~= seq![
            "Next.js"@,
            "TypeScript"@,
            "Tailwind CSS"@,
            "Prisma"@,
            "PostgreSQL"@,
        ]);
        assert(seq_views(t.features@) =~= seq![
            "Authentication"@,
            "Database integration"@,
            "API routes"@,
            "Responsive design"@,
        ]);
        assert(seq_views(t.structure.directories@) =~= seq![
            "src"@,
            "src/app"@,
            "src/components"@,
            "src/lib"@,
            "src/types"@,
            "prisma"@,
            "public"@,
        ]);
    }
    t
}

fn build_api_express() -> (t: ProjectTemplate)
    ensures
        is_api_express_template(t),
        t.structure.directories@.len() == 5,
        t.structure.files@.len() == 3,
        t.config_files@.len() == 0,
{
    let mut technologies: Vec<String> = Vec::new();
    technologies.push(String::from_str("Express.js"));
    technologies.push(String::from_str("TypeScript"));
    technologies.push(String::from_str("Jest"));
    technologies.push(String::from_str("Zod"));
    let mut features: Vec<String> = Vec::new();
    features.push(String::from_str("REST API"));
    features.push(String::from_str("Input validation"));
    features.push(String::from_str("Error handling"));
    features.push(String::from_str("Testing setup"));
    let mut directories: Vec<String> = Vec::new();
    directories.push(String::from_str("src"));
    directories.push(String::from_str("src/routes"));
    directories.push(String::from_str("src/middleware"));
    directories.push(String::from_str("src/types"));
    directories.push(String::from_str("tests"));
    let mut files: Vec<ProjectFile> = Vec::new();
    files.push(
        project_file(
            "package.json",
            "{\n  \"name\": \"{{PROJECT_NAME}}\",\n  \"version\": \"{{VERSION}}\",\n  \"description\": \"{{PROJECT_DESCRIPTION}}\",\n  \"author\": \"{{AUTHOR}}\",\n  \"license\": \"{{LICENSE}}\",\n  \"scripts\": {\n    \"dev\": \"ts-node src/index.ts\",\n    \"test\": \"jest\"\n  }\n}\n",
            true,
        ),
    );
    files.push(
        project_file(
            "tsconfig.json",
            "{\n  \"compilerOptions\": {\n    \"target\": \"es2020\",\n    \"module\": \"commonjs\",\n    \"strict\": true,\n    \"outDir\": \"dist\"\n  },\n  \"include\": [\"src\"]\n}\n",
            true,
        ),
    );
    files.push(
        project_file(
            "README.md",
            "# {{PROJECT_NAME}}\n\n{{PROJECT_DESCRIPTION}}\n\nCreated by {{AUTHOR}}. Version {{VERSION}}. License: {{LICENSE}}.\n",
            true,
        ),
    );
    let t = ProjectTemplate {
        name: String::from_str("api-express"),
        description: String::from_str(
            "Express.js API with TypeScript, validation, and testing setup",
        ),
        category: ProjectCategory::Backend,
        technologies,
        features,
        dependencies: Vec::new(),
        structure: ProjectStructure { directories, files },
        config_files: Vec::new(),
    };
    proof {
        assert(seq_views(t.technologies@) =~= seq![
            "Express.js"@,
            "TypeScript"@,
            "Jest"@,
            "Zod"@,
        ]);
        assert(seq_views(t.features@) =~= seq![
            "REST API"@,
            "Input validation"@,
            "Error handling"@,
            "Testing setup"@,
        ]);
        assert(seq_views(t.structure.directories@) =~= seq![
            "src"@,
            "src/routes"@,
            "src/middleware"@,
            "src/types"@,
            "tests"@,
        ]);
    }
    t
}

} // verus!
