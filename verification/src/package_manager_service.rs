//! The package-manager probe up to the process boundary: which command
//! spellings to try, resolution on the search path, and the reading of a
//! `--version` invocation's output into a check result.

use vstd::prelude::*;
use vstd::string::StringExecFns;

use crate::helpers::{get_platform_command, platform_command_spec};
use crate::package_manager::{PackageManager, PackageManagerCheckResult};
use crate::text::{
    chars_to_string, first_line_chars, first_line_spec, lemma_split_at_comma, seq_views,
    split_commas, str_to_chars, strip_suffix_chars, strip_suffix_spec, trim_chars, trim_spec,
};

verus! {

/// The command spellings tried when resolving a manager, in order: on
/// Windows the `.cmd` shim, the `.exe`, then the bare name (each from the
/// command with any `.cmd` suffix stripped); elsewhere the command as-is.
pub open spec fn candidates_spec(cmd: Seq<char>, windows: bool) -> Seq<Seq<char>> {
    if windows {
        let base = strip_suffix_spec(cmd, ".cmd"@);
        seq![base + ".cmd"@, base + ".exe"@, base]
    } else {
        seq![cmd]
    }
}

/// The version string a successful `--version` run yields: the first line
/// of trimmed standard output, or `unknown` when the output is blank.
pub open spec fn probe_version(out: Seq<char>) -> Seq<char> {
    let so = trim_spec(out);
    if so.len() == 0 {
        "unknown"@
    } else {
        first_line_spec(so)
    }
}

/// The error a failed `--version` run reports: the first line of trimmed
/// standard error when there is one, else a generic message. Standard
/// output plays no part in a failed run.
pub open spec fn probe_error(err: Seq<char>) -> Seq<char> {
    let se = trim_spec(err);
    if se.len() == 0 {
        "Failed to get version"@
    } else {
        first_line_spec(se)
    }
}

/// Relies on which::which: resolves a command name to an executable on the
/// search path. The result depends on the machine's filesystem and
/// environment, so nothing is assumed of it.
#[verifier::external_body]
fn resolve_command(cmd: &str) -> (r: Option<String>) {
    match which::which(cmd) {
        Ok(p) => Some(p.display().to_string()),
        Err(_) => None,
    }
}

/// The comma-separated manager selection of a check request: each segment
/// between commas, trimmed of surrounding whitespace.
pub open spec fn selection_spec(s: Seq<char>) -> Seq<Seq<char>> {
    split_commas(s).map_values(|seg: Seq<char>| trim_spec(seg))
}

/// True when `n` is one of the selected names.
pub open spec fn contains_seq(sel: Seq<Seq<char>>, n: Seq<char>) -> bool {
    exists|i: int| 0 <= i < sel.len() && sel[i] == n
}

/// The managers whose name stands in the selection, in their given order.
pub open spec fn selected_managers(
    ms: Seq<PackageManager>,
    sel: Seq<Seq<char>>,
) -> Seq<PackageManager>
    decreases ms.len(),
{
    if ms.len() == 0 {
        Seq::empty()
    } else {
        let rest = selected_managers(ms.drop_first(), sel);
        if contains_seq(sel, ms[0].name@) {
            seq![ms[0]] + rest
        } else {
            rest
        }
    }
}

/// The segments of `v` from `start` on, split at commas and trimmed.
fn split_segments(v: &Vec<char>, start: usize) -> (r: Vec<String>)
    requires
        start <= v@.len(),
    ensures
        seq_views(r@) == split_commas(v@.skip(start as int)).map_values(
            |seg: Seq<char>| trim_spec(seg),
        ),
    decreases v@.len() - start,
{
    let mut m: usize = start;
    while m < v.len() && v[m] != ','
        invariant
            start <= m <= v@.len(),
            forall|k: int| start <= k < m ==> v@[k] != ',',
        decreases v@.len() - m,
    {
        m = m + 1;
    }
    let mut seg: Vec<char> = Vec::new();
    let mut i: usize = start;
    while i < m
        invariant
            start <= i <= m <= v@.len(),
            seg@ == v@.subrange(start as int, i as int),
        decreases m - i,
    {
        seg.push(v[i]);
        proof {
            assert(v@.subrange(start as int, i + 1) =~= v@.subrange(
                start as int,
                i as int,
            ).push(v@[i as int]));
        }
        i = i + 1;
    }
    let trimmed = chars_to_string(&trim_chars(&seg));
    let ghost suf = v@.skip(start as int);
    proof {
        assert(forall|k: int| 0 <= k < m - start ==> suf[k] != ',');
        lemma_split_at_comma(suf, m - start);
        assert(suf.take(m - start) =~= v@.subrange(start as int, m as int));
    }
    let ghost head = trim_spec(v@.subrange(start as int, m as int));
    let mut r: Vec<String> = Vec::new();
    r.push(trimmed);
    proof {
        assert(seq_views(r@) =~= seq![head] + seq_views(Seq::<String>::empty()));
        assert(seq_views(r@) =~= seq![head]);
    }
    if m < v.len() {
        let rest = split_segments(v, m + 1);
        let mut j: usize = 0;
        proof {
            assert(seq_views(rest@).take(0) =~= Seq::<Seq<char>>::empty());
            assert(seq_views(r@) =~= seq![head] + seq_views(rest@).take(0));
        }
        while j < rest.len()
            invariant
                j <= rest@.len(),
                r@.len() == 1 + j,
                seq_views(r@) == seq![head] + seq_views(rest@).take(j as int),
            decreases rest@.len() - j,
        {
            r.push(rest[j].clone());
            proof {
                assert(seq_views(r@) =~= (seq![head] + seq_views(rest@).take(j as int)).push(
                    seq_views(rest@)[j as int],
                ));
                assert(seq![head] + seq_views(rest@).take(j + 1) =~= (seq![head] + seq_views(
                    rest@,
                ).take(j as int)).push(seq_views(rest@)[j as int]));
            }
            j = j + 1;
        }
        proof {
            assert(suf.skip(m - start + 1) =~= v@.skip(m + 1));
            assert(seq_views(rest@).take(rest@.len() as int) =~= seq_views(rest@));
            assert(seq_views(r@) =~= split_commas(suf).map_values(
                |seg2: Seq<char>| trim_spec(seg2),
            ));
        }
    } else {
        proof {
            assert(suf =~= v@.subrange(start as int, m as int));
            assert(seq_views(r@) =~= split_commas(suf).map_values(
                |seg2: Seq<char>| trim_spec(seg2),
            ));
        }
    }
    r
}

/// The owner of the supported-manager set and of manager checking.
#[derive(Clone)]
pub struct DefaultPackageManagerService;

impl DefaultPackageManagerService {
    pub fn new() -> (r: Self) {
        Self
    }

    /// The four supported package managers, with the command spelled for
    /// the given platform and nothing resolved yet.
    pub fn get_supported_managers(&self, windows: bool) -> (r: Vec<PackageManager>)
        ensures
            r@.len() == 4,
            r@[0].name@ == "npm"@ && r@[0].full_name@ == "Node Package Manager"@
                && r@[0].description@ == "Node.js package manager"@ && r@[0].command@
                == platform_command_spec("npm"@, windows),
            r@[1].name@ == "yarn"@ && r@[1].full_name@ == "Yarn Package Manager"@
                && r@[1].description@ == "Fast, reliable, and secure dependency management"@
                && r@[1].command@ == platform_command_spec("yarn"@, windows),
            r@[2].name@ == "pnpm"@ && r@[2].full_name@ == "Performant npm"@
                && r@[2].description@ == "Fast, disk space efficient package manager"@
                && r@[2].command@ == platform_command_spec("pnpm"@, windows),
            r@[3].name@ == "bun"@ && r@[3].full_name@ == "Bun Runtime & Package Manager"@
                && r@[3].description@
                == "Incredibly fast JavaScript runtime and package manager"@ && r@[3].command@
                == platform_command_spec("bun"@, windows),
            forall|i: int|
                0 <= i < 4 ==> (#[trigger] r@[i]).version is None && r@[i].path is None
                    && r@[i].is_installed == false && r@[i].is_working == false,
    {
        let mut r: Vec<PackageManager> = Vec::new();
        let npm_cmd = get_platform_command("npm", windows);
        r.push(
            PackageManager::new(
                "npm",
                "Node Package Manager",
                "Node.js package manager",
                npm_cmd.as_str(),
            ),
        );
        let yarn_cmd = get_platform_command("yarn", windows);
        r.push(
            PackageManager::new(
                "yarn",
                "Yarn Package Manager",
                "Fast, reliable, and secure dependency management",
                yarn_cmd.as_str(),
            ),
        );
        let pnpm_cmd = get_platform_command("pnpm", windows);
        r.push(
            PackageManager::new(
                "pnpm",
                "Performant npm",
                "Fast, disk space efficient package manager",
                pnpm_cmd.as_str(),
            ),
        );
        let bun_cmd = get_platform_command("bun", windows);
        r.push(
            PackageManager::new(
                "bun",
                "Bun Runtime & Package Manager",
                "Incredibly fast JavaScript runtime and package manager",
                bun_cmd.as_str(),
            ),
        );
        r
    }

    /// The command spellings to try for `command` on the given platform.
    pub fn get_commands_to_try(&self, command: &str, windows: bool) -> (r: Vec<String>)
        ensures
            seq_views(r@) == candidates_spec(command@, windows),
    {
        let mut r: Vec<String> = Vec::new();
        if windows {
            let stripped = strip_suffix_chars(&str_to_chars(command), &str_to_chars(".cmd"));
            let base = chars_to_string(&stripped);
            r.push(base.clone().concat(".cmd"));
            r.push(base.clone().concat(".exe"));
            r.push(base);
        } else {
            r.push(String::from_str(command));
        }
        proof {
            assert(seq_views(r@) =~= candidates_spec(command@, windows));
        }
        r
    }

    /// Tries each candidate spelling of the manager's command on the search
    /// path, stopping at the first that resolves; what resolves depends on
    /// the machine, but any hit is one of the candidate spellings together
    /// with the path it resolved to.
    pub fn locate_manager(&self, manager: &PackageManager, windows: bool) -> (r: Option<
        (String, String),
    >)
        ensures
            r matches Some(cp) ==> exists|i: int|
                0 <= i < candidates_spec(manager.command@, windows).len() && cp.0@
                    == candidates_spec(manager.command@, windows)[i],
    {
        let candidates = self.get_commands_to_try(manager.command.as_str(), windows);
        let mut i: usize = 0;
        while i < candidates.len()
            invariant
                i <= candidates@.len(),
                seq_views(candidates@) == candidates_spec(manager.command@, windows),
            decreases candidates@.len() - i,
        {
            if let Some(path) = resolve_command(candidates[i].as_str()) {
                proof {
                    assert(candidates@[i as int]@ == seq_views(candidates@)[i as int]);
                }
                return Some((candidates[i].clone(), path));
            }
            i = i + 1;
        }
        None
    }

    /// Reads a finished `--version` invocation: a successful exit yields
    /// the version from standard output, a failed exit is a failure whose
    /// message comes from standard error.
    pub fn version_from_output(&self, status_success: bool, stdout: &str, stderr: &str) -> (r:
        Result<String, String>)
        ensures
            status_success ==> (r matches Ok(s) && s@ == probe_version(stdout@)),
            !status_success ==> (r matches Err(m) && m@ == probe_error(stderr@)),
    {
        if status_success {
            let so = trim_chars(&str_to_chars(stdout));
            if so.len() == 0 {
                Ok(String::from_str("unknown"))
            } else {
                Ok(chars_to_string(&first_line_chars(&so)))
            }
        } else {
            let se = trim_chars(&str_to_chars(stderr));
            if se.len() == 0 {
                Err(String::from_str("Failed to get version"))
            } else {
                Err(chars_to_string(&first_line_chars(&se)))
            }
        }
    }

    /// Splits a `--only` request into the selected names: comma-separated
    /// segments, each trimmed of surrounding whitespace.
    pub fn parse_selection(&self, only: &str) -> (r: Vec<String>)
        ensures
            seq_views(r@) == selection_spec(only@),
    {
        let cs = str_to_chars(only);
        let r = split_segments(&cs, 0);
        proof {
            assert(cs@.skip(0) =~= only@);
        }
        r
    }

    /// Keeps exactly the managers whose name stands in the selection, in
    /// their given order.
    pub fn filter_managers(&self, managers: Vec<PackageManager>, selection: &Vec<String>) -> (r:
        Vec<PackageManager>)
        ensures
            r@ == selected_managers(managers@, seq_views(selection@)),
    {
        let ghost sel = seq_views(selection@);
        let mut r: Vec<PackageManager> = Vec::new();
        let mut i: usize = 0;
        proof {
            assert(managers@.skip(0) =~= managers@);
        }
        while i < managers.len()
            invariant
                i <= managers@.len(),
                sel == seq_views(selection@),
                r@ + selected_managers(managers@.skip(i as int), sel) == selected_managers(
                    managers@,
                    sel,
                ),
            decreases managers@.len() - i,
        {
            let ghost ms = managers@.skip(i as int);
            proof {
                assert(ms[0] == managers@[i as int]);
                assert(ms.drop_first() =~= managers@.skip(i + 1));
            }
            if name_selected(selection, &managers[i].name) {
                r.push(managers[i].clone());
            }
            i = i + 1;
        }
        proof {
            assert(managers@.skip(managers@.len() as int) =~= Seq::<PackageManager>::empty());
            assert(r@ =~= r@ + Seq::<PackageManager>::empty());
        }
        r
    }

    /// The check result for a manager none of whose spellings resolved.
    pub fn check_result_not_found(&self, manager: &PackageManager) -> (r:
        PackageManagerCheckResult)
        ensures
            r.success == false,
            r.error_message matches Some(m) && m@ == "Command not found"@,
            r.package_manager == *manager,
    {
        PackageManagerCheckResult::failure(manager.clone(), String::from_str("Command not found"))
    }

    /// The check result for a resolved manager whose `--version` run came
    /// back: a successful exit makes the manager installed and working with
    /// path and version recorded; a failed exit is a failed check that
    /// leaves the manager installed at its path but not working, with the
    /// first line of standard error (or a generic message when it is blank)
    /// as the error.
    pub fn check_result_from_invocation(
        &self,
        manager: &PackageManager,
        command_path: &str,
        status_success: bool,
        stdout: &str,
        stderr: &str,
    ) -> (r: PackageManagerCheckResult)
        ensures
            status_success ==> ({
                &&& r.success == true
                &&& r.error_message is None
                &&& r.package_manager.version matches Some(s) && s@ == probe_version(stdout@)
                &&& r.package_manager.path matches Some(p) && p@ == command_path@
                &&& r.package_manager.is_installed == true
                &&& r.package_manager.is_working == true
            }),
            !status_success ==> ({
                &&& r.success == false
                &&& r.error_message matches Some(m) && m@ == probe_error(stderr@)
                &&& r.package_manager.version == manager.version
                &&& r.package_manager.path matches Some(p) && p@ == command_path@
                &&& r.package_manager.is_installed == true
                &&& r.package_manager.is_working == manager.is_working
            }),
            r.package_manager.name == manager.name,
            r.package_manager.full_name == manager.full_name,
            r.package_manager.description == manager.description,
            r.package_manager.command == manager.command,
    {
        match self.version_from_output(status_success, stdout, stderr) {
            Ok(version) => {
                let updated = manager.clone().with_version(version).with_path(
                    String::from_str(command_path),
                ).mark_installed().mark_working();
                PackageManagerCheckResult::success(updated)
            },
            Err(e) => {
                let updated = manager.clone().with_path(
                    String::from_str(command_path),
                ).mark_installed();
                PackageManagerCheckResult::failure(updated, e)
            },
        }
    }
}

/// Decides whether `name` is one of the selected names.
fn name_selected(selection: &Vec<String>, name: &String) -> (b: bool)
    ensures
        b == contains_seq(seq_views(selection@), name@),
{
    let mut i: usize = 0;
    while i < selection.len()
        invariant
            i <= selection@.len(),
            forall|k: int| 0 <= k < i ==> seq_views(selection@)[k] != name@,
        decreases selection@.len() - i,
    {
        if selection[i] == *name {
            proof {
                assert(seq_views(selection@)[i as int] == name@);
            }
            return true;
        }
        i = i + 1;
    }
    false
}

} // verus!
