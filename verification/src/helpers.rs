//! Project-name validation and sanitization, and the platform-dependent
//! spelling of a package-manager command.

use vstd::prelude::*;
use vstd::string::StringExecFns;

use crate::text::{
    alphanumeric_of, char_is_alphanumeric, char_is_whitespace, chars_to_string, lower_of,
    str_to_chars, to_lowercase, whitespace_of,
};

verus! {

/// True when some character of `s` is whitespace.
pub open spec fn has_whitespace(s: Seq<char>) -> bool {
    exists|i: int| 0 <= i < s.len() && whitespace_of(s[i])
}

/// True when a character may appear in a project name.
pub open spec fn allowed_name_char(c: char) -> bool {
    alphanumeric_of(c) || c == '-' || c == '_'
}

/// True when every character of `s` may appear in a project name.
pub open spec fn all_chars_allowed(s: Seq<char>) -> bool {
    forall|i: int| 0 <= i < s.len() ==> allowed_name_char(s[i])
}

/// A project name is accepted when it is non-empty, holds no whitespace,
/// and holds only alphanumeric characters, hyphens and underscores.
pub open spec fn valid_name(s: Seq<char>) -> bool {
    s.len() > 0 && !has_whitespace(s) && all_chars_allowed(s)
}

/// The reason a project name is rejected, checked in a fixed order:
/// emptiness first, then whitespace, then the character class.
pub open spec fn name_error(s: Seq<char>) -> Option<Seq<char>> {
    if s.len() == 0 {
        Some("Project name cannot be empty"@)
    } else if has_whitespace(s) {
        Some("Project name cannot contain spaces"@)
    } else if !all_chars_allowed(s) {
        Some(
            "Project name can only contain alphanumeric characters, hyphens, and underscores"@,
        )
    } else {
        None
    }
}

/// Decides whether `name` is acceptable as a project name.
pub fn is_valid_project_name(name: &str) -> (b: bool)
    ensures
        b == valid_name(name@),
{
    let cs = str_to_chars(name);
    if cs.len() == 0 {
        return false;
    }
    let mut i: usize = 0;
    while i < cs.len()
        invariant
            i <= cs@.len(),
            cs@ == name@,
            forall|k: int| 0 <= k < i ==> !whitespace_of(cs@[k]),
        decreases cs@.len() - i,
    {
        if char_is_whitespace(cs[i]) {
            return false;
        }
        i = i + 1;
    }
    let mut j: usize = 0;
    while j < cs.len()
        invariant
            j <= cs@.len(),
            cs@ == name@,
            forall|k: int| 0 <= k < j ==> allowed_name_char(cs@[k]),
        decreases cs@.len() - j,
    {
        let c = cs[j];
        if !char_is_alphanumeric(c) && c != '-' && c != '_' {
            return false;
        }
        j = j + 1;
    }
    true
}

/// A character as the sanitizer keeps it: allowed characters pass through,
/// everything else becomes a hyphen.
pub open spec fn sanitize_char(c: char) -> char {
    if allowed_name_char(c) {
        c
    } else {
        '-'
    }
}

/// Lowercases `name` and replaces every disallowed character by a hyphen;
/// the result of sanitizing a non-empty name is always a valid project
/// name.
pub fn sanitize_project_name(name: &str) -> (r: String)
    ensures
        r@ == lower_of(name@).map_values(|c: char| sanitize_char(c)),
        name@.len() > 0 ==> valid_name(r@),
{
    let lowered = to_lowercase(name);
    let cs = str_to_chars(lowered.as_str());
    let mut out: Vec<char> = Vec::new();
    let mut i: usize = 0;
    proof {
        assert(cs@.take(0).map_values(|c: char| sanitize_char(c)) =~= out@);
    }
    while i < cs.len()
        invariant
            i <= cs@.len(),
            cs@ == lower_of(name@),
            out@ == cs@.take(i as int).map_values(|c: char| sanitize_char(c)),
            out@.len() == i,
            forall|k: int|
                0 <= k < i ==> allowed_name_char(#[trigger] out@[k]) && !whitespace_of(out@[k]),
        decreases cs@.len() - i,
    {
        let c = cs[i];
        if char_is_alphanumeric(c) {
            out.push(c);
        } else if c == '-' || c == '_' {
            out.push(c);
            proof {
                assert(!whitespace_of(c));
            }
        } else {
            out.push('-');
            proof {
                assert(!whitespace_of('-'));
            }
        }
        proof {
            assert(cs@.take(i + 1).map_values(|c: char| sanitize_char(c)) =~= cs@.take(
                i as int,
            ).map_values(|c: char| sanitize_char(c)).push(sanitize_char(cs@[i as int])));
        }
        i = i + 1;
    }
    proof {
        assert(cs@.take(cs@.len() as int) =~= cs@);
        if name@.len() > 0 {
            assert(out@.len() > 0);
            assert(!has_whitespace(out@));
            assert(all_chars_allowed(out@));
        }
    }
    chars_to_string(&out)
}

/// The per-character sanitization map is idempotent: what it keeps it
/// keeps again, and the hyphen it substitutes is itself kept.
pub proof fn lemma_sanitize_char_idempotent(c: char)
    ensures
        sanitize_char(sanitize_char(c)) == sanitize_char(c),
{
}

/// A name that is empty, holds a whitespace character, or holds a character
/// outside alphanumerics, hyphens and underscores is never valid, so the
/// validator reports a reason and the materializer plans nothing for it.
pub proof fn lemma_invalid_name_rejected(name: Seq<char>)
    requires
        name.len() == 0 || has_whitespace(name) || !all_chars_allowed(name),
    ensures
        !valid_name(name),
        name_error(name) is Some,
{
}

/// The spelling of a base command on the given platform: Windows package
/// managers are invoked through their `.cmd` shims.
pub open spec fn platform_command_spec(base: Seq<char>, windows: bool) -> Seq<char> {
    if windows {
        base + ".cmd"@
    } else {
        base
    }
}

/// The spelling of `base_command` on the current platform.
pub fn get_platform_command(base_command: &str, windows: bool) -> (r: String)
    ensures
        r@ == platform_command_spec(base_command@, windows),
{
    if windows {
        String::from_str(base_command).concat(".cmd")
    } else {
        String::from_str(base_command)
    }
}

} // verus!
