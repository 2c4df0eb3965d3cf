//! The tool's persisted configuration: global settings and the record of
//! registered template descriptions, an insertion-ordered association list
//! with unique keys.

use vstd::prelude::*;
use vstd::string::StringExecFns;

verus! {

/// The key/value views of an association list of strings.
pub open spec fn assoc_views(m: Seq<(String, String)>) -> Seq<(Seq<char>, Seq<char>)> {
    m.map_values(|p: (String, String)| (p.0@, p.1@))
}

/// True when no key occurs twice.
pub open spec fn keys_unique(m: Seq<(Seq<char>, Seq<char>)>) -> bool {
    forall|i: int, j: int| 0 <= i < j < m.len() ==> m[i].0 != m[j].0
}

/// True when `k` is a key of `m`.
pub open spec fn assoc_has(m: Seq<(Seq<char>, Seq<char>)>, k: Seq<char>) -> bool {
    exists|i: int| 0 <= i < m.len() && m[i].0 == k
}

/// The value of the first entry of `m` keyed `k`.
pub open spec fn assoc_get(m: Seq<(Seq<char>, Seq<char>)>, k: Seq<char>) -> Seq<char>
    decreases m.len(),
{
    if m.len() == 0 {
        Seq::empty()
    } else if m[0].0 == k {
        m[0].1
    } else {
        assoc_get(m.drop_first(), k)
    }
}

/// `m` with the entry for `k` set to `v`: replaced in place when `k` is
/// already a key, appended at the end otherwise.
pub open spec fn assoc_set(
    m: Seq<(Seq<char>, Seq<char>)>,
    k: Seq<char>,
    v: Seq<char>,
) -> Seq<(Seq<char>, Seq<char>)>
    decreases m.len(),
{
    if m.len() == 0 {
        seq![(k, v)]
    } else if m[0].0 == k {
        seq![(k, v)] + m.drop_first()
    } else {
        seq![m[0]] + assoc_set(m.drop_first(), k, v)
    }
}

/// Setting a key keeps the keys unique.
pub proof fn lemma_assoc_set_unique(m: Seq<(Seq<char>, Seq<char>)>, k: Seq<char>, v: Seq<char>)
    requires
        keys_unique(m),
    ensures
        keys_unique(assoc_set(m, k, v)),
        assoc_has(assoc_set(m, k, v), k),
        forall|k2: Seq<char>| assoc_has(m, k2) ==> assoc_has(assoc_set(m, k, v), k2),
    decreases m.len(),
{
    if m.len() == 0 {
        assert(assoc_set(m, k, v)[0].0 == k);
    } else if m[0].0 == k {
        let r = assoc_set(m, k, v);
        assert(r[0].0 == k);
        assert(forall|j: int| 0 < j < r.len() ==> r[j] == m[j]);
        assert forall|k2: Seq<char>| assoc_has(m, k2) implies assoc_has(r, k2) by {
            let i = choose|i: int| 0 <= i < m.len() && m[i].0 == k2;
            if i == 0 {
                assert(r[0].0 == k2);
            } else {
                assert(r[i].0 == k2);
            }
        }
    } else {
        assert(keys_unique(m.drop_first()));
        lemma_assoc_set_unique(m.drop_first(), k, v);
        let r = assoc_set(m, k, v);
        let rt = assoc_set(m.drop_first(), k, v);
        assert(r[0] == m[0]);
        assert(forall|j: int| 0 < j < r.len() ==> r[j] == rt[j - 1]);
        // the head key differs from k and from every key of the tail, and
        // every key of rt is either k or a key of the tail
        assert forall|j: int| 0 < j < r.len() implies r[j].0 != m[0].0 by {
            if rt[j - 1].0 != k {
                lemma_assoc_set_keys(m.drop_first(), k, v, j - 1);
            }
        }
        assert forall|k2: Seq<char>| assoc_has(m, k2) implies assoc_has(r, k2) by {
            let i = choose|i: int| 0 <= i < m.len() && m[i].0 == k2;
            if i == 0 {
                assert(r[0].0 == k2);
            } else {
                assert(assoc_has(m.drop_first(), k2)) by {
                    assert(m.drop_first()[i - 1].0 == k2);
                }
                let i2 = choose|i2: int| 0 <= i2 < rt.len() && rt[i2].0 == k2;
                assert(r[i2 + 1].0 == k2);
            }
        }
        let i = choose|i: int| 0 <= i < rt.len() && rt[i].0 == k;
        assert(r[i + 1].0 == k);
    }
}

/// Every key of `assoc_set(m, k, v)` is `k` or a key of `m`.
proof fn lemma_assoc_set_keys(m: Seq<(Seq<char>, Seq<char>)>, k: Seq<char>, v: Seq<char>, j: int)
    requires
        0 <= j < assoc_set(m, k, v).len(),
        assoc_set(m, k, v)[j].0 != k,
    ensures
        assoc_has(m, assoc_set(m, k, v)[j].0),
    decreases m.len(),
{
    let r = assoc_set(m, k, v);
    if m.len() == 0 {
        assert(false);
    } else if m[0].0 == k {
        assert(r[j] == m.drop_first()[j - 1]);
        assert(m[j].0 == r[j].0);
    } else {
        if j == 0 {
            assert(m[0].0 == r[0].0);
        } else {
            lemma_assoc_set_keys(m.drop_first(), k, v, j - 1);
            let i = choose|i: int|
                0 <= i < m.drop_first().len() && m.drop_first()[i].0 == r[j].0;
            assert(m[i + 1].0 == r[j].0);
        }
    }
}

/// How output is rendered.
#[derive(Debug, Clone)]
pub enum OutputFormat {
    Text,
    Json,
    Yaml,
}

/// The tool's global settings.
#[derive(Debug, Clone)]
pub struct AppSettings {
    pub output_format: OutputFormat,
    pub color_output: bool,
    pub detailed_output: bool,
    pub default_template: String,
    pub project_directory: Option<String>,
}

impl Default for AppSettings {
    /// Text output with color, no detail, the default template selected,
    /// and no project directory set.
    fn default() -> (r: Self)
        ensures
            r.output_format is Text,
            r.color_output == true,
            r.detailed_output == false,
            r.default_template@ == "fullstack-nextjs"@,
            r.project_directory is None,
    {
        Self {
            output_format: OutputFormat::Text,
            color_output: true,
            detailed_output: false,
            default_template: String::from_str("fullstack-nextjs"),
            project_directory: None,
        }
    }
}

/// The persisted configuration record.
#[derive(Debug, Clone)]
pub struct AppConfig {
    pub version: String,
    pub initialized: bool,
    pub settings: AppSettings,
    pub templates: Vec<(String, String)>,
}

impl AppConfig {
    /// The registered template keys never repeat.
    pub open spec fn wf(self) -> bool {
        keys_unique(assoc_views(self.templates@))
    }
}

impl Default for AppConfig {
    /// A fresh, uninitialized configuration at the crate's version with no
    /// templates registered.
    fn default() -> (r: Self)
        ensures
            r.version@ == crate::VERSION@,
            r.initialized == false,
            r.settings.output_format is Text,
            r.settings.color_output == true,
            r.settings.detailed_output == false,
            r.settings.default_template@ == "fullstack-nextjs"@,
            r.settings.project_directory is None,
            r.templates@.len() == 0,
            r.wf(),
    {
        Self {
            version: String::from_str(crate::VERSION),
            initialized: false,
            settings: AppSettings::default(),
            templates: Vec::new(),
        }
    }
}

impl AppConfig {
    /// The same as the default configuration.
    pub fn new() -> (r: Self)
        ensures
            r.version@ == crate::VERSION@,
            r.initialized == false,
            r.settings.output_format is Text,
            r.settings.color_output == true,
            r.settings.detailed_output == false,
            r.settings.default_template@ == "fullstack-nextjs"@,
            r.settings.project_directory is None,
            r.templates@.len() == 0,
            r.wf(),
    {
        Self::default()
    }

    /// Registers `path` under `name`, replacing an earlier registration of
    /// the same name in place and appending a new name at the end.
    pub fn with_template(self, name: &str, path: &str) -> (r: Self)
        ensures
            assoc_views(r.templates@) == assoc_set(assoc_views(self.templates@), name@, path@),
            self.wf() ==> r.wf(),
            r.version == self.version,
            r.initialized == self.initialized,
            r.settings == self.settings,
    {
        let ghost m0 = assoc_views(self.templates@);
        let mut out: Vec<(String, String)> = Vec::new();
        let mut replaced = false;
        let mut i: usize = 0;
        while i < self.templates.len()
            invariant
                i <= self.templates@.len(),
                m0 == assoc_views(self.templates@),
                !replaced ==> {
                    &&& out@.len() == i
                    &&& assoc_views(out@) == m0.take(i as int)
                    &&& forall|j: int| 0 <= j < i ==> m0[j].0 != name@
                },
                replaced ==> assoc_views(out@) + m0.skip(i as int) == assoc_set(m0, name@, path@),
            decreases self.templates@.len() - i,
        {
            let key_matches = !replaced && self.templates[i].0 == String::from_str(name);
            if key_matches {
                proof {
                    lemma_assoc_set_prefix(m0, name@, path@, i as int);
                    assert(assoc_set(m0.skip(i as int), name@, path@) =~= seq![
                        (name@, path@),
                    ] + m0.skip(i + 1));
                }
                out.push((String::from_str(name), String::from_str(path)));
                replaced = true;
                proof {
                    assert(assoc_views(out@) =~= assoc_views(out@.drop_last()).push(
                        (name@, path@),
                    ));
                    assert(assoc_views(out@) + m0.skip(i + 1) =~= assoc_set(m0, name@, path@));
                }
            } else {
                let entry = (self.templates[i].0.clone(), self.templates[i].1.clone());
                out.push(entry);
                proof {
                    if replaced {
                        assert(assoc_views(out@) =~= assoc_views(out@.drop_last()).push(
                            m0[i as int],
                        ));
                        assert(m0.skip(i as int) =~= seq![m0[i as int]] + m0.skip(i + 1));
                        assert(assoc_views(out@) + m0.skip(i + 1) =~= assoc_set(
                            m0,
                            name@,
                            path@,
                        ));
                    } else {
                        assert(assoc_views(out@) =~= m0.take(i + 1));
                    }
                }
            }
            i = i + 1;
        }
        if !replaced {
            out.push((String::from_str(name), String::from_str(path)));
            proof {
                assert(m0.take(m0.len() as int) =~= m0);
                assert(assoc_views(out@) =~= assoc_views(out@.drop_last()).push((name@, path@)));
                lemma_assoc_set_append(m0, name@, path@);
            }
        } else {
            proof {
                assert(m0.skip(m0.len() as int) =~= Seq::<(Seq<char>, Seq<char>)>::empty());
                assert(assoc_views(out@) =~= assoc_views(out@) + Seq::<
                    (Seq<char>, Seq<char>),
                >::empty());
            }
        }
        proof {
            assert(assoc_views(out@) == assoc_set(m0, name@, path@));
            if self.wf() {
                lemma_assoc_set_unique(m0, name@, path@);
                assert(keys_unique(assoc_views(out@)));
            }
        }
        Self {
            version: self.version,
            initialized: self.initialized,
            settings: self.settings,
            templates: out,
        }
    }

    /// Selects the directory new projects are generated under.
    pub fn set_project_directory(self, path: String) -> (r: Self)
        ensures
            r.settings.project_directory == Some(path),
            r.settings.output_format == self.settings.output_format,
            r.settings.color_output == self.settings.color_output,
            r.settings.detailed_output == self.settings.detailed_output,
            r.settings.default_template == self.settings.default_template,
            r.version == self.version,
            r.initialized == self.initialized,
            r.templates == self.templates,
    {
        Self {
            settings: AppSettings { project_directory: Some(path), ..self.settings },
            ..self
        }
    }

    /// The registered path of `name`, if any.
    pub fn get_template_path(&self, name: &str) -> (r: Option<String>)
        ensures
            (r is Some) == assoc_has(assoc_views(self.templates@), name@),
            r matches Some(p) ==> p@ == assoc_get(assoc_views(self.templates@), name@),
    {
        let ghost m = assoc_views(self.templates@);
        let key = String::from_str(name);
        let mut i: usize = 0;
        while i < self.templates.len()
            invariant
                i <= self.templates@.len(),
                m == assoc_views(self.templates@),
                key@ == name@,
                forall|j: int| 0 <= j < i ==> m[j].0 != name@,
            decreases self.templates@.len() - i,
        {
            if self.templates[i].0 == key {
                proof {
                    lemma_assoc_get_skip(m, name@, i as int);
                }
                return Some(self.templates[i].1.clone());
            }
            i = i + 1;
        }
        None
    }
}

/// When no key of the first `i` entries is `k`, setting `k` rewrites only
/// the remainder.
proof fn lemma_assoc_set_prefix(m: Seq<(Seq<char>, Seq<char>)>, k: Seq<char>, v: Seq<char>, i: int)
    requires
        0 <= i <= m.len(),
        forall|j: int| 0 <= j < i ==> m[j].0 != k,
    ensures
        assoc_set(m, k, v) == m.take(i) + assoc_set(m.skip(i), k, v),
    decreases i,
{
    if i == 0 {
        assert(m.take(0) =~= Seq::<(Seq<char>, Seq<char>)>::empty());
        assert(m.skip(0) =~= m);
        assert(m.take(0) + assoc_set(m.skip(0), k, v) =~= assoc_set(m, k, v));
    } else {
        lemma_assoc_set_prefix(m.drop_first(), k, v, i - 1);
        assert(m.drop_first().take(i - 1) =~= m.take(i).drop_first());
        assert(m.drop_first().skip(i - 1) =~= m.skip(i));
        assert(assoc_set(m, k, v) =~= m.take(i) + assoc_set(m.skip(i), k, v));
    }
}

/// Setting a key absent from `m` appends the entry at the end.
proof fn lemma_assoc_set_append(m: Seq<(Seq<char>, Seq<char>)>, k: Seq<char>, v: Seq<char>)
    requires
        forall|j: int| 0 <= j < m.len() ==> m[j].0 != k,
    ensures
        assoc_set(m, k, v) == m.push((k, v)),
    decreases m.len(),
{
    if m.len() == 0 {
        assert(assoc_set(m, k, v) =~= m.push((k, v)));
    } else {
        lemma_assoc_set_append(m.drop_first(), k, v);
        assert(assoc_set(m, k, v) =~= m.push((k, v)));
    }
}

/// When no key of the first `i` entries is `k`, lookup continues in the
/// remainder.
proof fn lemma_assoc_get_skip(m: Seq<(Seq<char>, Seq<char>)>, k: Seq<char>, i: int)
    requires
        0 <= i <= m.len(),
        forall|j: int| 0 <= j < i ==> m[j].0 != k,
    ensures
        assoc_get(m, k) == assoc_get(m.skip(i), k),
    decreases i,
{
    if i == 0 {
        assert(m.skip(0) =~= m);
    } else {
        lemma_assoc_get_skip(m.drop_first(), k, i - 1);
        assert(m.drop_first().skip(i - 1) =~= m.skip(i));
    }
}

} // verus!
