//! The configuration service up to the filesystem boundary: where the
//! configuration file lives and what a fresh initialization writes; reading
//! and writing the file itself is the caller's side of the boundary.

use vstd::prelude::*;
use vstd::string::StringExecFns;

use crate::config::{assoc_get, assoc_has, assoc_set, assoc_views, AppConfig};

verus! {

/// The owner of configuration loading and saving.
#[derive(Clone)]
pub struct DefaultConfigService;

impl DefaultConfigService {
    pub fn new() -> (r: Self) {
        Self
    }

    /// Where the configuration is persisted, relative to the working
    /// directory.
    pub fn get_config_path(&self) -> (r: String)
        ensures
            r@ == ".fazrepo"@,
    {
        String::from_str(".fazrepo")
    }

    /// The configuration an initialization run persists: initialized, at
    /// the crate's version, with the two built-in templates registered in
    /// registry order.
    pub fn initialized_config(&self) -> (r: AppConfig)
        ensures
            r.initialized == true,
            r.version@ == crate::VERSION@,
            r.wf(),
            assoc_has(assoc_views(r.templates@), "fullstack-nextjs"@),
            assoc_get(assoc_views(r.templates@), "fullstack-nextjs"@)
                == "Full-stack Next.js application"@,
            assoc_has(assoc_views(r.templates@), "api-express"@),
            assoc_get(assoc_views(r.templates@), "api-express"@)
                == "Express.js API with TypeScript"@,
            r.settings.output_format is Text,
            r.settings.color_output == true,
            r.settings.detailed_output == false,
            r.settings.default_template@ == "fullstack-nextjs"@,
            r.settings.project_directory is None,
    {
        let mut config = AppConfig::new();
        config.initialized = true;
        let ghost empty_views = assoc_views(config.templates@);
        let first = config.with_template("fullstack-nextjs", "Full-stack Next.js application");
        let second = first.with_template("api-express", "Express.js API with TypeScript");
        proof {
            reveal_strlit("fullstack-nextjs");
            reveal_strlit("api-express");
            assert("fullstack-nextjs"@.len() == 16);
            assert("api-express"@.len() == 11);
            assert("fullstack-nextjs"@ != "api-express"@);
            let fn_entry = ("fullstack-nextjs"@, "Full-stack Next.js application"@);
            let ae_entry = ("api-express"@, "Express.js API with TypeScript"@);
            assert(empty_views =~= Seq::<(Seq<char>, Seq<char>)>::empty());
            let m1 = assoc_views(first.templates@);
            assert(m1 =~= seq![fn_entry]);
            let m2 = assoc_views(second.templates@);
            assert(m1.drop_first() =~= Seq::<(Seq<char>, Seq<char>)>::empty());
            assert(m1[0].0 != "api-express"@);
            assert(assoc_set(m1.drop_first(), "api-express"@, ae_entry.1) =~= seq![ae_entry]);
            assert(assoc_set(m1, "api-express"@, ae_entry.1) == seq![m1[0]] + assoc_set(
                m1.drop_first(),
                "api-express"@,
                ae_entry.1,
            ));
            assert(assoc_set(m1, "api-express"@, ae_entry.1) =~= seq![fn_entry, ae_entry]);
            assert(m2 =~= seq![fn_entry, ae_entry]);
            assert(assoc_has(m2, "fullstack-nextjs"@)) by {
                assert(m2[0].0 == "fullstack-nextjs"@);
            }
            assert(assoc_has(m2, "api-express"@)) by {
                assert(m2[1].0 == "api-express"@);
            }
            assert(m2.drop_first()[0] == ae_entry);
            assert(m2[0].0 != "api-express"@);
            assert(assoc_get(m2, "api-express"@) == assoc_get(m2.drop_first(), "api-express"@));
            assert(assoc_get(m2.drop_first(), "api-express"@) == ae_entry.1);
        }
        second
    }
}

} // verus!
