pub mod config;
pub mod config_service;
pub mod helpers;
pub mod package_manager;
pub mod package_manager_service;
pub mod project;
pub mod project_service;
pub mod text;

use vstd::prelude::*;

verus! {

pub const VERSION: &'static str = "0.1.0";

pub const APP_NAME: &'static str = "fazrepo";

pub const APP_DESCRIPTION: &'static str =
    "A CLI tool for full-stack project generation and package manager checking";

pub const DEFAULT_TEMPLATE: &'static str = "fullstack-nextjs";

pub const CONFIG_FILE: &'static str = ".fazrepo";

} // verus!
