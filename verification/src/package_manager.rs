//! Data model of the package-manager probe: one record per supported
//! manager, and the outcome of checking one of them.

use vstd::prelude::*;
use vstd::string::StringExecFns;

verus! {

/// One package manager as the probe sees it: its identity, the command to
/// invoke, and what resolution and version checking found out.
#[derive(Debug)]
pub struct PackageManager {
    pub name: String,
    pub full_name: String,
    pub description: String,
    pub command: String,
    pub version: Option<String>,
    pub path: Option<String>,
    pub is_installed: bool,
    pub is_working: bool,
}

impl Clone for PackageManager {
    /// An exact copy of the record.
    fn clone(&self) -> (r: Self)
        ensures
            r == *self,
    {
        Self {
            name: self.name.clone(),
            full_name: self.full_name.clone(),
            description: self.description.clone(),
            command: self.command.clone(),
            version: match &self.version {
                Some(v) => Some(v.clone()),
                None => None,
            },
            path: match &self.path {
                Some(p) => Some(p.clone()),
                None => None,
            },
            is_installed: self.is_installed,
            is_working: self.is_working,
        }
    }
}

impl PackageManager {
    /// A manager known by identity alone: nothing resolved yet.
    pub fn new(name: &str, full_name: &str, description: &str, command: &str) -> (r: Self)
        ensures
            r.name@ == name@,
            r.full_name@ == full_name@,
            r.description@ == description@,
            r.command@ == command@,
            r.version is None,
            r.path is None,
            r.is_installed == false,
            r.is_working == false,
    {
        Self {
            name: String::from_str(name),
            full_name: String::from_str(full_name),
            description: String::from_str(description),
            command: String::from_str(command),
            version: None,
            path: None,
            is_installed: false,
            is_working: false,
        }
    }

    /// The same manager with its version recorded.
    pub fn with_version(self, version: String) -> (r: Self)
        ensures
            r.version == Some(version),
            r.name == self.name,
            r.full_name == self.full_name,
            r.description == self.description,
            r.command == self.command,
            r.path == self.path,
            r.is_installed == self.is_installed,
            r.is_working == self.is_working,
    {
        Self { version: Some(version), ..self }
    }

    /// The same manager with its resolved executable path recorded.
    pub fn with_path(self, path: String) -> (r: Self)
        ensures
            r.path == Some(path),
            r.name == self.name,
            r.full_name == self.full_name,
            r.description == self.description,
            r.command == self.command,
            r.version == self.version,
            r.is_installed == self.is_installed,
            r.is_working == self.is_working,
    {
        Self { path: Some(path), ..self }
    }

    /// The same manager marked as installed.
    pub fn mark_installed(self) -> (r: Self)
        ensures
            r.is_installed == true,
            r.name == self.name,
            r.full_name == self.full_name,
            r.description == self.description,
            r.command == self.command,
            r.version == self.version,
            r.path == self.path,
            r.is_working == self.is_working,
    {
        Self { is_installed: true, ..self }
    }

    /// The same manager marked as working.
    pub fn mark_working(self) -> (r: Self)
        ensures
            r.is_working == true,
            r.name == self.name,
            r.full_name == self.full_name,
            r.description == self.description,
            r.command == self.command,
            r.version == self.version,
            r.path == self.path,
            r.is_installed == self.is_installed,
    {
        Self { is_working: true, ..self }
    }

    /// The display name: the full name with the short name in parentheses.
    pub fn get_display_name(&self) -> (r: String)
        ensures
            r@ == self.full_name@ + " ("@ + self.name@ + ")"@,
    {
        self.full_name.clone().concat(" (").concat(self.name.as_str()).concat(")")
    }

    /// The recorded version, or `unknown` when none was found.
    pub fn get_version_display(&self) -> (r: String)
        ensures
            self.version matches Some(v) ==> r@ == v@,
            self.version is None ==> r@ == "unknown"@,
    {
        match &self.version {
            Some(v) => v.clone(),
            None => String::from_str("unknown"),
        }
    }

    /// The recorded path, or `not found` when none was resolved.
    pub fn get_path_display(&self) -> (r: String)
        ensures
            self.path matches Some(p) ==> r@ == p@,
            self.path is None ==> r@ == "not found"@,
    {
        match &self.path {
            Some(p) => p.clone(),
            None => String::from_str("not found"),
        }
    }
}

/// The outcome of checking one package manager.
#[derive(Debug, Clone)]
pub struct PackageManagerCheckResult {
    pub package_manager: PackageManager,
    pub success: bool,
    pub error_message: Option<String>,
}

impl PackageManagerCheckResult {
    /// A successful check of `package_manager`.
    pub fn success(package_manager: PackageManager) -> (r: Self)
        ensures
            r.package_manager == package_manager,
            r.success == true,
            r.error_message is None,
    {
        Self { package_manager, success: true, error_message: None }
    }

    /// A failed check of `package_manager`, with the reason.
    pub fn failure(package_manager: PackageManager, error_message: String) -> (r: Self)
        ensures
            r.package_manager == package_manager,
            r.success == false,
            r.error_message == Some(error_message),
    {
        Self { package_manager, success: false, error_message: Some(error_message) }
    }
}

} // verus!
