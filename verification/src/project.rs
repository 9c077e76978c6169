//! Project configuration data: the package description that the build
//! orchestration reads from and writes to a project's configuration
//! file. Only the data and its construction live here; reading, writing
//! and serializing the file is the surrounding tooling's concern.

use vstd::prelude::*;

verus! {

/// A project's configuration: one package section.
#[derive(Debug)]
pub struct ProjectConfig {
    pub package: PackageConfig,
}

/// The package section: name, version, edition, authors and an optional
/// description.
#[derive(Debug)]
pub struct PackageConfig {
    pub name: String,
    pub version: String,
    pub edition: String,
    pub authors: Vec<String>,
    pub description: Option<String>,
}

impl ProjectConfig {
    /// A fresh configuration for a new project: version 0.0.1, edition
    /// 2021, and a fixed description.
    pub fn new(name: String, authors: Vec<String>) -> (c: ProjectConfig)
        ensures
            c.package.name == name,
            c.package.version@ == "0.0.1"@,
            c.package.edition@ == "2021"@,
            c.package.authors == authors,
            c.package.description is Some && c.package.description->0@ == "A jRust project"@,
    {
        ProjectConfig {
            package: PackageConfig {
                name,
                version: String::from_str("0.0.1"),
                edition: String::from_str("2021"),
                authors,
                description: Some(String::from_str("A jRust project")),
            },
        }
    }
}

} // verus!
