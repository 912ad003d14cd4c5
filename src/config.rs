//! The configuration model: named conditions and the package groups they gate.
use vstd::prelude::*;

use crate::package_managers::PackageManagerConfig;
use crate::version::VersionReq;

verus! {

/// Operating system family.
#[derive(Debug, Clone, Copy, PartialEq, Eq, Structural)]
pub enum OsName {
    Windows,
    MacOS,
    Linux,
}

/// The family called `name` in lower case.
pub open spec fn os_named(name: Seq<char>) -> Option<OsName> {
    if name == "windows"@ {
        Some(OsName::Windows)
    } else if name == "macos"@ {
        Some(OsName::MacOS)
    } else if name == "linux"@ {
        Some(OsName::Linux)
    } else {
        None
    }
}

impl OsName {
    /// The family named by its lower-case name (`windows`, `macos`, `linux`).
    pub fn from_name(name: &str) -> (r: Option<OsName>)
        ensures
            r == os_named(name@),
            r == Some(OsName::Windows) <==> name@ == "windows"@,
            r == Some(OsName::MacOS) <==> name@ == "macos"@,
            r == Some(OsName::Linux) <==> name@ == "linux"@,
    {
        proof {
            reveal_strlit("windows");
            reveal_strlit("macos");
            reveal_strlit("linux");
            assert("windows"@.len() != "macos"@.len());
            assert("windows"@.len() != "linux"@.len());
            assert("macos"@[0] != "linux"@[0]);
        }
        let s = name.to_string();
        if s == "windows".to_string() {
            Some(OsName::Windows)
        } else if s == "macos".to_string() {
            Some(OsName::MacOS)
        } else if s == "linux".to_string() {
            Some(OsName::Linux)
        } else {
            None
        }
    }
}

/// Operating system constraint, with refinements particular to each family.
#[derive(Debug)]
pub enum OsType {
    Windows,
    MacOS {
        /// Requirement on the macOS version (`>=13.0.0`, `^14.0.0`).
        version: Option<VersionReq>,
    },
    Linux {
        /// Distribution identifiers, matched against the host's `ID`.
        distro: Option<Vec<String>>,
        /// Distribution family identifiers, matched against the host's `ID_LIKE`.
        distro_like: Option<Vec<String>>,
    },
}

impl OsType {
    pub open spec fn spec_name(&self) -> OsName {
        match self {
            OsType::Windows => OsName::Windows,
            OsType::MacOS { .. } => OsName::MacOS,
            OsType::Linux { .. } => OsName::Linux,
        }
    }

    /// The family the constraint is about.
    pub fn name(&self) -> (r: OsName)
        ensures
            r == self.spec_name(),
    {
        match self {
            OsType::Windows => OsName::Windows,
            OsType::MacOS { .. } => OsName::MacOS,
            OsType::Linux { .. } => OsName::Linux,
        }
    }
}

/// Execution condition deciding whether something applies to the current
/// system. A field left empty does not restrict matching.
#[derive(Debug)]
pub struct Condition {
    /// Label that must be requested to activate this condition.
    pub label: Option<String>,
    /// Activate when no labels at all are requested.
    pub default: Option<bool>,
    /// Operating system constraints, any of which may match.
    pub os: Option<Vec<OsType>>,
    /// Processor architecture constraints (recognized, not yet enforced).
    pub architecture: Option<Vec<String>>,
    /// Hostname glob pattern (recognized, not yet enforced).
    pub hostname_pattern: Option<String>,
}

/// A bundle of package batches, applied when all its conditions hold.
#[derive(Debug)]
pub struct Group {
    pub name: Option<String>,
    pub conditions: Vec<String>,
    pub packages: Vec<PackageManagerConfig>,
}

impl Group {
    /// The name shown for the group: its own, or `untitled`.
    pub fn display_name(&self) -> (r: String)
        ensures
            r@ == match self.name {
                Some(n) => n@,
                None => "untitled"@,
            },
    {
        match &self.name {
            Some(n) => n.clone(),
            None => "untitled".to_string(),
        }
    }
}

/// A whole configuration: conditions by name, and the ordered groups.
#[derive(Debug)]
pub struct Config {
    pub conditions: Vec<(String, Condition)>,
    pub groups: Vec<Group>,
}

} // verus!
