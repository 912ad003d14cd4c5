//! Errors reported to the caller.
use vstd::prelude::*;

verus! {

/// The configuration file could not be read.
#[derive(Debug, Clone)]
pub struct UnableToReadConfig {
    pub path: String,
}

/// A package manager was asked for work on a platform it does not support.
#[derive(Debug, Clone, Copy, PartialEq, Eq)]
pub struct UnsupportedPlatform {
    pub manager: &'static str,
}

/// No AUR helper was forced and none of the known ones is installed.
#[derive(Debug, Clone, Copy, PartialEq, Eq, Structural)]
pub struct NoAurHelper;

} // verus!
