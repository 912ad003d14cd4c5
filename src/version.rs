//! Semantic versions and version requirements, kept as the text they were
//! read from and interpreted by the `semver` crate.
use vstd::prelude::*;

verus! {

/// Whether `semver::Version::parse` accepts the text.
pub uninterp spec fn is_semver(text: Seq<char>) -> bool;

/// Whether `semver::VersionReq::parse` accepts the text.
pub uninterp spec fn is_semver_req(text: Seq<char>) -> bool;

/// Whether both texts parse and the requirement matches the version.
pub uninterp spec fn req_matches(req: Seq<char>, version: Seq<char>) -> bool;

/// Relies on `semver::Version::parse`: reports whether the text is a version.
#[verifier::external_body]
fn semver_version_parses(text: &str) -> (r: bool)
    ensures
        r == is_semver(text@),
{
    semver::Version::parse(text).is_ok()
}

/// Relies on `semver::VersionReq::parse`: reports whether the text is a
/// version requirement.
#[verifier::external_body]
fn semver_req_parses(text: &str) -> (r: bool)
    ensures
        r == is_semver_req(text@),
{
    semver::VersionReq::parse(text).is_ok()
}

/// Relies on `semver::VersionReq::matches`, applied to what
/// `semver::VersionReq::parse` and `semver::Version::parse` make of the texts.
#[verifier::external_body]
fn semver_matches(req: &str, version: &str) -> (r: bool)
    ensures
        r == req_matches(req@, version@),
{
    match (semver::VersionReq::parse(req), semver::Version::parse(version)) {
        (Ok(req), Ok(version)) => req.matches(&version),
        _ => false,
    }
}

/// A semantic version such as `14.2.0`.
#[derive(Debug, Clone)]
pub struct Version {
    text: String,
}

impl View for Version {
    type V = Seq<char>;

    closed spec fn view(&self) -> Seq<char> {
        self.text@
    }
}

impl Version {
    /// The version written in `text`, or `None` where it is no semantic version.
    pub fn parse(text: &str) -> (r: Option<Version>)
        ensures
            r.is_some() == is_semver(text@),
            r matches Some(v) ==> v@ == text@,
    {
        if semver_version_parses(text) {
            Some(Version { text: text.to_string() })
        } else {
            None
        }
    }

    /// The text the version was read from.
    pub fn as_str(&self) -> (r: &str)
        ensures
            r@ == self@,
    {
        self.text.as_str()
    }
}

/// A version requirement such as `>=13.0.0`.
#[derive(Debug, Clone)]
pub struct VersionReq {
    text: String,
}

impl View for VersionReq {
    type V = Seq<char>;

    closed spec fn view(&self) -> Seq<char> {
        self.text@
    }
}

impl VersionReq {
    /// The requirement written in `text`, or `None` where it is no requirement.
    pub fn parse(text: &str) -> (r: Option<VersionReq>)
        ensures
            r.is_some() == is_semver_req(text@),
            r matches Some(q) ==> q@ == text@,
    {
        if semver_req_parses(text) {
            Some(VersionReq { text: text.to_string() })
        } else {
            None
        }
    }

    /// The text the requirement was read from.
    pub fn as_str(&self) -> (r: &str)
        ensures
            r@ == self@,
    {
        self.text.as_str()
    }

    /// Whether `version` satisfies the requirement.
    pub fn matches(&self, version: &Version) -> (r: bool)
        ensures
            r == req_matches(self@, version@),
    {
        semver_matches(self.text.as_str(), version.text.as_str())
    }
}

} // verus!
