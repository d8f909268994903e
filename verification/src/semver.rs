//! Semantic versions as parsed, ordered and printed by the `semver` crate.
use vstd::prelude::*;

use crate::text::decimal_text;

verus! {

/// `semver::Version`, carried opaquely.
#[verifier::external_type_specification]
#[verifier::external_body]
pub struct ExSemverVersion(semver::Version);

/// The fields of a version: major, minor, patch, prerelease and build metadata.
pub type VersionParts = (u64, u64, u64, Seq<char>, Seq<char>);

/// What `semver::Version::parse` yields for a text, by its fields.
pub uninterp spec fn semver_parse(text: Seq<char>) -> Option<VersionParts>;

/// The sign (-1, 0 or 1) of `semver::Version::cmp` between two versions.
pub uninterp spec fn semver_order(a: VersionParts, b: VersionParts) -> i8;

/// The text `semver::Version` displays as: `major.minor.patch`, then
/// `-prerelease` and `+build` when they are not empty.
pub open spec fn semver_display(v: VersionParts) -> Seq<char> {
    decimal_text(v.0 as nat) + "."@ + decimal_text(v.1 as nat) + "."@ + decimal_text(v.2 as nat) + (
    if v.3.len() > 0 {
        "-"@ + v.3
    } else {
        Seq::empty()
    }) + (if v.4.len() > 0 {
        "+"@ + v.4
    } else {
        Seq::empty()
    })
}

/// A parsed version. Only `parse_version` builds one, so the fields always
/// describe the wrapped `semver::Version`.
#[derive(Debug)]
pub struct SemVersion {
    major: u64,
    minor: u64,
    patch: u64,
    pre: String,
    build: String,
    raw: semver::Version,
}

impl View for SemVersion {
    type V = VersionParts;

    closed spec fn view(&self) -> VersionParts {
        (self.major, self.minor, self.patch, self.pre@, self.build@)
    }
}

/// `semver::Version::parse`, by its fields; `None` where the crate reports an error.
#[verifier::external_body]
fn parse_semver(text: &str) -> (r: Option<SemVersion>)
    ensures
        match r {
            Some(v) => semver_parse(text@) == Some(v@),
            None => semver_parse(text@) is None,
        },
{
    semver::Version::parse(text).ok().map(|raw| SemVersion {
        major: raw.major,
        minor: raw.minor,
        patch: raw.patch,
        pre: raw.pre.as_str().to_string(),
        build: raw.build.as_str().to_string(),
        raw,
    })
}

/// `semver::Version::cmp` as -1, 0 or 1. `Version` derives its order from its
/// fields in declaration order (major, minor, patch, prerelease, build), equal
/// fields compare equal, and an empty prerelease (a release) ranks above any
/// prerelease of the same numbers. Being `Ord`, the order is total: swapping
/// the versions flips the sign, and ranking above is transitive.
#[verifier::external_body]
fn cmp_semver(a: &SemVersion, b: &SemVersion) -> (r: i8)
    ensures
        r == semver_order(a@, b@),
        r == -1 || r == 0 || r == 1,
        (r == 0) == (a@ == b@),
        a@.0 != b@.0 ==> (r > 0) == (a@.0 > b@.0),
        a@.0 == b@.0 && a@.1 != b@.1 ==> (r > 0) == (a@.1 > b@.1),
        a@.0 == b@.0 && a@.1 == b@.1 && a@.2 != b@.2 ==> (r > 0) == (a@.2 > b@.2),
        a@.0 == b@.0 && a@.1 == b@.1 && a@.2 == b@.2 && a@.3.len() == 0 && b@.3.len() > 0 ==> r
            == 1,
        a@.0 == b@.0 && a@.1 == b@.1 && a@.2 == b@.2 && a@.3.len() > 0 && b@.3.len() == 0 ==> r
            == -1,
        semver_order(b@, a@) == -r,
        r == 1 ==> forall|c: VersionParts|
            #[trigger] semver_order(c, a@) == 1 ==> semver_order(c, b@) == 1,
{
    match a.raw.cmp(&b.raw) {
        std::cmp::Ordering::Less => -1,
        std::cmp::Ordering::Equal => 0,
        std::cmp::Ordering::Greater => 1,
    }
}

/// `semver::Version`'s `Display` text.
#[verifier::external_body]
fn display_semver(v: &SemVersion) -> (r: String)
    ensures
        r@ == semver_display(v@),
{
    v.raw.to_string()
}

/// A version parsed from `text`, when it is one.
pub fn parse_version(text: &str) -> (r: Option<SemVersion>)
    ensures
        match r {
            Some(v) => semver_parse(text@) == Some(v@),
            None => semver_parse(text@) is None,
        },
{
    parse_semver(text)
}

/// How `a` orders against `b`: -1, 0 or 1.
pub fn compare_versions(a: &SemVersion, b: &SemVersion) -> (r: i8)
    ensures
        r == semver_order(a@, b@),
        r == -1 || r == 0 || r == 1,
        (r == 0) == (a@ == b@),
        a@.0 != b@.0 ==> (r > 0) == (a@.0 > b@.0),
        a@.0 == b@.0 && a@.1 != b@.1 ==> (r > 0) == (a@.1 > b@.1),
        a@.0 == b@.0 && a@.1 == b@.1 && a@.2 != b@.2 ==> (r > 0) == (a@.2 > b@.2),
        a@.0 == b@.0 && a@.1 == b@.1 && a@.2 == b@.2 && a@.3.len() == 0 && b@.3.len() > 0 ==> r
            == 1,
        a@.0 == b@.0 && a@.1 == b@.1 && a@.2 == b@.2 && a@.3.len() > 0 && b@.3.len() == 0 ==> r
            == -1,
        semver_order(b@, a@) == -r,
        r == 1 ==> forall|c: VersionParts|
            #[trigger] semver_order(c, a@) == 1 ==> semver_order(c, b@) == 1,
{
    cmp_semver(a, b)
}

/// The text a version is written as.
pub fn version_text(v: &SemVersion) -> (r: String)
    ensures
        r@ == semver_display(v@),
{
    display_semver(v)
}

impl SemVersion {
    /// The `semver::Version` this version was parsed as.
    pub(crate) closed spec fn wrapped(&self) -> semver::Version {
        self.raw
    }

    /// The wrapped `semver::Version`, for the wrappers of other `semver` functions.
    pub(crate) fn raw(&self) -> (r: &semver::Version)
        ensures
            *r == self.wrapped(),
    {
        &self.raw
    }

    pub fn major(&self) -> (r: u64)
        ensures
            r == self@.0,
    {
        self.major
    }

    pub fn minor(&self) -> (r: u64)
        ensures
            r == self@.1,
    {
        self.minor
    }

    pub fn patch(&self) -> (r: u64)
        ensures
            r == self@.2,
    {
        self.patch
    }

    pub fn pre(&self) -> (r: &str)
        ensures
            r@ == self@.3,
    {
        self.pre.as_str()
    }

    pub fn build(&self) -> (r: &str)
        ensures
            r@ == self@.4,
    {
        self.build.as_str()
    }
}

} // verus!
