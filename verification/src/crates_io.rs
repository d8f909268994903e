//! Choosing versions from what crates.io and GHCR report: the highest
//! published build per channel or lane, the newest artifact tag, and which
//! releases the updater is told about.
use vstd::prelude::*;

use crate::release::ReleaseError;
use crate::semver::{compare_versions, parse_version, semver_display, semver_order, semver_parse, version_text, SemVersion, VersionParts};
use crate::text::{has_prefix, owned, starts_with, str_eq};

verus! {

/// One entry of the `versions` array of a crates.io crate page.
#[derive(Clone, Debug, PartialEq, Eq)]
pub struct CratesIoVersion {
    /// `num`, when it is a string.
    pub num: Option<String>,
    /// `yanked`; an absent or non-boolean field counts as not yanked.
    pub yanked: bool,
}

/// The top-level `crate` object of a crates.io crate page.
#[derive(Clone, Debug, PartialEq, Eq)]
pub struct CratesIoCrate {
    pub max_stable_version: Option<String>,
    pub newest_version: Option<String>,
    pub max_version: Option<String>,
}

/// Why no version could be read from a crates.io crate page.
#[derive(Clone, Debug, PartialEq, Eq)]
pub enum CratesIoError {
    /// The body is not JSON.
    InvalidJson { crate_name: String },
    /// The body has no `versions` array.
    MissingVersions { crate_name: String },
    /// The body has no top-level `crate` object.
    MissingCrate { crate_name: String },
    /// The `crate` object names none of the version fields.
    NoVersionField { crate_name: String },
    /// The version the `crate` object names does not parse.
    Unparseable { crate_name: String, version: String },
    /// No non-yanked version (of the research line, when `research_only`).
    NoVersion { crate_name: String, research_only: bool },
    /// No non-yanked version inside the lane.
    EmptyLane { crate_name: String, major: u64, minor: u64 },
}

/// The parsed version an entry offers, when it is not yanked, parses and passes `keep`.
pub open spec fn offered(e: CratesIoVersion, keep: spec_fn(VersionParts) -> bool) -> Option<VersionParts> {
    if !e.yanked && e.num is Some && semver_parse(e.num->0@) is Some && keep(
        semver_parse(e.num->0@)->0,
    ) {
        semver_parse(e.num->0@)
    } else {
        None
    }
}

/// The highest offered version, the earliest of equal ones.
pub open spec fn highest(entries: Seq<CratesIoVersion>, keep: spec_fn(VersionParts) -> bool) -> Option<VersionParts>
    decreases entries.len(),
{
    if entries.len() == 0 {
        None
    } else {
        let best = highest(entries.drop_last(), keep);
        match offered(entries.last(), keep) {
            None => best,
            Some(p) => match best {
                None => Some(p),
                Some(b) => if semver_order(p, b) == 1 {
                    Some(p)
                } else {
                    Some(b)
                },
            },
        }
    }
}

pub open spec fn research_line(p: VersionParts) -> bool {
    has_prefix(p.3, "research"@)
}

pub open spec fn keep_for(research_only: bool) -> spec_fn(VersionParts) -> bool {
    |p: VersionParts| !research_only || research_line(p)
}

pub open spec fn in_lane(lane: (u64, u64)) -> spec_fn(VersionParts) -> bool {
    |p: VersionParts| p.0 == lane.0 && p.1 == lane.1
}

pub open spec fn parts_of(v: Option<SemVersion>) -> Option<VersionParts> {
    match v {
        Some(v) => Some(v@),
        None => None,
    }
}

/// An offered version other than `b` does not rank above `b`.
pub open spec fn not_above(o: Option<VersionParts>, b: VersionParts) -> bool {
    match o {
        Some(p) => p != b ==> semver_order(p, b) != 1,
        None => true,
    }
}

/// No version an entry offers, other than `b`, ranks above `b`.
pub open spec fn none_above(entries: Seq<CratesIoVersion>, keep: spec_fn(VersionParts) -> bool, b: VersionParts) -> bool {
    forall|j: int| 0 <= j < entries.len() ==> not_above(#[trigger] offered(entries[j], keep), b)
}

/// The highest version among `entries` that `keep_for(research_only)` or
/// `in_lane(lane)` keeps, whichever `lane` selects.
fn highest_entry(entries: &Vec<CratesIoVersion>, research_only: bool, lane: Option<(u64, u64)>) -> (r: Option<SemVersion>)
    ensures
        parts_of(r) == highest(
            entries@,
            match lane {
                Some(l) => in_lane(l),
                None => keep_for(research_only),
            },
        ),
        r matches Some(b) ==> none_above(
            entries@,
            match lane {
                Some(l) => in_lane(l),
                None => keep_for(research_only),
            },
            b@,
        ),
{
    let ghost keep = match lane {
        Some(l) => in_lane(l),
        None => keep_for(research_only),
    };
    let mut best: Option<SemVersion> = None;
    let mut i: usize = 0;
    while i < entries.len()
        invariant
            i <= entries@.len(),
            keep == (match lane {
                Some(l) => in_lane(l),
                None => keep_for(research_only),
            }),
            parts_of(best) == highest(entries@.take(i as int), keep),
            best matches Some(b) ==> none_above(entries@.take(i as int), keep, b@),
        decreases entries@.len() - i,
    {
        let ghost prefix = entries@.take(i + 1);
        assert(prefix.drop_last() =~= entries@.take(i as int));
        let entry = &entries[i];
        if !entry.yanked {
            if let Some(num) = &entry.num {
                if let Some(parsed) = parse_version(num.as_str()) {
                    let kept = match lane {
                        Some(l) => parsed.major() == l.0 && parsed.minor() == l.1,
                        None => !research_only || starts_with(parsed.pre(), "research"),
                    };
                    if kept {
                        assert(offered(prefix[i as int], keep) == Some(parsed@));
                        let better = match &best {
                            None => {
                                proof {
                                    assert forall|j: int| 0 <= j < i implies #[trigger] offered(
                                        prefix[j],
                                        keep,
                                    ) is None by {
                                        assert(prefix[j] == entries@.take(i as int)[j]);
                                        if offered(prefix[j], keep) is Some {
                                            lemma_highest_exists_when_offered(
                                                entries@.take(i as int),
                                                keep,
                                                j,
                                            );
                                        }
                                    }
                                }
                                true
                            },
                            Some(current) => {
                                let c = compare_versions(&parsed, current);
                                proof {
                                    let nb = if c == 1 {
                                        parsed@
                                    } else {
                                        current@
                                    };
                                    assert forall|j: int| 0 <= j <= i implies not_above(
                                        #[trigger] offered(prefix[j], keep),
                                        nb,
                                    ) by {
                                        if j < i {
                                            assert(prefix[j] == entries@.take(i as int)[j]);
                                            if let Some(p) = offered(prefix[j], keep) {
                                                if c == 1 && p != parsed@ {
                                                    if p == current@ {
                                                        assert(semver_order(current@, parsed@) == -1);
                                                    } else {
                                                        assert(semver_order(p, current@) != 1);
                                                        if semver_order(p, parsed@) == 1 {
                                                            assert(semver_order(p, current@) == 1);
                                                        }
                                                    }
                                                }
                                            }
                                        }
                                    }
                                }
                                c == 1
                            },
                        };
                        if better {
                            best = Some(parsed);
                        }
                    }
                }
            }
        }
        i = i + 1;
    }
    assert(entries@.take(entries@.len() as int) =~= entries@);
    best
}

/// The highest non-yanked version the crate page lists; with `research_only`,
/// only `-research` prereleases count.
pub fn pick_highest_crates_io_version(
    crate_name: &str,
    versions: &Vec<CratesIoVersion>,
    research_only: bool,
) -> (r: Result<String, CratesIoError>)
    ensures
        match highest(versions@, keep_for(research_only)) {
            Some(b) => r matches Ok(t) && t@ == semver_display(b) && none_above(
                versions@,
                keep_for(research_only),
                b,
            ),
            None => r matches Err(CratesIoError::NoVersion { crate_name: c, research_only: ro }) && c@
                == crate_name@ && ro == research_only,
        },
{
    match highest_entry(versions, research_only, None) {
        Some(best) => Ok(version_text(&best)),
        None => Err(CratesIoError::NoVersion { crate_name: owned(crate_name), research_only }),
    }
}

/// The highest non-yanked `-research` prerelease.
pub fn parse_crates_io_research_version(crate_name: &str, versions: &Vec<CratesIoVersion>) -> (r: Result<String, CratesIoError>)
    ensures
        match highest(versions@, keep_for(true)) {
            Some(b) => r matches Ok(t) && t@ == semver_display(b),
            None => r matches Err(CratesIoError::NoVersion { crate_name: c, research_only: true }) && c@
                == crate_name@,
        },
{
    pick_highest_crates_io_version(crate_name, versions, true)
}

/// The research version, or the highest version of any line when the crate
/// has no research build yet.
pub fn research_or_fallback(crate_name: &str, versions: &Vec<CratesIoVersion>) -> (r: Result<String, CratesIoError>)
    ensures
        match (highest(versions@, keep_for(true)), highest(versions@, keep_for(false))) {
            (Some(b), _) => r matches Ok(t) && t@ == semver_display(b),
            (None, Some(b)) => r matches Ok(t) && t@ == semver_display(b),
            (None, None) => r matches Err(CratesIoError::NoVersion { crate_name: c, research_only: false })
                && c@ == crate_name@,
        },
{
    match parse_crates_io_research_version(crate_name, versions) {
        Ok(version) => Ok(version),
        Err(_) => pick_highest_crates_io_version(crate_name, versions, false),
    }
}

/// The highest non-yanked version inside the `(major, minor)` lane; an empty
/// lane is an error, never a fallback to another lane.
pub fn pick_highest_in_lane(crate_name: &str, versions: &Vec<CratesIoVersion>, lane: (u64, u64)) -> (r: Result<String, CratesIoError>)
    ensures
        match highest(versions@, in_lane(lane)) {
            Some(b) => r matches Ok(t) && t@ == semver_display(b) && none_above(versions@, in_lane(lane), b),
            None => r matches Err(CratesIoError::EmptyLane { crate_name: c, major, minor }) && c@
                == crate_name@ && major == lane.0 && minor == lane.1,
        },
{
    match highest_entry(versions, false, Some(lane)) {
        Some(best) => Ok(version_text(&best)),
        None => Err(CratesIoError::EmptyLane { crate_name: owned(crate_name), major: lane.0, minor: lane.1 }),
    }
}

/// The version field a crate object names first: `max_stable_version`, then
/// `newest_version`, then `max_version`.
pub open spec fn named_version(c: CratesIoCrate) -> Option<String> {
    if c.max_stable_version is Some {
        c.max_stable_version
    } else if c.newest_version is Some {
        c.newest_version
    } else {
        c.max_version
    }
}

/// The latest version a crate page names, which must parse as semver.
pub fn parse_crates_io_version(crate_name: &str, crate_obj: Option<&CratesIoCrate>) -> (r: Result<String, CratesIoError>)
    ensures
        match crate_obj {
            None => r matches Err(CratesIoError::MissingCrate { crate_name: c }) && c@ == crate_name@,
            Some(obj) => match named_version(*obj) {
                None => r matches Err(CratesIoError::NoVersionField { crate_name: c }) && c@
                    == crate_name@,
                Some(v) => if semver_parse(v@) is Some {
                    r == Ok::<String, CratesIoError>(v)
                } else {
                    r matches Err(CratesIoError::Unparseable { crate_name: c, version: t }) && c@
                        == crate_name@ && t == v
                },
            },
        },
{
    let obj = match crate_obj {
        None => return Err(CratesIoError::MissingCrate { crate_name: owned(crate_name) }),
        Some(obj) => obj,
    };
    let version = match (&obj.max_stable_version, &obj.newest_version, &obj.max_version) {
        (Some(v), _, _) => v,
        (None, Some(v), _) => v,
        (None, None, Some(v)) => v,
        (None, None, None) => return Err(CratesIoError::NoVersionField { crate_name: owned(crate_name) }),
    };
    match parse_version(version.as_str()) {
        Some(_) => Ok(version.clone()),
        None => Err(CratesIoError::Unparseable { crate_name: owned(crate_name), version: version.clone() }),
    }
}

/// The newest semver tag with its text, a later tag winning among equals.
pub open spec fn newest_tag(tags: Seq<Seq<char>>) -> Option<(VersionParts, Seq<char>)>
    decreases tags.len(),
{
    if tags.len() == 0 {
        None
    } else {
        let best = newest_tag(tags.drop_last());
        match semver_parse(tags.last()) {
            None => best,
            Some(p) => match best {
                None => Some((p, tags.last())),
                Some((b, t)) => if semver_order(p, b) != -1 {
                    Some((p, tags.last()))
                } else {
                    Some((b, t))
                },
            },
        }
    }
}

/// The newest semver tag of an artifact; `latest` when no tag is semver.
pub fn select_latest_artifact_tag(tags: &Vec<String>) -> (r: Result<String, ReleaseError>)
    ensures
        match newest_tag(tags.deep_view()) {
            Some((_, t)) => r matches Ok(s) && s@ == t,
            None => if tags.deep_view().contains("latest"@) {
                r matches Ok(s) && s@ == "latest"@
            } else {
                r == Err::<String, ReleaseError>(ReleaseError::NoUsableTag)
            },
        },
{
    let ghost names = tags.deep_view();
    let mut best: Option<(SemVersion, usize)> = None;
    let mut i: usize = 0;
    while i < tags.len()
        invariant
            i <= tags@.len(),
            names == tags.deep_view(),
            match best {
                None => newest_tag(names.take(i as int)) is None,
                Some((v, k)) => k < i && newest_tag(names.take(i as int)) == Some((v@, names[k as int])),
            },
        decreases tags@.len() - i,
    {
        let ghost prefix = names.take(i + 1);
        assert(prefix.drop_last() =~= names.take(i as int));
        assert(prefix.last() == tags@[i as int]@);
        if let Some(parsed) = parse_version(tags[i].as_str()) {
            let replace = match &best {
                None => true,
                Some((current, _)) => compare_versions(&parsed, current) != -1,
            };
            if replace {
                best = Some((parsed, i));
            }
        }
        i = i + 1;
    }
    assert(names.take(names.len() as int) =~= names);
    if let Some((_, k)) = best {
        return Ok(tags[k].clone());
    }
    let mut j: usize = 0;
    while j < tags.len()
        invariant
            j <= tags@.len(),
            names == tags.deep_view(),
            newest_tag(names) is None,
            forall|m: int| 0 <= m < j ==> names[m] != "latest"@,
        decreases tags@.len() - j,
    {
        if str_eq(tags[j].as_str(), "latest") {
            assert(names[j as int] == "latest"@);
            return Ok(tags[j].clone());
        }
        j = j + 1;
    }
    Err(ReleaseError::NoUsableTag)
}

/// The updater hears only of plain `X.Y.Z` releases on the stable channel.
pub open spec fn notify_updater(version: Seq<char>, channel: Seq<char>) -> bool {
    &&& channel == "stable"@
    &&& semver_parse(version) matches Some(p) && p.3.len() == 0 && p.4.len() == 0
}

pub fn should_notify_updater(version: &str, channel: &str) -> (r: bool)
    ensures
        r == notify_updater(version@, channel@),
{
    if !str_eq(channel, "stable") {
        return false;
    }
    match parse_version(version) {
        Some(v) => v.pre().unicode_len() == 0 && v.build().unicode_len() == 0,
        None => false,
    }
}

/// The version picked is one a listed entry offers: never a yanked one, an
/// unparseable one, or one the filter leaves out.
pub proof fn lemma_highest_is_offered(entries: Seq<CratesIoVersion>, keep: spec_fn(VersionParts) -> bool)
    ensures
        highest(entries, keep) matches Some(p) ==> exists|i: int|
            0 <= i < entries.len() && !entries[i].yanked && #[trigger] offered(entries[i], keep) == Some(p),
    decreases entries.len(),
{
    if entries.len() > 0 {
        lemma_highest_is_offered(entries.drop_last(), keep);
        if let Some(p) = highest(entries, keep) {
            let n = entries.len() - 1;
            if offered(entries.last(), keep) == Some(p) {
                assert(offered(entries[n], keep) == Some(p));
            } else {
                let i = choose|i: int|
                    0 <= i < entries.drop_last().len() && !entries.drop_last()[i].yanked && #[trigger] offered(
                        entries.drop_last()[i],
                        keep,
                    ) == Some(p);
                assert(entries.drop_last()[i] == entries[i]);
            }
        }
    }
}

/// Whenever some entry offers a usable version, one is picked.
pub proof fn lemma_highest_exists_when_offered(entries: Seq<CratesIoVersion>, keep: spec_fn(VersionParts) -> bool, i: int)
    requires
        0 <= i < entries.len(),
        offered(entries[i], keep) is Some,
    ensures
        highest(entries, keep) is Some,
    decreases entries.len(),
{
    if i < entries.len() - 1 {
        assert(entries.drop_last()[i] == entries[i]);
        lemma_highest_exists_when_offered(entries.drop_last(), keep, i);
    }
}

} // verus!
