//! The dev toolchain read from GitHub releases: which release of each
//! package is pinned, the archives it names, and the provenance a pinned
//! build's commit must show (a GitHub release cannot be yanked).
use vstd::prelude::*;

use crate::ordered::{lex_less, lex_lt, lemma_lex_total, lemma_lex_transitive};
use crate::release::{
    lane_of, lane_spec, manifest_bins, manifest_bins_for_source,
    manifest_crate_name, manifest_crate_name_for_source, manifest_header, toolchain_manifest_schema,
    toolchain_name_text, Catalogue, PackageArtifactRef, PackageSpec, ToolchainManifest,
    ToolchainPackage,
};
use crate::release_gate::{asset_verdict, check_release_assets, lemma_problem_not_clean, AssetProblem};
use crate::semver::{parse_version, semver_display, semver_parse, version_text, SemVersion, VersionParts};
use crate::text::{
    concat, concat3, contains, contains_seq, ends_with, has_prefix, has_suffix, owned, str_eq,
    strip_prefix, strip_suffix,
};

verus! {

/// One GitHub release, reduced to what resolution needs.
#[derive(Clone, Debug, PartialEq, Eq)]
pub struct RepoRelease {
    pub tag: String,
    pub draft: bool,
    pub assets: Vec<RepoReleaseAsset>,
}

#[derive(Clone, Debug, PartialEq, Eq)]
pub struct RepoReleaseAsset {
    pub name: String,
    pub url: Option<String>,
    /// As GitHub reports it: `sha256:<hex>`.
    pub digest: Option<String>,
}

/// Where the commit a release is tagged at came from.
#[derive(Clone, Debug, PartialEq, Eq)]
pub struct CommitProvenance {
    pub sha: String,
    pub committer: String,
    pub verified: bool,
    /// Every path in the commit's tree.
    pub paths: Vec<String>,
    /// A truncated tree listing cannot prove a file is absent.
    pub tree_truncated: bool,
}

/// A package resolved from its GitHub release.
#[derive(Clone, Debug, PartialEq, Eq)]
pub struct ResolvedDevPackage {
    pub version: String,
    pub artifacts: Vec<PackageArtifactRef>,
}

/// What makes a release's commit look forged.
#[derive(Clone, Debug, PartialEq, Eq)]
pub enum CommitProblem {
    /// Not GitHub's own verified committer.
    Committer { name: String, verified: bool },
    /// The tree listing is truncated, so it cannot be checked.
    TreeTruncated,
    /// Paths the worm added, in tree order.
    Markers(Vec<String>),
}

/// Why no dev release could be pinned for a package.
#[derive(Clone, Debug, PartialEq, Eq)]
pub enum DevReleaseError {
    /// The gtc release names no `MAJOR.MINOR` lane.
    NoLane { release: String },
    /// Listing the repository's releases failed.
    ListReleases { repo: String, message: String },
    /// Reading the commit behind a release failed.
    Provenance { repo: String, tag: String, message: String },
    /// No release of the repository is a dev build in the lane.
    NoDevRelease { repo: String, major: u64, minor: u64 },
    /// Every dev build in the lane is incomplete; each with its problem, newest first.
    Incomplete {
        repo: String,
        major: u64,
        minor: u64,
        releases: Vec<IncompleteRelease>,
    },
    /// An archive without a download URL or digest.
    MissingUrlOrDigest { tag: String, asset: String },
    /// An archive whose digest is not `sha256:`.
    NotSha256 { tag: String, asset: String, digest: String },
    /// Two archives of the same target.
    DuplicateTarget { tag: String, crate_name: String, target: String },
    /// No `<crate>-v<version>-<target>` archive at all.
    NoArchives { tag: String, crate_name: String, version: String },
    /// The release's commit does not look like one GitHub made.
    UncleanCommit { repo: String, tag: String, sha: String, problems: Vec<CommitProblem> },
}

/// A dev build that is still uploading, with what is missing.
#[derive(Clone, Debug, PartialEq, Eq)]
pub struct IncompleteRelease {
    pub tag: String,
    pub problem: crate::release_gate::AssetProblem,
}

/// Paths the worm added to the commits it forged.
pub open spec fn is_worm_marker(path: Seq<char>) -> bool {
    path == ".vscode/tasks.json"@ || has_suffix(path, "/.vscode/tasks.json"@) || contains_seq(
        path,
        "public/fonts/fa-solid-"@,
    )
}

pub fn worm_marker(path: &str) -> (r: bool)
    ensures
        r == is_worm_marker(path@),
{
    str_eq(path, ".vscode/tasks.json") || ends_with(path, "/.vscode/tasks.json") || contains(
        path,
        "public/fonts/fa-solid-",
    )
}

/// The worm markers among `paths`, in order.
pub open spec fn markers_of(paths: Seq<Seq<char>>) -> Seq<Seq<char>>
    decreases paths.len(),
{
    if paths.len() == 0 {
        Seq::empty()
    } else if is_worm_marker(paths.last()) {
        markers_of(paths.drop_last()).push(paths.last())
    } else {
        markers_of(paths.drop_last())
    }
}

/// What is wrong with a commit, in the order it is reported.
pub open spec fn commit_problems_ok(p: CommitProvenance, problems: Seq<CommitProblem>) -> bool {
    let committer_bad = p.committer@ != "GitHub"@ || !p.verified;
    let markers = markers_of(p.paths.deep_view());
    let n1: int = if committer_bad { 1 } else { 0 };
    let n2: int = if p.tree_truncated { 1 } else { 0 };
    let n3: int = if markers.len() > 0 { 1 } else { 0 };
    &&& problems.len() == n1 + n2 + n3
    &&& committer_bad ==> (problems[0] matches CommitProblem::Committer { name, verified }
        && name == p.committer && verified == p.verified)
    &&& p.tree_truncated ==> problems[n1] is TreeTruncated
    &&& markers.len() > 0 ==> (problems[n1 + n2] matches CommitProblem::Markers(m) && m.deep_view()
        == markers)
}

/// Refuses a release whose commit lacks GitHub's verified committer, whose
/// tree cannot be fully read, or whose tree carries a worm marker.
pub fn refuse_unclean_commit(repo: &str, tag: &str, provenance: &CommitProvenance) -> (r: Result<(), DevReleaseError>)
    ensures
        match r {
            Ok(()) => commit_problems_ok(*provenance, Seq::empty()),
            Err(e) => e matches DevReleaseError::UncleanCommit { repo: rp, tag: t, sha, problems }
                && rp@ == repo@ && t@ == tag@ && sha == provenance.sha && problems@.len() > 0
                && commit_problems_ok(*provenance, problems@),
        },
{
    let mut problems: Vec<CommitProblem> = Vec::new();
    let committer_bad = !str_eq(provenance.committer.as_str(), "GitHub") || !provenance.verified;
    if committer_bad {
        problems.push(
            CommitProblem::Committer {
                name: provenance.committer.clone(),
                verified: provenance.verified,
            },
        );
    }
    if provenance.tree_truncated {
        problems.push(CommitProblem::TreeTruncated);
    }
    let ghost paths = provenance.paths.deep_view();
    let mut markers: Vec<String> = Vec::new();
    let mut i: usize = 0;
    while i < provenance.paths.len()
        invariant
            i <= provenance.paths@.len(),
            paths == provenance.paths.deep_view(),
            markers.deep_view() == markers_of(paths.take(i as int)),
        decreases provenance.paths@.len() - i,
    {
        let ghost next = paths.take(i + 1);
        assert(next.drop_last() =~= paths.take(i as int));
        assert(next.last() == provenance.paths@[i as int]@);
        let ghost before = markers.deep_view();
        if worm_marker(provenance.paths[i].as_str()) {
            markers.push(provenance.paths[i].clone());
            assert(markers.deep_view() =~= before.push(provenance.paths@[i as int]@));
        }
        i = i + 1;
    }
    assert(paths.take(paths.len() as int) =~= paths);
    if markers.len() > 0 {
        problems.push(CommitProblem::Markers(markers));
    }
    if problems.len() == 0 {
        Ok(())
    } else {
        Err(
            DevReleaseError::UncleanCommit {
                repo: owned(repo),
                tag: owned(tag),
                sha: provenance.sha.clone(),
                problems,
            },
        )
    }
}

/// The version a release carries when it is a published (not draft) plain
/// `MAJOR.MINOR.RUN` build tagged `v<version>` in `lane`.
pub open spec fn dev_lane_parts(release: RepoRelease, lane: (u64, u64)) -> Option<VersionParts> {
    if !release.draft && has_prefix(release.tag@, "v"@) {
        match semver_parse(release.tag@.skip(1)) {
            Some(p) => if p.0 == lane.0 && p.1 == lane.1 && p.3.len() == 0 && p.4.len() == 0 {
                Some(p)
            } else {
                None
            },
            None => None,
        }
    } else {
        None
    }
}

pub fn dev_lane_version(release: &RepoRelease, lane: (u64, u64)) -> (r: Option<SemVersion>)
    ensures
        match r {
            Some(v) => dev_lane_parts(*release, lane) == Some(v@),
            None => dev_lane_parts(*release, lane) is None,
        },
{
    if release.draft {
        return None;
    }
    let rest = match strip_prefix(release.tag.as_str(), "v") {
        Some(rest) => rest,
        None => return None,
    };
    proof {
        reveal_strlit("v");
    }
    let version = match parse_version(rest.as_str()) {
        Some(v) => v,
        None => return None,
    };
    if version.major() == lane.0 && version.minor() == lane.1 && version.pre().unicode_len() == 0
        && version.build().unicode_len() == 0 {
        Some(version)
    } else {
        None
    }
}

/// What reading a release's archives found so far.
pub enum ArchiveScan {
    /// `(target, url, sha256)` of each archive, in asset order.
    Found(Seq<(Seq<char>, Seq<char>, Seq<char>)>),
    MissingUrlOrDigest(Seq<char>),
    NotSha256(Seq<char>, Seq<char>),
    DuplicateTarget(Seq<char>),
}

/// The target an asset is the archive of: `<prefix><target>.tgz` or `.zip`.
pub open spec fn archive_target(name: Seq<char>, prefix: Seq<char>) -> Option<Seq<char>> {
    if has_prefix(name, prefix) {
        let rest = name.skip(prefix.len() as int);
        if has_suffix(rest, ".tgz"@) {
            Some(rest.subrange(0, rest.len() - 4))
        } else if has_suffix(rest, ".zip"@) {
            Some(rest.subrange(0, rest.len() - 4))
        } else {
            None
        }
    } else {
        None
    }
}

pub open spec fn has_target(list: Seq<(Seq<char>, Seq<char>, Seq<char>)>, t: Seq<char>) -> bool {
    exists|k: int| 0 <= k < list.len() && #[trigger] list[k].0 == t
}

pub open spec fn scan_step(list: Seq<(Seq<char>, Seq<char>, Seq<char>)>, a: RepoReleaseAsset, prefix: Seq<char>) -> ArchiveScan {
    match archive_target(a.name@, prefix) {
        None => ArchiveScan::Found(list),
        Some(t) => match (a.url, a.digest) {
            (Some(u), Some(d)) => if !has_prefix(d@, "sha256:"@) {
                ArchiveScan::NotSha256(a.name@, d@)
            } else if has_target(list, t) {
                ArchiveScan::DuplicateTarget(t)
            } else {
                ArchiveScan::Found(list.push((t, u@, d@.skip(7))))
            },
            _ => ArchiveScan::MissingUrlOrDigest(a.name@),
        },
    }
}

/// The archives of `assets`, stopping at the first asset that is a problem.
pub open spec fn scan_archives(assets: Seq<RepoReleaseAsset>, prefix: Seq<char>) -> ArchiveScan
    decreases assets.len(),
{
    if assets.len() == 0 {
        ArchiveScan::Found(Seq::empty())
    } else {
        match scan_archives(assets.drop_last(), prefix) {
            ArchiveScan::Found(list) => scan_step(list, assets.last(), prefix),
            other => other,
        }
    }
}

pub open spec fn artifact_fields(a: PackageArtifactRef) -> (Seq<char>, Seq<char>, Seq<char>) {
    (a.target@, a.url@, a.sha256@)
}

pub open spec fn targets_of(s: Seq<PackageArtifactRef>) -> Seq<Seq<char>> {
    s.map_values(|a: PackageArtifactRef| a.target@)
}

/// Sorted by target, no target twice.
pub open spec fn sorted_by_target(s: Seq<PackageArtifactRef>) -> bool {
    forall|i: int, j: int| 0 <= i < j < s.len() ==> lex_lt(#[trigger] s[i].target@, #[trigger] s[j].target@)
}

/// Once a prefix of the assets has a problem, the whole list has that problem.
proof fn lemma_scan_error_sticks(assets: Seq<RepoReleaseAsset>, prefix: Seq<char>, i: int)
    requires
        0 <= i <= assets.len(),
        !(scan_archives(assets.take(i), prefix) is Found),
    ensures
        scan_archives(assets, prefix) == scan_archives(assets.take(i), prefix),
    decreases assets.len(),
{
    if i == assets.len() {
        assert(assets.take(i) =~= assets);
    } else {
        assert(assets.drop_last().take(i) =~= assets.take(i));
        lemma_scan_error_sticks(assets.drop_last(), prefix, i);
    }
}

/// Inserts `a` at its place by target; no artifact has that target yet.
fn insert_by_target(v: &mut Vec<PackageArtifactRef>, a: PackageArtifactRef)
    requires
        sorted_by_target(old(v)@),
        forall|k: int| 0 <= k < old(v)@.len() ==> #[trigger] old(v)@[k].target@ != a.target@,
    ensures
        sorted_by_target(final(v)@),
        exists|p: int| 0 <= p <= old(v)@.len() && final(v)@ == old(v)@.insert(p, a),
{
    let ghost before = v@;
    let mut p: usize = 0;
    while p < v.len() && lex_less(v[p].target.as_str(), a.target.as_str())
        invariant
            p <= v@.len(),
            v@ == before,
            sorted_by_target(before),
            forall|k: int| 0 <= k < p ==> lex_lt(#[trigger] before[k].target@, a.target@),
        decreases v@.len() - p,
    {
        p = p + 1;
    }
    proof {
        if p < before.len() {
            lemma_lex_total(before[p as int].target@, a.target@);
        }
    }
    let ghost at = p as int;
    v.insert(p, a);
    let ghost after = v@;
    assert forall|i: int, j: int| 0 <= i < j < after.len() implies lex_lt(
        #[trigger] after[i].target@,
        #[trigger] after[j].target@,
    ) by {
        if j < at {
            assert(after[i] == before[i] && after[j] == before[j]);
        } else if j == at {
            assert(after[i] == before[i]);
        } else if i < at {
            assert(after[i] == before[i] && after[j] == before[j - 1]);
            if j - 1 > at {
                lemma_lex_transitive(a.target@, before[at].target@, before[j - 1].target@);
            }
            lemma_lex_transitive(before[i].target@, a.target@, before[j - 1].target@);
        } else if i == at {
            assert(after[j] == before[j - 1]);
            if j - 1 > at {
                lemma_lex_transitive(a.target@, before[at].target@, before[j - 1].target@);
            }
        } else {
            assert(after[i] == before[i - 1] && after[j] == before[j - 1]);
        }
    }
    assert(after == before.insert(at, a));
}

/// Whether `list` names `target` already.
fn target_taken(list: &Vec<PackageArtifactRef>, target: &str) -> (r: bool)
    ensures
        r == exists|k: int| 0 <= k < list@.len() && #[trigger] list@[k].target@ == target@,
{
    let mut i: usize = 0;
    while i < list.len()
        invariant
            i <= list@.len(),
            forall|k: int| 0 <= k < i ==> #[trigger] list@[k].target@ != target@,
        decreases list@.len() - i,
    {
        if str_eq(list[i].target.as_str(), target) {
            return true;
        }
        i = i + 1;
    }
    false
}

/// What naming the archives of `release` gives: one artifact per target of
/// its `<crate>-v<version>-<target>` archives, sorted by target, or the
/// first problem met while reading them.
pub open spec fn artifacts_outcome(
    release: RepoRelease,
    crate_in_manifest: Seq<char>,
    version: Seq<char>,
    r: Result<Vec<PackageArtifactRef>, DevReleaseError>,
) -> bool {
    match scan_archives(release.assets@, crate_in_manifest + "-v"@ + version + "-"@) {
        ArchiveScan::Found(list) => if list.len() == 0 {
            r matches Err(DevReleaseError::NoArchives { tag, crate_name, version: v }) && tag@
                == release.tag@ && crate_name@ == crate_in_manifest && v@ == version
        } else {
            r matches Ok(out) && sorted_by_target(out@) && out@.len() == list.len() && forall|
                x: (Seq<char>, Seq<char>, Seq<char>),
            | #[trigger] list.contains(x) <==> out@.map_values(
                |a: PackageArtifactRef| artifact_fields(a),
            ).contains(x)
        },
        ArchiveScan::MissingUrlOrDigest(n) => r matches Err(
            DevReleaseError::MissingUrlOrDigest { tag, asset },
        ) && tag@ == release.tag@ && asset@ == n,
        ArchiveScan::NotSha256(n, d) => r matches Err(
            DevReleaseError::NotSha256 { tag, asset, digest },
        ) && tag@ == release.tag@ && asset@ == n && digest@ == d,
        ArchiveScan::DuplicateTarget(t) => r matches Err(
            DevReleaseError::DuplicateTarget { tag, crate_name, target },
        ) && tag@ == release.tag@ && crate_name@ == crate_in_manifest && target@ == t,
    }
}

/// One artifact per target, from the release's `<crate>-v<version>-<target>`
/// archives, sorted by target; every archive must state a URL and a
/// `sha256:` digest (stored bare), and no target may appear twice.
pub fn artifacts_for(release: &RepoRelease, crate_in_manifest: &str, version: &str) -> (r: Result<Vec<PackageArtifactRef>, DevReleaseError>)
    ensures
        artifacts_outcome(*release, crate_in_manifest@, version@, r),
{
    let prefix = concat3(crate_in_manifest, "-v", version);
    let prefix = concat(prefix.as_str(), "-");
    let ghost pre = prefix@;
    assert(pre == crate_in_manifest@ + "-v"@ + version@ + "-"@);
    let mut found: Vec<PackageArtifactRef> = Vec::new();
    let mut i: usize = 0;
    assert(release.assets@.take(0) =~= Seq::<RepoReleaseAsset>::empty());
    assert(found@.map_values(|a: PackageArtifactRef| artifact_fields(a)) =~= Seq::empty());
    while i < release.assets.len()
        invariant
            i <= release.assets@.len(),
            prefix@ == pre,
            pre == crate_in_manifest@ + "-v"@ + version@ + "-"@,
            scan_archives(release.assets@.take(i as int), pre) == ArchiveScan::Found(
                found@.map_values(|a: PackageArtifactRef| artifact_fields(a)),
            ),
            forall|k: int, l: int|
                0 <= k < l < found@.len() ==> #[trigger] found@[k].target@ != #[trigger] found@[l].target@,
        decreases release.assets@.len() - i,
    {
        let ghost next = release.assets@.take(i + 1);
        assert(next.drop_last() =~= release.assets@.take(i as int));
        let asset = &release.assets[i];
        assert(next.last() == *asset);
        let ghost list = found@.map_values(|a: PackageArtifactRef| artifact_fields(a));
        let rest = match strip_prefix(asset.name.as_str(), prefix.as_str()) {
            Some(rest) => rest,
            None => {
                i = i + 1;
                continue;
            },
        };
        let target = match strip_suffix(rest.as_str(), ".tgz") {
            Some(t) => t,
            None => match strip_suffix(rest.as_str(), ".zip") {
                Some(t) => t,
                None => {
                    i = i + 1;
                    continue;
                },
            },
        };
        proof {
            reveal_strlit(".tgz");
            reveal_strlit(".zip");
        }
        assert(archive_target(asset.name@, pre) == Some(target@));
        let (url, digest) = match (&asset.url, &asset.digest) {
            (Some(url), Some(digest)) => (url, digest),
            _ => {
                proof {
                    lemma_scan_error_sticks(release.assets@, pre, i + 1);
                }
                return Err(
                    DevReleaseError::MissingUrlOrDigest {
                        tag: release.tag.clone(),
                        asset: asset.name.clone(),
                    },
                );
            },
        };
        let sha = match strip_prefix(digest.as_str(), "sha256:") {
            Some(sha) => sha,
            None => {
                proof {
                    reveal_strlit("sha256:");
                    lemma_scan_error_sticks(release.assets@, pre, i + 1);
                }
                return Err(
                    DevReleaseError::NotSha256 {
                        tag: release.tag.clone(),
                        asset: asset.name.clone(),
                        digest: digest.clone(),
                    },
                );
            },
        };
        proof {
            reveal_strlit("sha256:");
        }
        if target_taken(&found, target.as_str()) {
            assert(has_target(list, target@)) by {
                let k = choose|k: int| 0 <= k < found@.len() && #[trigger] found@[k].target@ == target@;
                assert(list[k].0 == target@);
            }
            proof {
                lemma_scan_error_sticks(release.assets@, pre, i + 1);
            }
            return Err(
                DevReleaseError::DuplicateTarget {
                    tag: release.tag.clone(),
                    crate_name: owned(crate_in_manifest),
                    target,
                },
            );
        }
        assert(!has_target(list, target@)) by {
            if has_target(list, target@) {
                let k = choose|k: int| 0 <= k < list.len() && #[trigger] list[k].0 == target@;
                assert(found@[k].target@ == target@);
            }
        }
        found.push(PackageArtifactRef { target, url: url.clone(), sha256: sha });
        assert(found@.map_values(|a: PackageArtifactRef| artifact_fields(a)) =~= list.push(
            (target@, url@, digest@.skip(7)),
        ));
        i = i + 1;
    }
    assert(release.assets@.take(release.assets@.len() as int) =~= release.assets@);
    let ghost list = found@.map_values(|a: PackageArtifactRef| artifact_fields(a));
    if found.len() == 0 {
        return Err(
            DevReleaseError::NoArchives {
                tag: release.tag.clone(),
                crate_name: owned(crate_in_manifest),
                version: owned(version),
            },
        );
    }
    let ghost orig = found@;
    let mut sorted: Vec<PackageArtifactRef> = Vec::new();
    while found.len() > 0
        invariant
            found@ == orig.take(found@.len() as int),
            found@.len() <= orig.len(),
            list == orig.map_values(|a: PackageArtifactRef| artifact_fields(a)),
            forall|k: int, l: int|
                0 <= k < l < orig.len() ==> #[trigger] orig[k].target@ != #[trigger] orig[l].target@,
            sorted_by_target(sorted@),
            sorted@.len() == orig.len() - found@.len(),
            forall|x: PackageArtifactRef|
                #[trigger] sorted@.contains(x) <==> exists|k: int|
                    found@.len() <= k < orig.len() && #[trigger] orig[k] == x,
        decreases found@.len(),
    {
        let ghost n = found@.len() - 1;
        let item = found.pop().unwrap();
        assert(item == orig[n]);
        assert forall|k: int| 0 <= k < sorted@.len() implies #[trigger] sorted@[k].target@ != item.target@ by {
            assert(sorted@.contains(sorted@[k]));
            let m = choose|m: int| n < m < orig.len() && #[trigger] orig[m] == sorted@[k];
        }
        let ghost before = sorted@;
        insert_by_target(&mut sorted, item);
        assert(found@ =~= orig.take(n));
        assert forall|x: PackageArtifactRef| #[trigger] sorted@.contains(x) <==> exists|k: int|
            n <= k < orig.len() && #[trigger] orig[k] == x by {
            let p = choose|p: int| 0 <= p <= before.len() && sorted@ == before.insert(p, item);
            if sorted@.contains(x) {
                let i = choose|i: int| 0 <= i < sorted@.len() && sorted@[i] == x;
                if i < p {
                    assert(before[i] == x);
                    assert(before.contains(x));
                } else if i > p {
                    assert(before[i - 1] == x);
                    assert(before.contains(x));
                }
            }
            if exists|k: int| n <= k < orig.len() && #[trigger] orig[k] == x {
                let k = choose|k: int| n <= k < orig.len() && #[trigger] orig[k] == x;
                if k == n {
                    assert(sorted@[p] == x);
                } else {
                    assert(before.contains(x));
                    let i = choose|i: int| 0 <= i < before.len() && before[i] == x;
                    if i < p {
                        assert(sorted@[i] == x);
                    } else {
                        assert(sorted@[i + 1] == x);
                    }
                }
            }
        }
    }
    assert forall|x: (Seq<char>, Seq<char>, Seq<char>)| #[trigger] list.contains(x) <==> sorted@.map_values(
        |a: PackageArtifactRef| artifact_fields(a),
    ).contains(x) by {
        let out = sorted@.map_values(|a: PackageArtifactRef| artifact_fields(a));
        if list.contains(x) {
            let k = choose|k: int| 0 <= k < list.len() && list[k] == x;
            assert(found@.len() == 0);
            assert(exists|m: int| found@.len() <= m < orig.len() && #[trigger] orig[m] == orig[k]);
            assert(sorted@.contains(orig[k]));
            let i = choose|i: int| 0 <= i < sorted@.len() && sorted@[i] == orig[k];
            assert(out[i] == x);
        }
        if out.contains(x) {
            let i = choose|i: int| 0 <= i < out.len() && out[i] == x;
            assert(sorted@.contains(sorted@[i]));
            let k = choose|k: int| 0 <= k < orig.len() && #[trigger] orig[k] == sorted@[i];
            assert(list[k] == x);
        }
    }
    Ok(sorted)
}

/// A page read as plain values: its releases, or the failure's message.
pub open spec fn page_text(r: Result<Vec<RepoRelease>, String>) -> Result<Seq<RepoRelease>, Seq<char>> {
    match r {
        Ok(v) => Ok(v@),
        Err(e) => Err(e@),
    }
}

/// A provenance read as plain values: the provenance, or the failure's message.
pub open spec fn provenance_text(r: Result<CommitProvenance, String>) -> Result<CommitProvenance, Seq<char>> {
    match r {
        Ok(p) => Ok(p),
        Err(e) => Err(e@),
    }
}

/// Reads releases and commit provenance of the toolchain repositories.
pub trait DevReleaseSource {
    /// `found` is what the source may report for page `page` of the releases
    /// of `repo`; by default anything.
    open spec fn reports_page(&self, repo: Seq<char>, page: int, found: Result<Seq<RepoRelease>, Seq<char>>) -> bool {
        true
    }

    /// `found` is what the source may report for the commit behind release
    /// `tag` of `repo`; by default anything.
    open spec fn reports_provenance(&self, repo: Seq<char>, tag: Seq<char>, found: Result<CommitProvenance, Seq<char>>) -> bool {
        true
    }

    /// Releases of `repo`, newest first, one page at a time (`page` starts at 1).
    fn releases_page(&self, repo: &str, page: u32) -> (r: Result<Vec<RepoRelease>, String>)
        ensures
            self.reports_page(repo@, page as int, page_text(r)),
    ;

    fn commit_provenance(&self, repo: &str, tag: &str) -> (r: Result<CommitProvenance, String>)
        ensures
            self.reports_provenance(repo@, tag@, provenance_text(r)),
    ;
}

/// The run number (patch) of a dev build.
pub open spec fn run_of(release: RepoRelease, lane: (u64, u64)) -> u64 {
    match dev_lane_parts(release, lane) {
        Some(p) => p.2,
        None => 0,
    }
}

/// `a` comes before `b` among candidates: higher run number first, then page order.
pub open spec fn key_before(a: (u64, usize), b: (u64, usize)) -> bool {
    a.0 > b.0 || (a.0 == b.0 && a.1 < b.1)
}

pub open spec fn is_candidate(releases: Seq<RepoRelease>, lane: (u64, u64), i: int) -> bool {
    0 <= i < releases.len() && dev_lane_parts(releases[i], lane) is Some
}

/// The candidates of `releases` in resolution order: newest build first.
pub open spec fn in_candidate_order(releases: Seq<RepoRelease>, lane: (u64, u64), order: Seq<(u64, usize)>) -> bool {
    &&& forall|k: int, l: int| 0 <= k < l < order.len() ==> key_before(#[trigger] order[k], #[trigger] order[l])
    &&& forall|k: int|
        0 <= k < order.len() ==> is_candidate(releases, lane, #[trigger] order[k].1 as int) && run_of(releases[order[k].1 as int], lane) == order[k].0
    &&& forall|i: int|
        is_candidate(releases, lane, i) ==> exists|k: int| 0 <= k < order.len() && #[trigger] order[k].1 == i
}

fn insert_candidate(v: &mut Vec<(u64, usize)>, x: (u64, usize))
    requires
        forall|k: int, l: int| 0 <= k < l < old(v)@.len() ==> key_before(#[trigger] old(v)@[k], #[trigger] old(v)@[l]),
        forall|k: int| 0 <= k < old(v)@.len() ==> #[trigger] old(v)@[k].1 != x.1,
    ensures
        forall|k: int, l: int| 0 <= k < l < final(v)@.len() ==> key_before(#[trigger] final(v)@[k], #[trigger] final(v)@[l]),
        exists|p: int| 0 <= p <= old(v)@.len() && final(v)@ == old(v)@.insert(p, x),
{
    let ghost before = v@;
    let mut p: usize = 0;
    while p < v.len() && (v[p].0 > x.0 || (v[p].0 == x.0 && v[p].1 < x.1))
        invariant
            p <= v@.len(),
            v@ == before,
            forall|k: int| 0 <= k < p ==> key_before(#[trigger] before[k], x),
        decreases v@.len() - p,
    {
        p = p + 1;
    }
    v.insert(p, x);
    assert forall|k: int, l: int| 0 <= k < l < v@.len() implies key_before(#[trigger] v@[k], #[trigger] v@[l]) by {
        if l < p {
            assert(v@[k] == before[k] && v@[l] == before[l]);
        } else if l == p {
            assert(v@[k] == before[k]);
        } else if k < p {
            assert(v@[k] == before[k] && v@[l] == before[l - 1]);
        } else if k == p {
            assert(v@[l] == before[l - 1]);
            assert(key_before(x, before[p as int]) || x.1 == before[p as int].1);
        } else {
            assert(v@[k] == before[k - 1] && v@[l] == before[l - 1]);
        }
    }
    assert(v@ == before.insert(p as int, x));
}

/// The candidates of `releases`, newest build first.
fn candidate_order(releases: &Vec<RepoRelease>, lane: (u64, u64)) -> (r: Vec<(u64, usize)>)
    ensures
        in_candidate_order(releases@, lane, r@),
{
    let mut order: Vec<(u64, usize)> = Vec::new();
    let mut i: usize = 0;
    while i < releases.len()
        invariant
            i <= releases@.len(),
            forall|k: int, l: int| 0 <= k < l < order@.len() ==> key_before(#[trigger] order@[k], #[trigger] order@[l]),
            forall|k: int|
                0 <= k < order@.len() ==> #[trigger] order@[k].1 < i && is_candidate(releases@, lane, order@[k].1 as int)
                    && run_of(releases@[order@[k].1 as int], lane) == order@[k].0,
            forall|j: int|
                0 <= j < i && is_candidate(releases@, lane, j) ==> exists|k: int|
                    0 <= k < order@.len() && #[trigger] order@[k].1 == j,
        decreases releases@.len() - i,
    {
        if let Some(version) = dev_lane_version(&releases[i], lane) {
            let ghost before = order@;
            insert_candidate(&mut order, (version.patch(), i));
            let ghost p = choose|p: int| 0 <= p <= before.len() && order@ == before.insert(p, (version@.2, i));
            assert forall|k: int|
                0 <= k < order@.len() implies #[trigger] order@[k].1 < i + 1 && is_candidate(releases@, lane, order@[k].1 as int)
                    && run_of(releases@[order@[k].1 as int], lane) == order@[k].0 by {
                if k < p {
                    assert(order@[k] == before[k]);
                } else if k > p {
                    assert(order@[k] == before[k - 1]);
                }
            }
            assert forall|j: int|
                0 <= j < i + 1 && is_candidate(releases@, lane, j) implies exists|k: int|
                    0 <= k < order@.len() && #[trigger] order@[k].1 == j by {
                if j == i {
                    assert(order@[p].1 == j);
                } else {
                    let k = choose|k: int| 0 <= k < before.len() && #[trigger] before[k].1 == j;
                    if k < p {
                        assert(order@[k] == before[k]);
                    } else {
                        assert(order@[k + 1] == before[k]);
                    }
                }
            }
        }
        i = i + 1;
    }
    order
}

pub open spec fn asset_names(release: RepoRelease) -> Seq<Seq<char>> {
    release.assets@.map_values(|a: RepoReleaseAsset| a.name@)
}

fn names_of(release: &RepoRelease) -> (r: Vec<String>)
    ensures
        r.deep_view() == asset_names(*release),
{
    let mut out: Vec<String> = Vec::new();
    let mut i: usize = 0;
    while i < release.assets.len()
        invariant
            i <= release.assets@.len(),
            out.deep_view() == asset_names(*release).take(i as int),
        decreases release.assets@.len() - i,
    {
        let ghost before = out.deep_view();
        let name = release.assets[i].name.clone();
        assert(name@ == release.assets@[i as int].name@);
        out.push(name);
        assert(out.deep_view() =~= before.push(name@));
        assert(asset_names(*release).take(i + 1) =~= asset_names(*release).take(i as int).push(name@));
        i = i + 1;
    }
    assert(asset_names(*release).take(release.assets@.len() as int) =~= asset_names(*release));
    out
}

/// A candidate whose archives are all uploaded with their checksums.
pub open spec fn is_complete(releases: Seq<RepoRelease>, lane: (u64, u64), i: int) -> bool {
    asset_verdict(
        asset_names(releases[i]),
        semver_display(dev_lane_parts(releases[i], lane)->0),
        Ok(()),
    )
}

/// `list` names every dev build of the lane, newest first, each with what
/// makes its assets incomplete.
pub open spec fn incomplete_listed(releases: Seq<RepoRelease>, lane: (u64, u64), list: Seq<IncompleteRelease>) -> bool {
    exists|order: Seq<(u64, usize)>|
        {
            &&& in_candidate_order(releases, lane, order)
            &&& order.len() > 0
            &&& list.len() == order.len()
            &&& forall|k: int|
                0 <= k < order.len() ==> {
                    let i = #[trigger] order[k].1 as int;
                    &&& list[k].tag == releases[i].tag
                    &&& asset_verdict(
                        asset_names(releases[i]),
                        semver_display(dev_lane_parts(releases[i], lane)->0),
                        Err(list[k].problem),
                    )
                }
        }
}

/// The release resolution pins, if any.
pub enum DevChoice {
    /// Pin `releases[index]`, at `version`.
    Pinned { index: usize, version: SemVersion },
    /// No release is a dev build in the lane.
    NoCandidates,
    /// Every dev build is incomplete; each with its problem, newest first.
    AllIncomplete(Vec<IncompleteRelease>),
}

/// The release to pin: the newest complete dev build in the lane (the first
/// listed among equals).
pub fn choose_dev_release(releases: &Vec<RepoRelease>, lane: (u64, u64)) -> (r: DevChoice)
    ensures
        match r {
            DevChoice::Pinned { index, version } => {
                &&& is_candidate(releases@, lane, index as int)
                &&& dev_lane_parts(releases@[index as int], lane) == Some(version@)
                &&& is_complete(releases@, lane, index as int)
                &&& forall|j: int|
                    #![trigger is_complete(releases@, lane, j)]
                    is_candidate(releases@, lane, j) && is_complete(releases@, lane, j) && j != index
                        ==> key_before(
                        (version@.2, index),
                        (run_of(releases@[j], lane), j as usize),
                    )
            },
            DevChoice::NoCandidates => forall|i: int| !is_candidate(releases@, lane, i),
            DevChoice::AllIncomplete(list) => {
                &&& exists|i: int| is_candidate(releases@, lane, i)
                &&& forall|i: int|
                    #![trigger is_complete(releases@, lane, i)]
                    is_candidate(releases@, lane, i) ==> !is_complete(releases@, lane, i)
                &&& incomplete_listed(releases@, lane, list@)
            },
        },
{
    let order = candidate_order(releases, lane);
    let mut incomplete: Vec<IncompleteRelease> = Vec::new();
    let mut k: usize = 0;
    while k < order.len()
        invariant
            k <= order@.len(),
            in_candidate_order(releases@, lane, order@),
            incomplete@.len() == k,
            forall|m: int| 0 <= m < k ==> !is_complete(releases@, lane, #[trigger] order@[m].1 as int),
            forall|m: int|
                0 <= m < k ==> {
                    let i = #[trigger] order@[m].1 as int;
                    &&& incomplete@[m].tag == releases@[i].tag
                    &&& asset_verdict(
                        asset_names(releases@[i]),
                        semver_display(dev_lane_parts(releases@[i], lane)->0),
                        Err(incomplete@[m].problem),
                    )
                },
        decreases order@.len() - k,
    {
        let index = order[k].1;
        assert(is_candidate(releases@, lane, order@[k as int].1 as int));
        let version = match dev_lane_version(&releases[index], lane) {
            Some(v) => v,
            None => {
                assert(false);
                return DevChoice::NoCandidates;
            },
        };
        let text = version_text(&version);
        let names = names_of(&releases[index]);
        match check_release_assets(&names, text.as_str()) {
            Ok(()) => {
                assert forall|j: int|
                    #![trigger is_complete(releases@, lane, j)]
                    is_candidate(releases@, lane, j) && is_complete(releases@, lane, j) && j != index
                        implies key_before(
                        (version@.2, index),
                        (run_of(releases@[j], lane), j as usize),
                    ) by {
                    let m = choose|m: int| 0 <= m < order@.len() && #[trigger] order@[m].1 == j;
                    if m < k {
                        assert(!is_complete(releases@, lane, order@[m].1 as int));
                    }
                    assert(m != k);
                    assert(key_before(order@[k as int], order@[m]));
                }
                return DevChoice::Pinned { index, version };
            },
            Err(problem) => {
                proof {
                    lemma_problem_not_clean(names.deep_view(), text@, problem);
                }
                incomplete.push(IncompleteRelease { tag: releases[index].tag.clone(), problem });
            },
        }
        k = k + 1;
    }
    if order.len() == 0 {
        assert forall|i: int| !is_candidate(releases@, lane, i) by {
            if is_candidate(releases@, lane, i) {
                let m = choose|m: int| 0 <= m < order@.len() && #[trigger] order@[m].1 == i;
            }
        }
        DevChoice::NoCandidates
    } else {
        assert(is_candidate(releases@, lane, order@[0].1 as int));
        assert forall|i: int|
            #![trigger is_complete(releases@, lane, i)]
            is_candidate(releases@, lane, i) implies !is_complete(releases@, lane, i) by {
            let m = choose|m: int| 0 <= m < order@.len() && #[trigger] order@[m].1 == i;
            assert(!is_complete(releases@, lane, order@[m].1 as int));
        }
        assert(incomplete_listed(releases@, lane, incomplete@));
        DevChoice::AllIncomplete(incomplete)
    }
}

/// Whether any release is a dev build in the lane.
fn has_candidate(releases: &Vec<RepoRelease>, lane: (u64, u64)) -> (r: bool)
    ensures
        r == exists|i: int| is_candidate(releases@, lane, i),
{
    let mut i: usize = 0;
    while i < releases.len()
        invariant
            i <= releases@.len(),
            forall|j: int| 0 <= j < i ==> !is_candidate(releases@, lane, j),
        decreases releases@.len() - i,
    {
        if dev_lane_version(&releases[i], lane).is_some() {
            assert(is_candidate(releases@, lane, i as int));
            return true;
        }
        i = i + 1;
    }
    false
}

/// `releases[index]` is the newest complete dev build in the lane (the first
/// listed among equals): the build resolution pins.
pub open spec fn newest_complete(releases: Seq<RepoRelease>, lane: (u64, u64), index: int) -> bool {
    &&& is_candidate(releases, lane, index)
    &&& is_complete(releases, lane, index)
    &&& forall|j: int|
        #![trigger is_complete(releases, lane, j)]
        is_candidate(releases, lane, j) && is_complete(releases, lane, j) && j != index ==> key_before(
            (run_of(releases[index], lane), index as usize),
            (run_of(releases[j], lane), j as usize),
        )
}

/// A plain `MAJOR.MINOR.RUN` version in `lane`.
pub open spec fn plain_in_lane(v: VersionParts, lane: (u64, u64)) -> bool {
    v.0 == lane.0 && v.1 == lane.1 && v.3.len() == 0 && v.4.len() == 0
}

/// The releases of pages read one after another.
pub open spec fn concat_pages(ps: Seq<Seq<RepoRelease>>) -> Seq<RepoRelease>
    decreases ps.len(),
{
    if ps.len() == 0 {
        Seq::empty()
    } else {
        concat_pages(ps.drop_last()) + ps.last()
    }
}

pub open spec fn has_candidate_in(releases: Seq<RepoRelease>, lane: (u64, u64)) -> bool {
    exists|i: int| is_candidate(releases, lane, i)
}

/// Pages `1..=ps.len()` of the releases of `repo` were reported as `ps`, and
/// every page but the last was non-empty and left no dev build in the lane
/// among the releases read so far.
pub open spec fn pages_continue<S: DevReleaseSource + ?Sized>(
    source: &S,
    repo: Seq<char>,
    lane: (u64, u64),
    ps: Seq<Seq<RepoRelease>>,
) -> bool {
    &&& forall|k: int| 0 <= k < ps.len() ==> source.reports_page(repo, k + 1, Ok(#[trigger] ps[k]))
    &&& forall|k: int|
        0 <= k < ps.len() - 1 ==> (#[trigger] ps[k]).len() > 0 && !has_candidate_in(
            concat_pages(ps.take(k + 1)),
            lane,
        )
}

/// `ps` are the pages resolution reads: from the first, up to five, ending
/// with an empty page, with the page that brings a dev build in the lane,
/// or with the fifth.
pub open spec fn pages_read<S: DevReleaseSource + ?Sized>(
    source: &S,
    repo: Seq<char>,
    lane: (u64, u64),
    ps: Seq<Seq<RepoRelease>>,
) -> bool {
    &&& 1 <= ps.len() <= 5
    &&& pages_continue(source, repo, lane, ps)
    &&& ps.last().len() == 0 || has_candidate_in(concat_pages(ps), lane) || ps.len() == 5
}

/// Pages were read as `ps`, each leading on to the next, until reading page
/// `ps.len() + 1` failed with `message`.
pub open spec fn pages_failed<S: DevReleaseSource + ?Sized>(
    source: &S,
    repo: Seq<char>,
    lane: (u64, u64),
    ps: Seq<Seq<RepoRelease>>,
    message: Seq<char>,
) -> bool {
    &&& ps.len() < 5
    &&& pages_continue(source, repo, lane, ps)
    &&& ps.len() > 0 ==> ps.last().len() > 0 && !has_candidate_in(concat_pages(ps), lane)
    &&& source.reports_page(repo, ps.len() + 1 as int, Err(message))
}

/// What pinning `release` at `version` gives: its archives named, then its
/// commit read and refused when it does not look like one GitHub made.
pub open spec fn pinned_outcome<S: DevReleaseSource + ?Sized>(
    source: &S,
    repo: Seq<char>,
    crate_in_manifest: Seq<char>,
    release: RepoRelease,
    version: Seq<char>,
    r: Result<ResolvedDevPackage, DevReleaseError>,
) -> bool {
    match r {
        Ok(p) => {
            &&& p.version@ == version
            &&& artifacts_outcome(release, crate_in_manifest, version, Ok(p.artifacts))
            &&& exists|c: CommitProvenance|
                source.reports_provenance(repo, release.tag@, Ok(c)) && commit_problems_ok(
                    c,
                    Seq::empty(),
                )
        },
        Err(DevReleaseError::Provenance { repo: rp, tag, message }) => {
            &&& rp@ == repo && tag@ == release.tag@
            &&& exists|a: Vec<PackageArtifactRef>|
                artifacts_outcome(release, crate_in_manifest, version, Ok(a))
            &&& source.reports_provenance(repo, release.tag@, Err(message@))
        },
        Err(DevReleaseError::UncleanCommit { repo: rp, tag, sha, problems }) => {
            &&& rp@ == repo && tag@ == release.tag@
            &&& exists|a: Vec<PackageArtifactRef>|
                artifacts_outcome(release, crate_in_manifest, version, Ok(a))
            &&& exists|c: CommitProvenance|
                source.reports_provenance(repo, release.tag@, Ok(c)) && sha == c.sha
                    && problems@.len() > 0 && commit_problems_ok(c, problems@)
        },
        Err(e) => artifacts_outcome(release, crate_in_manifest, version, Err(e)),
    }
}

/// What resolution gives once `releases` have been read: no dev build in
/// the lane; every one incomplete; else the newest complete build pinned.
pub open spec fn releases_outcome<S: DevReleaseSource + ?Sized>(
    source: &S,
    repo: Seq<char>,
    crate_in_manifest: Seq<char>,
    lane: (u64, u64),
    releases: Seq<RepoRelease>,
    r: Result<ResolvedDevPackage, DevReleaseError>,
) -> bool {
    if !has_candidate_in(releases, lane) {
        r matches Err(DevReleaseError::NoDevRelease { repo: rp, major, minor }) && rp@ == repo
            && major == lane.0 && minor == lane.1
    } else if forall|i: int|
        #![trigger is_complete(releases, lane, i)]
        is_candidate(releases, lane, i) ==> !is_complete(releases, lane, i) {
        r matches Err(DevReleaseError::Incomplete { repo: rp, major, minor, releases: list })
            && rp@ == repo && major == lane.0 && minor == lane.1 && incomplete_listed(
            releases,
            lane,
            list@,
        )
    } else {
        exists|index: int|
            newest_complete(releases, lane, index) && pinned_outcome(
                source,
                repo,
                crate_in_manifest,
                releases[index],
                semver_display(dev_lane_parts(releases[index], lane)->0),
                r,
            )
    }
}

/// `r` is what resolving `repo` (named `crate_in_manifest` in the manifest)
/// in `lane` gives when the source reports the pages `ps`.
pub open spec fn dev_resolution<S: DevReleaseSource + ?Sized>(
    source: &S,
    repo: Seq<char>,
    crate_in_manifest: Seq<char>,
    lane: (u64, u64),
    ps: Seq<Seq<RepoRelease>>,
    r: Result<ResolvedDevPackage, DevReleaseError>,
) -> bool {
    match r {
        Err(DevReleaseError::ListReleases { repo: rp, message }) => rp@ == repo && pages_failed(
            source,
            repo,
            lane,
            ps,
            message@,
        ),
        _ => pages_read(source, repo, lane, ps) && releases_outcome(
            source,
            repo,
            crate_in_manifest,
            lane,
            concat_pages(ps),
            r,
        ),
    }
}

/// Pins one package: reads up to five pages of the repository's releases
/// (stopping at the first page that yields a dev build in the lane), pins the
/// newest complete one, names its archives, and refuses it when its commit
/// does not look like one GitHub made. A refused build is never replaced by
/// an older one.
pub fn resolve_dev_package<S: DevReleaseSource>(
    source: &S,
    repo: &str,
    crate_in_manifest: &str,
    lane: (u64, u64),
) -> (r: Result<ResolvedDevPackage, DevReleaseError>)
    ensures
        exists|ps: Seq<Seq<RepoRelease>>|
            dev_resolution(source, repo@, crate_in_manifest@, lane, ps, r),
        r matches Ok(p) ==> {
            &&& p.artifacts@.len() > 0
            &&& sorted_by_target(p.artifacts@)
            &&& exists|v: VersionParts| plain_in_lane(v, lane) && p.version@ == semver_display(v)
        },
{
    let mut releases: Vec<RepoRelease> = Vec::new();
    let ghost mut ps: Seq<Seq<RepoRelease>> = Seq::empty();
    let mut page: u32 = 1;
    let mut stop = false;
    while !stop && page <= 5
        invariant
            1 <= page <= 6,
            ps.len() == page - 1,
            releases@ == concat_pages(ps),
            pages_continue(source, repo@, lane, ps),
            !stop && ps.len() > 0 ==> ps.last().len() > 0 && !has_candidate_in(releases@, lane),
            stop ==> ps.len() >= 1 && (ps.last().len() == 0 || has_candidate_in(releases@, lane)),
        decreases 6 - page,
    {
        let found = source.releases_page(repo, page);
        let mut batch = match found {
            Ok(batch) => batch,
            Err(message) => {
                assert(pages_failed(source, repo@, lane, ps, message@));
                let r = Err(DevReleaseError::ListReleases { repo: owned(repo), message });
                assert(dev_resolution(source, repo@, crate_in_manifest@, lane, ps, r));
                return r;
            },
        };
        let ghost b = batch@;
        let ghost old_ps = ps;
        proof {
            ps = ps.push(b);
            assert(ps.drop_last() =~= old_ps);
            assert(old_ps.take(old_ps.len() as int) =~= old_ps);
            assert forall|k: int| 0 <= k < ps.len() - 1 implies (#[trigger] ps[k]).len() > 0
                && !has_candidate_in(concat_pages(ps.take(k + 1)), lane) by {
                assert(ps[k] == old_ps[k]);
                assert(ps.take(k + 1) =~= old_ps.take(k + 1));
            }
            assert forall|k: int| 0 <= k < ps.len() implies source.reports_page(
                repo@,
                k + 1,
                Ok(#[trigger] ps[k]),
            ) by {
                if k < old_ps.len() {
                    assert(ps[k] == old_ps[k]);
                }
            }
        }
        if batch.len() == 0 {
            stop = true;
            assert(concat_pages(old_ps) + b =~= concat_pages(old_ps));
        } else {
            releases.append(&mut batch);
            if has_candidate(&releases, lane) {
                stop = true;
            }
        }
        page = page + 1;
    }
    let ghost releases_read = releases@;
    assert(pages_read(source, repo@, lane, ps));
    let r = match choose_dev_release(&releases, lane) {
        DevChoice::NoCandidates => Err(
            DevReleaseError::NoDevRelease { repo: owned(repo), major: lane.0, minor: lane.1 },
        ),
        DevChoice::AllIncomplete(list) => Err(
            DevReleaseError::Incomplete {
                repo: owned(repo),
                major: lane.0,
                minor: lane.1,
                releases: list,
            },
        ),
        DevChoice::Pinned { index, version } => {
            let text = version_text(&version);
            let release = &releases[index];
            proof {
                assert(newest_complete(releases@, lane, index as int));
                assert(!(forall|i: int|
                    #![trigger is_complete(releases@, lane, i)]
                    is_candidate(releases@, lane, i) ==> !is_complete(releases@, lane, i)));
            }
            let artifacts = artifacts_for(release, crate_in_manifest, text.as_str());
            let artifacts = match artifacts {
                Ok(a) => a,
                Err(e) => {
                    let r = Err(e);
                    assert(pinned_outcome(
                        source,
                        repo@,
                        crate_in_manifest@,
                        releases@[index as int],
                        text@,
                        r,
                    ));
                    assert(releases_outcome(source, repo@, crate_in_manifest@, lane, releases@, r));
                    assert(dev_resolution(source, repo@, crate_in_manifest@, lane, ps, r));
                    return r;
                },
            };
            let provenance = match source.commit_provenance(repo, release.tag.as_str()) {
                Ok(p) => p,
                Err(message) => {
                    let r = Err(
                        DevReleaseError::Provenance {
                            repo: owned(repo),
                            tag: release.tag.clone(),
                            message,
                        },
                    );
                    assert(pinned_outcome(
                        source,
                        repo@,
                        crate_in_manifest@,
                        releases@[index as int],
                        text@,
                        r,
                    ));
                    assert(releases_outcome(source, repo@, crate_in_manifest@, lane, releases@, r));
                    assert(dev_resolution(source, repo@, crate_in_manifest@, lane, ps, r));
                    return r;
                },
            };
            match refuse_unclean_commit(repo, release.tag.as_str(), &provenance) {
                Ok(()) => {},
                Err(e) => {
                    let r = Err(e);
                    assert(artifacts_outcome(releases@[index as int], crate_in_manifest@, text@, Ok(artifacts)));
                    assert(source.reports_provenance(repo@, releases@[index as int].tag@, Ok(provenance)));
                    assert(pinned_outcome(
                        source,
                        repo@,
                        crate_in_manifest@,
                        releases@[index as int],
                        text@,
                        r,
                    ));
                    assert(releases_outcome(source, repo@, crate_in_manifest@, lane, releases@, r));
                    assert(dev_resolution(source, repo@, crate_in_manifest@, lane, ps, r));
                    return r;
                },
            }
            assert(plain_in_lane(version@, lane));
            let r = Ok(ResolvedDevPackage { version: text, artifacts });
            assert(pinned_outcome(
                source,
                repo@,
                crate_in_manifest@,
                releases@[index as int],
                text@,
                r,
            ));
            r
        },
    };
    assert(releases_outcome(source, repo@, crate_in_manifest@, lane, releases@, r));
    assert(dev_resolution(source, repo@, crate_in_manifest@, lane, ps, r));
    r
}

/// A dev manifest package pinned from its GitHub release.
pub open spec fn github_package(p: ToolchainPackage, crate_name: Seq<char>, bins: Seq<Seq<char>>, lane: (u64, u64)) -> bool {
    &&& p.crate_name@ == manifest_crate_name("dev"@, crate_name)
    &&& p.bins.deep_view() == manifest_bins("dev"@, bins)
    &&& p.artifacts matches Some(a) && a@.len() > 0 && sorted_by_target(a@)
    &&& exists|v: VersionParts| plain_in_lane(v, lane) && p.version@ == semver_display(v)
}

/// Resolving a package never ends for want of a lane.
proof fn lemma_no_lane_not_resolved<S: DevReleaseSource + ?Sized>(
    source: &S,
    repo: Seq<char>,
    crate_in_manifest: Seq<char>,
    lane: (u64, u64),
    ps: Seq<Seq<RepoRelease>>,
    e: DevReleaseError,
)
    requires
        dev_resolution(source, repo, crate_in_manifest, lane, ps, Err(e)),
    ensures
        !(e is NoLane),
{
    if e is NoLane {
        let releases = concat_pages(ps);
        if has_candidate_in(releases, lane) && !(forall|i: int|
            #![trigger is_complete(releases, lane, i)]
            is_candidate(releases, lane, i) ==> !is_complete(releases, lane, i)) {
            let index = choose|index: int|
                newest_complete(releases, lane, index) && pinned_outcome(
                    source,
                    repo,
                    crate_in_manifest,
                    releases[index],
                    semver_display(dev_lane_parts(releases[index], lane)->0),
                    Err(e),
                );
            assert(!artifacts_outcome(
                releases[index],
                crate_in_manifest,
                semver_display(dev_lane_parts(releases[index], lane)->0),
                Err(e),
            ));
        }
    }
}

/// A dev manifest package holds what resolving its catalogue entry's
/// repository in `lane` gave.
pub open spec fn package_resolved<S: DevReleaseSource + ?Sized>(
    source: &S,
    p: ToolchainPackage,
    entry: PackageSpec,
    lane: (u64, u64),
) -> bool {
    p.artifacts matches Some(a) && exists|ps: Seq<Seq<RepoRelease>>|
        dev_resolution(
            source,
            entry.crate_name@,
            p.crate_name@,
            lane,
            ps,
            Ok(ResolvedDevPackage { version: p.version, artifacts: a }),
        )
}

/// A dev-channel manifest for gtc `release`, every catalogue package pinned
/// from GitHub releases in the release's lane, with its archives; the first
/// package that cannot be pinned ends it with that package's error.
pub fn snapshot_manifest_from_github_releases<S: DevReleaseSource>(
    release: &str,
    catalogue: &Catalogue,
    source: &S,
    created_at: Option<String>,
) -> (r: Result<ToolchainManifest, DevReleaseError>)
    ensures
        lane_spec(release@) is None <==> (r matches Err(DevReleaseError::NoLane { release: t }) && t@
            == release@),
        r matches Err(e) ==> e is NoLane || exists|i: int|
            0 <= i < catalogue.toolchain@.len() && exists|ps: Seq<Seq<RepoRelease>>|
                dev_resolution(
                    source,
                    (#[trigger] catalogue.toolchain@[i]).crate_name@,
                    manifest_crate_name("dev"@, catalogue.toolchain@[i].crate_name@),
                    lane_spec(release@)->0,
                    ps,
                    Err(e),
                ),
        r matches Ok(m) ==> {
            &&& manifest_header(m, release@, "dev"@, created_at)
            &&& m.extension_packs is None
            &&& m.components is None
            &&& m.packages@.len() == catalogue.toolchain@.len()
            &&& forall|i: int|
                0 <= i < m.packages@.len() ==> github_package(
                    #[trigger] m.packages@[i],
                    catalogue.toolchain@[i].crate_name@,
                    catalogue.toolchain@[i].bins.deep_view(),
                    lane_spec(release@)->0,
                ) && package_resolved(
                    source,
                    m.packages@[i],
                    catalogue.toolchain@[i],
                    lane_spec(release@)->0,
                )
        },
{
    let lane = match lane_of(release) {
        Some(lane) => lane,
        None => return Err(DevReleaseError::NoLane { release: owned(release) }),
    };
    let mut packages: Vec<ToolchainPackage> = Vec::new();
    let mut i: usize = 0;
    while i < catalogue.toolchain.len()
        invariant
            i <= catalogue.toolchain@.len(),
            lane_spec(release@) == Some(lane),
            packages@.len() == i,
            forall|k: int|
                0 <= k < i ==> github_package(
                    #[trigger] packages@[k],
                    catalogue.toolchain@[k].crate_name@,
                    catalogue.toolchain@[k].bins.deep_view(),
                    lane,
                ) && package_resolved(source, packages@[k], catalogue.toolchain@[k], lane),
        decreases catalogue.toolchain@.len() - i,
    {
        let entry = &catalogue.toolchain[i];
        let crate_in_manifest = manifest_crate_name_for_source("dev", entry.crate_name.as_str());
        let resolved = resolve_dev_package(
            source,
            entry.crate_name.as_str(),
            crate_in_manifest.as_str(),
            lane,
        );
        let ghost witness = choose|ps: Seq<Seq<RepoRelease>>|
            dev_resolution(source, entry.crate_name@, crate_in_manifest@, lane, ps, resolved);
        assert(dev_resolution(source, entry.crate_name@, crate_in_manifest@, lane, witness, resolved));
        assert(catalogue.toolchain@[i as int] == *entry);
        assert(crate_in_manifest@ == manifest_crate_name("dev"@, entry.crate_name@));
        let resolved = match resolved {
            Ok(p) => p,
            Err(e) => {
                proof {
                    lemma_no_lane_not_resolved(
                        source,
                        entry.crate_name@,
                        crate_in_manifest@,
                        lane,
                        witness,
                        e,
                    );
                    assert(dev_resolution(
                        source,
                        catalogue.toolchain@[i as int].crate_name@,
                        manifest_crate_name("dev"@, catalogue.toolchain@[i as int].crate_name@),
                        lane_spec(release@)->0,
                        witness,
                        Err(e),
                    ));
                }
                return Err(e);
            },
        };
        let ghost rv = resolved;
        let package = ToolchainPackage {
            crate_name: crate_in_manifest,
            bins: manifest_bins_for_source("dev", &entry.bins),
            version: resolved.version,
            artifacts: Some(resolved.artifacts),
        };
        proof {
            assert(ResolvedDevPackage { version: package.version, artifacts: rv.artifacts } == rv);
            assert(dev_resolution(
                source,
                entry.crate_name@,
                package.crate_name@,
                lane,
                witness,
                Ok(ResolvedDevPackage { version: package.version, artifacts: rv.artifacts }),
            ));
        }
        assert(package_resolved(source, package, *entry, lane));
        packages.push(package);
        i = i + 1;
    }
    Ok(
        ToolchainManifest {
            schema: toolchain_manifest_schema().to_string(),
            toolchain: toolchain_name_text().to_string(),
            version: owned(release),
            channel: Some("dev".to_string()),
            created_at,
            packages,
            extension_packs: None,
            components: None,
            gtc: None,
        },
    )
}

} // verus!
