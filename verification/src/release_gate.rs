//! The stable-lane publish gate: every pinned package must have a finished
//! GitHub release, and the gtc artifacts a manifest names come from the release.
use vstd::prelude::*;

use crate::ordered::{contains_str, insert_sorted, strictly_sorted};
use crate::release::{affects_stable, affects_stable_channel, GtcArtifactRef, ReleaseError, ToolchainManifest, ToolchainPackage};
use crate::text::{concat, concat3, contains, contains_seq, ends_with, has_suffix, owned, str_eq, trim_start_all, trim_start_matches};

verus! {

/// The infix every versioned archive of `version` carries.
pub open spec fn version_marker(version: Seq<char>) -> Seq<char> {
    "-v"@ + version + "-"@
}

/// A versioned release archive of `version`: `.tgz` or `.zip`, carrying `-v<version>-`.
pub open spec fn is_release_archive(name: Seq<char>, version: Seq<char>) -> bool {
    contains_seq(name, version_marker(version)) && (has_suffix(name, ".tgz"@) || has_suffix(
        name,
        ".zip"@,
    ))
}

/// An archive among `names` whose `.sha256` sibling is not there.
pub open spec fn lacks_checksum(names: Seq<Seq<char>>, version: Seq<char>, name: Seq<char>) -> bool {
    names.contains(name) && is_release_archive(name, version) && !names.contains(name + ".sha256"@)
}

pub open spec fn has_archive(names: Seq<Seq<char>>, version: Seq<char>) -> bool {
    exists|i: int| 0 <= i < names.len() && is_release_archive(#[trigger] names[i], version)
}

/// Why a release's assets are not usable yet.
#[derive(Clone, Debug, PartialEq, Eq)]
pub enum AssetProblem {
    /// No versioned archive has been uploaded.
    NoArchives,
    /// These archives, sorted, lack their `.sha256` sibling.
    MissingChecksums(Vec<String>),
}

/// `r` is the verdict on a release with asset `names` for `version`.
pub open spec fn asset_verdict(
    names: Seq<Seq<char>>,
    version: Seq<char>,
    r: Result<(), AssetProblem>,
) -> bool {
    match r {
        Ok(()) => has_archive(names, version) && forall|y: Seq<char>|
            !#[trigger] lacks_checksum(names, version, y),
        Err(AssetProblem::NoArchives) => !has_archive(names, version),
        Err(AssetProblem::MissingChecksums(v)) => {
            &&& has_archive(names, version)
            &&& v@.len() > 0
            &&& strictly_sorted(v.deep_view())
            &&& forall|y: Seq<char>|
                #![trigger v.deep_view().contains(y)]
                v.deep_view().contains(y) <==> lacks_checksum(names, version, y)
        },
    }
}

/// A release is usable once it has at least one versioned archive and every
/// versioned archive has its `.sha256` sibling. Unversioned aliases are ignored.
pub fn check_release_assets(assets: &Vec<String>, version: &str) -> (r: Result<(), AssetProblem>)
    ensures
        asset_verdict(assets.deep_view(), version@, r),
{
    let ghost names = assets.deep_view();
    let marker = concat3("-v", version, "-");
    let mut found = false;
    let mut missing: Vec<String> = Vec::new();
    let mut i: usize = 0;
    while i < assets.len()
        invariant
            i <= assets@.len(),
            names == assets.deep_view(),
            marker@ == version_marker(version@),
            found <==> exists|k: int| 0 <= k < i && is_release_archive(#[trigger] names[k], version@),
            strictly_sorted(missing.deep_view()),
            forall|y: Seq<char>|
                #![trigger missing.deep_view().contains(y)]
                missing.deep_view().contains(y) <==> (exists|k: int|
                    0 <= k < i && #[trigger] names[k] == y) && lacks_checksum(names, version@, y),
        decreases assets@.len() - i,
    {
        let name = assets[i].as_str();
        assert(names[i as int] == name@);
        let archive = contains(name, marker.as_str()) && (ends_with(name, ".tgz") || ends_with(
            name,
            ".zip",
        ));
        if archive {
            found = true;
            let sibling = concat(name, ".sha256");
            if !contains_str(assets, sibling.as_str()) {
                let ghost before = missing.deep_view();
                insert_sorted(&mut missing, owned(name));
                assert forall|y: Seq<char>| #[trigger] missing.deep_view().contains(y) <==> (exists|k: int|
                    0 <= k < i + 1 && #[trigger] names[k] == y) && lacks_checksum(names, version@, y) by {
                    if y == name@ {
                        assert(names.contains(y));
                    }
                    if (exists|k: int| 0 <= k < i + 1 && #[trigger] names[k] == y) && y != name@ {
                        let k = choose|k: int| 0 <= k < i + 1 && #[trigger] names[k] == y;
                        assert(k < i);
                    }
                }
            } else {
                assert forall|y: Seq<char>| #[trigger] missing.deep_view().contains(y) <==> (exists|k: int|
                    0 <= k < i + 1 && #[trigger] names[k] == y) && lacks_checksum(names, version@, y) by {
                    if (exists|k: int| 0 <= k < i + 1 && #[trigger] names[k] == y) && y != name@ {
                        let k = choose|k: int| 0 <= k < i + 1 && #[trigger] names[k] == y;
                        assert(k < i);
                    }
                }
            }
        } else {
            assert forall|y: Seq<char>| #[trigger] missing.deep_view().contains(y) <==> (exists|k: int|
                0 <= k < i + 1 && #[trigger] names[k] == y) && lacks_checksum(names, version@, y) by {
                if (exists|k: int| 0 <= k < i + 1 && #[trigger] names[k] == y) && y != name@ {
                    let k = choose|k: int| 0 <= k < i + 1 && #[trigger] names[k] == y;
                    assert(k < i);
                }
            }
        }
        i = i + 1;
    }
    if !found {
        return Err(AssetProblem::NoArchives);
    }
    assert forall|y: Seq<char>| #[trigger] missing.deep_view().contains(y) <==> lacks_checksum(
        names,
        version@,
        y,
    ) by {
        if lacks_checksum(names, version@, y) {
            let k = choose|k: int| 0 <= k < names.len() && names[k] == y;
            assert(names[k] == y);
        }
    }
    if missing.len() == 0 {
        assert forall|y: Seq<char>| !#[trigger] lacks_checksum(names, version@, y) by {
            if lacks_checksum(names, version@, y) {
                assert(!missing.deep_view().contains(y));
            }
        }
        Ok(())
    } else {
        Err(AssetProblem::MissingChecksums(missing))
    }
}

/// What is wrong with one pinned package's release.
#[derive(Clone, Debug, PartialEq, Eq)]
pub enum ReleaseProblemKind {
    /// No GitHub release exists for the tag (build not finished).
    NoRelease,
    Assets(AssetProblem),
}

/// A pinned package whose release is not downloadable yet.
#[derive(Clone, Debug, PartialEq, Eq)]
pub struct ReleaseProblem {
    pub crate_name: String,
    /// `v<version>`.
    pub tag: String,
    pub kind: ReleaseProblemKind,
}

/// A release lookup as plain values: the release's asset names, `None` when
/// the release does not exist, or the failure's message.
pub open spec fn assets_text(r: Result<Option<Vec<String>>, String>) -> Result<
    Option<Seq<Seq<char>>>,
    Seq<char>,
> {
    match r {
        Ok(Some(a)) => Ok(Some(a.deep_view())),
        Ok(None) => Ok(None),
        Err(e) => Err(e@),
    }
}

/// An artifact lookup as plain values: the release's assets, `None` when
/// the release does not exist or is not read as artifacts, or the failure.
pub open spec fn artifacts_text(r: Result<Option<Vec<ReleaseArtifact>>, String>) -> Result<
    Option<Seq<ReleaseArtifact>>,
    Seq<char>,
> {
    match r {
        Ok(Some(a)) => Ok(Some(a@)),
        Ok(None) => Ok(None),
        Err(e) => Err(e@),
    }
}

/// Reads one package's GitHub release. `Ok(None)` when the release does not
/// exist. A checker that reads asset names only answers `Ok(None)` for
/// artifacts.
pub trait ReleaseAssetChecker {
    /// `found` is what the checker may report for the asset names of release
    /// `tag` of `repo`; by default anything.
    open spec fn reports_assets(&self, repo: Seq<char>, tag: Seq<char>, found: Result<Option<Seq<Seq<char>>>, Seq<char>>) -> bool {
        true
    }

    /// `found` is what the checker may report for the assets (with URL and
    /// digest) of release `tag` of `repo`; by default anything.
    open spec fn reports_artifacts(
        &self,
        repo: Seq<char>,
        tag: Seq<char>,
        found: Result<Option<Seq<ReleaseArtifact>>, Seq<char>>,
    ) -> bool {
        true
    }

    /// The release's asset names.
    fn release_assets(&self, repo: &str, tag: &str) -> (r: Result<Option<Vec<String>>, String>)
        ensures
            self.reports_assets(repo@, tag@, assets_text(r)),
    ;

    /// The release's assets with their URL and digest.
    fn release_artifacts(&self, repo: &str, tag: &str) -> (r: Result<Option<Vec<ReleaseArtifact>>, String>)
        ensures
            self.reports_artifacts(repo@, tag@, artifacts_text(r)),
    ;
}

/// A release asset with the download URL and digest GitHub reports.
#[derive(Clone, Debug, PartialEq, Eq)]
pub struct ReleaseArtifact {
    pub name: String,
    pub url: Option<String>,
    pub sha256: Option<String>,
}

/// The release of a package was found and its assets pass the check.
pub open spec fn lookup_clean(lookup: Option<Vec<String>>, version: Seq<char>) -> bool {
    lookup matches Some(a) && asset_verdict(a.deep_view(), version, Ok(()))
}

/// `q` names package `p` and its release tag.
pub open spec fn problem_for(q: ReleaseProblem, p: ToolchainPackage) -> bool {
    q.crate_name@ == p.crate_name@ && q.tag@ == "v"@ + p.version@
}

/// `q` reports what is wrong with `lookup`, the release found for `p`.
pub open spec fn problem_states(q: ReleaseProblem, p: ToolchainPackage, lookup: Option<Vec<String>>) -> bool {
    &&& problem_for(q, p)
    &&& match lookup {
        None => q.kind is NoRelease,
        Some(a) => q.kind matches ReleaseProblemKind::Assets(ap) && asset_verdict(
            a.deep_view(),
            p.version@,
            Err(ap),
        ),
    }
}

/// `out` lists, in package order, one problem for every package whose
/// release lookup is not clean.
pub open spec fn problems_follow(
    pkgs: Seq<ToolchainPackage>,
    lookups: Seq<Option<Vec<String>>>,
    out: Seq<ReleaseProblem>,
) -> bool
    decreases pkgs.len(),
{
    if pkgs.len() == 0 {
        out.len() == 0
    } else {
        let n = pkgs.len() - 1;
        if lookup_clean(lookups[n], pkgs[n].version@) {
            problems_follow(pkgs.drop_last(), lookups.drop_last(), out)
        } else {
            &&& out.len() > 0
            &&& problem_states(out.last(), pkgs[n], lookups[n])
            &&& problems_follow(pkgs.drop_last(), lookups.drop_last(), out.drop_last())
        }
    }
}

/// A release with a problem does not also pass.
pub proof fn lemma_problem_not_clean(names: Seq<Seq<char>>, version: Seq<char>, problem: AssetProblem)
    requires
        asset_verdict(names, version, Err(problem)),
    ensures
        !asset_verdict(names, version, Ok(())),
{
    if let AssetProblem::MissingChecksums(v) = problem {
        let y = v.deep_view()[0];
        assert(v.deep_view().contains(y));
        assert(lacks_checksum(names, version, y));
    }
}

/// The problems of the packages, given what each package's release lookup found.
pub fn release_problems(packages: &Vec<ToolchainPackage>, lookups: &Vec<Option<Vec<String>>>) -> (r: Vec<ReleaseProblem>)
    requires
        lookups@.len() == packages@.len(),
    ensures
        problems_follow(packages@, lookups@, r@),
{
    let mut out: Vec<ReleaseProblem> = Vec::new();
    let mut i: usize = 0;
    while i < packages.len()
        invariant
            i <= packages@.len(),
            lookups@.len() == packages@.len(),
            problems_follow(packages@.take(i as int), lookups@.take(i as int), out@),
        decreases packages@.len() - i,
    {
        let package = &packages[i];
        let tag = concat("v", package.version.as_str());
        let ghost before = out@;
        let ghost pk = packages@.take(i + 1);
        let ghost lk = lookups@.take(i + 1);
        assert(pk.drop_last() =~= packages@.take(i as int));
        assert(lk.drop_last() =~= lookups@.take(i as int));
        assert(pk[i as int] == packages@[i as int]);
        assert(lk[i as int] == lookups@[i as int]);
        match &lookups[i] {
            None => {
                out.push(
                    ReleaseProblem {
                        crate_name: package.crate_name.clone(),
                        tag,
                        kind: ReleaseProblemKind::NoRelease,
                    },
                );
                assert(out@.drop_last() =~= before);
            },
            Some(assets) => {
                match check_release_assets(assets, package.version.as_str()) {
                    Ok(()) => {},
                    Err(problem) => {
                        proof {
                            lemma_problem_not_clean(assets.deep_view(), package.version@, problem);
                        }
                        out.push(
                            ReleaseProblem {
                                crate_name: package.crate_name.clone(),
                                tag,
                                kind: ReleaseProblemKind::Assets(problem),
                            },
                        );
                        assert(out@.drop_last() =~= before);
                    },
                }
            },
        }
        i = i + 1;
    }
    assert(packages@.take(packages@.len() as int) =~= packages@);
    assert(lookups@.take(lookups@.len() as int) =~= lookups@);
    out
}

/// The tag of a package's GitHub release.
pub open spec fn release_tag(p: ToolchainPackage) -> Seq<char> {
    "v"@ + p.version@
}

/// The asset names a lookup found, as plain values.
pub open spec fn names_of(lookup: Option<Vec<String>>) -> Option<Seq<Seq<char>>> {
    match lookup {
        Some(a) => Some(a.deep_view()),
        None => None,
    }
}

/// `lookups` are, package by package, what `checker` reported for the
/// release `v<version>` of the package's crate.
pub open spec fn lookups_reported<C: ReleaseAssetChecker + ?Sized>(
    checker: &C,
    pkgs: Seq<ToolchainPackage>,
    lookups: Seq<Option<Vec<String>>>,
) -> bool {
    &&& lookups.len() == pkgs.len()
    &&& forall|i: int|
        0 <= i < pkgs.len() ==> checker.reports_assets(
            pkgs[i].crate_name@,
            release_tag(pkgs[i]),
            Ok(names_of(#[trigger] lookups[i])),
        )
}

/// What the publish gate answers for `manifest` moving `target_tag`, given
/// what `checker` reports: nothing to check off the stable lane; otherwise
/// the first failed lookup, or every release looked up and the problems
/// found, in package order.
pub open spec fn gate_outcome<C: ReleaseAssetChecker + ?Sized>(
    checker: &C,
    manifest: ToolchainManifest,
    target_tag: Option<Seq<char>>,
    r: Result<(), ReleaseError>,
) -> bool {
    &&& (!affects_stable(manifest, target_tag) ==> r is Ok)
    &&& (r matches Err(e) ==> e is ReleaseLookup || e is NotDownloadable)
    &&& (r matches Err(ReleaseError::ReleaseLookup { repo, tag, message }) ==> exists|i: int|
        0 <= i < manifest.packages@.len() && repo@ == (#[trigger] manifest.packages@[i]).crate_name@
            && tag@ == release_tag(manifest.packages@[i]) && checker.reports_assets(
            repo@,
            tag@,
            Err(message@),
        ))
    &&& (r matches Err(ReleaseError::NotDownloadable { version, problems }) ==> {
        &&& version == manifest.version
        &&& problems@.len() > 0
        &&& exists|lookups: Seq<Option<Vec<String>>>|
            lookups_reported(checker, manifest.packages@, lookups) && problems_follow(
                manifest.packages@,
                lookups,
                problems@,
            )
    })
    &&& (r is Ok && affects_stable(manifest, target_tag) ==> exists|
        lookups: Seq<Option<Vec<String>>>,
    |
        lookups_reported(checker, manifest.packages@, lookups) && problems_follow(
            manifest.packages@,
            lookups,
            Seq::empty(),
        ))
}

/// Refuses a stable-lane manifest (declared stable, or moving the `stable`
/// tag) that pins a package whose GitHub release is missing or incomplete.
/// Other lanes are never gated. Each package's release is looked up as
/// `v<version>` of its crate, in order; a failed lookup ends the check.
pub fn verify_manifest_releases<C: ReleaseAssetChecker>(
    manifest: &ToolchainManifest,
    target_tag: Option<&str>,
    checker: &C,
) -> (r: Result<(), ReleaseError>)
    ensures
        gate_outcome(checker, *manifest, target_tag.deep_view(), r),
{
    if !affects_stable_channel(manifest, target_tag) {
        return Ok(());
    }
    let mut lookups: Vec<Option<Vec<String>>> = Vec::new();
    let mut i: usize = 0;
    while i < manifest.packages.len()
        invariant
            i <= manifest.packages@.len(),
            lookups@.len() == i,
            affects_stable(*manifest, target_tag.deep_view()),
            forall|k: int|
                0 <= k < i ==> checker.reports_assets(
                    manifest.packages@[k].crate_name@,
                    release_tag(manifest.packages@[k]),
                    Ok(names_of(#[trigger] lookups@[k])),
                ),
        decreases manifest.packages@.len() - i,
    {
        let package = &manifest.packages[i];
        let tag = concat("v", package.version.as_str());
        let found = checker.release_assets(package.crate_name.as_str(), tag.as_str());
        match found {
            Ok(found) => {
                lookups.push(found);
            },
            Err(message) => {
                let r = Err(
                    ReleaseError::ReleaseLookup { repo: package.crate_name.clone(), tag, message },
                );
                assert(manifest.packages@[i as int] == *package);
                return r;
            },
        }
        i = i + 1;
    }
    let problems = release_problems(&manifest.packages, &lookups);
    assert(lookups_reported(checker, manifest.packages@, lookups@));
    if problems.len() > 0 {
        Err(ReleaseError::NotDownloadable { version: manifest.version.clone(), problems })
    } else {
        assert(problems@ =~= Seq::<ReleaseProblem>::empty());
        Ok(())
    }
}

/// Every target gtc is built for, in manifest order.
pub open spec fn gtc_targets() -> Seq<Seq<char>> {
    seq![
        "x86_64-unknown-linux-gnu"@,
        "aarch64-unknown-linux-gnu"@,
        "x86_64-apple-darwin"@,
        "aarch64-apple-darwin"@,
        "x86_64-pc-windows-msvc"@,
        "aarch64-pc-windows-msvc"@,
    ]
}

fn gtc_target_list() -> (r: Vec<String>)
    ensures
        r.deep_view() == gtc_targets(),
{
    let mut v: Vec<String> = Vec::new();
    v.push("x86_64-unknown-linux-gnu".to_string());
    v.push("aarch64-unknown-linux-gnu".to_string());
    v.push("x86_64-apple-darwin".to_string());
    v.push("aarch64-apple-darwin".to_string());
    v.push("x86_64-pc-windows-msvc".to_string());
    v.push("aarch64-pc-windows-msvc".to_string());
    assert(v.deep_view() =~= gtc_targets());
    v
}

/// The archive of `target`: `-<target>.tgz` or `-<target>.zip`.
pub open spec fn archive_for_target(name: Seq<char>, target: Seq<char>) -> bool {
    has_suffix(name, "-"@ + target + ".tgz"@) || has_suffix(name, "-"@ + target + ".zip"@)
}

/// The first asset that is the archive of `target`.
pub open spec fn first_archive_for(arts: Seq<ReleaseArtifact>, target: Seq<char>) -> Option<ReleaseArtifact>
    decreases arts.len(),
{
    if arts.len() == 0 {
        None
    } else if archive_for_target(arts[0].name@, target) {
        Some(arts[0])
    } else {
        first_archive_for(arts.drop_first(), target)
    }
}

/// URL and bare digest of `target`'s archive, when the release states both.
pub open spec fn gtc_ref_for(arts: Seq<ReleaseArtifact>, target: Seq<char>) -> Option<(Seq<char>, Seq<char>)> {
    match first_archive_for(arts, target) {
        Some(a) => match (a.url, a.sha256) {
            (Some(u), Some(d)) => Some((u@, trim_start_all(d@, "sha256:"@))),
            _ => None,
        },
        None => None,
    }
}

/// `(target, url, sha256)` for each of `targets` the release states fully, in order.
pub open spec fn gtc_refs(arts: Seq<ReleaseArtifact>, targets: Seq<Seq<char>>) -> Seq<(Seq<char>, Seq<char>, Seq<char>)>
    decreases targets.len(),
{
    if targets.len() == 0 {
        Seq::empty()
    } else {
        gtc_refs(arts, targets.drop_last()) + match gtc_ref_for(arts, targets.last()) {
            Some((u, d)) => seq![(targets.last(), u, d)],
            None => Seq::empty(),
        }
    }
}

pub open spec fn gtc_fields(g: GtcArtifactRef) -> (Seq<char>, Seq<char>, Seq<char>) {
    (g.target@, g.url@, g.sha256@)
}

fn find_target_archive(arts: &Vec<ReleaseArtifact>, target: &str) -> (r: Option<usize>)
    ensures
        match r {
            Some(i) => i < arts@.len() && first_archive_for(arts@, target@) == Some(arts@[i as int]),
            None => first_archive_for(arts@, target@) is None,
        },
{
    let tgz = concat3("-", target, ".tgz");
    let zip = concat3("-", target, ".zip");
    let mut i: usize = 0;
    assert(arts@.skip(0) =~= arts@);
    while i < arts.len()
        invariant
            i <= arts@.len(),
            tgz@ == "-"@ + target@ + ".tgz"@,
            zip@ == "-"@ + target@ + ".zip"@,
            first_archive_for(arts@, target@) == first_archive_for(arts@.skip(i as int), target@),
        decreases arts@.len() - i,
    {
        let name = arts[i].name.as_str();
        assert(arts@.skip(i as int)[0] == arts@[i as int]);
        if ends_with(name, tgz.as_str()) || ends_with(name, zip.as_str()) {
            return Some(i);
        }
        assert(arts@.skip(i as int).drop_first() =~= arts@.skip(i + 1));
        i = i + 1;
    }
    None
}

/// The gtc artifacts a release states: for each gtc target, the first
/// archive of that target, kept when it has both a URL and a digest (stored
/// without its `sha256:` prefix). `None` when no target is stated.
pub fn gtc_artifacts_from_release(arts: &Vec<ReleaseArtifact>) -> (r: Option<Vec<GtcArtifactRef>>)
    ensures
        match r {
            None => gtc_refs(arts@, gtc_targets()).len() == 0,
            Some(v) => v@.len() > 0 && v@.map_values(|g: GtcArtifactRef| gtc_fields(g))
                == gtc_refs(arts@, gtc_targets()),
        },
{
    let targets = gtc_target_list();
    let mut named: Vec<GtcArtifactRef> = Vec::new();
    let mut i: usize = 0;
    while i < targets.len()
        invariant
            i <= targets@.len(),
            targets.deep_view() == gtc_targets(),
            named@.map_values(|g: GtcArtifactRef| gtc_fields(g)) == gtc_refs(
                arts@,
                gtc_targets().take(i as int),
            ),
        decreases targets@.len() - i,
    {
        let target = targets[i].as_str();
        let ghost ts = gtc_targets().take(i + 1);
        assert(ts.drop_last() =~= gtc_targets().take(i as int));
        assert(ts.last() == target@);
        let ghost before = named@;
        match find_target_archive(arts, target) {
            Some(k) => {
                let found = &arts[k];
                match (&found.url, &found.sha256) {
                    (Some(url), Some(digest)) => {
                        named.push(
                            GtcArtifactRef {
                                target: owned(target),
                                url: url.clone(),
                                sha256: trim_start_matches(digest.as_str(), "sha256:"),
                            },
                        );
                        assert(named@.map_values(|g: GtcArtifactRef| gtc_fields(g)) =~= before.map_values(
                            |g: GtcArtifactRef| gtc_fields(g),
                        ).push(gtc_fields(named@.last())));
                    },
                    _ => {},
                }
            },
            None => {},
        }
        i = i + 1;
    }
    assert(gtc_targets().take(6) =~= gtc_targets());
    if named.len() == 0 {
        None
    } else {
        Some(named)
    }
}

/// What looking up the gtc artifacts of `version` gives, given what
/// `checker` reports for release `v<version>` of `greentic`: the lookup's
/// failure; the artifacts named per target, when the release states any;
/// else none.
pub open spec fn gtc_outcome<C: ReleaseAssetChecker + ?Sized>(
    checker: &C,
    version: Seq<char>,
    r: Result<Option<Vec<GtcArtifactRef>>, ReleaseError>,
) -> bool {
    let tag = "v"@ + version;
    match r {
        Err(e) => e matches ReleaseError::ReleaseLookup { repo, tag: t, message } && repo@
            == "greentic"@ && t@ == tag && checker.reports_artifacts(repo@, t@, Err(message@)),
        Ok(Some(v)) => v@.len() > 0 && exists|arts: Seq<ReleaseArtifact>|
            checker.reports_artifacts("greentic"@, tag, Ok(Some(arts))) && v@.map_values(
                |g: GtcArtifactRef| gtc_fields(g),
            ) == gtc_refs(arts, gtc_targets()),
        Ok(None) => checker.reports_artifacts("greentic"@, tag, Ok(None)) || exists|
            arts: Seq<ReleaseArtifact>,
        |
            checker.reports_artifacts("greentic"@, tag, Ok(Some(arts))) && gtc_refs(
                arts,
                gtc_targets(),
            ).len() == 0,
    }
}

/// The gtc artifacts of release `v<version>` of gtc, or `None` when the
/// release cannot be read as artifacts or states none.
pub fn gtc_artifacts_for<C: ReleaseAssetChecker>(version: &str, checker: &C) -> (r: Result<
    Option<Vec<GtcArtifactRef>>,
    ReleaseError,
>)
    ensures
        gtc_outcome(checker, version@, r),
{
    let tag = concat("v", version);
    match checker.release_artifacts("greentic", tag.as_str()) {
        Err(message) => Err(ReleaseError::ReleaseLookup { repo: "greentic".to_string(), tag, message }),
        Ok(None) => Ok(None),
        Ok(Some(arts)) => Ok(gtc_artifacts_from_release(&arts)),
    }
}

/// The step `release publish` and `release snapshot` take before pushing
/// a manifest: the publish gate, then, where the manifest names no gtc
/// artifacts yet, those its release states (none when it states none).
pub fn publication_gate<C: ReleaseAssetChecker>(
    manifest: ToolchainManifest,
    target_tag: Option<&str>,
    checker: &C,
) -> (r: Result<ToolchainManifest, ReleaseError>)
    ensures
        match r {
            Ok(m) => {
                &&& gate_outcome(checker, manifest, target_tag.deep_view(), Ok(()))
                &&& m.schema == manifest.schema && m.toolchain == manifest.toolchain
                &&& m.version == manifest.version && m.channel == manifest.channel
                &&& m.created_at == manifest.created_at && m.packages == manifest.packages
                &&& m.extension_packs == manifest.extension_packs
                &&& m.components == manifest.components
                &&& manifest.gtc is Some ==> m.gtc == manifest.gtc
                &&& manifest.gtc is None ==> gtc_outcome(checker, manifest.version@, Ok(m.gtc))
            },
            Err(e) => gate_outcome(checker, manifest, target_tag.deep_view(), Err(e)) || (
            gate_outcome(checker, manifest, target_tag.deep_view(), Ok(())) && manifest.gtc is None
                && gtc_outcome(checker, manifest.version@, Err(e))),
        },
{
    let mut manifest = manifest;
    verify_manifest_releases(&manifest, target_tag, checker)?;
    if manifest.gtc.is_none() {
        let gtc = gtc_artifacts_for(manifest.version.as_str(), checker)?;
        manifest.gtc = gtc;
    }
    Ok(manifest)
}

} // verus!
