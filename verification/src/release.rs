//! Toolchain release manifests: which crate, binaries and version each
//! toolchain package pins, per channel, and when a manifest may be published.
use vstd::prelude::*;

use crate::strmap::StrMap;
use crate::passthrough::{
    channel_binary_name, channel_suffix, delegated_binary_name_for_channel, suffixed_name,
    ToolchainChannel,
};
use crate::text::{
    concat, concat3, find_char, first_index_of, has_suffix, owned, parse_u64, parse_u64_spec,
    slice_chars, str_eq,
};

verus! {

pub open spec fn manifest_schema() -> Seq<char> {
    "greentic.toolchain-manifest.v1"@
}

pub open spec fn toolchain_name() -> Seq<char> {
    "gtc"@
}

/// The schema identifier every toolchain manifest carries.
pub fn toolchain_manifest_schema() -> (r: &'static str)
    ensures
        r@ == manifest_schema(),
{
    "greentic.toolchain-manifest.v1"
}

/// The toolchain every manifest describes.
pub fn toolchain_name_text() -> (r: &'static str)
    ensures
        r@ == toolchain_name(),
{
    "gtc"
}

/// One release archive of a toolchain package, as GitHub reports it.
#[derive(Clone, Debug, PartialEq, Eq)]
pub struct PackageArtifactRef {
    pub target: String,
    pub url: String,
    /// Hex sha256 without the `sha256:` prefix.
    pub sha256: String,
}

/// One gtc release artifact, as GitHub reports it.
#[derive(Clone, Debug, PartialEq, Eq)]
pub struct GtcArtifactRef {
    pub target: String,
    pub url: String,
    /// Hex sha256 without the `sha256:` prefix.
    pub sha256: String,
}

#[derive(Clone, Debug, PartialEq, Eq)]
pub struct ToolchainPackage {
    pub crate_name: String,
    pub bins: Vec<String>,
    pub version: String,
    pub artifacts: Option<Vec<PackageArtifactRef>>,
}

#[derive(Clone, Debug, PartialEq, Eq)]
pub struct ExtensionPackRef {
    pub id: String,
    pub version: String,
}

#[derive(Clone, Debug, PartialEq, Eq)]
pub struct ComponentRef {
    pub id: String,
    pub version: String,
}

#[derive(Clone, Debug, PartialEq, Eq)]
pub struct ToolchainManifest {
    pub schema: String,
    pub toolchain: String,
    pub version: String,
    pub channel: Option<String>,
    pub created_at: Option<String>,
    pub packages: Vec<ToolchainPackage>,
    pub extension_packs: Option<Vec<ExtensionPackRef>>,
    pub components: Option<Vec<ComponentRef>>,
    /// The gtc binary this manifest pins, named per target.
    pub gtc: Option<Vec<GtcArtifactRef>>,
}

/// A toolchain crate and the binaries it ships.
#[derive(Clone, Debug)]
pub struct PackageSpec {
    pub crate_name: String,
    pub bins: Vec<String>,
}

/// A package published as an OCI artifact.
#[derive(Clone, Debug)]
pub struct OciPackageSpec {
    pub package: String,
}

/// The packages a toolchain manifest covers, in manifest order.
#[derive(Clone, Debug)]
pub struct Catalogue {
    pub toolchain: Vec<PackageSpec>,
    pub extension_packs: Vec<OciPackageSpec>,
    pub components: Vec<OciPackageSpec>,
}

/// Why a release operation stopped.
#[derive(Clone, Debug, PartialEq, Eq)]
pub enum ReleaseError {
    UnsupportedSchema(String),
    UnsupportedToolchain(String),
    UnknownChannel(String),
    /// `release view` needs exactly one of `--release` and `--tag`.
    ViewArguments,
    /// A crate version could not be resolved.
    CrateResolution { crate_name: String, message: String },
    /// An OCI artifact version could not be resolved.
    ArtifactResolution { package: String, message: String },
    /// Reading release metadata failed.
    ReleaseLookup { repo: String, tag: String, message: String },
    /// Pinned packages whose release is missing or incomplete.
    NotDownloadable { version: String, problems: Vec<crate::release_gate::ReleaseProblem> },
    /// Neither a semver tag nor `latest` among the tags.
    NoUsableTag,
}

/// The tag naming a channel in manifests.
pub open spec fn channel_tag_of(channel: ToolchainChannel) -> Seq<char> {
    match channel {
        ToolchainChannel::Stable => "stable"@,
        ToolchainChannel::Development => "dev"@,
        ToolchainChannel::Rnd => "rnd"@,
    }
}

/// The channel a manifest's source tag names; anything unknown is stable.
pub open spec fn channel_from_tag(from: Seq<char>) -> ToolchainChannel {
    if from == "dev"@ {
        ToolchainChannel::Development
    } else if from == "rnd"@ {
        ToolchainChannel::Rnd
    } else {
        ToolchainChannel::Stable
    }
}

/// The channel a `--channel` argument names.
pub open spec fn channel_named(arg: Seq<char>) -> Option<ToolchainChannel> {
    if arg == "dev"@ || arg == "development"@ {
        Some(ToolchainChannel::Development)
    } else if arg == "rnd"@ || arg == "research"@ {
        Some(ToolchainChannel::Rnd)
    } else if arg == "stable"@ {
        Some(ToolchainChannel::Stable)
    } else {
        None
    }
}

/// Binary names a manifest from `from` pins.
pub open spec fn manifest_bins(from: Seq<char>, bins: Seq<Seq<char>>) -> Seq<Seq<char>> {
    bins.map_values(|b: Seq<char>| channel_binary_name(b, channel_from_tag(from)))
}

/// Crate name a manifest from `from` pins: only the dev lane mirrors crates as `-dev`.
pub open spec fn manifest_crate_name(from: Seq<char>, crate_name: Seq<char>) -> Seq<char> {
    if from == "dev"@ {
        channel_binary_name(crate_name, ToolchainChannel::Development)
    } else {
        crate_name
    }
}

pub fn parse_channel(channel: &str) -> (r: Result<ToolchainChannel, ReleaseError>)
    ensures
        match r {
            Ok(c) => channel_named(channel@) == Some(c),
            Err(e) => channel_named(channel@) is None && (e matches ReleaseError::UnknownChannel(
                s,
            ) && s@ == channel@),
        },
{
    if str_eq(channel, "dev") || str_eq(channel, "development") {
        Ok(ToolchainChannel::Development)
    } else if str_eq(channel, "rnd") || str_eq(channel, "research") {
        Ok(ToolchainChannel::Rnd)
    } else if str_eq(channel, "stable") {
        Ok(ToolchainChannel::Stable)
    } else {
        Err(ReleaseError::UnknownChannel(channel.to_string()))
    }
}

pub fn channel_tag(channel: ToolchainChannel) -> (r: &'static str)
    ensures
        r@ == channel_tag_of(channel),
{
    match channel {
        ToolchainChannel::Stable => "stable",
        ToolchainChannel::Development => "dev",
        ToolchainChannel::Rnd => "rnd",
    }
}

/// Map a manifest source tag (`dev`/`rnd`/anything else) to its channel.
pub fn channel_from_source_tag(from: &str) -> (r: ToolchainChannel)
    ensures
        r == channel_from_tag(from@),
{
    if str_eq(from, "dev") {
        ToolchainChannel::Development
    } else if str_eq(from, "rnd") {
        ToolchainChannel::Rnd
    } else {
        ToolchainChannel::Stable
    }
}

pub fn manifest_bins_for_source(from: &str, bins: &Vec<String>) -> (r: Vec<String>)
    ensures
        r.deep_view() == manifest_bins(from@, bins.deep_view()),
{
    let channel = channel_from_source_tag(from);
    let mut out: Vec<String> = Vec::new();
    let mut i: usize = 0;
    while i < bins.len()
        invariant
            i <= bins.len(),
            channel == channel_from_tag(from@),
            out@.len() == i,
            forall|j: int| 0 <= j < i ==> #[trigger] out@[j]@ == channel_binary_name(bins@[j]@, channel),
        decreases bins.len() - i,
    {
        let name = delegated_binary_name_for_channel(bins[i].as_str(), channel);
        out.push(name);
        i = i + 1;
    }
    assert(out.deep_view() =~= manifest_bins(from@, bins.deep_view()));
    out
}

pub fn manifest_crate_name_for_source(from: &str, crate_name: &str) -> (r: String)
    ensures
        r@ == manifest_crate_name(from@, crate_name@),
{
    if str_eq(from, "dev") {
        delegated_binary_name_for_channel(crate_name, ToolchainChannel::Development)
    } else {
        owned(crate_name)
    }
}

/// The manifest names the supported schema and toolchain.
pub open spec fn manifest_is_valid(m: ToolchainManifest) -> bool {
    m.schema@ == manifest_schema() && m.toolchain@ == toolchain_name()
}

pub fn validate_manifest(manifest: &ToolchainManifest) -> (r: Result<(), ReleaseError>)
    ensures
        r.is_ok() == manifest_is_valid(*manifest),
        manifest.schema@ != manifest_schema() ==> r == Err::<(), ReleaseError>(
            ReleaseError::UnsupportedSchema(manifest.schema),
        ),
        manifest.schema@ == manifest_schema() && manifest.toolchain@ != toolchain_name() ==> r
            == Err::<(), ReleaseError>(ReleaseError::UnsupportedToolchain(manifest.toolchain)),
{
    if !str_eq(manifest.schema.as_str(), "greentic.toolchain-manifest.v1") {
        return Err(ReleaseError::UnsupportedSchema(manifest.schema.clone()));
    }
    if !str_eq(manifest.toolchain.as_str(), "gtc") {
        return Err(ReleaseError::UnsupportedToolchain(manifest.toolchain.clone()));
    }
    Ok(())
}

/// `repo:tag`.
pub fn toolchain_ref(repo: &str, tag: &str) -> (r: String)
    ensures
        r@ == repo@ + ":"@ + tag@,
{
    concat3(repo, ":", tag)
}

/// A push affects what `gtc install` resolves: the manifest declares the
/// stable channel, or the push moves the `stable` tag itself.
pub open spec fn affects_stable(m: ToolchainManifest, target_tag: Option<Seq<char>>) -> bool {
    (m.channel matches Some(c) && c@ == "stable"@) || target_tag == Some("stable"@)
}

pub fn affects_stable_channel(manifest: &ToolchainManifest, target_tag: Option<&str>) -> (r: bool)
    ensures
        r == affects_stable(*manifest, target_tag.deep_view()),
{
    let by_channel = match &manifest.channel {
        Some(c) => str_eq(c.as_str(), "stable"),
        None => false,
    };
    let by_tag = match target_tag {
        Some(t) => str_eq(t, "stable"),
        None => false,
    };
    by_channel || by_tag
}

/// At least one package is pinned to something other than `latest`.
pub open spec fn has_concrete_pins(m: ToolchainManifest) -> bool {
    exists|i: int| 0 <= i < m.packages@.len() && m.packages@[i].version@ != "latest"@
}

/// True when the source manifest pins at least one package to a concrete version.
pub fn source_manifest_has_concrete_pins(manifest: &ToolchainManifest) -> (r: bool)
    ensures
        r == has_concrete_pins(*manifest),
{
    let mut i: usize = 0;
    while i < manifest.packages.len()
        invariant
            i <= manifest.packages@.len(),
            forall|j: int| 0 <= j < i ==> manifest.packages@[j].version@ == "latest"@,
        decreases manifest.packages@.len() - i,
    {
        if !str_eq(manifest.packages[i].version.as_str(), "latest") {
            return true;
        }
        i = i + 1;
    }
    false
}

/// File name of a written manifest; the stable channel is left out of it.
pub open spec fn manifest_file(m: ToolchainManifest) -> Seq<char> {
    match m.channel {
        Some(c) => if c@ == "stable"@ {
            "gtc-"@ + m.version@ + ".json"@
        } else {
            "gtc-"@ + c@ + "-"@ + m.version@ + ".json"@
        },
        None => "gtc-"@ + m.version@ + ".json"@,
    }
}

pub fn manifest_file_name(manifest: &ToolchainManifest) -> (r: String)
    ensures
        r@ == manifest_file(*manifest),
{
    match &manifest.channel {
        Some(c) => {
            if str_eq(c.as_str(), "stable") {
                concat3("gtc-", manifest.version.as_str(), ".json")
            } else {
                let head = concat3("gtc-", c.as_str(), "-");
                concat3(head.as_str(), manifest.version.as_str(), ".json")
            }
        },
        None => concat3("gtc-", manifest.version.as_str(), ".json"),
    }
}

/// Arguments of `release view`.
#[derive(Clone, Debug)]
pub struct ReleaseViewArgs {
    pub release: Option<String>,
    pub tag: Option<String>,
    pub repo: String,
    pub token: Option<String>,
}

/// The manifest tag `release view` reads: exactly one of release or tag.
pub fn release_view_tag(args: &ReleaseViewArgs) -> (r: Result<String, ReleaseError>)
    ensures
        match (args.release, args.tag) {
            (Some(rel), None) => r == Ok::<String, ReleaseError>(rel),
            (None, Some(tag)) => r == Ok::<String, ReleaseError>(tag),
            _ => r == Err::<String, ReleaseError>(ReleaseError::ViewArguments),
        },
{
    match (&args.release, &args.tag) {
        (Some(release), None) => Ok(release.clone()),
        (None, Some(tag)) => Ok(tag.clone()),
        _ => Err(ReleaseError::ViewArguments),
    }
}

/// Round trip: the tag of a channel parses back to that channel.
pub proof fn lemma_channel_tag_round_trip(channel: ToolchainChannel)
    ensures
        channel_named(channel_tag_of(channel)) == Some(channel),
        channel_from_tag(channel_tag_of(channel)) == channel,
{
    reveal_strlit("stable");
    reveal_strlit("dev");
    reveal_strlit("rnd");
    reveal_strlit("development");
    reveal_strlit("research");
    assert("stable"@[0] != "dev"@[0]);
    assert("stable"@[0] != "rnd"@[0]);
    assert("rnd"@[0] != "dev"@[0]);
    assert("stable"@[0] != "development"@[0]);
    assert("stable"@[0] != "research"@[0]);
    assert("rnd"@[0] != "development"@[0]);
    assert("rnd"@[1] != "research"@[1]);
    assert("dev"@.len() != "development"@.len());
}


/// The `(major, minor)` lane a release version belongs to: the first two
/// dot-separated fields, each read as a `u64`.
pub open spec fn lane_spec(release: Seq<char>) -> Option<(u64, u64)> {
    match first_index_of(release, '.') {
        None => None,
        Some(i) => {
            let rest = release.skip(i + 1);
            let j = match first_index_of(rest, '.') {
                Some(j) => j,
                None => rest.len() as int,
            };
            match (parse_u64_spec(release.take(i)), parse_u64_spec(rest.take(j))) {
                (Some(a), Some(b)) => Some((a, b)),
                _ => None,
            }
        },
    }
}

pub fn lane_of(release: &str) -> (r: Option<(u64, u64)>)
    ensures
        r == lane_spec(release@),
{
    let n = crate::text::char_len(release);
    let i = match find_char(release, '.') {
        Some(i) => i,
        None => return None,
    };
    proof {
        crate::text::lemma_first_index_in_range(release@, '.');
    }
    let rest = slice_chars(release, i + 1, n);
    assert(rest@ =~= release@.skip(i + 1));
    let m = crate::text::char_len(rest.as_str());
    let j = match find_char(rest.as_str(), '.') {
        Some(j) => j,
        None => m,
    };
    proof {
        crate::text::lemma_first_index_in_range(rest@, '.');
    }
    let head = slice_chars(release, 0, i);
    let minor_text = slice_chars(rest.as_str(), 0, j);
    assert(head@ =~= release@.take(i as int));
    assert(minor_text@ =~= rest@.take(j as int));
    let major = parse_u64(head.as_str());
    let minor = parse_u64(minor_text.as_str());
    match (major, minor) {
        (Some(a), Some(b)) => Some((a, b)),
        _ => None,
    }
}

/// Crate name to pinned version, later packages winning.
pub open spec fn pins_of(pkgs: Seq<ToolchainPackage>) -> Map<Seq<char>, Seq<char>>
    decreases pkgs.len(),
{
    if pkgs.len() == 0 {
        Map::empty()
    } else {
        pins_of(pkgs.drop_last()).insert(pkgs.last().crate_name@, pkgs.last().version@)
    }
}

pub open spec fn source_pins(source: Option<&ToolchainManifest>) -> Map<Seq<char>, Seq<char>> {
    match source {
        Some(m) => pins_of(m.packages@),
        None => Map::empty(),
    }
}

pub open spec fn ext_pins_of(refs: Seq<ExtensionPackRef>) -> Map<Seq<char>, Seq<char>>
    decreases refs.len(),
{
    if refs.len() == 0 {
        Map::empty()
    } else {
        ext_pins_of(refs.drop_last()).insert(refs.last().id@, refs.last().version@)
    }
}

pub open spec fn component_pins_of(refs: Seq<ComponentRef>) -> Map<Seq<char>, Seq<char>>
    decreases refs.len(),
{
    if refs.len() == 0 {
        Map::empty()
    } else {
        component_pins_of(refs.drop_last()).insert(refs.last().id@, refs.last().version@)
    }
}

pub open spec fn source_ext_pins(source: Option<&ToolchainManifest>) -> Map<Seq<char>, Seq<char>> {
    match source {
        Some(m) => match m.extension_packs {
            Some(v) => ext_pins_of(v@),
            None => Map::empty(),
        },
        None => Map::empty(),
    }
}

pub open spec fn source_component_pins(source: Option<&ToolchainManifest>) -> Map<
    Seq<char>,
    Seq<char>,
> {
    match source {
        Some(m) => match m.components {
            Some(v) => component_pins_of(v@),
            None => Map::empty(),
        },
        None => Map::empty(),
    }
}

/// The concrete (non-`latest`) version a map pins for `key`.
pub open spec fn concrete_pin(pins: Map<Seq<char>, Seq<char>>, key: Seq<char>) -> Option<
    Seq<char>,
> {
    if pins.contains_key(key) && pins[key] != "latest"@ {
        Some(pins[key])
    } else {
        None
    }
}

/// Crate name to version of every package of the source manifest.
pub fn source_version_map(source: Option<&ToolchainManifest>) -> (r: StrMap)
    ensures
        r@ == source_pins(source),
{
    let mut out = StrMap::new();
    if let Some(m) = source {
        let mut i: usize = 0;
        while i < m.packages.len()
            invariant
                i <= m.packages@.len(),
                out@ == pins_of(m.packages@.take(i as int)),
            decreases m.packages@.len() - i,
        {
            out.insert(m.packages[i].crate_name.clone(), m.packages[i].version.clone());
            assert(m.packages@.take(i + 1).drop_last() =~= m.packages@.take(i as int));
            i = i + 1;
        }
        assert(m.packages@.take(m.packages@.len() as int) =~= m.packages@);
    }
    out
}

fn ext_pack_version_map(source: Option<&ToolchainManifest>) -> (r: StrMap)
    ensures
        r@ == source_ext_pins(source),
{
    let mut out = StrMap::new();
    if let Some(m) = source {
        if let Some(refs) = &m.extension_packs {
            let mut i: usize = 0;
            while i < refs.len()
                invariant
                    i <= refs@.len(),
                    out@ == ext_pins_of(refs@.take(i as int)),
                decreases refs@.len() - i,
            {
                out.insert(refs[i].id.clone(), refs[i].version.clone());
                assert(refs@.take(i + 1).drop_last() =~= refs@.take(i as int));
                i = i + 1;
            }
            assert(refs@.take(refs@.len() as int) =~= refs@);
        }
    }
    out
}

fn component_version_map(source: Option<&ToolchainManifest>) -> (r: StrMap)
    ensures
        r@ == source_component_pins(source),
{
    let mut out = StrMap::new();
    if let Some(m) = source {
        if let Some(refs) = &m.components {
            let mut i: usize = 0;
            while i < refs.len()
                invariant
                    i <= refs@.len(),
                    out@ == component_pins_of(refs@.take(i as int)),
                decreases refs@.len() - i,
            {
                out.insert(refs[i].id.clone(), refs[i].version.clone());
                assert(refs@.take(i + 1).drop_last() =~= refs@.take(i as int));
                i = i + 1;
            }
            assert(refs@.take(refs@.len() as int) =~= refs@);
        }
    }
    out
}


/// Outcome of resolving the research (`-rnd`) version of a crate.
#[derive(Clone, Debug, PartialEq, Eq)]
pub enum ResearchVersion {
    /// Pin this exact version.
    Pinned(String),
    /// The crate has no research build and is skipped on the research channel.
    Absent,
}

/// A resolution's result as text: the version, or the failure's message.
pub open spec fn text_outcome(r: Result<String, String>) -> Result<Seq<char>, Seq<char>> {
    match r {
        Ok(v) => Ok(v@),
        Err(e) => Err(e@),
    }
}

/// A research resolution as text: `Some(version)` when pinned, `None` when
/// the crate has no research build, or the failure's message.
pub open spec fn research_text(r: Result<ResearchVersion, String>) -> Result<Option<Seq<char>>, Seq<char>> {
    match r {
        Ok(ResearchVersion::Pinned(v)) => Ok(Some(v@)),
        Ok(ResearchVersion::Absent) => Ok(None),
        Err(e) => Err(e@),
    }
}

/// `outcome` is a result the channel-aware resolution of `resolver` may give:
/// one of its own, or one the latest-version resolution may give.
pub open spec fn channel_resolution<R: CrateVersionResolver + ?Sized>(
    resolver: &R,
    crate_name: Seq<char>,
    channel: ToolchainChannel,
    outcome: Result<Seq<char>, Seq<char>>,
) -> bool {
    resolver.channel_outcome(crate_name, channel, outcome) || resolver.latest_outcome(crate_name, outcome)
}

/// `outcome` is a result the lane resolution of `resolver` may give: one of
/// its own, or one the latest-version resolution may give.
pub open spec fn lane_resolution<R: CrateVersionResolver + ?Sized>(
    resolver: &R,
    crate_name: Seq<char>,
    lane: (u64, u64),
    outcome: Result<Seq<char>, Seq<char>>,
) -> bool {
    resolver.lane_outcome(crate_name, lane, outcome) || resolver.latest_outcome(crate_name, outcome)
}

/// The version result an entry outcome stands for: a version is that
/// version, a failure that failure; "no research build" is none.
pub open spec fn as_version_outcome(outcome: Result<Option<Seq<char>>, Seq<char>>) -> Option<
    Result<Seq<char>, Seq<char>>,
> {
    match outcome {
        Ok(Some(v)) => Some(Ok(v)),
        Ok(None) => None,
        Err(e) => Some(Err(e)),
    }
}

/// A research outcome read off the research-channel resolution of `resolver`.
pub open spec fn research_via_channel<R: CrateVersionResolver + ?Sized>(
    resolver: &R,
    crate_name: Seq<char>,
    outcome: Result<Option<Seq<char>>, Seq<char>>,
) -> bool {
    as_version_outcome(outcome) matches Some(o) && channel_resolution(
        resolver,
        crate_name,
        ToolchainChannel::Rnd,
        o,
    )
}

/// `outcome` is a result the research resolution of `resolver` may give.
pub open spec fn research_resolution<R: CrateVersionResolver + ?Sized>(
    resolver: &R,
    crate_name: Seq<char>,
    outcome: Result<Option<Seq<char>>, Seq<char>>,
) -> bool {
    resolver.research_outcome(crate_name, outcome) || research_via_channel(resolver, crate_name, outcome)
}

/// Resolves published crate versions; implemented against crates.io and by
/// test doubles. Failures carry a message.
pub trait CrateVersionResolver {
    /// `outcome` is a result `resolve_latest` may give for the crate; by
    /// default any result.
    open spec fn latest_outcome(&self, crate_name: Seq<char>, outcome: Result<Seq<char>, Seq<char>>) -> bool {
        true
    }

    /// `outcome` is a result the resolver's own channel-aware resolution may
    /// give; by default any result.
    open spec fn channel_outcome(
        &self,
        crate_name: Seq<char>,
        channel: ToolchainChannel,
        outcome: Result<Seq<char>, Seq<char>>,
    ) -> bool {
        true
    }

    /// `outcome` is a result the resolver's own lane resolution may give; by
    /// default any result.
    open spec fn lane_outcome(&self, crate_name: Seq<char>, lane: (u64, u64), outcome: Result<Seq<char>, Seq<char>>) -> bool {
        true
    }

    /// `outcome` is a result the resolver's own research resolution may give;
    /// by default any result.
    open spec fn research_outcome(&self, crate_name: Seq<char>, outcome: Result<Option<Seq<char>>, Seq<char>>) -> bool {
        true
    }

    /// No resolution of this resolver fails; by default this is not known.
    open spec fn infallible(&self) -> bool {
        false
    }

    fn resolve_latest(&self, crate_name: &str) -> (r: Result<String, String>)
        ensures
            self.latest_outcome(crate_name@, text_outcome(r)),
            self.infallible() ==> r is Ok,
    ;

    /// Channel-aware resolution; by default the latest version.
    fn resolve_latest_for_channel(&self, crate_name: &str, channel: ToolchainChannel) -> (r: Result<
        String,
        String,
    >)
        ensures
            self.channel_outcome(crate_name@, channel, text_outcome(r)) || self.latest_outcome(
                crate_name@,
                text_outcome(r),
            ),
            self.infallible() ==> r is Ok,
        default_ensures
            self.latest_outcome(crate_name@, text_outcome(r)),
    {
        self.resolve_latest(crate_name)
    }

    /// The latest version inside a `(major, minor)` lane; by default the latest version.
    fn resolve_latest_in_lane(&self, crate_name: &str, lane: (u64, u64)) -> (r: Result<String, String>)
        ensures
            self.lane_outcome(crate_name@, lane, text_outcome(r)) || self.latest_outcome(
                crate_name@,
                text_outcome(r),
            ),
            self.infallible() ==> r is Ok,
        default_ensures
            self.latest_outcome(crate_name@, text_outcome(r)),
    {
        self.resolve_latest(crate_name)
    }

    /// The research version; by default the research-channel version, always pinned.
    fn resolve_research_version(&self, crate_name: &str) -> (r: Result<ResearchVersion, String>)
        ensures
            self.research_outcome(crate_name@, research_text(r)) || (as_version_outcome(
                research_text(r),
            ) matches Some(o) && (self.channel_outcome(crate_name@, ToolchainChannel::Rnd, o)
                || self.latest_outcome(crate_name@, o))),
            self.infallible() ==> r is Ok,
        default_ensures
            as_version_outcome(research_text(r)) matches Some(o) && (self.channel_outcome(
                crate_name@,
                ToolchainChannel::Rnd,
                o,
            ) || self.latest_outcome(crate_name@, o)),
    {
        match self.resolve_latest_for_channel(crate_name, ToolchainChannel::Rnd) {
            Ok(v) => Ok(ResearchVersion::Pinned(v)),
            Err(e) => Err(e),
        }
    }
}

/// Resolves the latest version of an OCI artifact package.
pub trait ArtifactVersionResolver {
    /// `version` is a version this resolver may report for `package`; by
    /// default any version.
    open spec fn reports(&self, package: Seq<char>, version: Seq<char>) -> bool {
        true
    }

    /// This resolver never fails; by default this is not known.
    open spec fn infallible(&self) -> bool {
        false
    }

    fn resolve_latest(&self, package: &str) -> (r: Result<String, String>)
        ensures
            r matches Ok(v) ==> self.reports(package@, v@),
            self.infallible() ==> r is Ok,
    ;
}

/// Stamps every artifact with the release being generated.
pub struct ReleaseArtifactVersionResolver {
    pub release: String,
}

impl ArtifactVersionResolver for ReleaseArtifactVersionResolver {
    open spec fn reports(&self, package: Seq<char>, version: Seq<char>) -> bool {
        version == self.release@
    }

    open spec fn infallible(&self) -> bool {
        true
    }

    fn resolve_latest(&self, package: &str) -> (r: Result<String, String>)
        ensures
            r == Ok::<String, String>(self.release),
    {
        Ok(self.release.clone())
    }
}

/// An entry's version as text.
pub open spec fn opt_text(v: Option<String>) -> Option<Seq<char>> {
    match v {
        Some(s) => Some(s@),
        None => None,
    }
}

/// `outcome` is a result resolving one manifest entry (named `crate_name`
/// in the manifest) on `channel` may give: on the research channel the
/// research resolution (`None`: no research build); else the lane
/// resolution for a development release with a lane, the channel-aware
/// resolution otherwise, either of which always names a version.
pub open spec fn entry_resolution<R: CrateVersionResolver + ?Sized>(
    resolver: &R,
    crate_name: Seq<char>,
    channel: ToolchainChannel,
    lane: Option<(u64, u64)>,
    outcome: Result<Option<Seq<char>>, Seq<char>>,
) -> bool {
    if channel == ToolchainChannel::Rnd {
        research_resolution(resolver, crate_name, outcome)
    } else {
        as_version_outcome(outcome) matches Some(o) && if channel == ToolchainChannel::Development
            && lane is Some {
            lane_resolution(resolver, crate_name, lane.unwrap(), o)
        } else {
            channel_resolution(resolver, crate_name, channel, o)
        }
    }
}

/// The version one manifest entry pins on `channel`: the research version
/// (absent when there is no research build), the newest build inside the
/// release's lane on the dev channel, or the latest version.
fn resolve_manifest_version<R: CrateVersionResolver>(
    resolver: &R,
    crate_in_manifest: &str,
    channel: ToolchainChannel,
    lane: Option<(u64, u64)>,
) -> (r: Result<Option<String>, ReleaseError>)
    ensures
        match r {
            Ok(v) => entry_resolution(resolver, crate_in_manifest@, channel, lane, Ok(opt_text(v))),
            Err(ReleaseError::CrateResolution { crate_name, message }) => crate_name@
                == crate_in_manifest@ && entry_resolution(
                resolver,
                crate_in_manifest@,
                channel,
                lane,
                Err(message@),
            ),
            Err(_) => false,
        },
        resolver.infallible() ==> r is Ok,
{
    if channel == ToolchainChannel::Rnd {
        match resolver.resolve_research_version(crate_in_manifest) {
            Ok(ResearchVersion::Pinned(v)) => Ok(Some(v)),
            Ok(ResearchVersion::Absent) => Ok(None),
            Err(message) => Err(
                ReleaseError::CrateResolution { crate_name: owned(crate_in_manifest), message },
            ),
        }
    } else {
        let resolved = match (channel, lane) {
            (ToolchainChannel::Development, Some(lane)) => resolver.resolve_latest_in_lane(
                crate_in_manifest,
                lane,
            ),
            _ => resolver.resolve_latest_for_channel(crate_in_manifest, channel),
        };
        match resolved {
            Ok(v) => Ok(Some(v)),
            Err(message) => Err(
                ReleaseError::CrateResolution { crate_name: owned(crate_in_manifest), message },
            ),
        }
    }
}

/// A manifest package built from its catalogue entry: named for the `from`
/// channel, a concrete source pin kept, otherwise the version the resolver
/// gave for it on that channel (and the release's lane).
pub open spec fn package_follows<R: CrateVersionResolver + ?Sized>(
    p: ToolchainPackage,
    spec: PackageSpec,
    from: Seq<char>,
    pins: Map<Seq<char>, Seq<char>>,
    resolver: &R,
    lane: Option<(u64, u64)>,
) -> bool {
    &&& p.crate_name@ == manifest_crate_name(from, spec.crate_name@)
    &&& p.bins.deep_view() == manifest_bins(from, spec.bins.deep_view())
    &&& p.artifacts is None
    &&& match concrete_pin(pins, p.crate_name@) {
        Some(v) => p.version@ == v,
        None => entry_resolution(
            resolver,
            p.crate_name@,
            channel_from_tag(from),
            lane,
            Ok(Some(p.version@)),
        ),
    }
}

pub open spec fn is_pinned(pins: Map<Seq<char>, Seq<char>>, spec: PackageSpec, from: Seq<char>) -> bool {
    concrete_pin(pins, manifest_crate_name(from, spec.crate_name@)) is Some
}

/// A catalogue entry a manifest leaves out: not pinned, and resolved as
/// having no research build.
pub open spec fn left_out<R: CrateVersionResolver + ?Sized>(
    spec: PackageSpec,
    from: Seq<char>,
    pins: Map<Seq<char>, Seq<char>>,
    resolver: &R,
    lane: Option<(u64, u64)>,
) -> bool {
    &&& !is_pinned(pins, spec, from)
    &&& entry_resolution(
        resolver,
        manifest_crate_name(from, spec.crate_name@),
        channel_from_tag(from),
        lane,
        Ok(None),
    )
}

/// The packages are catalogue entries in catalogue order (`idx` maps each to
/// its entry). Every entry is present (at `pos`), except one left out
/// because the resolver found no research build for it.
pub open spec fn packages_follow_with<R: CrateVersionResolver + ?Sized>(
    pkgs: Seq<ToolchainPackage>,
    cat: Seq<PackageSpec>,
    from: Seq<char>,
    pins: Map<Seq<char>, Seq<char>>,
    resolver: &R,
    lane: Option<(u64, u64)>,
    idx: Seq<int>,
    pos: Seq<int>,
) -> bool {
    &&& idx.len() == pkgs.len()
    &&& pos.len() == cat.len()
    &&& forall|k: int| 0 <= k < idx.len() ==> 0 <= #[trigger] idx[k] < cat.len()
    &&& forall|k: int, l: int| 0 <= k < l < idx.len() ==> #[trigger] idx[k] < #[trigger] idx[l]
    &&& forall|k: int|
        0 <= k < idx.len() ==> package_follows(#[trigger] pkgs[k], cat[idx[k]], from, pins, resolver, lane)
    &&& forall|j: int|
        0 <= j < cat.len() ==> (0 <= #[trigger] pos[j] < idx.len() && idx[pos[j]] == j) || left_out(
            cat[j],
            from,
            pins,
            resolver,
            lane,
        )
}

pub open spec fn packages_follow<R: CrateVersionResolver + ?Sized>(
    pkgs: Seq<ToolchainPackage>,
    cat: Seq<PackageSpec>,
    from: Seq<char>,
    pins: Map<Seq<char>, Seq<char>>,
    resolver: &R,
    lane: Option<(u64, u64)>,
) -> bool {
    exists|idx: Seq<int>, pos: Seq<int>|
        packages_follow_with(pkgs, cat, from, pins, resolver, lane, idx, pos)
}

/// Every catalogue entry carries a concrete pin.
pub open spec fn all_pinned(cat: Seq<PackageSpec>, from: Seq<char>, pins: Map<Seq<char>, Seq<char>>) -> bool {
    forall|j: int| 0 <= j < cat.len() ==> is_pinned(pins, #[trigger] cat[j], from)
}

/// A resolution failure for one unpinned catalogue entry.
pub open spec fn entry_failed<R: CrateVersionResolver + ?Sized>(
    e: ReleaseError,
    cat: Seq<PackageSpec>,
    from: Seq<char>,
    pins: Map<Seq<char>, Seq<char>>,
    resolver: &R,
    lane: Option<(u64, u64)>,
) -> bool {
    e matches ReleaseError::CrateResolution { crate_name, message } && exists|j: int|
        0 <= j < cat.len() && !is_pinned(pins, #[trigger] cat[j], from) && crate_name@
            == manifest_crate_name(from, cat[j].crate_name@) && entry_resolution(
            resolver,
            crate_name@,
            channel_from_tag(from),
            lane,
            Err(message@),
        )
}

/// A reference version: the concrete pin where there is one, else one the resolver reports.
pub open spec fn ref_version_ok(
    version: Seq<char>,
    package: Seq<char>,
    pins: Map<Seq<char>, Seq<char>>,
    reports: spec_fn(Seq<char>, Seq<char>) -> bool,
) -> bool {
    match concrete_pin(pins, package) {
        Some(v) => version == v,
        None => reports(package, version),
    }
}

/// Extension pack references: one per catalogue entry, in order.
pub open spec fn ext_refs_follow(
    refs: Seq<ExtensionPackRef>,
    cat: Seq<OciPackageSpec>,
    pins: Map<Seq<char>, Seq<char>>,
    reports: spec_fn(Seq<char>, Seq<char>) -> bool,
) -> bool {
    &&& refs.len() == cat.len()
    &&& forall|i: int|
        0 <= i < refs.len() ==> #[trigger] refs[i].id@ == cat[i].package@ && ref_version_ok(
            refs[i].version@,
            cat[i].package@,
            pins,
            reports,
        )
}

/// Component references: one per catalogue entry, in order.
pub open spec fn component_refs_follow(
    refs: Seq<ComponentRef>,
    cat: Seq<OciPackageSpec>,
    pins: Map<Seq<char>, Seq<char>>,
    reports: spec_fn(Seq<char>, Seq<char>) -> bool,
) -> bool {
    &&& refs.len() == cat.len()
    &&& forall|i: int|
        0 <= i < refs.len() ==> #[trigger] refs[i].id@ == cat[i].package@ && ref_version_ok(
            refs[i].version@,
            cat[i].package@,
            pins,
            reports,
        )
}

/// The source manifest's concrete pin for `key`, else what the artifact resolver reports.
fn ref_version_for_package<A: ArtifactVersionResolver>(
    package: &OciPackageSpec,
    source_versions: &StrMap,
    artifact_resolver: &A,
) -> (r: Result<String, ReleaseError>)
    ensures
        r matches Ok(v) ==> ref_version_ok(
            v@,
            package.package@,
            source_versions@,
            |p: Seq<char>, v: Seq<char>| artifact_resolver.reports(p, v),
        ),
        r matches Err(e) ==> e is ArtifactResolution,
        artifact_resolver.infallible() ==> r is Ok,
{
    match source_versions.get(package.package.as_str()) {
        Some(v) => {
            if !str_eq(v.as_str(), "latest") {
                return Ok(v.clone());
            }
        },
        None => {},
    }
    match artifact_resolver.resolve_latest(package.package.as_str()) {
        Ok(v) => Ok(v),
        Err(message) => Err(ReleaseError::ArtifactResolution { package: package.package.clone(), message }),
    }
}

fn extension_pack_refs_for_release<A: ArtifactVersionResolver>(
    source: Option<&ToolchainManifest>,
    catalogue: &Catalogue,
    artifact_resolver: &A,
) -> (r: Result<Vec<ExtensionPackRef>, ReleaseError>)
    ensures
        r matches Ok(v) ==> ext_refs_follow(
            v@,
            catalogue.extension_packs@,
            source_ext_pins(source),
            |p: Seq<char>, v: Seq<char>| artifact_resolver.reports(p, v),
        ),
        r matches Err(e) ==> e is ArtifactResolution,
        artifact_resolver.infallible() ==> r is Ok,
{
    let pins = ext_pack_version_map(source);
    let mut out: Vec<ExtensionPackRef> = Vec::new();
    let mut i: usize = 0;
    while i < catalogue.extension_packs.len()
        invariant
            i <= catalogue.extension_packs@.len(),
            pins@ == source_ext_pins(source),
            ext_refs_follow(
                out@,
                catalogue.extension_packs@.take(i as int),
                pins@,
                |p: Seq<char>, v: Seq<char>| artifact_resolver.reports(p, v),
            ),
        decreases catalogue.extension_packs@.len() - i,
    {
        let package = &catalogue.extension_packs[i];
        let version = ref_version_for_package(package, &pins, artifact_resolver)?;
        out.push(ExtensionPackRef { id: package.package.clone(), version });
        assert(ext_refs_follow(
            out@,
            catalogue.extension_packs@.take(i + 1),
            pins@,
            |p: Seq<char>, v: Seq<char>| artifact_resolver.reports(p, v),
        ));
        i = i + 1;
    }
    assert(catalogue.extension_packs@.take(catalogue.extension_packs@.len() as int)
        =~= catalogue.extension_packs@);
    Ok(out)
}

fn component_refs_for_release<A: ArtifactVersionResolver>(
    source: Option<&ToolchainManifest>,
    catalogue: &Catalogue,
    artifact_resolver: &A,
) -> (r: Result<Vec<ComponentRef>, ReleaseError>)
    ensures
        r matches Ok(v) ==> component_refs_follow(
            v@,
            catalogue.components@,
            source_component_pins(source),
            |p: Seq<char>, v: Seq<char>| artifact_resolver.reports(p, v),
        ),
        r matches Err(e) ==> e is ArtifactResolution,
        artifact_resolver.infallible() ==> r is Ok,
{
    let pins = component_version_map(source);
    let mut out: Vec<ComponentRef> = Vec::new();
    let mut i: usize = 0;
    while i < catalogue.components.len()
        invariant
            i <= catalogue.components@.len(),
            pins@ == source_component_pins(source),
            component_refs_follow(
                out@,
                catalogue.components@.take(i as int),
                pins@,
                |p: Seq<char>, v: Seq<char>| artifact_resolver.reports(p, v),
            ),
        decreases catalogue.components@.len() - i,
    {
        let package = &catalogue.components[i];
        let version = ref_version_for_package(package, &pins, artifact_resolver)?;
        out.push(ComponentRef { id: package.package.clone(), version });
        assert(component_refs_follow(
            out@,
            catalogue.components@.take(i + 1),
            pins@,
            |p: Seq<char>, v: Seq<char>| artifact_resolver.reports(p, v),
        ));
        i = i + 1;
    }
    assert(catalogue.components@.take(catalogue.components@.len() as int) =~= catalogue.components@);
    Ok(out)
}

/// The toolchain packages of a manifest for `release` from the `from`
/// channel: one per catalogue entry, in catalogue order, named for the
/// channel, a concrete pin kept, the rest resolved; on the research channel
/// an entry with no pin and no research build is left out.
fn resolve_catalogue_packages<R: CrateVersionResolver>(
    release: &str,
    from: &str,
    catalogue: &Catalogue,
    pins: &StrMap,
    resolver: &R,
) -> (r: Result<Vec<ToolchainPackage>, ReleaseError>)
    ensures
        r matches Ok(p) ==> packages_follow(
            p@,
            catalogue.toolchain@,
            from@,
            pins@,
            resolver,
            lane_spec(release@),
        ),
        r matches Err(e) ==> entry_failed(
            e,
            catalogue.toolchain@,
            from@,
            pins@,
            resolver,
            lane_spec(release@),
        ),
        resolver.infallible() || all_pinned(catalogue.toolchain@, from@, pins@) ==> r is Ok,
{
    let channel = channel_from_source_tag(from);
    let lane = lane_of(release);
    let ghost cat = catalogue.toolchain@;
    let mut packages: Vec<ToolchainPackage> = Vec::new();
    let ghost mut idx: Seq<int> = Seq::empty();
    let ghost mut pos: Seq<int> = Seq::empty();
    let mut i: usize = 0;
    while i < catalogue.toolchain.len()
        invariant
            i <= cat.len(),
            cat == catalogue.toolchain@,
            channel == channel_from_tag(from@),
            lane == lane_spec(release@),
            packages_follow_with(
                packages@,
                cat.take(i as int),
                from@,
                pins@,
                resolver,
                lane,
                idx,
                pos,
            ),
        decreases cat.len() - i,
    {
        let entry = &catalogue.toolchain[i];
        let crate_in_manifest = manifest_crate_name_for_source(from, entry.crate_name.as_str());
        let pinned: Option<String> = match pins.get(crate_in_manifest.as_str()) {
            Some(v) => if str_eq(v.as_str(), "latest") {
                None
            } else {
                Some(v.clone())
            },
            None => None,
        };
        assert(opt_text(pinned) == concrete_pin(pins@, crate_in_manifest@));
        let version = match pinned {
            Some(v) => Some(v),
            None => {
                let resolved = resolve_manifest_version(
                    resolver,
                    crate_in_manifest.as_str(),
                    channel,
                    lane,
                );
                match resolved {
                    Ok(v) => v,
                    Err(e) => {
                        assert(!is_pinned(pins@, cat[i as int], from@));
                        return Err(e);
                    },
                }
            },
        };
        let ghost prev = cat.take(i as int);
        let ghost next = cat.take(i + 1);
        assert(next.drop_last() =~= prev);
        match version {
            Some(version) => {
                let bins = manifest_bins_for_source(from, &entry.bins);
                let package = ToolchainPackage {
                    crate_name: crate_in_manifest,
                    bins,
                    version,
                    artifacts: None,
                };
                assert(package_follows(package, next[i as int], from@, pins@, resolver, lane));
                let ghost old_packages = packages@;
                packages.push(package);
                proof {
                    let old_idx = idx;
                    assert(old_idx.len() == old_packages.len());
                    assert(packages@ == old_packages.push(package));
                    let old_pos = pos;
                    idx = idx.push(i as int);
                    pos = pos.push(old_idx.len() as int);
                    assert forall|j: int| 0 <= j < next.len() implies (0 <= #[trigger] pos[j]
                        < idx.len() && idx[pos[j]] == j) || left_out(
                        next[j],
                        from@,
                        pins@,
                        resolver,
                        lane,
                    ) by {
                        if j < i {
                            assert(next[j] == prev[j]);
                            assert(pos[j] == old_pos[j]);
                        }
                    }
                    assert forall|k: int| 0 <= k < idx.len() implies package_follows(
                        #[trigger] packages@[k],
                        next[idx[k]],
                        from@,
                        pins@,
                        resolver,
                        lane,
                    ) by {
                        if k < old_idx.len() {
                            assert(next[idx[k]] == prev[old_idx[k]]);
                        }
                    }
                    assert forall|k: int| 0 <= k < idx.len() implies 0 <= #[trigger] idx[k] < next.len() by {
                        if k < old_idx.len() {
                            assert(0 <= old_idx[k] < prev.len());
                        }
                    }
                    assert forall|k: int, l: int| 0 <= k < l < idx.len() implies #[trigger] idx[k] < #[trigger] idx[l] by {
                        if l < old_idx.len() {
                            assert(old_idx[k] < old_idx[l]);
                        } else {
                            assert(0 <= old_idx[k] < prev.len());
                        }
                    }
                    assert(idx.len() == packages@.len());
                    assert(packages_follow_with(packages@, next, from@, pins@, resolver, lane, idx, pos));
                }
            },
            None => {
                proof {
                    let old_pos = pos;
                    pos = pos.push(-1);
                    assert(left_out(next[i as int], from@, pins@, resolver, lane));
                    assert forall|j: int| 0 <= j < next.len() implies (0 <= #[trigger] pos[j]
                        < idx.len() && idx[pos[j]] == j) || left_out(
                        next[j],
                        from@,
                        pins@,
                        resolver,
                        lane,
                    ) by {
                        if j < i {
                            assert(next[j] == prev[j]);
                            assert(pos[j] == old_pos[j]);
                        }
                    }
                    assert forall|k: int| 0 <= k < idx.len() implies package_follows(
                        #[trigger] packages@[k],
                        next[idx[k]],
                        from@,
                        pins@,
                        resolver,
                        lane,
                    ) by {
                        assert(next[idx[k]] == prev[idx[k]]);
                    }
                }
            },
        }
        i = i + 1;
    }
    assert(cat.take(cat.len() as int) =~= cat);
    Ok(packages)
}

/// A name given a channel suffix ends with `-<suffix>`.
proof fn lemma_suffixed_ends_with(name: Seq<char>, suffix: Seq<char>)
    ensures
        has_suffix(suffixed_name(name, suffix), "-"@ + suffix),
{
    let t = "-"@ + suffix;
    let r = suffixed_name(name, suffix);
    if name == "greentic-dev"@ {
        reveal_strlit("greentic-dev-");
        reveal_strlit("greentic-dev");
        reveal_strlit("-");
        assert(r == "greentic-dev"@ + t) by {
            assert("greentic-dev-"@ + suffix =~= "greentic-dev"@ + t);
        }
        assert(r.subrange(r.len() - t.len(), r.len() as int) =~= t);
    } else if has_suffix(name, t) {
    } else {
        assert(r == name + t) by {
            assert(name + "-"@ + suffix =~= name + t);
        }
        assert(r.subrange(r.len() - t.len(), r.len() as int) =~= t);
    }
}

/// A manifest package is named for its channel: from `dev`, crate and
/// binaries end in `-dev`; from `rnd`, the catalogue crate with binaries
/// ending in `-rnd`; from any other tag, the catalogue's names verbatim.
pub open spec fn named_for_channel(p: ToolchainPackage, spec: PackageSpec, from: Seq<char>) -> bool {
    if from == "dev"@ {
        &&& has_suffix(p.crate_name@, "-dev"@)
        &&& p.bins@.len() == spec.bins@.len()
        &&& forall|i: int| 0 <= i < p.bins@.len() ==> has_suffix(#[trigger] p.bins@[i]@, "-dev"@)
    } else if from == "rnd"@ {
        &&& p.crate_name@ == spec.crate_name@
        &&& p.bins@.len() == spec.bins@.len()
        &&& forall|i: int| 0 <= i < p.bins@.len() ==> has_suffix(#[trigger] p.bins@[i]@, "-rnd"@)
    } else {
        &&& p.crate_name@ == spec.crate_name@
        &&& p.bins.deep_view() == spec.bins.deep_view()
    }
}

/// `p` is some catalogue entry, named for the channel of `from`.
pub open spec fn named_from_catalogue(p: ToolchainPackage, cat: Seq<PackageSpec>, from: Seq<char>) -> bool {
    exists|j: int| 0 <= j < cat.len() && named_for_channel(p, #[trigger] cat[j], from)
}

/// Every package of a generated manifest is a catalogue entry named for
/// the channel the manifest is generated from.
pub proof fn lemma_packages_named_for_channel<R: CrateVersionResolver + ?Sized>(
    pkgs: Seq<ToolchainPackage>,
    cat: Seq<PackageSpec>,
    from: Seq<char>,
    pins: Map<Seq<char>, Seq<char>>,
    resolver: &R,
    lane: Option<(u64, u64)>,
)
    requires
        packages_follow(pkgs, cat, from, pins, resolver, lane),
    ensures
        forall|k: int| 0 <= k < pkgs.len() ==> #[trigger] named_from_catalogue(pkgs[k], cat, from),
{
    let (idx, pos) = choose|idx: Seq<int>, pos: Seq<int>|
        packages_follow_with(pkgs, cat, from, pins, resolver, lane, idx, pos);
    assert forall|k: int| 0 <= k < pkgs.len() implies #[trigger] named_from_catalogue(pkgs[k], cat, from) by {
        let j = idx[k];
        let p = pkgs[k];
        let spec = cat[j];
        assert(package_follows(p, spec, from, pins, resolver, lane));
        assert(p.bins.deep_view().len() == p.bins@.len());
        assert(spec.bins.deep_view().len() == spec.bins@.len());
        reveal_strlit("-");
        reveal_strlit("dev");
        reveal_strlit("rnd");
        reveal_strlit("-dev");
        reveal_strlit("-rnd");
        assert("-"@ + "dev"@ =~= "-dev"@);
        assert("-"@ + "rnd"@ =~= "-rnd"@);
        if from == "dev"@ {
            lemma_suffixed_ends_with(spec.crate_name@, "dev"@);
            assert forall|i: int| 0 <= i < p.bins@.len() implies has_suffix(#[trigger] p.bins@[i]@, "-dev"@) by {
                assert(p.bins@[i]@ == p.bins.deep_view()[i]);
                lemma_suffixed_ends_with(spec.bins.deep_view()[i], "dev"@);
            }
        } else if from == "rnd"@ {
            assert forall|i: int| 0 <= i < p.bins@.len() implies has_suffix(#[trigger] p.bins@[i]@, "-rnd"@) by {
                assert(p.bins@[i]@ == p.bins.deep_view()[i]);
                lemma_suffixed_ends_with(spec.bins.deep_view()[i], "rnd"@);
            }
        }
        assert(p.bins.deep_view() == manifest_bins(from, spec.bins.deep_view()));
        assert(p.bins@.len() == spec.bins@.len());
        if from != "dev"@ && from != "rnd"@ {
            assert(channel_from_tag(from) == ToolchainChannel::Stable);
            assert(manifest_bins(from, spec.bins.deep_view()) =~= spec.bins.deep_view());
        }
        assert(named_for_channel(p, spec, from));
        assert(0 <= j < cat.len());
        assert(named_for_channel(pkgs[k], cat[j], from));
    }
}

/// What every generated manifest states about itself.
pub open spec fn manifest_header(
    m: ToolchainManifest,
    release: Seq<char>,
    channel: Seq<char>,
    created_at: Option<String>,
) -> bool {
    &&& m.schema@ == manifest_schema()
    &&& m.toolchain@ == toolchain_name()
    &&& m.version@ == release
    &&& m.channel matches Some(c) && c@ == channel
    &&& m.created_at == created_at
    &&& m.gtc is None
}

/// A manifest for `release` built from the catalogue: packages named for the
/// `from` channel, concrete versions pinned by the source manifest kept, the
/// rest resolved (research builds that do not exist left out); extension
/// packs and components listed in catalogue order the same way.
pub fn generate_manifest_with_artifact_resolver<R: CrateVersionResolver, A: ArtifactVersionResolver>(
    release: &str,
    from: &str,
    source: Option<&ToolchainManifest>,
    catalogue: &Catalogue,
    resolver: &R,
    artifact_resolver: &A,
    created_at: Option<String>,
) -> (r: Result<ToolchainManifest, ReleaseError>)
    ensures
        (source matches Some(s) && !manifest_is_valid(*s)) <==> (r matches Err(e) && (
        e is UnsupportedSchema || e is UnsupportedToolchain)),
        r matches Err(e) ==> e is UnsupportedSchema || e is UnsupportedToolchain || entry_failed(
            e,
            catalogue.toolchain@,
            from@,
            source_pins(source),
            resolver,
            lane_spec(release@),
        ) || e is ArtifactResolution,
        artifact_resolver.infallible() ==> !(r matches Err(e) && e is ArtifactResolution),
        (source matches Some(s) ==> manifest_is_valid(*s)) && (resolver.infallible() || all_pinned(
            catalogue.toolchain@,
            from@,
            source_pins(source),
        )) && artifact_resolver.infallible() ==> r is Ok,
        r matches Ok(m) ==> {
            &&& manifest_header(m, release@, from@, created_at)
            &&& packages_follow(
                m.packages@,
                catalogue.toolchain@,
                from@,
                source_pins(source),
                resolver,
                lane_spec(release@),
            )
            &&& m.extension_packs matches Some(v) && ext_refs_follow(
                v@,
                catalogue.extension_packs@,
                source_ext_pins(source),
                |p: Seq<char>, v: Seq<char>| artifact_resolver.reports(p, v),
            )
            &&& m.components matches Some(v) && component_refs_follow(
                v@,
                catalogue.components@,
                source_component_pins(source),
                |p: Seq<char>, v: Seq<char>| artifact_resolver.reports(p, v),
            )
        },
{
    if let Some(s) = source {
        validate_manifest(s)?;
    }
    let source_versions = source_version_map(source);
    let packages = resolve_catalogue_packages(release, from, catalogue, &source_versions, resolver)?;
    let extension_packs = extension_pack_refs_for_release(source, catalogue, artifact_resolver)?;
    let components = component_refs_for_release(source, catalogue, artifact_resolver)?;
    Ok(
        ToolchainManifest {
            schema: toolchain_manifest_schema().to_string(),
            toolchain: toolchain_name_text().to_string(),
            version: owned(release),
            channel: Some(owned(from)),
            created_at,
            packages,
            extension_packs: Some(extension_packs),
            components: Some(components),
            gtc: None,
        },
    )
}

/// `generate_manifest_with_artifact_resolver` with every unpinned extension
/// pack and component stamped with the release being generated.
pub fn generate_manifest<R: CrateVersionResolver>(
    release: &str,
    from: &str,
    source: Option<&ToolchainManifest>,
    catalogue: &Catalogue,
    resolver: &R,
    created_at: Option<String>,
) -> (r: Result<ToolchainManifest, ReleaseError>)
    ensures
        (source matches Some(s) && !manifest_is_valid(*s)) <==> (r matches Err(e) && (
        e is UnsupportedSchema || e is UnsupportedToolchain)),
        r matches Err(e) ==> e is UnsupportedSchema || e is UnsupportedToolchain || entry_failed(
            e,
            catalogue.toolchain@,
            from@,
            source_pins(source),
            resolver,
            lane_spec(release@),
        ),
        (source matches Some(s) ==> manifest_is_valid(*s)) && (resolver.infallible() || all_pinned(
            catalogue.toolchain@,
            from@,
            source_pins(source),
        )) ==> r is Ok,
        r matches Ok(m) ==> {
            &&& manifest_header(m, release@, from@, created_at)
            &&& packages_follow(
                m.packages@,
                catalogue.toolchain@,
                from@,
                source_pins(source),
                resolver,
                lane_spec(release@),
            )
            &&& m.extension_packs matches Some(v) && ext_refs_follow(
                v@,
                catalogue.extension_packs@,
                source_ext_pins(source),
                |p: Seq<char>, v: Seq<char>| v == release@,
            )
            &&& m.components matches Some(v) && component_refs_follow(
                v@,
                catalogue.components@,
                source_component_pins(source),
                |p: Seq<char>, v: Seq<char>| v == release@,
            )
        },
{
    let artifact_resolver = ReleaseArtifactVersionResolver { release: owned(release) };
    let r = generate_manifest_with_artifact_resolver(
        release,
        from,
        source,
        catalogue,
        resolver,
        &artifact_resolver,
        created_at,
    );
    proof {
        if r is Ok {
            let reports = |p: Seq<char>, v: Seq<char>| artifact_resolver.reports(p, v);
            let stamped = |p: Seq<char>, v: Seq<char>| v == release@;
            assert(reports == stamped);
        }
    }
    r
}

/// The source manifest a missing channel tag is bootstrapped with: generated
/// from nothing, named after the tag itself.
pub fn bootstrap_source_manifest<R: CrateVersionResolver>(
    tag: &str,
    catalogue: &Catalogue,
    resolver: &R,
    created_at: Option<String>,
) -> (r: Result<ToolchainManifest, ReleaseError>)
    ensures
        r matches Err(e) ==> entry_failed(
            e,
            catalogue.toolchain@,
            tag@,
            Map::empty(),
            resolver,
            lane_spec(tag@),
        ),
        resolver.infallible() ==> r is Ok,
        r matches Ok(m) ==> {
            &&& manifest_header(m, tag@, tag@, created_at)
            &&& packages_follow(
                m.packages@,
                catalogue.toolchain@,
                tag@,
                Map::empty(),
                resolver,
                lane_spec(tag@),
            )
            &&& m.extension_packs matches Some(v) && ext_refs_follow(
                v@,
                catalogue.extension_packs@,
                Map::empty(),
                |p: Seq<char>, v: Seq<char>| v == tag@,
            )
            &&& m.components matches Some(v) && component_refs_follow(
                v@,
                catalogue.components@,
                Map::empty(),
                |p: Seq<char>, v: Seq<char>| v == tag@,
            )
        },
{
    proof {
        assert(pins_of(Seq::<ToolchainPackage>::empty()) =~= Map::empty());
    }
    generate_manifest(tag, tag, None, catalogue, resolver, created_at)
}

/// A fresh manifest for `release` on `channel`, every package resolved (none
/// read from an earlier manifest); on the research channel crates without a
/// research build are left out. No extension packs or components.
pub fn snapshot_manifest<R: CrateVersionResolver>(
    release: &str,
    channel: ToolchainChannel,
    catalogue: &Catalogue,
    resolver: &R,
    created_at: Option<String>,
) -> (r: Result<ToolchainManifest, ReleaseError>)
    ensures
        r matches Err(e) ==> entry_failed(
            e,
            catalogue.toolchain@,
            channel_tag_of(channel),
            Map::empty(),
            resolver,
            lane_spec(release@),
        ),
        resolver.infallible() ==> r is Ok,
        r matches Ok(m) ==> {
            &&& manifest_header(m, release@, channel_tag_of(channel), created_at)
            &&& packages_follow(
                m.packages@,
                catalogue.toolchain@,
                channel_tag_of(channel),
                Map::empty(),
                resolver,
                lane_spec(release@),
            )
            &&& m.extension_packs is None
            &&& m.components is None
        },
{
    let from = channel_tag(channel);
    let no_pins = StrMap::new();
    proof {
        lemma_channel_tag_round_trip(channel);
    }
    let packages = resolve_catalogue_packages(release, from, catalogue, &no_pins, resolver)?;
    Ok(
        ToolchainManifest {
            schema: toolchain_manifest_schema().to_string(),
            toolchain: toolchain_name_text().to_string(),
            version: owned(release),
            channel: Some(owned(from)),
            created_at,
            packages,
            extension_packs: None,
            components: None,
            gtc: None,
        },
    )
}

/// A `latest` package: the dev-lane crate and binaries, version `latest`.
pub open spec fn latest_package(p: ToolchainPackage, crate_name: Seq<char>, bins: Seq<Seq<char>>) -> bool {
    &&& p.crate_name@ == channel_binary_name(crate_name, ToolchainChannel::Development)
    &&& p.bins.deep_view() == manifest_bins("dev"@, bins)
    &&& p.version@ == "latest"@
    &&& p.artifacts is None
}

/// The packages of the `latest` manifest: gtc itself, then every catalogue entry.
pub fn latest_manifest_packages(catalogue: &Catalogue) -> (r: Vec<ToolchainPackage>)
    ensures
        r@.len() == catalogue.toolchain@.len() + 1,
        latest_package(r@[0], toolchain_name(), seq![toolchain_name()]),
        forall|i: int|
            0 <= i < catalogue.toolchain@.len() ==> latest_package(
                #[trigger] r@[i + 1],
                catalogue.toolchain@[i].crate_name@,
                catalogue.toolchain@[i].bins.deep_view(),
            ),
{
    let mut gtc_bins: Vec<String> = Vec::new();
    gtc_bins.push(toolchain_name_text().to_string());
    let mut out: Vec<ToolchainPackage> = Vec::new();
    out.push(
        ToolchainPackage {
            crate_name: delegated_binary_name_for_channel(
                toolchain_name_text(),
                ToolchainChannel::Development,
            ),
            bins: manifest_bins_for_source("dev", &gtc_bins),
            version: "latest".to_string(),
            artifacts: None,
        },
    );
    proof {
        assert(gtc_bins.deep_view() =~= seq![toolchain_name()]);
    }
    let mut i: usize = 0;
    while i < catalogue.toolchain.len()
        invariant
            i <= catalogue.toolchain@.len(),
            out@.len() == i + 1,
            latest_package(out@[0], toolchain_name(), seq![toolchain_name()]),
            forall|j: int|
                0 <= j < i ==> latest_package(
                    #[trigger] out@[j + 1],
                    catalogue.toolchain@[j].crate_name@,
                    catalogue.toolchain@[j].bins.deep_view(),
                ),
        decreases catalogue.toolchain@.len() - i,
    {
        let entry = &catalogue.toolchain[i];
        out.push(
            ToolchainPackage {
                crate_name: delegated_binary_name_for_channel(
                    entry.crate_name.as_str(),
                    ToolchainChannel::Development,
                ),
                bins: manifest_bins_for_source("dev", &entry.bins),
                version: "latest".to_string(),
                artifacts: None,
            },
        );
        i = i + 1;
    }
    out
}

/// The `latest` manifest: every package, extension pack and component at
/// version `latest`, on the `latest` channel.
pub fn latest_manifest(catalogue: &Catalogue, created_at: Option<String>) -> (r: ToolchainManifest)
    ensures
        manifest_header(r, "latest"@, "latest"@, created_at),
        r.packages@.len() == catalogue.toolchain@.len() + 1,
        latest_package(r.packages@[0], toolchain_name(), seq![toolchain_name()]),
        forall|i: int|
            0 <= i < catalogue.toolchain@.len() ==> latest_package(
                #[trigger] r.packages@[i + 1],
                catalogue.toolchain@[i].crate_name@,
                catalogue.toolchain@[i].bins.deep_view(),
            ),
        r.extension_packs matches Some(v) && v@.len() == catalogue.extension_packs@.len() && (
        forall|i: int|
            0 <= i < v@.len() ==> #[trigger] v@[i].id@ == catalogue.extension_packs@[i].package@
                && v@[i].version@ == "latest"@),
        r.components matches Some(v) && v@.len() == catalogue.components@.len() && (forall|i: int|
            0 <= i < v@.len() ==> #[trigger] v@[i].id@ == catalogue.components@[i].package@
                && v@[i].version@ == "latest"@),
{
    let mut packs: Vec<ExtensionPackRef> = Vec::new();
    let mut i: usize = 0;
    while i < catalogue.extension_packs.len()
        invariant
            i <= catalogue.extension_packs@.len(),
            packs@.len() == i,
            forall|j: int|
                0 <= j < i ==> #[trigger] packs@[j].id@ == catalogue.extension_packs@[j].package@
                    && packs@[j].version@ == "latest"@,
        decreases catalogue.extension_packs@.len() - i,
    {
        packs.push(
            ExtensionPackRef {
                id: catalogue.extension_packs[i].package.clone(),
                version: "latest".to_string(),
            },
        );
        i = i + 1;
    }
    let mut components: Vec<ComponentRef> = Vec::new();
    let mut k: usize = 0;
    while k < catalogue.components.len()
        invariant
            k <= catalogue.components@.len(),
            components@.len() == k,
            forall|j: int|
                0 <= j < k ==> #[trigger] components@[j].id@ == catalogue.components@[j].package@
                    && components@[j].version@ == "latest"@,
        decreases catalogue.components@.len() - k,
    {
        components.push(
            ComponentRef {
                id: catalogue.components[k].package.clone(),
                version: "latest".to_string(),
            },
        );
        k = k + 1;
    }
    ToolchainManifest {
        schema: toolchain_manifest_schema().to_string(),
        toolchain: toolchain_name_text().to_string(),
        version: "latest".to_string(),
        channel: Some("latest".to_string()),
        created_at,
        packages: latest_manifest_packages(catalogue),
        extension_packs: Some(packs),
        components: Some(components),
        gtc: None,
    }
}

} // verus!
