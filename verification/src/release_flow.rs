//! The decisions of the release commands between their registry and GitHub
//! calls: which token and credentials are used, where a published manifest
//! comes from, when a push or promotion is refused, whether the updater is
//! told, and what each step reports.
use vstd::prelude::*;

use crate::crates_io::{notify_updater, should_notify_updater};
use crate::passthrough::ToolchainChannel;
use crate::release::{toolchain_ref, ToolchainManifest};
use crate::text::{concat, concat3, decimal_text, has_prefix, owned, str_eq, strip_prefix, trim, trim_ws, u64_text};

verus! {

/// Why no registry token could be had.
#[derive(Clone, Debug, PartialEq, Eq)]
pub enum RegistryTokenError {
    /// The variable an `env:` token names is not set.
    EnvUnset(String),
    /// The variable an `env:` token names is blank.
    EnvEmpty(String),
    /// The token is blank.
    Empty,
    /// No token was given and none is in the environment.
    Missing,
}

/// The environment variable an `env:VAR` token names.
pub open spec fn token_env_var_spec(raw: Option<Seq<char>>) -> Option<Seq<char>> {
    match raw {
        Some(t) => if has_prefix(t, "env:"@) {
            Some(t.skip(4))
        } else {
            None
        },
        None => None,
    }
}

pub fn registry_token_env_var(raw: Option<&str>) -> (r: Option<String>)
    ensures
        r.deep_view() == token_env_var_spec(raw.deep_view()),
{
    proof {
        reveal_strlit("env:");
    }
    match raw {
        Some(t) => strip_prefix(t, "env:"),
        None => None,
    }
}

/// The token given with `--token`: none when none is given; an `env:VAR`
/// token is the variable's value (`env_value`), which must be set and not
/// blank; any other token is taken as it is unless blank.
pub open spec fn token_result_is(
    r: Result<Option<String>, RegistryTokenError>,
    raw: Option<Seq<char>>,
    env_value: Option<Seq<char>>,
) -> bool {
    match raw {
        None => r == Ok::<Option<String>, RegistryTokenError>(None),
        Some(t) => if has_prefix(t, "env:"@) {
            match env_value {
                None => r matches Err(RegistryTokenError::EnvUnset(x)) && x@ == t.skip(4),
                Some(v) => if trim_ws(v).len() == 0 {
                    r matches Err(RegistryTokenError::EnvEmpty(x)) && x@ == t.skip(4)
                } else {
                    r matches Ok(Some(s)) && s@ == v
                },
            }
        } else if trim_ws(t).len() == 0 {
            r == Err::<Option<String>, RegistryTokenError>(RegistryTokenError::Empty)
        } else {
            r matches Ok(Some(s)) && s@ == t
        },
    }
}

pub fn resolve_registry_token(raw: Option<&str>, env_value: Option<&str>) -> (r: Result<
    Option<String>,
    RegistryTokenError,
>)
    ensures
        token_result_is(r, raw.deep_view(), env_value.deep_view()),
{
    proof {
        reveal_strlit("env:");
    }
    let raw = match raw {
        None => return Ok(None),
        Some(t) => t,
    };
    if let Some(var) = strip_prefix(raw, "env:") {
        return match env_value {
            None => Err(RegistryTokenError::EnvUnset(var)),
            Some(v) => if trim(v).unicode_len() == 0 {
                Err(RegistryTokenError::EnvEmpty(var))
            } else {
                Ok(Some(owned(v)))
            },
        };
    }
    if trim(raw).unicode_len() == 0 {
        return Err(RegistryTokenError::Empty);
    }
    Ok(Some(owned(raw)))
}

/// The first of the given token, `GHCR_TOKEN` and `GITHUB_TOKEN` there is.
pub open spec fn first_token(
    given: Option<Seq<char>>,
    ghcr: Option<Seq<char>>,
    github: Option<Seq<char>>,
) -> Option<Seq<char>> {
    if given is Some {
        given
    } else if ghcr is Some {
        ghcr
    } else {
        github
    }
}

fn first_of(given: Option<String>, ghcr: Option<&str>, github: Option<&str>) -> (r: Option<String>)
    ensures
        r.deep_view() == first_token(given.deep_view(), ghcr.deep_view(), github.deep_view()),
{
    match given {
        Some(t) => Some(t),
        None => match ghcr {
            Some(t) => Some(owned(t)),
            None => match github {
                Some(t) => Some(owned(t)),
                None => None,
            },
        },
    }
}

/// The token pushes use: the given one (whose errors stand), else
/// `GHCR_TOKEN`, else `GITHUB_TOKEN`; it must be there and not blank.
pub fn registry_auth_token(
    given: Result<Option<String>, RegistryTokenError>,
    ghcr: Option<&str>,
    github: Option<&str>,
) -> (r: Result<String, RegistryTokenError>)
    ensures
        given matches Err(e) ==> r == Err::<String, RegistryTokenError>(e),
        given matches Ok(g) ==> match first_token(g.deep_view(), ghcr.deep_view(), github.deep_view()) {
            None => r == Err::<String, RegistryTokenError>(RegistryTokenError::Missing),
            Some(t) => if trim_ws(t).len() == 0 {
                r == Err::<String, RegistryTokenError>(RegistryTokenError::Empty)
            } else {
                r matches Ok(s) && s@ == t
            },
        },
{
    let given = match given {
        Err(e) => return Err(e),
        Ok(g) => g,
    };
    match first_of(given, ghcr, github) {
        None => Err(RegistryTokenError::Missing),
        Some(t) => if trim(t.as_str()).unicode_len() == 0 {
            Err(RegistryTokenError::Empty)
        } else {
            Ok(t)
        },
    }
}

/// Registry credentials.
#[derive(Clone, Debug, PartialEq, Eq)]
pub enum RegistryCredentials {
    /// The `oauth2` user with this token.
    Basic(String),
    Anonymous,
}

/// Credentials where a token is optional: without a `--token`, a missing
/// or unusable token reads anonymously; with one, its errors stand.
pub fn optional_registry_auth(token_given: bool, auth: Result<String, RegistryTokenError>) -> (r: Result<
    RegistryCredentials,
    RegistryTokenError,
>)
    ensures
        auth matches Ok(t) ==> r == Ok::<RegistryCredentials, RegistryTokenError>(
            RegistryCredentials::Basic(t),
        ),
        auth matches Err(e) ==> if token_given {
            r == Err::<RegistryCredentials, RegistryTokenError>(e)
        } else {
            r == Ok::<RegistryCredentials, RegistryTokenError>(RegistryCredentials::Anonymous)
        },
{
    match auth {
        Ok(t) => Ok(RegistryCredentials::Basic(t)),
        Err(e) => if token_given {
            Err(e)
        } else {
            Ok(RegistryCredentials::Anonymous)
        },
    }
}

/// The token for GitHub API calls: the given one when it resolves, else
/// `GHCR_TOKEN`, else `GITHUB_TOKEN`, unless the one chosen is blank.
pub fn ambient_github_token(
    given: Result<Option<String>, RegistryTokenError>,
    ghcr: Option<&str>,
    github: Option<&str>,
) -> (r: Option<String>)
    ensures
        ({
            let g = match given {
                Ok(Some(t)) => Some(t@),
                _ => None,
            };
            match first_token(g, ghcr.deep_view(), github.deep_view()) {
                Some(t) => if trim_ws(t).len() == 0 {
                    r is None
                } else {
                    r matches Some(s) && s@ == t
                },
                None => r is None,
            }
        }),
{
    let g = match given {
        Ok(Some(t)) => Some(t),
        _ => None,
    };
    match first_of(g, ghcr, github) {
        Some(t) => if trim(t.as_str()).unicode_len() == 0 {
            None
        } else {
            Some(t)
        },
        None => None,
    }
}

impl RegistryTokenError {
    pub fn message(&self) -> (r: String)
        ensures
            r@ == (match *self {
                RegistryTokenError::EnvUnset(v) => "failed to resolve env var "@ + v@,
                RegistryTokenError::EnvEmpty(v) => "env var "@ + v@ + " resolved to an empty token"@,
                RegistryTokenError::Empty => "GHCR token is empty"@,
                RegistryTokenError::Missing =>
                    "GHCR token is required; pass --token or set GHCR_TOKEN/GITHUB_TOKEN"@,
            }),
    {
        match self {
            RegistryTokenError::EnvUnset(v) => concat("failed to resolve env var ", v.as_str()),
            RegistryTokenError::EnvEmpty(v) => concat3("env var ", v.as_str(), " resolved to an empty token"),
            RegistryTokenError::Empty => "GHCR token is empty".to_string(),
            RegistryTokenError::Missing => "GHCR token is required; pass --token or set GHCR_TOKEN/GITHUB_TOKEN".to_string(),
        }
    }
}

/// Where `release publish` takes its manifest from.
#[derive(Clone, Debug, PartialEq, Eq)]
pub enum PublishInput {
    /// A manifest file, its version replaced by `--release` when given.
    Local { path: String, release_override: Option<String> },
    /// A manifest generated for `release` from the `from` source tag.
    Generate { release: String, from: String },
}

/// Why a release command stopped before or between its registry calls.
#[derive(Clone, Debug, PartialEq, Eq)]
pub enum ReleaseFlowError {
    /// Neither `--release` nor `--manifest` was given.
    MissingReleaseOrManifest,
    /// The tag exists and `--force` was not given.
    AlreadyExists { reference: String, latest: bool },
    /// The `stable` tag would move onto pins that could not be read.
    UnverifiedStable(String),
    /// GitHub releases only pin the dev channel.
    DevOnlySource(String),
}

/// `--manifest` wins; else `--release` is needed, generated from `--from`
/// (`latest` unless given).
pub fn publish_input(manifest: Option<&str>, release: Option<&str>, from: Option<&str>) -> (r: Result<
    PublishInput,
    ReleaseFlowError,
>)
    ensures
        manifest matches Some(p) ==> (r matches Ok(PublishInput::Local { path, release_override })
            && path@ == p@ && release_override.deep_view() == release.deep_view()),
        manifest is None && release is None ==> r == Err::<PublishInput, ReleaseFlowError>(
            ReleaseFlowError::MissingReleaseOrManifest,
        ),
        manifest is None && release is Some ==> (r matches Ok(
            PublishInput::Generate { release: x, from: f },
        ) && x@ == release->0@ && f@ == (match from {
            Some(v) => v@,
            None => "latest"@,
        })),
{
    if let Some(p) = manifest {
        let release_override = match release {
            Some(rel) => Some(owned(rel)),
            None => None,
        };
        return Ok(PublishInput::Local { path: owned(p), release_override });
    }
    let release = match release {
        Some(rel) => rel,
        None => return Err(ReleaseFlowError::MissingReleaseOrManifest),
    };
    let from = match from {
        Some(f) => owned(f),
        None => "latest".to_string(),
    };
    Ok(PublishInput::Generate { release: owned(release), from })
}

/// The release a local manifest is published as: `--release` when given,
/// which then also becomes the manifest's version; else its own version.
pub fn apply_release_override(manifest: &mut ToolchainManifest, release: Option<&str>) -> (r: String)
    ensures
        release matches Some(rel) ==> r@ == rel@ && final(manifest).version@ == rel@,
        release is None ==> r@ == old(manifest).version@ && final(manifest).version
            == old(manifest).version,
        final(manifest).schema == old(manifest).schema,
        final(manifest).toolchain == old(manifest).toolchain,
        final(manifest).channel == old(manifest).channel,
        final(manifest).created_at == old(manifest).created_at,
        final(manifest).packages == old(manifest).packages,
        final(manifest).extension_packs == old(manifest).extension_packs,
        final(manifest).components == old(manifest).components,
        final(manifest).gtc == old(manifest).gtc,
{
    match release {
        Some(rel) => {
            manifest.version = owned(rel);
            owned(rel)
        },
        None => manifest.version.clone(),
    }
}

pub open spec fn tref(repo: Seq<char>, tag: Seq<char>) -> Seq<char> {
    repo + ":"@ + tag
}

/// The warning `release publish --from` gives when the source manifest
/// already pins concrete versions, which it then reuses.
pub fn publish_from_warning(repo: &str, from: &str) -> (r: String)
    ensures
        r@ == "warning: `release publish --from "@ + from@ + "` reuses the pinned versions in `"@
            + tref(repo@, from@)
            + "` instead of querying crates.io. To refresh a channel from the latest crates.io versions, use `release snapshot --channel <dev|research|stable>`. To copy an existing release tag without re-resolving, use `release promote`. The conflated `--from` semantics will be removed in a future release."@,
{
    let reference = toolchain_ref(repo, from);
    let head = concat3("warning: `release publish --from ", from, "` reuses the pinned versions in `");
    let mid = concat(head.as_str(), reference.as_str());
    concat(
        mid.as_str(),
        "` instead of querying crates.io. To refresh a channel from the latest crates.io versions, use `release snapshot --channel <dev|research|stable>`. To copy an existing release tag without re-resolving, use `release promote`. The conflated `--from` semantics will be removed in a future release.",
    )
}

/// What `release promote` does before moving a tag.
#[derive(Clone, Copy, Debug, PartialEq, Eq)]
pub enum PromoteGate {
    /// Check the pins of the release being promoted.
    Verify,
    /// Refuse: the `stable` tag does not move onto pins that could not be read.
    RefuseUnverified,
    /// Move the tag without checking.
    Proceed,
}

pub fn promote_gate(source_loaded: bool, tag: &str) -> (r: PromoteGate)
    ensures
        source_loaded ==> r == PromoteGate::Verify,
        !source_loaded && tag@ == "stable"@ ==> r == PromoteGate::RefuseUnverified,
        !source_loaded && tag@ != "stable"@ ==> r == PromoteGate::Proceed,
{
    if source_loaded {
        PromoteGate::Verify
    } else if str_eq(tag, "stable") {
        PromoteGate::RefuseUnverified
    } else {
        PromoteGate::Proceed
    }
}

/// `--source github-releases` pins the dev channel only.
pub fn check_snapshot_source(channel: ToolchainChannel, github_releases: bool, channel_arg: &str) -> (r:
    Result<(), ReleaseFlowError>)
    ensures
        github_releases && channel != ToolchainChannel::Development ==> (r matches Err(
            ReleaseFlowError::DevOnlySource(c),
        ) && c@ == channel_arg@),
        !(github_releases && channel != ToolchainChannel::Development) ==> r is Ok,
{
    if github_releases && channel != ToolchainChannel::Development {
        Err(ReleaseFlowError::DevOnlySource(owned(channel_arg)))
    } else {
        Ok(())
    }
}

/// A push over an existing tag needs `--force`; `exists` is what the
/// registry answered, asked only without `--force`.
pub fn check_push(force: bool, exists: bool, repo: &str, tag: &str, latest: bool) -> (r: Result<
    (),
    ReleaseFlowError,
>)
    ensures
        !force && exists ==> (r matches Err(ReleaseFlowError::AlreadyExists { reference, latest: l })
            && reference@ == tref(repo@, tag@) && l == latest),
        force || !exists ==> r is Ok,
{
    if !force && exists {
        Err(ReleaseFlowError::AlreadyExists { reference: toolchain_ref(repo, tag), latest })
    } else {
        Ok(())
    }
}

/// What a publish reports: the release pushed, then the tag moved, when there is one.
pub open spec fn publish_report(repo: Seq<char>, release: Seq<char>, tag: Option<Seq<char>>, dry_run: bool) -> Seq<Seq<char>> {
    let first = if dry_run {
        "Dry run: would publish "@ + tref(repo, release)
    } else {
        "Published "@ + tref(repo, release)
    };
    match tag {
        Some(t) => seq![first, if dry_run {
            "Dry run: would tag "@ + tref(repo, release) + " as "@ + tref(repo, t)
        } else {
            "Updated "@ + tref(repo, t)
        }],
        None => seq![first],
    }
}

pub fn publish_report_lines(repo: &str, release: &str, tag: Option<&str>, dry_run: bool) -> (r: Vec<String>)
    ensures
        r.deep_view() == publish_report(repo@, release@, tag.deep_view(), dry_run),
{
    let release_ref = toolchain_ref(repo, release);
    let mut out: Vec<String> = Vec::new();
    if dry_run {
        out.push(concat("Dry run: would publish ", release_ref.as_str()));
    } else {
        out.push(concat("Published ", release_ref.as_str()));
    }
    if let Some(t) = tag {
        let tag_ref = toolchain_ref(repo, t);
        if dry_run {
            let head = concat3("Dry run: would tag ", release_ref.as_str(), " as ");
            out.push(concat(head.as_str(), tag_ref.as_str()));
        } else {
            out.push(concat("Updated ", tag_ref.as_str()));
        }
    }
    assert(out.deep_view() =~= publish_report(repo@, release@, tag.deep_view(), dry_run));
    out
}

/// What a promotion reports.
pub fn promote_report(repo: &str, release: &str, tag: &str, dry_run: bool) -> (r: String)
    ensures
        r@ == (if dry_run {
            "Dry run: would promote "@
        } else {
            "Promoted "@
        }) + tref(repo@, release@) + " to "@ + tref(repo@, tag@),
{
    let release_ref = toolchain_ref(repo, release);
    let tag_ref = toolchain_ref(repo, tag);
    let head = if dry_run {
        concat3("Dry run: would promote ", release_ref.as_str(), " to ")
    } else {
        concat3("Promoted ", release_ref.as_str(), " to ")
    };
    concat(head.as_str(), tag_ref.as_str())
}

/// Whether and how the coordinated updater is told of a release.
#[derive(Clone, Debug, PartialEq, Eq)]
pub enum UpdaterDispatch {
    /// Not a stable-lane release; the message says so.
    Skip(String),
    /// No token to dispatch with; the message warns of it.
    NoToken(String),
    /// Dispatch `toolchain-release-published` for this release and channel.
    Send { release: String, channel: String },
}

/// Only plain stable releases are dispatched, and only with a token.
pub fn updater_dispatch(version: &str, channel: &str, token_available: bool) -> (r: UpdaterDispatch)
    ensures
        !notify_updater(version@, channel@) ==> (r matches UpdaterDispatch::Skip(m) && m@
            == "Skipping updater dispatch: version `"@ + version@ + "` / channel `"@ + channel@
            + "` is not a stable-lane release"@),
        notify_updater(version@, channel@) && !token_available ==> (r matches UpdaterDispatch::NoToken(m)
            && m@
            == "Warning: skipping updater dispatch — no token available (pass --token or set GHCR_TOKEN/GITHUB_TOKEN)"@),
        notify_updater(version@, channel@) && token_available ==> (r matches UpdaterDispatch::Send {
            release,
            channel: c,
        } && release@ == version@ && c@ == channel@),
{
    if !should_notify_updater(version, channel) {
        let head = concat3("Skipping updater dispatch: version `", version, "` / channel `");
        return UpdaterDispatch::Skip(concat3(head.as_str(), channel, "` is not a stable-lane release"));
    }
    if !token_available {
        return UpdaterDispatch::NoToken(
            "Warning: skipping updater dispatch — no token available (pass --token or set GHCR_TOKEN/GITHUB_TOKEN)".to_string(),
        );
    }
    UpdaterDispatch::Send { release: owned(version), channel: owned(channel) }
}

/// The note a promotion gives when the channel of what it promoted is unknown.
pub fn unknown_channel_note(repo: &str, release: &str) -> (r: String)
    ensures
        r@ == "Skipping updater dispatch: could not determine channel for "@ + tref(repo@, release@)
            + " (use workflow_dispatch as fallback)"@,
{
    let reference = toolchain_ref(repo, release);
    concat3(
        "Skipping updater dispatch: could not determine channel for ",
        reference.as_str(),
        " (use workflow_dispatch as fallback)",
    )
}

pub open spec fn release_flow_error_text(e: ReleaseFlowError) -> Seq<char> {
    match e {
        ReleaseFlowError::MissingReleaseOrManifest => "pass --release or --manifest"@,
        ReleaseFlowError::AlreadyExists { reference, latest } => (if latest {
            "latest tag `"@
        } else {
            "release tag `"@
        }) + reference@ + "` already exists; pass --force to overwrite it"@,
        ReleaseFlowError::UnverifiedStable(reference) => "cannot read the toolchain pins of `"@
            + reference@ + "` — refusing to move `:stable` unverified"@,
        ReleaseFlowError::DevOnlySource(channel) =>
            "--source github-releases resolves the dev channel only, not `"@ + channel@ + "`"@,
    }
}

impl ReleaseFlowError {
    pub fn message(&self) -> (r: String)
        ensures
            r@ == release_flow_error_text(*self),
    {
        match self {
            ReleaseFlowError::MissingReleaseOrManifest => "pass --release or --manifest".to_string(),
            ReleaseFlowError::AlreadyExists { reference, latest } => {
                let head = if *latest {
                    "latest tag `"
                } else {
                    "release tag `"
                };
                concat3(head, reference.as_str(), "` already exists; pass --force to overwrite it")
            },
            ReleaseFlowError::UnverifiedStable(reference) => concat3(
                "cannot read the toolchain pins of `",
                reference.as_str(),
                "` — refusing to move `:stable` unverified",
            ),
            ReleaseFlowError::DevOnlySource(channel) => concat3(
                "--source github-releases resolves the dev channel only, not `",
                channel.as_str(),
                "`",
            ),
        }
    }
}

/// The reason phrase `http::StatusCode::canonical_reason` gives a status code.
pub uninterp spec fn status_reason(code: u16) -> Option<Seq<char>>;

/// `reqwest::StatusCode::from_u16`, then `canonical_reason`: the reason
/// phrase the crate's table holds for the code, if any. Every code from 100
/// to 999 is a status code.
#[verifier::external_body]
fn canonical_reason(code: u16) -> (r: Option<String>)
    requires
        100 <= code <= 999,
    ensures
        r.deep_view() == status_reason(code),
{
    reqwest::StatusCode::from_u16(code).ok().and_then(|s| s.canonical_reason()).map(|s| s.to_string())
}

/// A status code as `StatusCode` displays it: the number, then its reason
/// phrase or `<unknown status code>`.
pub open spec fn status_display(code: u16) -> Seq<char> {
    decimal_text(code as nat) + " "@ + match status_reason(code) {
        Some(r) => r,
        None => "<unknown status code>"@,
    }
}

pub fn status_text(code: u16) -> (r: String)
    requires
        100 <= code <= 999,
    ensures
        r@ == status_display(code),
{
    let number = u64_text(code as u64);
    let reason = match canonical_reason(code) {
        Some(r) => r,
        None => "<unknown status code>".to_string(),
    };
    concat3(number.as_str(), " ", reason.as_str())
}

/// A GET answered `status`: 404 means absent, a 2xx gives the body, any other
/// status is an error naming the service, URL, status and body.
pub fn classify_response(service: &str, status: u16, url: &str, body: String) -> (r: Result<
    Option<String>,
    String,
>)
    requires
        100 <= status <= 999,
    ensures
        status == 404 ==> r == Ok::<Option<String>, String>(None),
        status != 404 && 200 <= status <= 299 ==> r == Ok::<Option<String>, String>(Some(body)),
        status != 404 && !(200 <= status <= 299) ==> (r matches Err(m) && m@ == service@
            + " GET "@ + url@ + " returned "@ + status_display(status) + ": "@ + body@),
{
    if status == 404 {
        return Ok(None);
    }
    if !(200 <= status && status <= 299) {
        let head = concat3(service, " GET ", url);
        let mid = concat3(head.as_str(), " returned ", status_text(status).as_str());
        return Err(concat3(mid.as_str(), ": ", body.as_str()));
    }
    Ok(Some(body))
}

/// A crates.io crate page response.
pub fn classify_crate_response(status: u16, url: &str, body: String) -> (r: Result<Option<String>, String>)
    requires
        100 <= status <= 999,
    ensures
        status == 404 ==> r == Ok::<Option<String>, String>(None),
        status != 404 && 200 <= status <= 299 ==> r == Ok::<Option<String>, String>(Some(body)),
        status != 404 && !(200 <= status <= 299) ==> (r matches Err(m) && m@ == "crates.io API"@ + " GET "@
            + url@ + " returned "@ + status_display(status) + ": "@ + body@),
{
    classify_response("crates.io API", status, url, body)
}

/// A GitHub release response.
pub fn classify_release_response(status: u16, url: &str, body: String) -> (r: Result<Option<String>, String>)
    requires
        100 <= status <= 999,
    ensures
        status == 404 ==> r == Ok::<Option<String>, String>(None),
        status != 404 && 200 <= status <= 299 ==> r == Ok::<Option<String>, String>(Some(body)),
        status != 404 && !(200 <= status <= 299) ==> (r matches Err(m) && m@ == "GitHub API"@ + " GET "@
            + url@ + " returned "@ + status_display(status) + ": "@ + body@),
{
    classify_response("GitHub API", status, url, body)
}

} // verus!
