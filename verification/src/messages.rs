//! The text each error of the library reads as. Errors spoken in the user's
//! language read as their message-catalogue key.
use vstd::prelude::*;

use crate::crates_io::CratesIoError;
use crate::install::InstallError;
use crate::release::ReleaseError;
use crate::tenant::{DocField, TenantError};
use crate::release_gate::{AssetProblem, ReleaseProblem, ReleaseProblemKind};
use crate::text::{concat, concat3, decimal_text, u64_text};
use crate::wizard::{join, join_spec, WizardError};

verus! {

/// `a` + `b` + `c` + `d` + `e`.
fn cat5(a: &str, b: &str, c: &str, d: &str, e: &str) -> (r: String)
    ensures
        r@ == a@ + b@ + c@ + d@ + e@,
{
    let x = concat3(a, b, c);
    concat3(x.as_str(), d, e)
}

pub open spec fn asset_problem_text(p: AssetProblem, version: Seq<char>) -> Seq<char> {
    match p {
        AssetProblem::NoArchives => "release has no v"@ + version + " archives yet (upload in progress)"@,
        AssetProblem::MissingChecksums(names) => "archives missing .sha256 (upload in progress): "@
            + join_spec(names.deep_view(), ", "@),
    }
}

/// Why a release's assets are not usable, for `version`.
pub fn asset_problem_message(p: &AssetProblem, version: &str) -> (r: String)
    ensures
        r@ == asset_problem_text(*p, version@),
{
    match p {
        AssetProblem::NoArchives => concat3("release has no v", version, " archives yet (upload in progress)"),
        AssetProblem::MissingChecksums(names) => {
            let list = join(names, ", ");
            concat("archives missing .sha256 (upload in progress): ", list.as_str())
        },
    }
}

/// The version a release tag names (`v<version>`).
pub open spec fn tag_version(tag: Seq<char>) -> Seq<char> {
    if tag.len() > 0 && tag[0] == 'v' {
        tag.skip(1)
    } else {
        tag
    }
}

pub open spec fn release_problem_text(q: ReleaseProblem) -> Seq<char> {
    q.crate_name@ + " "@ + q.tag@ + ": "@ + match q.kind {
        ReleaseProblemKind::NoRelease => "no GitHub release (build not finished)"@,
        ReleaseProblemKind::Assets(p) => asset_problem_text(p, tag_version(q.tag@)),
    }
}

pub fn release_problem_message(q: &ReleaseProblem) -> (r: String)
    ensures
        r@ == release_problem_text(*q),
{
    let head = concat3(q.crate_name.as_str(), " ", q.tag.as_str());
    let head = concat(head.as_str(), ": ");
    let reason = match &q.kind {
        ReleaseProblemKind::NoRelease => "no GitHub release (build not finished)".to_string(),
        ReleaseProblemKind::Assets(p) => {
            let n = q.tag.unicode_len();
            let version = if n > 0 && q.tag.get_char(0) == 'v' {
                crate::text::slice_chars(q.tag.as_str(), 1, n)
            } else {
                q.tag.clone()
            };
            assert(version@ =~= tag_version(q.tag@));
            asset_problem_message(p, version.as_str())
        },
    };
    concat(head.as_str(), reason.as_str())
}

pub open spec fn problems_text(problems: Seq<ReleaseProblem>) -> Seq<Seq<char>> {
    problems.map_values(|q: ReleaseProblem| release_problem_text(q))
}

pub open spec fn release_error_text(e: ReleaseError) -> Seq<char> {
    match e {
        ReleaseError::UnsupportedSchema(s) => "unsupported toolchain manifest schema `"@ + s@ + "`"@,
        ReleaseError::UnsupportedToolchain(s) => "unsupported toolchain `"@ + s@ + "`"@,
        ReleaseError::UnknownChannel(s) => "unknown channel `"@ + s@
            + "` (expected `dev`, `research` (alias `rnd`), or `stable`); pass --channel dev for the dev lane, --channel research for the research lane, or --channel stable for the stable lane"@,
        ReleaseError::ViewArguments => "pass exactly one of --release or --tag"@,
        ReleaseError::CrateResolution { crate_name, message } => "failed to resolve a version for `"@
            + crate_name@ + "`: "@ + message@,
        ReleaseError::ArtifactResolution { package, message } =>
            "failed to resolve an artifact version for `"@ + package@ + "`: "@ + message@,
        ReleaseError::ReleaseLookup { repo, tag, message } => "failed to read the release "@ + repo@
            + " "@ + tag@ + ": "@ + message@,
        ReleaseError::NotDownloadable { version, problems } =>
            "refusing to publish toolchain manifest "@ + version@ + ": "@ + decimal_text(
            problems@.len(),
        ) + " pinned package(s) are not downloadable yet:\n  "@ + join_spec(
            problems_text(problems@),
            "\n  "@,
        ) + "\nWait for the release builds to finish, then retry."@,
        ReleaseError::NoUsableTag => "no semver or latest tags found"@,
    }
}

impl ReleaseError {
    /// What the error reads as.
    pub fn message(&self) -> (r: String)
        ensures
            r@ == release_error_text(*self),
    {
        match self {
            ReleaseError::UnsupportedSchema(s) => concat3(
                "unsupported toolchain manifest schema `",
                s.as_str(),
                "`",
            ),
            ReleaseError::UnsupportedToolchain(s) => concat3("unsupported toolchain `", s.as_str(), "`"),
            ReleaseError::UnknownChannel(s) => concat3(
                "unknown channel `",
                s.as_str(),
                "` (expected `dev`, `research` (alias `rnd`), or `stable`); pass --channel dev for the dev lane, --channel research for the research lane, or --channel stable for the stable lane",
            ),
            ReleaseError::ViewArguments => "pass exactly one of --release or --tag".to_string(),
            ReleaseError::CrateResolution { crate_name, message } => { let head = concat3("failed to resolve a version for `", crate_name.as_str(), "`: "); concat(head.as_str(), message.as_str()) },
            ReleaseError::ArtifactResolution { package, message } => { let head = concat3("failed to resolve an artifact version for `", package.as_str(), "`: "); concat(head.as_str(), message.as_str()) },
            ReleaseError::ReleaseLookup { repo, tag, message } => {
                let head = cat5("failed to read the release ", repo.as_str(), " ", tag.as_str(), ": ");
                concat(head.as_str(), message.as_str())
            },
            ReleaseError::NotDownloadable { version, problems } => {
                let mut lines: Vec<String> = Vec::new();
                let mut i: usize = 0;
                while i < problems.len()
                    invariant
                        i <= problems@.len(),
                        lines.deep_view() == problems_text(problems@).take(i as int),
                    decreases problems@.len() - i,
                {
                    let line = release_problem_message(&problems[i]);
                    let ghost before = lines.deep_view();
                    lines.push(line);
                    assert(lines.deep_view() =~= before.push(line@));
                    assert(lines.deep_view() =~= problems_text(problems@).take(i + 1));
                    i = i + 1;
                }
                assert(problems_text(problems@).take(problems@.len() as int) =~= problems_text(
                    problems@,
                ));
                let count = u64_text(problems.len() as u64);
                let head = cat5(
                    "refusing to publish toolchain manifest ",
                    version.as_str(),
                    ": ",
                    count.as_str(),
                    " pinned package(s) are not downloadable yet:\n  ",
                );
                let body = join(&lines, "\n  ");
                concat3(head.as_str(), body.as_str(), "\nWait for the release builds to finish, then retry.")
            },
            ReleaseError::NoUsableTag => "no semver or latest tags found".to_string(),
        }
    }
}

pub open spec fn crates_io_error_text(e: CratesIoError) -> Seq<char> {
    match e {
        CratesIoError::InvalidJson { crate_name } => "crates.io API for `"@ + crate_name@
            + "` returned invalid JSON"@,
        CratesIoError::MissingVersions { crate_name } => "crates.io API for `"@ + crate_name@
            + "` is missing the `versions` array"@,
        CratesIoError::MissingCrate { crate_name } => "crates.io API for `"@ + crate_name@
            + "` is missing the top-level `crate` object"@,
        CratesIoError::NoVersionField { crate_name } => "crates.io API for `"@ + crate_name@
            + "` does not expose max_stable_version, newest_version, or max_version"@,
        CratesIoError::Unparseable { crate_name, version } =>
            "crates.io returned an unparseable version `"@ + version@ + "` for `"@ + crate_name@
            + "`"@,
        CratesIoError::NoVersion { crate_name, research_only } => "crates.io API for `"@
            + crate_name@ + "` exposes "@ + if research_only {
            "no non-yanked `-research` version"@
        } else {
            "no non-yanked versions"@
        },
        CratesIoError::EmptyLane { crate_name, major, minor } => "crates.io has no non-yanked `"@
            + crate_name@ + "` in the "@ + decimal_text(major as nat) + "."@ + decimal_text(
            minor as nat,
        ) + " lane"@,
    }
}

impl CratesIoError {
    /// What the error reads as.
    pub fn message(&self) -> (r: String)
        ensures
            r@ == crates_io_error_text(*self),
    {
        match self {
            CratesIoError::InvalidJson { crate_name } => concat3(
                "crates.io API for `",
                crate_name.as_str(),
                "` returned invalid JSON",
            ),
            CratesIoError::MissingVersions { crate_name } => concat3(
                "crates.io API for `",
                crate_name.as_str(),
                "` is missing the `versions` array",
            ),
            CratesIoError::MissingCrate { crate_name } => concat3(
                "crates.io API for `",
                crate_name.as_str(),
                "` is missing the top-level `crate` object",
            ),
            CratesIoError::NoVersionField { crate_name } => concat3(
                "crates.io API for `",
                crate_name.as_str(),
                "` does not expose max_stable_version, newest_version, or max_version",
            ),
            CratesIoError::Unparseable { crate_name, version } => cat5(
                "crates.io returned an unparseable version `",
                version.as_str(),
                "` for `",
                crate_name.as_str(),
                "`",
            ),
            CratesIoError::NoVersion { crate_name, research_only } => {
                let what = if *research_only {
                    "no non-yanked `-research` version"
                } else {
                    "no non-yanked versions"
                };
                let head = concat3("crates.io API for `", crate_name.as_str(), "` exposes ");
                concat(head.as_str(), what)
            },
            CratesIoError::EmptyLane { crate_name, major, minor } => {
                let head = concat3("crates.io has no non-yanked `", crate_name.as_str(), "` in the ");
                cat5(head.as_str(), u64_text(*major).as_str(), ".", u64_text(*minor).as_str(), " lane")
            },
        }
    }
}

pub open spec fn install_error_text(e: InstallError) -> Seq<char> {
    match e {
        InstallError::NoTarget { os, arch } => "no target for "@ + os@ + " / "@ + arch@,
        InstallError::ChecksumMismatch { expected, actual } => "sha256 mismatch: expected "@
            + expected@ + ", got "@ + actual@,
        InstallError::AbsolutePath => "absolute doc install paths are not allowed"@,
        InstallError::EscapingPath => "doc install path must stay within the docs directory"@,
        InstallError::InvalidUrl(u) => "invalid URL `"@ + u@ + "`"@,
        InstallError::NoHost(u) => "URL `"@ + u@ + "` does not include a host"@,
        InstallError::NotGithub(h) => "only GitHub-hosted assets are supported, got `"@ + h@ + "`"@,
        InstallError::MissingTokenNonInteractive => "cli.install.error.missing_token_non_interactive"@,
        InstallError::EmptyTokenNonInteractive => "cli.install.error.empty_token_non_interactive"@,
        InstallError::EnvTokenUnset(_) => "cli.install.error.env_token_resolve"@,
        InstallError::EnvTokenEmpty(_) => "cli.install.error.env_token_empty"@,
    }
}

impl InstallError {
    /// What the error reads as; the token errors, spoken in the user's
    /// language, read as their catalogue key (with `{var}` to fill in).
    pub fn message(&self) -> (r: String)
        ensures
            r@ == install_error_text(*self),
    {
        match self {
            InstallError::NoTarget { os, arch } => { let head = concat3("no target for ", os.as_str(), " / "); concat(head.as_str(), arch.as_str()) },
            InstallError::ChecksumMismatch { expected, actual } => { let head = concat3("sha256 mismatch: expected ", expected.as_str(), ", got "); concat(head.as_str(), actual.as_str()) },
            InstallError::AbsolutePath => "absolute doc install paths are not allowed".to_string(),
            InstallError::EscapingPath => "doc install path must stay within the docs directory".to_string(),
            InstallError::InvalidUrl(u) => concat3("invalid URL `", u.as_str(), "`"),
            InstallError::NoHost(u) => concat3("URL `", u.as_str(), "` does not include a host"),
            InstallError::NotGithub(h) => concat3(
                "only GitHub-hosted assets are supported, got `",
                h.as_str(),
                "`",
            ),
            InstallError::MissingTokenNonInteractive => "cli.install.error.missing_token_non_interactive".to_string(),
            InstallError::EmptyTokenNonInteractive => "cli.install.error.empty_token_non_interactive".to_string(),
            InstallError::EnvTokenUnset(_) => "cli.install.error.env_token_resolve".to_string(),
            InstallError::EnvTokenEmpty(_) => "cli.install.error.env_token_empty".to_string(),
        }
    }
}

pub open spec fn wizard_error_text(e: WizardError) -> Seq<char> {
    match e {
        WizardError::Destructive => "plan requested destructive operations; re-run with --allow-destructive"@,
        WizardError::ProgramNotAllowed(p) => "command `"@ + p@
            + "` is not allowed by default; use --unsafe-commands to allow it"@,
        WizardError::UnsafeArgs(p) => "command `"@ + p@
            + "` contains blocked shell-like arguments; refusing to execute"@,
        WizardError::PinMismatch { program, expected, actual } => "replay pin mismatch for `"@
            + program@ + "`: expected `"@ + expected@ + "`, got `"@ + actual@ + "`"@,
        WizardError::MissingSelectedAction => "missing required answers.selected_action (`pack` or `bundle`)"@,
        WizardError::UnsupportedAction(a) => "unsupported selected_action `"@ + a@
            + "`; expected `pack` or `bundle`"@,
        WizardError::InvalidSelection { .. } => "cli.wizard.error.invalid_selection"@,
        WizardError::NonInteractive => "runtime.wizard.confirm.error.non_interactive"@,
        WizardError::InteractiveRequired => "cli.wizard.error.interactive_required"@,
        WizardError::Canceled => "runtime.wizard.confirm.error.canceled"@,
        WizardError::UnsupportedWizardId { wizard_id, source } => "unsupported wizard_id `"@
            + wizard_id@ + "` in "@ + source@ + "; expected `greentic-dev.wizard.launcher.main`"@,
        WizardError::UnsupportedSchemaId { schema_id, source } => "unsupported schema_id `"@
            + schema_id@ + "` in "@ + source@ + "; expected `greentic-dev.launcher.main`"@,
        WizardError::SchemaVersionMismatch { found, requested } => "answers schema_version `"@
            + found@ + "` does not match requested `"@ + requested@ + "`; re-run with --migrate"@,
    }
}

impl WizardError {
    /// What the error reads as; errors spoken in the user's language read as
    /// their catalogue key.
    pub fn message(&self) -> (r: String)
        ensures
            r@ == wizard_error_text(*self),
    {
        match self {
            WizardError::Destructive => "plan requested destructive operations; re-run with --allow-destructive".to_string(),
            WizardError::ProgramNotAllowed(p) => concat3(
                "command `",
                p.as_str(),
                "` is not allowed by default; use --unsafe-commands to allow it",
            ),
            WizardError::UnsafeArgs(p) => concat3(
                "command `",
                p.as_str(),
                "` contains blocked shell-like arguments; refusing to execute",
            ),
            WizardError::PinMismatch { program, expected, actual } => {
                let head = cat5(
                    "replay pin mismatch for `",
                    program.as_str(),
                    "`: expected `",
                    expected.as_str(),
                    "`, got `",
                );
                concat3(head.as_str(), actual.as_str(), "`")
            },
            WizardError::MissingSelectedAction => "missing required answers.selected_action (`pack` or `bundle`)".to_string(),
            WizardError::UnsupportedAction(a) => concat3(
                "unsupported selected_action `",
                a.as_str(),
                "`; expected `pack` or `bundle`",
            ),
            WizardError::InvalidSelection { .. } => "cli.wizard.error.invalid_selection".to_string(),
            WizardError::NonInteractive => "runtime.wizard.confirm.error.non_interactive".to_string(),
            WizardError::InteractiveRequired => "cli.wizard.error.interactive_required".to_string(),
            WizardError::Canceled => "runtime.wizard.confirm.error.canceled".to_string(),
            WizardError::UnsupportedWizardId { wizard_id, source } => cat5(
                "unsupported wizard_id `",
                wizard_id.as_str(),
                "` in ",
                source.as_str(),
                "; expected `greentic-dev.wizard.launcher.main`",
            ),
            WizardError::UnsupportedSchemaId { schema_id, source } => cat5(
                "unsupported schema_id `",
                schema_id.as_str(),
                "` in ",
                source.as_str(),
                "; expected `greentic-dev.launcher.main`",
            ),
            WizardError::SchemaVersionMismatch { found, requested } => cat5(
                "answers schema_version `",
                found.as_str(),
                "` does not match requested `",
                requested.as_str(),
                "`; re-run with --migrate",
            ),
        }
    }
}

pub open spec fn doc_field_name(f: DocField) -> Seq<char> {
    match f {
        DocField::Title => "title"@,
        DocField::Source => "source"@,
        DocField::DownloadFileName => "download_file_name"@,
        DocField::DefaultRelativePath => "default_relative_path"@,
    }
}

pub open spec fn tenant_error_text(e: TenantError) -> Seq<char> {
    match e {
        TenantError::TenantMismatch { .. } => "cli.install.error.tenant_manifest_mismatch"@,
        TenantError::BareToolId(id) => "tool id `"@ + id@
            + "` requires a manifest URL; bare IDs are not supported by greentic-dev"@,
        TenantError::BareDocId(id) => "doc id `"@ + id@
            + "` requires a manifest URL; bare IDs are not supported by greentic-dev"@,
        TenantError::ToolManifestMismatch { referenced, found } =>
            "tool manifest mismatch: tenant referenced `"@ + referenced@
            + "` but manifest contained `"@ + found@ + "`"@,
        TenantError::DocManifestMismatch { referenced, found } =>
            "doc manifest mismatch: tenant referenced `"@ + referenced@
            + "` but manifest contained `"@ + found@ + "`"@,
        TenantError::MixedDocManifest(id) => "doc manifest `"@ + id@
            + "` must not mix single-doc fields with docs[]"@,
        TenantError::MissingDocField { id, field } => "doc manifest `"@ + id@ + "` is missing `"@
            + doc_field_name(field) + "`"@,
        TenantError::UnsupportedInstallType { id, install_type } => "tool `"@ + id@
            + "` has unsupported install type `"@ + install_type@ + "`"@,
        TenantError::UnsupportedSourceType { id, source_type } => "doc `"@ + id@
            + "` has unsupported source type `"@ + source_type@ + "`"@,
        TenantError::Install(e) => install_error_text(e),
        TenantError::UnsupportedOs(_) => "cli.install.error.unsupported_os"@,
        TenantError::UnsupportedArch(_) => "cli.install.error.unsupported_arch"@,
    }
}

fn doc_field_text(f: DocField) -> (r: &'static str)
    ensures
        r@ == doc_field_name(f),
{
    match f {
        DocField::Title => "title",
        DocField::Source => "source",
        DocField::DownloadFileName => "download_file_name",
        DocField::DefaultRelativePath => "default_relative_path",
    }
}

impl TenantError {
    /// What the error reads as; the ones spoken in the user's language read
    /// as their catalogue key.
    pub fn message(&self) -> (r: String)
        ensures
            r@ == tenant_error_text(*self),
    {
        match self {
            TenantError::TenantMismatch { .. } => "cli.install.error.tenant_manifest_mismatch".to_string(),
            TenantError::BareToolId(id) => concat3(
                "tool id `",
                id.as_str(),
                "` requires a manifest URL; bare IDs are not supported by greentic-dev",
            ),
            TenantError::BareDocId(id) => concat3(
                "doc id `",
                id.as_str(),
                "` requires a manifest URL; bare IDs are not supported by greentic-dev",
            ),
            TenantError::ToolManifestMismatch { referenced, found } => cat5(
                "tool manifest mismatch: tenant referenced `",
                referenced.as_str(),
                "` but manifest contained `",
                found.as_str(),
                "`",
            ),
            TenantError::DocManifestMismatch { referenced, found } => cat5(
                "doc manifest mismatch: tenant referenced `",
                referenced.as_str(),
                "` but manifest contained `",
                found.as_str(),
                "`",
            ),
            TenantError::MixedDocManifest(id) => concat3(
                "doc manifest `",
                id.as_str(),
                "` must not mix single-doc fields with docs[]",
            ),
            TenantError::MissingDocField { id, field } => cat5(
                "doc manifest `",
                id.as_str(),
                "` is missing `",
                doc_field_text(*field),
                "`",
            ),
            TenantError::UnsupportedInstallType { id, install_type } => cat5(
                "tool `",
                id.as_str(),
                "` has unsupported install type `",
                install_type.as_str(),
                "`",
            ),
            TenantError::UnsupportedSourceType { id, source_type } => cat5(
                "doc `",
                id.as_str(),
                "` has unsupported source type `",
                source_type.as_str(),
                "`",
            ),
            TenantError::Install(e) => e.message(),
            TenantError::UnsupportedOs(_) => "cli.install.error.unsupported_os".to_string(),
            TenantError::UnsupportedArch(_) => "cli.install.error.unsupported_arch".to_string(),
        }
    }
}

} // verus!
