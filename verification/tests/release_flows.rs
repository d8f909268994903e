use greentic_dev::passthrough::ToolchainChannel;
use greentic_dev::release::{ToolchainManifest, ToolchainPackage};
use greentic_dev::release_flow::{
    ambient_github_token, apply_release_override, check_push, check_snapshot_source,
    optional_registry_auth, promote_gate, promote_report, publish_from_warning, publish_input,
    publish_report_lines, registry_auth_token, registry_token_env_var, resolve_registry_token,
    unknown_channel_note, updater_dispatch, PromoteGate, PublishInput, RegistryCredentials,
    RegistryTokenError, ReleaseFlowError, UpdaterDispatch,
};

const REPO: &str = "ghcr.io/greenticai/greentic-versions/gtc";

fn manifest(version: &str) -> ToolchainManifest {
    ToolchainManifest {
        schema: "greentic.toolchain-manifest.v1".to_string(),
        toolchain: "gtc".to_string(),
        version: version.to_string(),
        channel: Some("latest".to_string()),
        created_at: None,
        packages: vec![ToolchainPackage {
            crate_name: "greentic-runner".to_string(),
            bins: vec!["greentic-runner".to_string()],
            version: "0.5.10".to_string(),
            artifacts: None,
        }],
        extension_packs: None,
        components: None,
        gtc: None,
    }
}

#[test]
fn resolves_inline_registry_token() {
    assert_eq!(
        resolve_registry_token(Some("secret-token"), None).unwrap().as_deref(),
        Some("secret-token")
    );
}

// The variable an `env:` token names is read by the caller and handed in.
#[test]
fn resolves_registry_token_from_environment_reference() {
    let raw = Some("env:RELEASE_CMD_TEST_TOKEN");
    assert_eq!(registry_token_env_var(raw), Some("RELEASE_CMD_TEST_TOKEN".to_string()));
    let resolved = resolve_registry_token(raw, Some("env-secret")).unwrap();
    assert_eq!(resolved.as_deref(), Some("env-secret"));
}

#[test]
fn rejects_empty_registry_token_from_environment_reference() {
    let err = resolve_registry_token(Some("env:RELEASE_CMD_TEST_TOKEN"), Some("   ")).unwrap_err();
    assert!(err.message().contains("resolved to an empty token"));
    assert_eq!(err, RegistryTokenError::EnvEmpty("RELEASE_CMD_TEST_TOKEN".to_string()));
}

#[test]
fn registry_auth_uses_environment_fallbacks() {
    let token = registry_auth_token(resolve_registry_token(None, None), Some("ghcr-secret"), None).unwrap();
    assert_eq!(token, "ghcr-secret");
    assert_eq!(
        optional_registry_auth(false, Ok(token)),
        Ok(RegistryCredentials::Basic("ghcr-secret".to_string()))
    );
}

#[test]
fn optional_registry_auth_allows_missing_implicit_token() {
    let auth = registry_auth_token(resolve_registry_token(None, None), None, None);
    assert_eq!(auth, Err(RegistryTokenError::Missing));
    assert_eq!(optional_registry_auth(false, auth), Ok(RegistryCredentials::Anonymous));
}

#[test]
fn explicit_token_errors_stand() {
    let auth = registry_auth_token(resolve_registry_token(Some("  "), None), Some("ghcr"), None);
    assert_eq!(auth, Err(RegistryTokenError::Empty));
    assert_eq!(optional_registry_auth(true, auth), Err(RegistryTokenError::Empty));
    assert_eq!(
        resolve_registry_token(Some("env:NOPE"), None),
        Err(RegistryTokenError::EnvUnset("NOPE".to_string()))
    );
    assert_eq!(
        registry_auth_token(Ok(None), Some(" "), Some("gh")),
        Err(RegistryTokenError::Empty)
    );
    assert_eq!(RegistryTokenError::Missing.message(), "GHCR token is required; pass --token or set GHCR_TOKEN/GITHUB_TOKEN");
}

#[test]
fn ambient_token_takes_the_first_source_unless_blank() {
    assert_eq!(ambient_github_token(Ok(Some("given".to_string())), Some("g"), Some("h")), Some("given".to_string()));
    assert_eq!(ambient_github_token(Err(RegistryTokenError::Empty), Some("g"), Some("h")), Some("g".to_string()));
    assert_eq!(ambient_github_token(Ok(None), None, Some("h")), Some("h".to_string()));
    assert_eq!(ambient_github_token(Ok(None), Some(" "), Some("h")), None);
    assert_eq!(ambient_github_token(Ok(None), None, None), None);
}

#[test]
fn publish_manifest_input_uses_local_manifest_version() {
    let input = publish_input(Some("out/gtc-1.0.12.json"), None, None).unwrap();
    assert_eq!(input, PublishInput::Local { path: "out/gtc-1.0.12.json".to_string(), release_override: None });
    let mut loaded = manifest("1.0.12");
    let before_save = loaded.clone();
    let release = apply_release_override(&mut loaded, None);
    assert_eq!(release, "1.0.12");
    assert_eq!(loaded, before_save);
}

#[test]
fn publish_manifest_input_allows_release_override_for_local_manifest() {
    let input = publish_input(Some("out/gtc-1.0.13.json"), Some("1.0.13"), None).unwrap();
    assert_eq!(
        input,
        PublishInput::Local { path: "out/gtc-1.0.13.json".to_string(), release_override: Some("1.0.13".to_string()) }
    );
    let mut loaded = manifest("1.0.12");
    let release = apply_release_override(&mut loaded, Some("1.0.13"));
    assert_eq!(release, "1.0.13");
    assert_eq!(loaded.version, "1.0.13");
}

#[test]
fn publish_without_manifest_generates_from_latest() {
    assert_eq!(publish_input(None, None, None), Err(ReleaseFlowError::MissingReleaseOrManifest));
    assert_eq!(ReleaseFlowError::MissingReleaseOrManifest.message(), "pass --release or --manifest");
    assert_eq!(
        publish_input(None, Some("1.0.20"), None),
        Ok(PublishInput::Generate { release: "1.0.20".to_string(), from: "latest".to_string() })
    );
    assert_eq!(
        publish_input(None, Some("1.0.20"), Some("dev")),
        Ok(PublishInput::Generate { release: "1.0.20".to_string(), from: "dev".to_string() })
    );
    assert!(publish_from_warning(REPO, "dev").starts_with(
        "warning: `release publish --from dev` reuses the pinned versions in `ghcr.io/greenticai/greentic-versions/gtc:dev` instead of querying crates.io."
    ));
}

#[test]
fn latest_dry_run_succeeds() {
    assert_eq!(
        publish_report_lines(REPO, "latest", None, true),
        vec!["Dry run: would publish ghcr.io/greenticai/greentic-versions/gtc:latest".to_string()]
    );
}

#[test]
fn promote_dry_run_succeeds() {
    assert_eq!(
        promote_report(REPO, "1.0.12", "stable", true),
        "Dry run: would promote ghcr.io/greenticai/greentic-versions/gtc:1.0.12 to ghcr.io/greenticai/greentic-versions/gtc:stable"
    );
}

#[test]
fn publish_and_promote_reports() {
    assert_eq!(
        publish_report_lines(REPO, "1.0.12", Some("stable"), true),
        vec![
            format!("Dry run: would publish {REPO}:1.0.12"),
            format!("Dry run: would tag {REPO}:1.0.12 as {REPO}:stable"),
        ]
    );
    assert_eq!(
        publish_report_lines(REPO, "1.0.12", Some("stable"), false),
        vec![format!("Published {REPO}:1.0.12"), format!("Updated {REPO}:stable")]
    );
    assert_eq!(promote_report(REPO, "1.0.12", "stable", false), format!("Promoted {REPO}:1.0.12 to {REPO}:stable"));
    assert_eq!(
        unknown_channel_note(REPO, "1.0.12"),
        format!("Skipping updater dispatch: could not determine channel for {REPO}:1.0.12 (use workflow_dispatch as fallback)")
    );
}

#[test]
fn pushes_over_existing_tags_need_force() {
    assert!(check_push(true, true, REPO, "1.0.12", false).is_ok());
    assert!(check_push(false, false, REPO, "1.0.12", false).is_ok());
    let err = check_push(false, true, REPO, "1.0.12", false).unwrap_err();
    assert_eq!(err.message(), format!("release tag `{REPO}:1.0.12` already exists; pass --force to overwrite it"));
    let err = check_push(false, true, REPO, "latest", true).unwrap_err();
    assert_eq!(err.message(), format!("latest tag `{REPO}:latest` already exists; pass --force to overwrite it"));
}

#[test]
fn promotion_gate_fails_closed_for_stable() {
    assert_eq!(promote_gate(true, "stable"), PromoteGate::Verify);
    assert_eq!(promote_gate(false, "stable"), PromoteGate::RefuseUnverified);
    assert_eq!(promote_gate(false, "dev"), PromoteGate::Proceed);
    assert_eq!(
        ReleaseFlowError::UnverifiedStable(format!("{REPO}:1.0.12")).message(),
        format!("cannot read the toolchain pins of `{REPO}:1.0.12` — refusing to move `:stable` unverified")
    );
}

#[test]
fn github_release_snapshots_pin_the_dev_channel_only() {
    assert!(check_snapshot_source(ToolchainChannel::Development, true, "dev").is_ok());
    assert!(check_snapshot_source(ToolchainChannel::Stable, false, "stable").is_ok());
    let err = check_snapshot_source(ToolchainChannel::Stable, true, "stable").unwrap_err();
    assert_eq!(err.message(), "--source github-releases resolves the dev channel only, not `stable`");
}

#[test]
fn updater_dispatch_needs_a_stable_release_and_a_token() {
    assert_eq!(
        updater_dispatch("1.1.2", "stable", true),
        UpdaterDispatch::Send { release: "1.1.2".to_string(), channel: "stable".to_string() }
    );
    assert_eq!(
        updater_dispatch("1.1.2", "dev", true),
        UpdaterDispatch::Skip("Skipping updater dispatch: version `1.1.2` / channel `dev` is not a stable-lane release".to_string())
    );
    assert!(matches!(updater_dispatch("1.1.2", "stable", false), UpdaterDispatch::NoToken(_)));
}

#[test]
fn classify_crate_response_maps_404_to_absent() {
    let outcome = greentic_dev::release_flow::classify_crate_response(404, "url", "missing".to_string()).unwrap();
    assert!(outcome.is_none(), "404 must classify as absent (None)");
}

#[test]
fn classify_crate_response_returns_body_on_success() {
    let outcome = greentic_dev::release_flow::classify_crate_response(200, "url", "payload".to_string()).unwrap();
    assert_eq!(outcome.as_deref(), Some("payload"));
}

#[test]
fn classify_crate_response_errors_on_other_status() {
    let err = greentic_dev::release_flow::classify_crate_response(500, "url", "boom".to_string()).unwrap_err();
    assert!(err.contains("500"));
    assert_eq!(err, "crates.io API GET url returned 500 Internal Server Error: boom");
}

#[test]
fn release_response_404_means_absent() {
    assert_eq!(greentic_dev::release_flow::classify_release_response(404, "url", "{}".to_string()).unwrap(), None);
}

#[test]
fn release_response_success_returns_body() {
    assert_eq!(
        greentic_dev::release_flow::classify_release_response(200, "url", "{}".to_string()).unwrap(),
        Some("{}".to_string())
    );
}

#[test]
fn release_response_server_error_is_fatal() {
    assert!(greentic_dev::release_flow::classify_release_response(500, "url", "boom".to_string()).is_err());
    assert_eq!(greentic_dev::release_flow::status_text(599), "599 <unknown status code>");
}
