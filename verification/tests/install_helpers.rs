use greentic_dev::strmap::KeyedMap;
use greentic_dev::tenant::{plan_doc_install, DocSource, TenantDocEntry, TenantError};
use greentic_dev::install::{
    archive_name_matches, binary_filename, enforce_github_url, expected_binary_name,
    extracted_entry_mode, file_name_hint, github_latest_release_api_url, is_prerelease_segment,
    is_version_segment, parse_github_release_url, safe_archive_relative_path,
    sanitize_relative_path, select_release_target, sha256_hex, strip_version_suffix,
    tenant_manifest_asset_name, token_from_env, token_source, verify_sha256, InstallError,
    Platform, ReleaseTarget, TokenSource, BINARY_FILE_MODE, DATA_FILE_MODE,
};

#[test]
fn selects_matching_target() {
    let platform = Platform {
        os: "linux".to_string(),
        arch: "x86_64".to_string(),
    };
    let targets = vec![
        ReleaseTarget {
            os: "windows".to_string(),
            arch: "x86_64".to_string(),
            url: "https://github.com/x.zip".to_string(),
            sha256: Some("a".repeat(64)),
        },
        ReleaseTarget {
            os: "linux".to_string(),
            arch: "x86_64".to_string(),
            url: "https://github.com/y.tar.gz".to_string(),
            sha256: Some("b".repeat(64)),
        },
    ];
    let selected = select_release_target(&targets, &platform).expect("target");
    assert_eq!(selected.url, "https://github.com/y.tar.gz");
}

#[test]
fn checksum_verification_reports_failure() {
    let err = verify_sha256(b"abc", &"0".repeat(64)).unwrap_err();
    assert!(err.message().contains("sha256 mismatch"));
}

#[test]
fn tenant_manifest_asset_name_uses_tenant_json() {
    assert_eq!(tenant_manifest_asset_name("3point"), "3point.json");
    assert_eq!(
        github_latest_release_api_url(),
        "https://api.github.com/repos/greentic-biz/customers-tools/releases/tags/latest"
    );
}

#[test]
fn archive_name_matching_handles_versioned_binaries() {
    assert!(archive_name_matches("greentic-x", "greentic-x"));
    assert!(archive_name_matches("greentic-x", "greentic-x-v1.2.3"));
    assert!(archive_name_matches("greentic-x.exe", "greentic-x.exe"));
    assert!(!archive_name_matches("greentic-x", "other-tool"));
}

#[test]
fn expected_binary_name_strips_release_target_and_version() {
    let name = expected_binary_name(
        "greentic-fast2flow",
        "https://github.com/greentic-biz/greentic-fast2flow/releases/download/v0.4.1/greentic-fast2flow-v0.4.1-x86_64-unknown-linux-gnu.tar.gz",
    );
    assert_eq!(name, "greentic-fast2flow");
}

#[test]
fn expected_binary_name_strips_a_prerelease_version() {
    let name = expected_binary_name(
        "greentic-admin",
        "https://github.com/greentic-biz/greentic-admin/releases/download/v1.2.49-dev/greentic-admin-v1.2.49-dev-x86_64-unknown-linux-gnu.tar.gz",
    );
    assert_eq!(name, "greentic-admin");
}

#[test]
fn strip_version_suffix_keeps_a_trailing_word_that_is_not_a_prerelease() {
    assert_eq!(strip_version_suffix("greentic-mcp-gen"), "greentic-mcp-gen");
}

#[test]
fn sha256_hex_matches_the_known_digest() {
    assert_eq!(
        sha256_hex(b"abc"),
        "ba7816bf8f01cfea414140de5dae2223b00361a396177a9cb410ff61f20015ad"
    );
    assert!(verify_sha256(
        b"abc",
        "BA7816BF8F01CFEA414140DE5DAE2223B00361A396177A9CB410FF61F20015AD"
    )
    .is_ok());
}

#[test]
fn expected_binary_name_falls_back_without_a_target() {
    assert_eq!(
        expected_binary_name("tool", "https://github.com/o/r/releases/download/v1/tool.zip"),
        "tool"
    );
    assert_eq!(file_name_hint("https://example.com/"), "download.bin");
    assert_eq!(file_name_hint("plain"), "plain");
}

#[test]
fn version_and_prerelease_segments() {
    assert!(is_version_segment("v1.2.3"));
    assert!(is_version_segment("0_4"));
    assert!(!is_version_segment("v"));
    assert!(!is_version_segment("gen"));
    assert!(is_prerelease_segment("rc1"));
    assert!(!is_prerelease_segment(""));
    assert!(!is_prerelease_segment("a.b"));
    assert_eq!(strip_version_suffix("tool-v1.2.49-dev"), "tool");
    assert_eq!(strip_version_suffix("tool-1.0"), "tool");
    assert_eq!(strip_version_suffix("tool"), "tool");
}

#[test]
fn entry_modes_mark_only_the_binary_executable() {
    assert_eq!(extracted_entry_mode("tool", "tool"), BINARY_FILE_MODE);
    assert_eq!(extracted_entry_mode("tool", "tool-v1.0.0"), BINARY_FILE_MODE);
    assert_eq!(extracted_entry_mode("tool", "LICENSE"), DATA_FILE_MODE);
    assert_eq!(BINARY_FILE_MODE, 0o755);
}

#[test]
fn safe_archive_relative_path_rejects_escaping_paths() {
    assert_eq!(
        safe_archive_relative_path("bin/greentic-x"),
        Some("bin/greentic-x".to_string())
    );
    assert_eq!(
        safe_archive_relative_path("./bin//x/"),
        Some("bin/x".to_string())
    );
    assert!(safe_archive_relative_path("../escape").is_none());
    assert!(safe_archive_relative_path("/absolute").is_none());
    assert!(safe_archive_relative_path("./").is_none());
}

#[test]
fn doc_paths_must_stay_inside_the_docs_directory() {
    assert_eq!(sanitize_relative_path("guides/a.md"), Ok("guides/a.md".to_string()));
    assert_eq!(sanitize_relative_path("/etc/x"), Err(InstallError::AbsolutePath));
    assert_eq!(sanitize_relative_path("a/../../x"), Err(InstallError::EscapingPath));
}

#[test]
fn windows_binaries_get_the_exe_suffix_once() {
    assert_eq!(binary_filename("tool", true), "tool.exe");
    assert_eq!(binary_filename("tool.exe", true), "tool.exe");
    assert_eq!(binary_filename("tool", false), "tool");
}

#[test]
fn token_resolution_order() {
    assert_eq!(token_source(None, true), Ok(TokenSource::Prompt));
    assert_eq!(
        token_source(None, false),
        Err(InstallError::MissingTokenNonInteractive)
    );
    assert_eq!(
        token_source(Some("env:GH"), false),
        Ok(TokenSource::Env("GH".to_string()))
    );
    assert_eq!(
        token_source(Some("  "), false),
        Err(InstallError::EmptyTokenNonInteractive)
    );
    assert_eq!(
        token_source(Some("abc"), false),
        Ok(TokenSource::Given("abc".to_string()))
    );
    assert_eq!(
        token_from_env("GH", Some(" ".to_string())),
        Err(InstallError::EnvTokenEmpty("GH".to_string()))
    );
    assert_eq!(token_from_env("GH", Some("t".to_string())), Ok("t".to_string()));
}

#[test]
fn only_github_hosts_are_accepted() {
    assert!(enforce_github_url("https://github.com/o/r").is_ok());
    assert!(enforce_github_url("https://objects.githubusercontent.com/x").is_ok());
    assert_eq!(
        enforce_github_url("https://example.com/x"),
        Err(InstallError::NotGithub("example.com".to_string()))
    );
    assert!(matches!(
        enforce_github_url("not a url"),
        Err(InstallError::InvalidUrl(_))
    ));
}

#[test]
fn release_urls_are_read_by_their_parts() {
    let spec = parse_github_release_url(
        "https://github.com/greentic-biz/tool/releases/download/v1.0.0/tool-v1.0.0.tgz",
    )
    .unwrap();
    assert_eq!(spec.owner, "greentic-biz");
    assert_eq!(spec.repo, "tool");
    assert_eq!(spec.tag, "v1.0.0");
    assert_eq!(spec.asset_name, "tool-v1.0.0.tgz");
    let latest =
        parse_github_release_url("https://github.com/o/r/releases/latest/download/a/b").unwrap();
    assert_eq!(latest.tag, "latest");
    assert_eq!(latest.asset_name, "a/b");
    assert!(parse_github_release_url("https://example.com/o/r/releases/download/v1/a").is_none());
    assert!(parse_github_release_url("https://github.com/o/r/tags").is_none());
}

#[test]
fn parses_github_latest_release_download_url() {
    let spec = parse_github_release_url(
        "https://github.com/greentic-biz/greentic-mcp-generator/releases/latest/download/greentic-mcp-generator.json",
    )
    .unwrap();
    assert_eq!(spec.owner, "greentic-biz");
    assert_eq!(spec.repo, "greentic-mcp-generator");
    assert_eq!(spec.tag, "latest");
    assert_eq!(spec.asset_name, "greentic-mcp-generator.json");
}

#[test]
fn parses_github_tagged_release_download_url() {
    let spec = parse_github_release_url(
        "https://github.com/greentic-biz/greentic-mcp-generator/releases/download/v1.0.0/greentic-mcp-generator.json",
    )
    .unwrap();
    assert_eq!(spec.owner, "greentic-biz");
    assert_eq!(spec.repo, "greentic-mcp-generator");
    assert_eq!(spec.tag, "v1.0.0");
    assert_eq!(spec.asset_name, "greentic-mcp-generator.json");
}

#[test]
fn github_url_enforcement_allows_github_and_localhost_only() {
    enforce_github_url("https://github.com/acme/project/releases/download/v1/tool.tgz").unwrap();
    enforce_github_url("http://localhost:8080/test").unwrap();

    let err = enforce_github_url("https://example.com/tool.tgz").unwrap_err();
    assert!(err.message().contains("GitHub-hosted assets"));
}

// The prompt itself is the caller's terminal I/O: what the library decides is
// that a missing token on a terminal is asked for.
#[test]
fn resolve_token_prompts_when_missing_in_interactive_mode() {
    assert_eq!(token_source(None, true), Ok(TokenSource::Prompt));
}

// The English wording ("no interactive terminal") lives in the message
// catalogue; the library answers with the error it stands for.
#[test]
fn resolve_token_errors_when_missing_in_non_interactive_mode() {
    let err = token_source(None, false).unwrap_err();
    assert_eq!(err, InstallError::MissingTokenNonInteractive);
    assert_eq!(err.message(), "cli.install.error.missing_token_non_interactive");
}

#[test]
fn install_rejects_path_traversal_in_docs() {
    let doc = TenantDocEntry {
        schema: None,
        id: "acme-onboarding".to_string(),
        title: "Acme onboarding".to_string(),
        source: DocSource {
            source_type: "download".to_string(),
            url: "https://raw.githubusercontent.com/acme/docs/main/onboarding.md".to_string(),
        },
        download_file_name: "onboarding.md".to_string(),
        default_relative_path: "../escape.md".to_string(),
        i18n: KeyedMap::new(),
    };
    let err = plan_doc_install(doc, "en").unwrap_err();
    assert!(err.message().contains("docs directory"));
    assert_eq!(err, TenantError::Install(InstallError::EscapingPath));
}

#[test]
fn empty_archives_name_their_debug_dump() {
    let entries = vec!["README.md".to_string(), "docs/guide.md".to_string()];
    assert_eq!(
        greentic_dev::install::missing_binary_message("tool", "/tmp/dump", &entries),
        "archive did not contain `tool`. extracted debug dump to `/tmp/dump` with entries: README.md, docs/guide.md"
    );
}
