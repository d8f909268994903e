use greentic_dev::crates_io::{
    parse_crates_io_research_version, pick_highest_crates_io_version, pick_highest_in_lane,
    research_or_fallback, select_latest_artifact_tag, should_notify_updater, CratesIoVersion,
};
use greentic_dev::passthrough::ToolchainChannel;
use greentic_dev::release::{
    generate_manifest, generate_manifest_with_artifact_resolver, lane_of, latest_manifest,
    manifest_bins_for_source, manifest_crate_name_for_source, manifest_file_name, parse_channel,
    release_view_tag, snapshot_manifest, source_manifest_has_concrete_pins, source_version_map,
    toolchain_ref, validate_manifest, ArtifactVersionResolver, Catalogue, CrateVersionResolver,
    OciPackageSpec, PackageSpec, ReleaseError, ReleaseViewArgs, ResearchVersion,
    ToolchainManifest, ToolchainPackage,
};

const SCHEMA: &str = "greentic.toolchain-manifest.v1";

struct FixedResolver;

impl CrateVersionResolver for FixedResolver {
    fn resolve_latest(&self, crate_name: &str) -> Result<String, String> {
        Ok(match crate_name {
            "greentic-runner" => "0.5.10",
            _ => "1.2.3",
        }
        .to_string())
    }
}

struct FixedArtifactResolver;

impl ArtifactVersionResolver for FixedArtifactResolver {
    fn resolve_latest(&self, package: &str) -> Result<String, String> {
        Ok(match package {
            "packs/messaging/messaging-webchat-gui" => "0.4.93",
            "components/component-adaptive-card" => "0.5.8",
            _ => "0.1.0",
        }
        .to_string())
    }
}

/// Only `operator` crates lack a research build.
struct ResearchSkipResolver;

impl CrateVersionResolver for ResearchSkipResolver {
    fn resolve_latest(&self, _crate_name: &str) -> Result<String, String> {
        Ok("1.2.0-research.4".to_string())
    }

    fn resolve_research_version(&self, crate_name: &str) -> Result<ResearchVersion, String> {
        if crate_name.contains("operator") {
            Ok(ResearchVersion::Absent)
        } else {
            Ok(ResearchVersion::Pinned("1.2.0-research.4".to_string()))
        }
    }
}

fn spec(crate_name: &str, bins: &[&str]) -> PackageSpec {
    PackageSpec {
        crate_name: crate_name.to_string(),
        bins: bins.iter().map(|b| b.to_string()).collect(),
    }
}

fn catalogue() -> Catalogue {
    Catalogue {
        toolchain: vec![
            spec("greentic-dev", &["greentic-dev"]),
            spec("greentic-runner", &["greentic-runner"]),
            spec("greentic-flow", &["greentic-flow"]),
            spec("greentic-operator", &["greentic-operator"]),
        ],
        extension_packs: vec![OciPackageSpec {
            package: "packs/messaging/messaging-webchat-gui".to_string(),
        }],
        components: vec![OciPackageSpec {
            package: "components/component-adaptive-card".to_string(),
        }],
    }
}

fn empty_manifest(version: &str, channel: Option<&str>) -> ToolchainManifest {
    ToolchainManifest {
        schema: SCHEMA.to_string(),
        toolchain: "gtc".to_string(),
        version: version.to_string(),
        channel: channel.map(str::to_string),
        created_at: None,
        packages: Vec::new(),
        extension_packs: None,
        components: None,
        gtc: None,
    }
}

fn versions_of(body: &str) -> Vec<CratesIoVersion> {
    let payload: serde_json::Value = serde_json::from_str(body).unwrap();
    payload["versions"]
        .as_array()
        .unwrap()
        .iter()
        .map(|entry| CratesIoVersion {
            num: entry.get("num").and_then(|n| n.as_str()).map(str::to_string),
            yanked: entry.get("yanked").and_then(|y| y.as_bool()).unwrap_or(false),
        })
        .collect()
}

#[test]
fn research_resolver_picks_highest_non_yanked_research_prerelease() {
    let body = r#"{"crate":{"id":"greentic-runner","max_stable_version":"0.5.48"},
        "versions":[
            {"num":"0.5.48","yanked":false},
            {"num":"1.2.0-research.0","yanked":false},
            {"num":"1.2.0-research.1","yanked":false},
            {"num":"1.2.0-research.2","yanked":true}
        ]}"#;
    let version = parse_crates_io_research_version("greentic-runner", &versions_of(body)).unwrap();
    assert_eq!(version, "1.2.0-research.1");
}

#[test]
fn research_resolver_errors_when_no_research_version() {
    let body = r#"{"crate":{"id":"greentic-setup"},
        "versions":[{"num":"1.2.0-dev.123","yanked":false},{"num":"0.5.25","yanked":false}]}"#;
    let err = parse_crates_io_research_version("greentic-setup", &versions_of(body)).unwrap_err();
    assert!(err.message().contains("no non-yanked `-research`"));
}

#[test]
fn from_argument_controls_generated_channel_over_source_manifest() {
    let source = empty_manifest("latest", Some("stable"));
    let manifest =
        generate_manifest("1.0.16", "dev", Some(&source), &catalogue(), &FixedResolver, None)
            .unwrap();
    assert_eq!(manifest.channel.as_deref(), Some("dev"));
    assert_eq!(manifest_file_name(&manifest), "gtc-dev-1.0.16.json");
}

#[test]
fn snapshot_manifest_resolves_via_resolver() {
    let manifest = snapshot_manifest(
        "1.1.6",
        ToolchainChannel::Development,
        &catalogue(),
        &FixedResolver,
        None,
    )
    .unwrap();
    assert!(!manifest.packages.is_empty());
    for package in &manifest.packages {
        assert_eq!(
            package.version, "1.2.3",
            "resolver must be hit for {}",
            package.crate_name
        );
    }
}

#[test]
fn parses_dev_channel_argument() {
    assert_eq!(parse_channel("dev").unwrap(), ToolchainChannel::Development);
    assert_eq!(
        parse_channel("development").unwrap(),
        ToolchainChannel::Development
    );
    assert_eq!(parse_channel("stable").unwrap(), ToolchainChannel::Stable);
    assert!(parse_channel("rc").is_err());
}

#[test]
fn the_lane_comes_from_the_release_being_generated() {
    assert_eq!(lane_of("1.2.1"), Some((1, 2)));
    assert_eq!(lane_of("1.2.32374413367"), Some((1, 2)));
    assert_eq!(lane_of("nonsense"), None);
}

#[test]
fn detects_concrete_pins_for_publish_deprecation_warning() {
    let mut with_pins = empty_manifest("0.0.1", Some("dev"));
    with_pins.packages = vec![ToolchainPackage {
        crate_name: "greentic-operator-dev".to_string(),
        bins: vec!["greentic-operator-dev".to_string()],
        version: "0.5.123".to_string(),
        artifacts: None,
    }];
    assert!(source_manifest_has_concrete_pins(&with_pins));

    let mut only_latest = with_pins.clone();
    only_latest.packages = vec![ToolchainPackage {
        crate_name: "greentic-operator".to_string(),
        bins: vec!["greentic-operator".to_string()],
        version: "latest".to_string(),
        artifacts: None,
    }];
    assert!(!source_manifest_has_concrete_pins(&only_latest));
}

#[test]
fn validates_schema_and_toolchain() {
    let mut manifest =
        generate_manifest("1.0.5", "latest", None, &catalogue(), &FixedResolver, None).unwrap();
    assert!(validate_manifest(&manifest).is_ok());
    manifest.schema = "wrong".to_string();
    assert!(validate_manifest(&manifest).is_err());
    manifest.schema = SCHEMA.to_string();
    manifest.toolchain = "other".to_string();
    assert!(validate_manifest(&manifest).is_err());
}

fn view_args(release: Option<&str>, tag: Option<&str>) -> ReleaseViewArgs {
    ReleaseViewArgs {
        release: release.map(str::to_string),
        tag: tag.map(str::to_string),
        repo: "ghcr.io/greenticai/greentic-versions/gtc".to_string(),
        token: None,
    }
}

#[test]
fn release_view_tag_prefers_release_or_tag() {
    assert_eq!(release_view_tag(&view_args(Some("1.0.5"), None)).unwrap(), "1.0.5");
    assert_eq!(release_view_tag(&view_args(None, Some("stable"))).unwrap(), "stable");
}

#[test]
fn release_view_tag_rejects_invalid_argument_combinations() {
    let err = release_view_tag(&view_args(Some("1.0.5"), Some("stable"))).unwrap_err();
    assert!(err
        .message()
        .contains("pass exactly one of --release or --tag"));

    let err = release_view_tag(&view_args(None, None)).unwrap_err();
    assert!(err
        .message()
        .contains("pass exactly one of --release or --tag"));
}

#[test]
fn manifest_file_name_omits_stable_channel() {
    let manifest = empty_manifest("1.0.12", Some("stable"));
    assert_eq!(manifest_file_name(&manifest), "gtc-1.0.12.json");
}

#[test]
fn manifest_file_name_includes_non_stable_channel() {
    let mut manifest =
        generate_manifest("1.0.12", "dev", None, &catalogue(), &FixedResolver, None).unwrap();
    assert_eq!(manifest_file_name(&manifest), "gtc-dev-1.0.12.json");

    manifest.channel = Some("customer-a".to_string());
    assert_eq!(manifest_file_name(&manifest), "gtc-customer-a-1.0.12.json");
}

#[test]
fn manifest_helpers_only_apply_dev_suffix_for_dev_channel() {
    assert_eq!(
        manifest_bins_for_source(
            "latest",
            &vec!["greentic-dev".to_string(), "greentic-runner".to_string()]
        ),
        vec!["greentic-dev".to_string(), "greentic-runner".to_string()]
    );
    assert_eq!(
        manifest_bins_for_source("dev", &vec!["greentic-dev".to_string()]),
        vec!["greentic-dev-dev".to_string()]
    );
    assert_eq!(
        manifest_crate_name_for_source("latest", "greentic-runner"),
        "greentic-runner"
    );
    assert_eq!(
        manifest_crate_name_for_source("dev", "greentic-runner"),
        "greentic-runner-dev"
    );
}

#[test]
fn source_version_map_handles_missing_and_present_sources() {
    assert!(source_version_map(None).is_empty());

    let mut source = empty_manifest("latest", Some("latest"));
    source.packages = vec![ToolchainPackage {
        crate_name: "greentic-dev".to_string(),
        bins: vec!["greentic-dev".to_string()],
        version: "0.6.0".to_string(),
        artifacts: None,
    }];

    let versions = source_version_map(Some(&source));
    assert_eq!(
        versions.get("greentic-dev").map(String::as_str),
        Some("0.6.0")
    );
}

#[test]
fn builds_toolchain_ref() {
    assert_eq!(
        toolchain_ref("ghcr.io/greenticai/greentic-versions/gtc", "stable"),
        "ghcr.io/greenticai/greentic-versions/gtc:stable"
    );
}

#[test]
fn snapshot_manifest_skips_crates_without_research_build() {
    let manifest = snapshot_manifest(
        "1.2.0-research.4",
        ToolchainChannel::Rnd,
        &catalogue(),
        &ResearchSkipResolver,
        None,
    )
    .unwrap();
    assert!(!manifest.packages.is_empty());
    assert!(manifest.packages.len() < catalogue().toolchain.len());
    assert!(manifest
        .packages
        .iter()
        .all(|package| !package.crate_name.contains("operator")));
    assert!(manifest
        .packages
        .iter()
        .all(|package| package.version == "1.2.0-research.4"));
    assert_eq!(manifest.channel.as_deref(), Some("rnd"));
    assert!(manifest.extension_packs.is_none() && manifest.components.is_none());
}

#[test]
fn source_manifest_can_pin_package_versions() {
    let mut source = empty_manifest("latest", Some("latest"));
    source.packages = vec![ToolchainPackage {
        crate_name: "greentic-dev".to_string(),
        bins: vec!["greentic-dev".to_string()],
        version: "0.5.9".to_string(),
        artifacts: None,
    }];
    let manifest =
        generate_manifest("1.0.5", "latest", Some(&source), &catalogue(), &FixedResolver, None)
            .unwrap();
    let dev = manifest
        .packages
        .iter()
        .find(|package| package.crate_name == "greentic-dev")
        .unwrap();
    assert_eq!(dev.version, "0.5.9");
    let runner = manifest
        .packages
        .iter()
        .find(|package| package.crate_name == "greentic-runner")
        .unwrap();
    assert_eq!(runner.version, "0.5.10");
}

#[test]
fn generated_manifest_stamps_extension_sections_with_the_release() {
    let manifest =
        generate_manifest("1.0.5", "latest", None, &catalogue(), &FixedResolver, None).unwrap();
    let packs = manifest.extension_packs.unwrap();
    assert_eq!(packs.len(), 1);
    assert_eq!(packs[0].id, "packs/messaging/messaging-webchat-gui");
    assert_eq!(packs[0].version, "1.0.5");
    let components = manifest.components.unwrap();
    assert_eq!(components[0].version, "1.0.5");
}

#[test]
fn generated_manifest_can_use_artifact_resolver_versions() {
    let manifest = generate_manifest_with_artifact_resolver(
        "1.0.5",
        "latest",
        None,
        &catalogue(),
        &FixedResolver,
        &FixedArtifactResolver,
        Some("2024-01-01T00:00:00Z".to_string()),
    )
    .unwrap();
    assert_eq!(manifest.extension_packs.unwrap()[0].version, "0.4.93");
    assert_eq!(manifest.components.unwrap()[0].version, "0.5.8");
    assert_eq!(manifest.created_at.as_deref(), Some("2024-01-01T00:00:00Z"));
}

#[test]
fn generate_from_rnd_uses_rnd_binary_names() {
    let manifest =
        generate_manifest("1.2.0", "rnd", None, &catalogue(), &FixedResolver, None).unwrap();
    assert_eq!(manifest.channel.as_deref(), Some("rnd"));
    assert!(manifest
        .packages
        .iter()
        .flat_map(|package| package.bins.iter())
        .all(|bin| bin.ends_with("-rnd")));
    assert!(manifest.packages.iter().any(|package| {
        package.crate_name == "greentic-flow" && package.bins == ["greentic-flow-rnd"]
    }));
}

#[test]
fn an_invalid_source_manifest_is_refused() {
    let mut source = empty_manifest("latest", None);
    source.schema = "other".to_string();
    let err = generate_manifest("1.0.5", "latest", Some(&source), &catalogue(), &FixedResolver, None)
        .unwrap_err();
    assert_eq!(err, ReleaseError::UnsupportedSchema("other".to_string()));
    assert_eq!(
        err.message(),
        "unsupported toolchain manifest schema `other`"
    );
}

#[test]
fn latest_manifest_uses_latest_dev_bins() {
    let manifest = latest_manifest(&catalogue(), None);
    assert_eq!(manifest.version, "latest");
    assert_eq!(manifest.channel.as_deref(), Some("latest"));
    assert_eq!(manifest.packages[0].crate_name, "gtc-dev");
    assert_eq!(manifest.packages[0].bins, vec!["gtc-dev".to_string()]);
    assert_eq!(manifest.packages.len(), catalogue().toolchain.len() + 1);
    assert!(manifest
        .packages
        .iter()
        .all(|package| package.version == "latest" && package.crate_name.ends_with("-dev")));
    assert!(manifest
        .extension_packs
        .unwrap()
        .iter()
        .all(|pack| pack.version == "latest"));
}

#[test]
fn the_dev_lane_ignores_a_higher_research_minor() {
    let body = r#"{"versions":[
        {"num":"1.2.32329835532","yanked":false},
        {"num":"1.2.32374877786","yanked":false},
        {"num":"1.3.29293243074","yanked":false},
        {"num":"1.3.29488015798","yanked":false}
    ]}"#;
    let versions = versions_of(body);
    assert_eq!(
        pick_highest_in_lane("greentic-setup-dev", &versions, (1, 2)).unwrap(),
        "1.2.32374877786"
    );
    assert_eq!(
        pick_highest_in_lane("greentic-setup-dev", &versions, (1, 3)).unwrap(),
        "1.3.29488015798"
    );
}

#[test]
fn a_yanked_build_is_not_pinned_in_lane() {
    let body = r#"{"versions":[
        {"num":"1.2.100","yanked":false},
        {"num":"1.2.200","yanked":true}
    ]}"#;
    assert_eq!(
        pick_highest_in_lane("c", &versions_of(body), (1, 2)).unwrap(),
        "1.2.100"
    );
}

#[test]
fn an_empty_lane_is_an_error_not_a_fallback() {
    let body = r#"{"versions":[{"num":"1.3.5","yanked":false}]}"#;
    let err = pick_highest_in_lane("c", &versions_of(body), (1, 2)).unwrap_err();
    assert!(err.message().contains("1.2"), "{}", err.message());
}

#[test]
fn research_falls_back_to_the_highest_build_of_any_line() {
    let body = r#"{"versions":[{"num":"1.2.7","yanked":false},{"num":"0.9.1","yanked":false}]}"#;
    assert_eq!(research_or_fallback("c", &versions_of(body)).unwrap(), "1.2.7");
    assert!(pick_highest_crates_io_version("c", &Vec::new(), false).is_err());
}

#[test]
fn selects_latest_semver_tag() {
    let tags = vec![
        "latest".to_string(),
        "0.4.93".to_string(),
        "0.4.9".to_string(),
        "1.0.0-beta.1".to_string(),
        "1.0.0".to_string(),
    ];
    assert_eq!(select_latest_artifact_tag(&tags).unwrap(), "1.0.0");
}

#[test]
fn selects_latest_tag_when_no_semver_tags_exist() {
    assert_eq!(
        select_latest_artifact_tag(&vec!["latest".to_string()]).unwrap(),
        "latest"
    );
    assert_eq!(
        select_latest_artifact_tag(&vec!["nightly".to_string()]).unwrap_err(),
        ReleaseError::NoUsableTag
    );
}

#[test]
fn notify_gate_accepts_only_plain_stable_versions() {
    assert!(should_notify_updater("1.1.2", "stable"));
    assert!(should_notify_updater("0.0.0", "stable"));
    assert!(!should_notify_updater("1.1.2", "dev"));
    assert!(!should_notify_updater("1.1.2", "rnd"));
    assert!(!should_notify_updater("1.1.2-rc.1", "stable"));
    assert!(!should_notify_updater("1.2.0-research.1", "stable"));
    assert!(!should_notify_updater("1.1.2+build.5", "stable"));
    assert!(!should_notify_updater("1.1.2", ""));
    assert!(!should_notify_updater("not-a-version", "stable"));
}

/// A catalogue of the published toolchain's shape: its toolchain crates,
/// 81 extension packs and 10 components.
fn full_catalogue() -> Catalogue {
    let mut extension_packs = vec![
        OciPackageSpec { package: "packs/messaging/messaging-webchat-gui".to_string() },
        OciPackageSpec { package: "packs/deployer/greentic.deploy.aws".to_string() },
    ];
    for i in 0..79 {
        extension_packs.push(OciPackageSpec { package: format!("packs/catalogue/pack-{i}") });
    }
    let mut components = vec![
        OciPackageSpec { package: "components/component-adaptive-card".to_string() },
        OciPackageSpec { package: "component/component-llm-openai".to_string() },
    ];
    for i in 0..8 {
        components.push(OciPackageSpec { package: format!("components/component-{i}") });
    }
    Catalogue {
        toolchain: vec![
            spec("greentic-dev", &["greentic-dev"]),
            spec("greentic-bundle", &["greentic-bundle"]),
            spec("greentic-runner", &["greentic-runner"]),
            spec("greentic-flow", &["greentic-flow"]),
            spec("greentic-component", &["greentic-component"]),
            spec("greentic-operator", &["greentic-operator"]),
        ],
        extension_packs,
        components,
    }
}

#[test]
fn generates_manifest_from_catalogue() {
    let manifest = generate_manifest("1.0.5", "latest", None, &full_catalogue(), &FixedResolver, None).unwrap();
    assert_eq!(manifest.schema, SCHEMA);
    assert_eq!(manifest.toolchain, "gtc");
    assert_eq!(manifest.version, "1.0.5");
    assert_eq!(manifest.channel.as_deref(), Some("latest"));
    assert!(manifest
        .packages
        .iter()
        .any(|package| package.crate_name == "greentic-bundle" && package.bins == ["greentic-bundle"]));
    assert!(manifest
        .packages
        .iter()
        .any(|package| package.crate_name == "greentic-runner" && package.bins == ["greentic-runner"]));
    assert_eq!(manifest.extension_packs.as_ref().unwrap().len(), 81);
    assert_eq!(manifest.components.as_ref().unwrap().len(), 10);
    assert!(manifest.extension_packs.as_ref().unwrap().iter().all(|item| item.version == "1.0.5"));
    assert!(manifest.components.as_ref().unwrap().iter().all(|item| item.version == "1.0.5"));
}

#[test]
fn generate_from_dev_uses_dev_crate_and_binary_names() {
    let manifest = generate_manifest("1.0.16", "dev", None, &full_catalogue(), &FixedResolver, None).unwrap();
    assert!(manifest
        .packages
        .iter()
        .flat_map(|package| package.bins.iter())
        .all(|bin| bin.ends_with("-dev")));
    assert!(
        manifest.packages.iter().all(|package| package.crate_name.ends_with("-dev")),
        "dev manifest must pin -dev crate names so binstall resolves the dev mirror"
    );
    assert!(manifest
        .packages
        .iter()
        .any(|package| package.crate_name == "greentic-flow-dev" && package.bins == ["greentic-flow-dev"]));
    assert!(manifest.packages.iter().any(|package| {
        package.crate_name == "greentic-component-dev" && package.bins == ["greentic-component-dev"]
    }));
    assert!(manifest
        .packages
        .iter()
        .any(|package| package.crate_name == "greentic-dev-dev" && package.bins == ["greentic-dev-dev"]));
}

#[test]
fn snapshot_manifest_dev_channel_resolves_dev_aliases() {
    let manifest =
        snapshot_manifest("1.1.5", ToolchainChannel::Development, &full_catalogue(), &FixedResolver, None).unwrap();
    assert_eq!(manifest.version, "1.1.5");
    assert_eq!(manifest.channel.as_deref(), Some("dev"));
    for package in &manifest.packages {
        assert!(package.crate_name.ends_with("-dev"), "dev snapshot must pin -dev crate names; got {}", package.crate_name);
        assert!(package.bins.iter().all(|bin| bin.ends_with("-dev")), "dev snapshot must pin -dev bin names; got {:?}", package.bins);
        assert_ne!(package.version, "latest", "snapshot must always resolve concrete versions");
    }
    assert!(manifest.packages.iter().any(|package| package.crate_name == "greentic-operator-dev"));
}

#[test]
fn snapshot_manifest_stable_channel_keeps_plain_names() {
    let catalogue = full_catalogue();
    let manifest = snapshot_manifest("1.0.20", ToolchainChannel::Stable, &catalogue, &FixedResolver, None).unwrap();
    assert_eq!(manifest.channel.as_deref(), Some("stable"));
    let catalogue_names: std::collections::BTreeSet<_> =
        catalogue.toolchain.iter().map(|spec| spec.crate_name.as_str()).collect();
    for package in &manifest.packages {
        assert!(
            catalogue_names.contains(package.crate_name.as_str()),
            "stable snapshot crate `{}` was transformed; expected a verbatim catalogue entry",
            package.crate_name
        );
    }
}

#[test]
fn bootstrap_source_manifest_uses_source_tag_identity() {
    let manifest =
        greentic_dev::release::bootstrap_source_manifest("latest", &full_catalogue(), &FixedResolver, None).unwrap();
    assert_eq!(manifest.version, "latest");
    assert_eq!(manifest.channel.as_deref(), Some("latest"));
    assert_eq!(manifest.schema, SCHEMA);
    assert_eq!(manifest.toolchain, "gtc");
    assert!(manifest.packages.iter().all(|package| package.version != "latest"));
}

#[test]
fn generated_manifest_preserves_source_versions_for_tracked_extension_sections() {
    let mut source = empty_manifest("dev", Some("dev"));
    source.extension_packs = Some(vec![greentic_dev::release::ExtensionPackRef {
        id: "packs/messaging/messaging-webchat-gui".to_string(),
        version: "0.5.4".to_string(),
    }]);
    source.components = Some(vec![greentic_dev::release::ComponentRef {
        id: "components/component-adaptive-card".to_string(),
        version: "0.5.8".to_string(),
    }]);
    let manifest =
        generate_manifest("1.0.16", "stable", Some(&source), &full_catalogue(), &FixedResolver, None).unwrap();
    assert!(manifest
        .extension_packs
        .as_ref()
        .unwrap()
        .iter()
        .any(|item| item.id == "packs/messaging/messaging-webchat-gui" && item.version == "0.5.4"));
    assert!(manifest
        .components
        .as_ref()
        .unwrap()
        .iter()
        .any(|item| item.id == "components/component-adaptive-card" && item.version == "0.5.8"));
}

#[test]
fn generated_manifest_includes_catalogue_extension_sections() {
    let manifest = generate_manifest("1.0.16", "stable", None, &full_catalogue(), &FixedResolver, None).unwrap();
    assert!(manifest.extension_packs.is_some());
    assert!(manifest.components.is_some());
    assert!(manifest
        .extension_packs
        .as_ref()
        .unwrap()
        .iter()
        .any(|item| item.id == "packs/messaging/messaging-webchat-gui" && item.version == "1.0.16"));
    assert!(manifest
        .extension_packs
        .as_ref()
        .unwrap()
        .iter()
        .any(|item| item.id == "packs/deployer/greentic.deploy.aws" && item.version == "1.0.16"));
    assert!(manifest
        .components
        .as_ref()
        .unwrap()
        .iter()
        .any(|item| item.id == "component/component-llm-openai" && item.version == "1.0.16"));
}

fn crate_page(max_stable: Option<&str>, newest: Option<&str>, max: Option<&str>) -> greentic_dev::crates_io::CratesIoCrate {
    greentic_dev::crates_io::CratesIoCrate {
        max_stable_version: max_stable.map(str::to_string),
        newest_version: newest.map(str::to_string),
        max_version: max.map(str::to_string),
    }
}

#[test]
fn parses_crates_io_max_stable_version() {
    let page = crate_page(Some("0.5.123"), None, None);
    let version = greentic_dev::crates_io::parse_crates_io_version("greentic-operator-dev", Some(&page)).unwrap();
    assert_eq!(version, "0.5.123");
}

#[test]
fn parses_crates_io_falls_back_to_newest_version() {
    let page = crate_page(None, Some("0.6.7"), None);
    let version = greentic_dev::crates_io::parse_crates_io_version("greentic-flow-dev", Some(&page)).unwrap();
    assert_eq!(version, "0.6.7");
}

#[test]
fn parses_crates_io_falls_back_to_max_version() {
    let page = crate_page(None, None, Some("0.4.99"));
    let version = greentic_dev::crates_io::parse_crates_io_version("greentic-runner-dev", Some(&page)).unwrap();
    assert_eq!(version, "0.4.99");
}

#[test]
fn rejects_crates_io_payload_without_versions() {
    let page = crate_page(None, None, None);
    let err = greentic_dev::crates_io::parse_crates_io_version("greentic-dev", Some(&page)).unwrap_err();
    assert!(err.message().contains("does not expose max_stable_version"));
}

#[test]
fn rejects_crates_io_payload_with_unparseable_version() {
    let page = crate_page(Some("not-a-version"), None, None);
    let err = greentic_dev::crates_io::parse_crates_io_version("greentic-dev", Some(&page)).unwrap_err();
    assert!(err.message().contains("unparseable version"));
}

#[test]
fn rejects_crates_io_payload_without_crate_object() {
    let err = greentic_dev::crates_io::parse_crates_io_version("greentic-dev", None).unwrap_err();
    assert!(err.message().contains("missing the top-level `crate` object"));
}

#[test]
fn notify_gate_accepts_stable_plain_version() {
    assert!(should_notify_updater("1.1.2", "stable"));
}

#[test]
fn notify_gate_accepts_stable_zero_version() {
    assert!(should_notify_updater("0.1.0", "stable"));
}

#[test]
fn notify_gate_rejects_dev_channel() {
    assert!(!should_notify_updater("1.1.2", "dev"));
}

#[test]
fn notify_gate_rejects_rnd_channel() {
    assert!(!should_notify_updater("1.1.2", "rnd"));
}

#[test]
fn notify_gate_rejects_prerelease_version() {
    assert!(!should_notify_updater("1.2.0-dev.3", "stable"));
}

#[test]
fn notify_gate_rejects_run_id_version_on_dev_channel() {
    assert!(!should_notify_updater("1.1.14995680637", "dev"));
}

#[test]
fn notify_gate_rejects_research_prerelease() {
    assert!(!should_notify_updater("1.3.0-research.1", "stable"));
}

#[test]
fn notify_gate_rejects_build_metadata() {
    assert!(!should_notify_updater("1.1.2+build.42", "stable"));
}

#[test]
fn notify_gate_rejects_empty_channel() {
    assert!(!should_notify_updater("1.1.2", ""));
}

#[test]
fn notify_gate_rejects_unparseable_version() {
    assert!(!should_notify_updater("not-a-version", "stable"));
}

/// Fails on the runner crate only.
struct RunnerDownResolver;

impl CrateVersionResolver for RunnerDownResolver {
    fn resolve_latest(&self, crate_name: &str) -> Result<String, String> {
        if crate_name.contains("runner") {
            Err("crates.io is down".to_string())
        } else {
            Ok("1.2.3".to_string())
        }
    }
}

#[test]
fn a_resolver_failure_ends_generation_with_that_crate() {
    let err = generate_manifest("1.0.5", "stable", None, &catalogue(), &RunnerDownResolver, None)
        .expect_err("runner cannot be resolved");
    match err {
        ReleaseError::CrateResolution { crate_name, message } => {
            assert_eq!(crate_name, "greentic-runner");
            assert_eq!(message, "crates.io is down");
        }
        other => panic!("unexpected {other:?}"),
    }
}

#[test]
fn a_fully_pinned_source_needs_no_resolution() {
    let packages = ["greentic-dev", "greentic-runner", "greentic-flow", "greentic-operator"]
        .iter()
        .map(|name| ToolchainPackage {
            crate_name: name.to_string(),
            bins: vec![name.to_string()],
            version: "0.9.1".to_string(),
            artifacts: None,
        })
        .collect();
    let source = ToolchainManifest {
        schema: SCHEMA.to_string(),
        toolchain: "gtc".to_string(),
        version: "stable".to_string(),
        channel: Some("stable".to_string()),
        created_at: None,
        packages,
        extension_packs: None,
        components: None,
        gtc: None,
    };
    let manifest =
        generate_manifest("1.0.5", "stable", Some(&source), &catalogue(), &RunnerDownResolver, None)
            .expect("every package is pinned");
    assert!(manifest.packages.iter().all(|p| p.version == "0.9.1"));
}
