use greentic_dev::install::{InstallError, Platform, ReleaseTarget};
use greentic_dev::strmap::KeyedMap;
use greentic_dev::tenant::{
    accept_doc_manifest, accept_tool_manifest, apply_doc_locale, apply_tool_locale, archive_kind,
    check_manifest_tenant, install_layout, plan_doc_install, plan_tool_install, platform_for,
    resolve_doc, resolve_tool, store_assets_note, tenant_manifest_file_name, ArchiveKind,
    DocField, DocResolution, DocSource, DocTranslation, RemoteDocManifest,
    RemoteDocManifestEntry, RemoteManifestRef, SimpleTenantDocEntry, SimpleTenantToolEntry,
    TenantDocDescriptor, TenantDocEntry, TenantError, TenantToolDescriptor, TenantToolEntry,
    ToolInstall, ToolResolution, ToolTranslation,
};

fn linux() -> Platform {
    Platform { os: "linux".to_string(), arch: "x86_64".to_string() }
}

fn target(os: &str, url: &str) -> ReleaseTarget {
    ReleaseTarget { os: os.to_string(), arch: "x86_64".to_string(), url: url.to_string(), sha256: Some("ab".to_string()) }
}

fn x_cli(install_type: &str) -> TenantToolEntry {
    TenantToolEntry {
        schema: None,
        id: "greentic-x-cli".to_string(),
        name: "Greentic X CLI".to_string(),
        description: Some("CLI".to_string()),
        install: ToolInstall {
            install_type: install_type.to_string(),
            binary_name: "greentic-x".to_string(),
            targets: vec![
                target("windows", "https://github.com/acme/x.zip"),
                target("linux", "https://github.com/acme/releases/download/v1.2.3/greentic-x-linux-x86_64.tar.gz"),
            ],
        },
        docs: vec!["acme-onboarding".to_string()],
        i18n: KeyedMap::new(),
    }
}

fn onboarding_doc() -> TenantDocEntry {
    let mut i18n = KeyedMap::new();
    i18n.insert(
        "nl".to_string(),
        DocTranslation {
            title: Some("Acme onboarding NL".to_string()),
            download_file_name: Some("onboarding.nl.md".to_string()),
            default_relative_path: Some("acme/onboarding/README.nl.md".to_string()),
            source: Some(DocSource {
                source_type: "download".to_string(),
                url: "https://raw.githubusercontent.com/acme/docs/main/onboarding.nl.md".to_string(),
            }),
        },
    );
    TenantDocEntry {
        schema: None,
        id: "acme-onboarding".to_string(),
        title: "Acme onboarding".to_string(),
        source: DocSource {
            source_type: "download".to_string(),
            url: "https://raw.githubusercontent.com/acme/docs/main/onboarding.md".to_string(),
        },
        download_file_name: "onboarding.md".to_string(),
        default_relative_path: "acme/onboarding/README.md".to_string(),
        i18n,
    }
}

#[test]
fn simple_tool_becomes_release_binary_named_after_it() {
    let simple = SimpleTenantToolEntry {
        id: "greentic-fast2flow".to_string(),
        binary_name: None,
        targets: vec![target(
            "linux",
            "https://github.com/greentic-biz/greentic-fast2flow/releases/download/v0.4.1/greentic-fast2flow-v0.4.1-x86_64-unknown-linux-gnu.tar.gz",
        )],
    };
    let tool = match resolve_tool(TenantToolDescriptor::Simple(simple)) {
        Ok(ToolResolution::Ready(t)) => t,
        other => panic!("unexpected {other:?}"),
    };
    assert_eq!(tool.name, "greentic-fast2flow");
    assert_eq!(tool.install.install_type, "release-binary");
    assert_eq!(tool.install.binary_name, "greentic-fast2flow");
    let plan = plan_tool_install(tool, "en", &linux(), false).unwrap();
    assert_eq!(plan.binary_name, "greentic-fast2flow");
    assert_eq!(plan.archive, ArchiveKind::TarGz);
    assert_eq!(
        plan.staged_name,
        "greentic-fast2flow-greentic-fast2flow-v0.4.1-x86_64-unknown-linux-gnu.tar.gz"
    );
}

#[test]
fn tool_plan_takes_first_target_for_platform() {
    let plan = plan_tool_install(x_cli("release-binary"), "en", &linux(), false).unwrap();
    assert_eq!(plan.id, "greentic-x-cli");
    assert_eq!(plan.url, "https://github.com/acme/releases/download/v1.2.3/greentic-x-linux-x86_64.tar.gz");
    assert_eq!(plan.sha256, Some("ab".to_string()));
    assert_eq!(plan.binary_name, "greentic-x");
    assert_eq!(plan.staged_name, "greentic-x-cli-greentic-x-linux-x86_64.tar.gz");
    let win = Platform { os: "windows".to_string(), arch: "x86_64".to_string() };
    let plan = plan_tool_install(x_cli("release-binary"), "en", &win, true).unwrap();
    assert_eq!(plan.archive, ArchiveKind::Zip);
    assert_eq!(plan.binary_name, "greentic-x.exe");
}

#[test]
fn tool_plan_refusals() {
    assert_eq!(
        plan_tool_install(x_cli("cargo"), "en", &linux(), false),
        Err(TenantError::UnsupportedInstallType { id: "greentic-x-cli".to_string(), install_type: "cargo".to_string() })
    );
    let mac = Platform { os: "macos".to_string(), arch: "aarch64".to_string() };
    assert_eq!(
        plan_tool_install(x_cli("release-binary"), "en", &mac, false),
        Err(TenantError::Install(InstallError::NoTarget { os: "macos".to_string(), arch: "aarch64".to_string() }))
    );
    let mut elsewhere = x_cli("release-binary");
    elsewhere.install.targets = vec![target("linux", "https://example.com/x.tar.gz")];
    assert_eq!(
        plan_tool_install(elsewhere, "en", &linux(), false),
        Err(TenantError::Install(InstallError::NotGithub("example.com".to_string())))
    );
}

#[test]
fn tool_locale_replaces_only_translated_fields() {
    let mut tool = x_cli("release-binary");
    let mut i18n = KeyedMap::new();
    i18n.insert(
        "nl".to_string(),
        ToolTranslation { name: Some("Greentic X NL".to_string()), description: None, docs: Some(vec!["nl-doc".to_string()]) },
    );
    tool.i18n = i18n;
    let localized = apply_tool_locale(tool, "nl-BE");
    assert_eq!(localized.name, "Greentic X NL");
    assert_eq!(localized.description, Some("CLI".to_string()));
    assert_eq!(localized.docs, vec!["nl-doc".to_string()]);
    let kept = apply_tool_locale(x_cli("release-binary"), "nl");
    assert_eq!(kept.name, "Greentic X CLI");
}

#[test]
fn doc_plan_follows_language_translation() {
    let plan = plan_doc_install(onboarding_doc(), "nl").unwrap();
    assert_eq!(plan.relative_path, "acme/onboarding/README.nl.md");
    assert_eq!(plan.url, "https://raw.githubusercontent.com/acme/docs/main/onboarding.nl.md");
    let plan = plan_doc_install(onboarding_doc(), "en").unwrap();
    assert_eq!(plan.relative_path, "acme/onboarding/README.md");
    let localized = apply_doc_locale(onboarding_doc(), "nl");
    assert_eq!(localized.title, "Acme onboarding NL");
    assert_eq!(localized.download_file_name, "onboarding.nl.md");
}

#[test]
fn doc_plan_refusals() {
    let mut doc = onboarding_doc();
    doc.default_relative_path = "../escape.md".to_string();
    assert_eq!(plan_doc_install(doc, "en"), Err(TenantError::Install(InstallError::EscapingPath)));
    let mut doc = onboarding_doc();
    doc.default_relative_path = "/etc/passwd".to_string();
    assert_eq!(plan_doc_install(doc, "en"), Err(TenantError::Install(InstallError::AbsolutePath)));
    let mut doc = onboarding_doc();
    doc.source.source_type = "git".to_string();
    assert_eq!(
        plan_doc_install(doc, "en"),
        Err(TenantError::UnsupportedSourceType { id: "acme-onboarding".to_string(), source_type: "git".to_string() })
    );
}

#[test]
fn simple_doc_is_downloaded_under_its_file_name() {
    let simple = SimpleTenantDocEntry {
        url: "https://raw.githubusercontent.com/greentic-biz/greentic-fast2flow/master/README.md".to_string(),
        file_name: "greentic-fast2flow-guide.md".to_string(),
    };
    let docs = match resolve_doc(TenantDocDescriptor::Simple(simple)) {
        Ok(DocResolution::Ready(v)) => v,
        other => panic!("unexpected {other:?}"),
    };
    assert_eq!(docs.len(), 1);
    let plan = plan_doc_install(docs.into_iter().next().unwrap(), "en").unwrap();
    assert_eq!(plan.relative_path, "greentic-fast2flow-guide.md");
    assert_eq!(plan.id, "greentic-fast2flow-guide.md");
}

fn entry(name: &str) -> RemoteDocManifestEntry {
    RemoteDocManifestEntry {
        title: name.to_uppercase(),
        source: DocSource { source_type: "download".to_string(), url: format!("https://raw.githubusercontent.com/acme/docs/main/{name}") },
        download_file_name: name.to_string(),
        default_relative_path: format!("docs/{name}"),
        i18n: KeyedMap::new(),
    }
}

fn doc_manifest(docs: Vec<RemoteDocManifestEntry>, title: Option<&str>) -> RemoteDocManifest {
    RemoteDocManifest {
        schema: None,
        schema_version: Some("1".to_string()),
        id: "acme-onboarding".to_string(),
        title: title.map(str::to_string),
        source: None,
        download_file_name: None,
        default_relative_path: None,
        docs,
        i18n: KeyedMap::new(),
    }
}

#[test]
fn multi_doc_manifest_lists_its_docs() {
    let reference = RemoteManifestRef { id: "acme-onboarding".to_string(), url: "https://raw.githubusercontent.com/x.json".to_string() };
    let docs = accept_doc_manifest(&reference, doc_manifest(vec![entry("a.md"), entry("b.md")], None)).unwrap();
    assert_eq!(docs.len(), 2);
    assert_eq!(docs[0].id, "acme-onboarding:a.md");
    assert_eq!(docs[1].id, "acme-onboarding:b.md");
    assert_eq!(docs[1].default_relative_path, "docs/b.md");
}

#[test]
fn doc_manifest_refusals() {
    let reference = RemoteManifestRef { id: "acme-onboarding".to_string(), url: "https://raw.githubusercontent.com/x.json".to_string() };
    assert_eq!(
        accept_doc_manifest(&reference, doc_manifest(vec![entry("a.md")], Some("T"))).unwrap_err(),
        TenantError::MixedDocManifest("acme-onboarding".to_string())
    );
    assert_eq!(
        accept_doc_manifest(&reference, doc_manifest(Vec::new(), Some("T"))).unwrap_err(),
        TenantError::MissingDocField { id: "acme-onboarding".to_string(), field: DocField::Source }
    );
    assert_eq!(
        accept_doc_manifest(&reference, doc_manifest(Vec::new(), None)).unwrap_err(),
        TenantError::MissingDocField { id: "acme-onboarding".to_string(), field: DocField::Title }
    );
    let other = RemoteManifestRef { id: "other".to_string(), url: reference.url.clone() };
    assert_eq!(
        accept_doc_manifest(&other, doc_manifest(Vec::new(), None)).unwrap_err(),
        TenantError::DocManifestMismatch { referenced: "other".to_string(), found: "acme-onboarding".to_string() }
    );
    assert_eq!(
        TenantError::MissingDocField { id: "d".to_string(), field: DocField::DefaultRelativePath }.message(),
        "doc manifest `d` is missing `default_relative_path`"
    );
}

#[test]
fn references_bare_ids_and_mismatches() {
    let reference = RemoteManifestRef { id: "greentic-x-cli".to_string(), url: "https://raw.githubusercontent.com/t.json".to_string() };
    match resolve_tool(TenantToolDescriptor::Ref(RemoteManifestRef { id: reference.id.clone(), url: reference.url.clone() })) {
        Ok(ToolResolution::Fetch(r)) => assert_eq!(r, reference),
        other => panic!("unexpected {other:?}"),
    }
    assert!(matches!(
        resolve_tool(TenantToolDescriptor::Ref(RemoteManifestRef { id: "t".to_string(), url: "https://evil.example/t.json".to_string() })),
        Err(TenantError::Install(InstallError::NotGithub(h))) if h == "evil.example"
    ));
    assert!(matches!(resolve_tool(TenantToolDescriptor::Id("t".to_string())), Err(TenantError::BareToolId(id)) if id == "t"));
    assert!(matches!(resolve_doc(TenantDocDescriptor::Id("d".to_string())), Err(TenantError::BareDocId(id)) if id == "d"));
    assert!(accept_tool_manifest(&reference, x_cli("release-binary")).is_ok());
    let other = RemoteManifestRef { id: "other".to_string(), url: reference.url.clone() };
    assert!(matches!(
        accept_tool_manifest(&other, x_cli("release-binary")),
        Err(TenantError::ToolManifestMismatch { referenced, found }) if referenced == "other" && found == "greentic-x-cli"
    ));
    assert_eq!(
        TenantError::BareToolId("t".to_string()).message(),
        "tool id `t` requires a manifest URL; bare IDs are not supported by greentic-dev"
    );
}

#[test]
fn tenant_must_match_manifest() {
    assert!(check_manifest_tenant("acme", "acme").is_ok());
    assert_eq!(
        check_manifest_tenant("other", "acme"),
        Err(TenantError::TenantMismatch { tenant: "acme".to_string(), manifest_tenant: "other".to_string() })
    );
}

#[test]
fn layout_file_names_and_notes() {
    let layout = install_layout("/home/u", None, None, None);
    assert_eq!(layout.install_root, "/home/u/.greentic/install");
    assert_eq!(layout.bin_dir, "/home/u/.cargo/bin");
    assert_eq!(layout.docs_dir, "/home/u/.greentic/install/docs");
    assert_eq!(layout.state_path, "/home/u/.greentic/install/state.json");
    let layout = install_layout("/home/u", Some("/opt/cargo"), None, Some("/tmp/docs"));
    assert_eq!(layout.bin_dir, "/opt/cargo/bin");
    assert_eq!(layout.docs_dir, "/tmp/docs");
    assert_eq!(install_layout("/h", Some("/c"), Some("/b"), None).bin_dir, "/b");
    assert_eq!(tenant_manifest_file_name("acme"), "tenant-acme.json");
    assert_eq!(
        store_assets_note("acme", &vec!["a".to_string(), "b".to_string()]),
        "note: tenant `acme` declares 2 store asset(s); these are installed by `gtc install --tenant`, not here: a, b"
    );
    assert_eq!(archive_kind("x.tgz"), ArchiveKind::TarGz);
    assert_eq!(archive_kind("x.bin"), ArchiveKind::Raw);
}

#[test]
fn supported_platforms() {
    assert_eq!(platform_for("linux", "aarch64"), Ok(Platform { os: "linux".to_string(), arch: "aarch64".to_string() }));
    assert_eq!(platform_for("freebsd", "x86_64"), Err(TenantError::UnsupportedOs("freebsd".to_string())));
    assert_eq!(platform_for("macos", "riscv64"), Err(TenantError::UnsupportedArch("riscv64".to_string())));
}
