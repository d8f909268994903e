use greentic_dev::commands::{relativize_path, ComponentTarget};
use greentic_dev::component_scaffold::{
    best_version_index, cargo_home_from, component_world_version, crate_source_dir,
    locked_version, pack_layout, pack_out_dir, render_template, resolve_path, sha256sums_line,
    template_context_from, wit_package_version, LockPackage, ScaffoldError, TemplateContext,
    Versions, WitPackageDir,
};
use greentic_dev::i18n::Catalogs;
use greentic_dev::strmap::{KeyedMap, StrMap};
use greentic_dev::wizard_form::{
    bundle_create_steps, launcher_options, pack_create_steps, steps_for, ui_program, FieldKind,
};

fn versions() -> Versions {
    Versions {
        interfaces: "0.4.2".to_string(),
        types: "0.3.1".to_string(),
        component_runtime: "0.5.0".to_string(),
        component_wit_version: "0.6.0".to_string(),
        secrets_wit_version: "1.0.0".to_string(),
        state_wit_version: "1.1.0".to_string(),
        http_wit_version: "1.2.0".to_string(),
        telemetry_wit_version: "1.3.0".to_string(),
    }
}

fn lock(entries: &[(&str, &str)]) -> Vec<LockPackage> {
    entries
        .iter()
        .map(|(name, version)| LockPackage { name: name.to_string(), version: version.to_string() })
        .collect()
}

#[test]
fn pack_form_asks_for_id_directory_and_build_options() {
    let steps = pack_create_steps();
    assert_eq!(steps.len(), 2);
    assert_eq!(steps[0].id, "pack_basics");
    assert_eq!(steps[0].fields[0].id, "create_pack_id");
    assert!(steps[0].fields[0].required);
    assert_eq!(steps[0].fields[1].default_value.as_deref(), Some("./"));
    assert_eq!(steps[1].id, "pack_options");
    assert_eq!(steps[1].fields.len(), 4);
    assert_eq!(steps[1].fields[0].kind, FieldKind::Boolean);
    assert_eq!(steps[1].fields[2].default_value.as_deref(), Some("false"));
    let key = &steps[1].fields[3];
    assert_eq!(key.id, "sign_key_path");
    let dep = key.depends_on.as_ref().expect("shown only when signing");
    assert_eq!(dep.field, "sign");
    assert_eq!(dep.value, "true");
}

#[test]
fn bundle_form_offers_three_scopes() {
    let steps = bundle_create_steps();
    assert_eq!(steps.len(), 3);
    assert_eq!(steps[0].fields.len(), 3);
    assert_eq!(steps[0].fields[2].placeholder.as_deref(), Some("~/.greentic/bundles/my-bundle/"));
    let scope = &steps[1].fields[1];
    assert_eq!(scope.kind, FieldKind::Select);
    assert_eq!(scope.default_value.as_deref(), Some("global"));
    let values: Vec<&str> = scope.choices.iter().map(|c| c.value.as_str()).collect();
    assert_eq!(values, vec!["global", "tenant", "tenant_team"]);
    assert_eq!(scope.choices[2].label, "Tenant + Team");
    assert_eq!(steps[2].fields[0].id, "enable_bundle_assets");
}

#[test]
fn steps_follow_the_selected_wizard_type() {
    assert_eq!(steps_for("pack")[0].id, "pack_basics");
    assert_eq!(steps_for("bundle")[0].id, "bundle_basics");
    assert!(steps_for("flow").is_empty());
}

#[test]
fn launcher_options_are_labelled_from_the_catalogues() {
    let mut en = StrMap::new();
    en.insert("cli.wizard.launcher.option_pack".to_string(), "Create pack".to_string());
    let mut cats: Catalogs = KeyedMap::new();
    cats.insert("en".to_string(), en);
    let options = launcher_options(&cats, "en-US");
    assert_eq!(options.title, "cli.wizard.launcher.title");
    assert_eq!(options.options[0].value, "pack");
    assert_eq!(options.options[0].label, "Create pack");
    assert_eq!(options.options[1].value, "bundle");
    assert_eq!(options.options[1].label, "cli.wizard.launcher.option_bundle");
    assert_eq!(options.locale, "en-US");
}

#[test]
fn finished_forms_go_to_their_wizard() {
    assert_eq!(ui_program("pack"), Ok("greentic-pack"));
    assert_eq!(ui_program("bundle"), Ok("greentic-bundle"));
    assert_eq!(ui_program("flow"), Err("Unknown wizard type: flow".to_string()));
}

#[test]
fn locked_version_is_the_highest_pinned_one() {
    let pkgs = lock(&[
        ("greentic-types", "0.3.1"),
        ("serde", "1.0.0"),
        ("greentic-types", "0.10.0"),
        ("greentic-types", "0.9.9"),
    ]);
    assert_eq!(locked_version(&pkgs, "greentic-types", "Cargo.lock"), Ok("0.10.0".to_string()));
}

#[test]
fn locked_version_reports_missing_and_invalid_pins() {
    let pkgs = lock(&[("serde", "1.0.0"), ("greentic-types", "nope")]);
    let err = locked_version(&pkgs, "greentic-types", "Cargo.lock").unwrap_err();
    assert_eq!(err.message(), "invalid semver `nope` for greentic-types");
    let err = locked_version(&pkgs, "greentic-interfaces", "/w/Cargo.lock").unwrap_err();
    assert_eq!(err.message(), "crate `greentic-interfaces` not found in /w/Cargo.lock");
}

#[test]
fn best_index_keeps_the_earliest_of_equal_versions() {
    let cands = vec![
        None,
        Some("1.2.0".to_string()),
        Some("1.10.0".to_string()),
        Some("1.10.0".to_string()),
    ];
    let (index, _) = best_version_index(&cands).unwrap().unwrap();
    assert_eq!(index, 2);
    assert_eq!(best_version_index(&vec![None, Some("x".to_string())]).unwrap_err(), 1);
}

#[test]
fn wit_package_version_picks_the_highest_prefixed_directory() {
    let names: Vec<String> = ["secrets@0.1.0", "state@2.0.0", "secrets@0.2.1", "secretsx@9.0.0"]
        .iter()
        .map(|s| s.to_string())
        .collect();
    assert_eq!(wit_package_version(&names, "secrets", "/wit/greentic"), Ok("0.2.1".to_string()));
    let err = wit_package_version(&names, "http", "/wit/greentic").unwrap_err();
    assert_eq!(err.message(), "unable to locate WIT package `http@` under /wit/greentic");
}

#[test]
fn component_world_prefers_packages_exporting_node() {
    let dirs = vec![
        WitPackageDir { name: "component@0.4.0".to_string(), exports_node: true },
        WitPackageDir { name: "component@0.5.0".to_string(), exports_node: false },
        WitPackageDir { name: "types@9.0.0".to_string(), exports_node: false },
    ];
    assert_eq!(component_world_version(&dirs, "/wit"), Ok("0.4.0".to_string()));
    let without_node = vec![
        WitPackageDir { name: "component@0.4.0".to_string(), exports_node: false },
        WitPackageDir { name: "component@0.5.0".to_string(), exports_node: false },
    ];
    assert_eq!(component_world_version(&without_node, "/wit"), Ok("0.5.0".to_string()));
    let broken = vec![WitPackageDir { name: "component@latest".to_string(), exports_node: false }];
    assert_eq!(
        component_world_version(&broken, "/wit"),
        Err(ScaffoldError::InvalidSemver {
            version: "latest".to_string(),
            owner: "component@".to_string()
        })
    );
}

#[test]
fn template_context_names_the_component_in_every_case() {
    let context = TemplateContext::new("  My Widget ", &versions()).unwrap();
    assert_eq!(context.component_name, "my-widget");
    assert_eq!(context.component_kebab, "my-widget");
    assert_eq!(context.component_dir(), "component-my-widget");
    let value = |key: &str| {
        context
            .placeholders
            .iter()
            .find(|(k, _)| k == key)
            .map(|(_, v)| v.clone())
    };
    assert_eq!(value("component_snake").as_deref(), Some("my_widget"));
    assert_eq!(value("component_pascal").as_deref(), Some("MyWidget"));
    assert_eq!(value("component_dir").as_deref(), Some("component-my-widget"));
    assert_eq!(value("interfaces_guest_version").as_deref(), Some("0.4.2"));
    assert_eq!(context.placeholders.len(), 15);
    assert_eq!(TemplateContext::new("   ", &versions()).unwrap_err(), ScaffoldError::EmptyName);
}

#[test]
fn templates_are_rendered_placeholder_by_placeholder() {
    let context = template_context_from(
        "demo-thing".to_string(),
        "demo_thing".to_string(),
        "DemoThing".to_string(),
        &versions(),
    );
    let out = render_template(
        "name = \"{{component_crate}}\"\nstruct {{component_pascal}};\n{{unknown}} {{types_version}}",
        &context,
    );
    assert_eq!(out, "name = \"demo-thing\"\nstruct DemoThing;\n{{unknown}} 0.3.1");
}

#[test]
fn paths_and_pack_layout() {
    assert_eq!(resolve_path("/work/comp", "target/x.wasm"), "/work/comp/target/x.wasm");
    assert_eq!(resolve_path("/work/comp", "/abs/x.wasm"), "/abs/x.wasm");
    assert_eq!(cargo_home_from(Some("/opt/cargo"), Some("/home/a")), Ok("/opt/cargo".to_string()));
    assert_eq!(cargo_home_from(None, Some("/home/a")), Ok("/home/a/.cargo".to_string()));
    assert_eq!(cargo_home_from(None, None), Err(ScaffoldError::NoCargoHome));
    assert_eq!(
        crate_source_dir("/c/registry/src/index", "greentic-interfaces", "0.4.2"),
        "/c/registry/src/index/greentic-interfaces-0.4.2"
    );
    assert_eq!(pack_out_dir("/w/comp", None), Ok("/w/comp/packs".to_string()));
    assert_eq!(pack_out_dir("/w/comp", Some("out/packs")), Ok("/w/comp/out/packs".to_string()));
    assert_eq!(pack_out_dir("/w/comp", Some("/tmp/out")), Err(ScaffoldError::AbsoluteOutDir));
    assert_eq!(pack_out_dir("/w/comp", Some("out/../..")), Err(ScaffoldError::ParentOutDir));
    assert_eq!(
        ScaffoldError::ParentOutDir.message(),
        "--out-dir must not contain parent segments (`..`)"
    );
    let layout = pack_layout("/w/comp/packs", "demo", "1.2.3");
    assert_eq!(layout.dest_dir, "/w/comp/packs/demo/1.2.3");
    assert_eq!(layout.artifact_file, "demo-1.2.3.wasm");
    assert_eq!(sha256sums_line("abc", "demo-1.2.3.wasm"), "abc  demo-1.2.3.wasm");
}

#[test]
fn relativize_path_prefers_repo_relative_paths() {
    let root = "/repo";
    let file = "/repo/src/demo.rs";
    assert_eq!(relativize_path(root, Some(file), file), "src/demo.rs");
}

#[test]
fn report_paths_outside_the_root_keep_their_text() {
    assert_eq!(relativize_path("/repo", Some("/repository/a.rs"), "a\\b.rs"), "a/b.rs");
    assert_eq!(relativize_path("/repo", None, "/x/y.rs"), "/x/y.rs");
    assert_eq!(relativize_path("/", Some("/etc/z.rs"), "z.rs"), "etc/z.rs");
}

#[test]
fn component_targets_name_their_id_or_path() {
    assert_eq!(ComponentTarget::Direct("a.b".to_string()).as_ref(), "a.b");
    assert_eq!(ComponentTarget::Path("/c/a".to_string()).as_ref(), "/c/a");
}
