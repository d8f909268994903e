use greentic_dev::bundle::{
    answers_format, missing_bundle_text, pack_entry, provider_domains, removal_confirmed,
    status_lines, team_label, AnswersFormat, BundleStatus, SetupCommand,
};

#[test]
fn provider_packs_are_gtpack_files_named_by_domain() {
    assert_eq!(
        provider_domains(),
        vec!["messaging", "events", "oauth", "secrets", "mcp", "state", "other"]
    );
    assert_eq!(pack_entry("messaging", "slack.gtpack"), Some("messaging/slack".to_string()));
    assert_eq!(pack_entry("state", "redis.v2.gtpack"), Some("state/redis.v2".to_string()));
    assert_eq!(pack_entry("oauth", "readme.md"), None);
    assert_eq!(pack_entry("oauth", ".gtpack"), None);
}

#[test]
fn status_lists_packs_and_tenants() {
    let status = BundleStatus {
        path: "/b/demo".to_string(),
        valid: false,
        packs: vec!["messaging/slack".to_string(), "events/webhook".to_string()],
        tenants: vec!["acme".to_string()],
    };
    assert_eq!(
        status_lines(&status),
        vec![
            "Bundle: /b/demo",
            "Valid: no (missing greentic.demo.yaml)",
            "Packs: 2 installed",
            "  - messaging/slack",
            "  - events/webhook",
            "Tenants: 1",
            "  - acme",
        ]
    );
    let empty = BundleStatus { path: "/b".to_string(), valid: true, packs: vec![], tenants: vec![] };
    assert_eq!(status_lines(&empty), vec!["Bundle: /b", "Valid: yes", "Packs: 0 installed", "Tenants: 0"]);
}

#[test]
fn missing_bundles_are_reported_in_either_format() {
    assert_eq!(missing_bundle_text("/nope", false), "Bundle not found: /nope");
    assert_eq!(missing_bundle_text("/nope", true), r#"{"exists": false, "path": "/nope"}"#);
}

#[test]
fn setup_answers_need_a_file_and_follow_its_extension() {
    assert_eq!(answers_format(Some("answers.yaml"), false, SetupCommand::Setup), Ok(AnswersFormat::Yaml));
    assert_eq!(answers_format(Some("dir/a.yml"), true, SetupCommand::Update), Ok(AnswersFormat::Yaml));
    assert_eq!(answers_format(Some("answers.json"), false, SetupCommand::Setup), Ok(AnswersFormat::Json));
    assert_eq!(answers_format(Some(".yaml"), false, SetupCommand::Setup), Ok(AnswersFormat::Json));
    assert_eq!(
        answers_format(None, true, SetupCommand::Setup),
        Err("--answers required in non-interactive mode")
    );
    assert_eq!(
        answers_format(None, false, SetupCommand::Setup),
        Err("interactive setup requires --answers file")
    );
    assert_eq!(
        answers_format(None, false, SetupCommand::Update),
        Err("interactive update requires --answers file")
    );
}

#[test]
fn removal_needs_force_and_teams_default() {
    assert_eq!(removal_confirmed(true), Ok(()));
    assert_eq!(removal_confirmed(false), Err("removal cancelled - use --force to confirm"));
    assert_eq!(team_label(Some("blue")), "blue");
    assert_eq!(team_label(None), "default");
}
