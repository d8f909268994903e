use greentic_dev::components::ComponentSchema;
use greentic_dev::flow_schema::{component_name, node_schema_for, schema_id_from_json, DescribeRegistry};
use greentic_dev::component_resolve::{
    choose_latest_version, extract_node_payload, node_schema_errors,
    check_requirement, issue_pointer, node_pointer, parse_version_req, requirement_matches,
    requirement_text,
};
use greentic_dev::semver::parse_version;

#[test]
fn empty_version_requirement_defaults_to_any() {
    let req = parse_version_req("").unwrap();
    assert!(requirement_matches(&req, &parse_version("1.2.3").unwrap()));
}

#[test]
fn invalid_version_requirement_is_rejected() {
    assert!(parse_version_req("not-a-semver").is_err());
}

#[test]
fn blank_requirements_do_not_admit_prereleases() {
    let req = parse_version_req("   ").unwrap();
    assert_eq!(requirement_text(&req), "*");
    assert!(!requirement_matches(&req, &parse_version("1.2.3-alpha.1").unwrap()));
}

#[test]
fn components_outside_the_requirement_are_refused() {
    let req = parse_version_req("^1.2").unwrap();
    assert_eq!(check_requirement("demo", &parse_version("1.4.0").unwrap(), &req), Ok(()));
    assert_eq!(
        check_requirement("demo", &parse_version("2.0.0").unwrap(), &req),
        Err("component `demo` version `2.0.0` does not satisfy requirement `^1.2`".to_string())
    );
}

#[test]
fn schema_problems_are_reported_under_the_node() {
    let pointer = node_pointer("start", "ai.greentic.echo");
    assert_eq!(pointer, "/nodes/start/ai.greentic.echo");
    assert_eq!(issue_pointer(&pointer, ""), pointer);
    assert_eq!(issue_pointer(&pointer, "/"), pointer);
    assert_eq!(issue_pointer(&pointer, "/message"), "/nodes/start/ai.greentic.echo/message");
}

#[test]
fn extracts_schema_id() {
    let schema = r#"{"$id":"greentic://schema/demo","type":"object"}"#;
    assert_eq!(schema_id_from_json(schema).as_deref(), Some("greentic://schema/demo"));
    assert!(schema_id_from_json("not json").is_none());
}

#[test]
fn builtin_oauth_stub_takes_precedence_over_the_describer() {
    let registry = DescribeRegistry::new();
    let schema = registry.get_schema("oauth").unwrap();
    assert_eq!(
        schema_id_from_json(schema).as_deref(),
        Some("https://greenticai.github.io/component-oauth/schemas/v1/oauth.node.schema.json")
    );
    assert!(registry.get_defaults("oauth").unwrap().contains("client_secret: null"));
    assert!(registry.get_schema("echo").is_none());
    let described = ComponentSchema { node_schema: Some("{}".to_string()) };
    assert_eq!(node_schema_for(&registry, "oauth", &described).as_deref(), Some(schema));
    assert_eq!(node_schema_for(&registry, "echo", &described).as_deref(), Some("{}"));
}

#[test]
fn nodes_name_their_component_or_type() {
    assert_eq!(component_name(Some("a"), Some("b")), Some("a".to_string()));
    assert_eq!(component_name(None, Some("b")), Some("b".to_string()));
    assert_eq!(component_name(None, None), None);
}

#[test]
fn the_newest_described_version_is_chosen_first_among_equals() {
    let versions: Vec<_> = ["1.0.0", "2.0.0", "2.0.0", "2.0.0-rc.1", "1.5.0"]
        .iter()
        .map(|v| parse_version(v).expect("version"))
        .collect();
    assert_eq!(choose_latest_version(&versions), Some(1));
    assert_eq!(choose_latest_version(&Vec::new()), None);
}

#[test]
fn node_payload_is_read_from_the_flow_document() {
    let doc = r#"{"nodes":{"n1":{"http":{"url":"x"}},"n2":3}}"#;
    assert_eq!(extract_node_payload(doc, "n1", "http"), Ok(r#"{"url":"x"}"#.to_string()));
    assert_eq!(
        extract_node_payload(doc, "n1", "oauth"),
        Err("node `n1` missing component payload `oauth`".to_string())
    );
    assert_eq!(
        extract_node_payload(doc, "n2", "http"),
        Err("flow document missing node `n2`".to_string())
    );
    assert_eq!(
        extract_node_payload(doc, "n3", "http"),
        Err("flow document missing node `n3`".to_string())
    );
    assert_eq!(
        extract_node_payload(r#"{"nodes":[]}"#, "n1", "http"),
        Err("flow document missing `nodes` object".to_string())
    );
}

#[test]
fn node_schema_problems_carry_their_pointer() {
    let schema = r#"{"type":"object","properties":{"n":{"type":"string"}},"required":["url"]}"#;
    let none = node_schema_errors("n1", "http", "/nodes/n1/http", Some(schema), r#"{"url":"x","n":"y"}"#)
        .expect("checked");
    assert!(none.is_empty());
    let issues = node_schema_errors("n1", "http", "/nodes/n1/http", Some(schema), r#"{"url":"x","n":3}"#)
        .expect("checked");
    assert!(!issues.is_empty());
    assert!(issues.iter().all(|e| e.node_id == "n1" && e.component == "http"));
    assert_eq!(issues[0].pointer, "/nodes/n1/http/n");
    let missing = node_schema_errors("n1", "http", "/nodes/n1/http", Some(schema), "{}").expect("checked");
    assert_eq!(missing[0].pointer, "/nodes/n1/http");
    assert!(node_schema_errors("n1", "http", "/p", None, "{}").unwrap().is_empty());
    assert!(node_schema_errors("n1", "http", "/p", Some("{"), "{}")
        .unwrap_err()
        .starts_with("invalid schema JSON: "));
    assert!(node_schema_errors("n1", "http", "/p", Some(r#"{"type":12}"#), "{}")
        .unwrap_err()
        .starts_with("failed to compile schema JSON: "));
}
