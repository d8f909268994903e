use greentic_dev::components::{
    ComponentDescriber, ComponentSchema, FlowValidationError, StaticComponentDescriber,
};
use greentic_dev::flow_schema::{plan_component, DescribeRegistry, FlowNode, FlowValidator};

fn node(component: Option<&str>, type_field: Option<&str>, config: &str) -> FlowNode {
    FlowNode {
        is_mapping: true,
        component: component.map(str::to_string),
        type_field: type_field.map(str::to_string),
        config_json: config.to_string(),
    }
}

fn validator() -> FlowValidator<StaticComponentDescriber> {
    let mut describer = StaticComponentDescriber::new();
    describer.register_schema(
        "echo",
        ComponentSchema {
            node_schema: Some(
                r#"{"$id":"greentic://echo","type":"object","required":["message"]}"#.to_string(),
            ),
        },
    );
    describer.register_schema(
        "broken",
        ComponentSchema { node_schema: Some("{".to_string()) },
    );
    FlowValidator::new(describer, DescribeRegistry::new())
}

struct FailingDescriber;

impl ComponentDescriber for FailingDescriber {
    fn describe(&self, component: &str) -> Result<ComponentSchema, String> {
        Err(format!("no describe for {component}"))
    }
}

#[test]
fn conforming_nodes_carry_their_schema_and_defaults() {
    let nodes = vec![
        node(Some("echo"), None, r#"{"component":"echo","message":"hi"}"#),
        node(None, Some("oauth"), r#"{"type":"oauth"}"#),
        node(Some("plain"), None, r#"{"component":"plain"}"#),
    ];
    let validated = validator().validate_document(Some(&nodes)).unwrap();
    assert_eq!(validated.len(), 3);
    assert_eq!(validated[0].component, "echo");
    assert_eq!(validated[0].schema_id.as_deref(), Some("greentic://echo"));
    assert!(validated[0].defaults.is_none());
    assert_eq!(validated[1].component, "oauth");
    assert!(validated[1].defaults.as_deref().unwrap().contains("scopes: []"));
    assert_eq!(
        validated[1].schema_id.as_deref(),
        Some("https://greenticai.github.io/component-oauth/schemas/v1/oauth.node.schema.json")
    );
    assert!(validated[2].schema_json.is_none());
}

#[test]
fn documents_without_nodes_are_refused() {
    assert_eq!(validator().validate_document(None), Err(FlowValidationError::MissingNodes));
}

#[test]
fn the_first_malformed_node_is_reported() {
    let mut bad = node(Some("echo"), None, "[]");
    bad.is_mapping = false;
    let nodes = vec![node(Some("echo"), None, r#"{"message":"x"}"#), bad];
    assert_eq!(
        validator().validate_document(Some(&nodes)),
        Err(FlowValidationError::NodeNotMapping { index: 1 })
    );
    let nodes = vec![node(None, None, "{}")];
    assert_eq!(
        validator().validate_document(Some(&nodes)),
        Err(FlowValidationError::MissingComponent { index: 0 })
    );
}

#[test]
fn nodes_that_break_their_schema_are_reported_with_the_component() {
    let nodes = vec![
        node(Some("echo"), None, r#"{"message":"ok"}"#),
        node(Some("echo"), None, r#"{"component":"echo"}"#),
    ];
    match validator().validate_document(Some(&nodes)) {
        Err(FlowValidationError::SchemaValidation { component, index, message }) => {
            assert_eq!(component, "echo");
            assert_eq!(index, 1);
            assert!(message.contains("message"));
        }
        other => panic!("unexpected {other:?}"),
    }
}

#[test]
fn unusable_schemas_and_failed_describes_stop_validation() {
    let nodes = vec![node(Some("broken"), None, "{}")];
    match validator().validate_document(Some(&nodes)) {
        Err(FlowValidationError::SchemaValidation { component, index, message }) => {
            assert_eq!(component, "broken");
            assert_eq!(index, 0);
            assert!(message.starts_with("invalid schema JSON: "));
        }
        other => panic!("unexpected {other:?}"),
    }
    let failing = FlowValidator::new(FailingDescriber, DescribeRegistry::new());
    assert_eq!(
        failing.validate_document(Some(&vec![node(Some("echo"), None, "{}")])),
        Err(FlowValidationError::DescribeFailed {
            component: "echo".to_string(),
            error: "no describe for echo".to_string()
        })
    );
}

#[test]
fn schemas_that_do_not_compile_are_named_as_such() {
    let described = ComponentSchema { node_schema: Some(r#"{"type":12}"#.to_string()) };
    let err = plan_component(&DescribeRegistry::new(), "odd", &described).unwrap_err();
    assert!(err.starts_with("schema did not compile: "), "{err}");
}

/// Counts how often each component is described.
struct CountingDescriber(std::cell::RefCell<Vec<String>>);

impl ComponentDescriber for CountingDescriber {
    fn describe(&self, component: &str) -> Result<ComponentSchema, String> {
        self.0.borrow_mut().push(component.to_string());
        Ok(ComponentSchema { node_schema: None })
    }
}

#[test]
fn each_component_is_described_once() {
    let validator = FlowValidator::new(
        CountingDescriber(std::cell::RefCell::new(Vec::new())),
        DescribeRegistry::new(),
    );
    let nodes = vec![
        node(Some("a"), None, "{}"),
        node(Some("b"), None, "{}"),
        node(Some("a"), None, "{}"),
    ];
    let (validated, _asked) = validator.validate_document_described(Some(&nodes));
    assert_eq!(validated.expect("all pass").len(), 3);
    assert_eq!(*validator.describer.0.borrow(), vec!["a".to_string(), "b".to_string()]);
}
