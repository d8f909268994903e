use greentic_dev::answers::{
    classify_answer_document, delegate_document_present, AnswerDocumentError, LoadedDocument,
    build_launcher_answers, emitted_schema_version, launcher_document_identity, merge_answers,
};
use greentic_dev::strmap::StrMap;
use greentic_dev::wizard::{
    is_launcher_answer_document, validate_answer_document_identity, AnswerIdentity, ExecutionMode,
    WizardError,
};

// Answers are kept as top-level keys bound to their values written as JSON text.
fn answers(pairs: &[(&str, &str)]) -> StrMap {
    let mut m = StrMap::new();
    for (k, v) in pairs {
        m.insert(k.to_string(), v.to_string());
    }
    m
}

#[test]
fn answer_precedence_cli_over_file() {
    let cli = answers(&[("foo", "\"cli\"")]);
    let file = answers(&[("foo", "\"file\""), ("bar", "\"file\"")]);
    let merged = merge_answers(Some(&cli), None, Some(&file), None);
    assert_eq!(merged.get("foo"), Some(&"\"cli\"".to_string()));
    assert_eq!(merged.get("bar"), Some(&"\"file\"".to_string()));
}

#[test]
fn every_layer_yields_to_the_next() {
    let cli = answers(&[("a", "1")]);
    let prefill = answers(&[("a", "2"), ("b", "2")]);
    let file = answers(&[("a", "3"), ("b", "3"), ("c", "3")]);
    let defaults = answers(&[("a", "4"), ("b", "4"), ("c", "4"), ("d", "4")]);
    let merged = merge_answers(Some(&cli), Some(&prefill), Some(&file), Some(&defaults));
    assert_eq!(merged.get("a"), Some(&"1".to_string()));
    assert_eq!(merged.get("b"), Some(&"2".to_string()));
    assert_eq!(merged.get("c"), Some(&"3".to_string()));
    assert_eq!(merged.get("d"), Some(&"4".to_string()));
    assert_eq!(merged.get("e"), None);
    assert!(merge_answers(None, None, None, None).is_empty());
}

#[test]
fn build_answer_document_sets_launcher_identity_fields() {
    let merged = merge_answers(None, None, Some(&answers(&[("selected_action", "\"pack\"")])), None);
    let mut inputs = StrMap::new();
    inputs.insert("resolved_versions.greentic-pack".to_string(), "greentic-pack 0.1".to_string());
    let doc = launcher_document_identity("en-US", "1.0.0");
    let locks = inputs.copy();

    assert_eq!(doc.wizard_id, "greentic-dev.wizard.launcher.main");
    assert_eq!(doc.schema_id, "greentic-dev.launcher.main");
    assert_eq!(doc.schema_version, "1.0.0");
    assert_eq!(doc.locale, "en-US");
    assert_eq!(merged.get("selected_action"), Some(&"\"pack\"".to_string()));
    assert_eq!(locks.get("resolved_versions.greentic-pack"), Some(&"greentic-pack 0.1".to_string()));
}

#[test]
fn reject_non_launcher_answer_document_id() {
    let doc = AnswerIdentity {
        wizard_id: "greentic-dev.wizard.pack.build".to_string(),
        schema_id: "greentic-dev.launcher.main".to_string(),
        schema_version: "1.0.0".to_string(),
        locale: "en-US".to_string(),
    };
    let err = validate_answer_document_identity(&doc, "answers.json").unwrap_err();
    assert!(err.message().contains("unsupported wizard_id"));
}

#[test]
fn launcher_identity_matches_expected_pair() {
    let doc = launcher_document_identity("en-US", "1.0.0");
    assert!(is_launcher_answer_document(&doc));
}

#[test]
fn build_launcher_answers_includes_selected_action() {
    let answers = build_launcher_answers(ExecutionMode::DryRun, "bundle");
    assert_eq!(answers.selected_action, "bundle");
    assert!(answers.with_delegate_document);
    assert!(!build_launcher_answers(ExecutionMode::Execute, "pack").with_delegate_document);
}

#[test]
fn emitted_schema_version_prefers_request_then_document() {
    assert_eq!(emitted_schema_version(Some("2.0.0"), Some("1.1.0")), "2.0.0");
    assert_eq!(emitted_schema_version(None, Some("1.1.0")), "1.1.0");
    assert_eq!(emitted_schema_version(None, None), "1.0.0");
}

fn identity(wizard_id: &str, schema_id: &str, version: &str) -> AnswerIdentity {
    AnswerIdentity {
        wizard_id: wizard_id.to_string(),
        schema_id: schema_id.to_string(),
        schema_version: version.to_string(),
        locale: "en-US".to_string(),
    }
}

#[test]
fn answer_documents_are_classified() {
    let launcher = identity("greentic-dev.wizard.launcher.main", "greentic-dev.launcher.main", "1.0.0");
    assert_eq!(
        classify_answer_document(&launcher, true, None, false, "a.json"),
        Ok(LoadedDocument::Launcher { locale: "en-US".to_string(), schema_version: "1.0.0".to_string() })
    );
    assert_eq!(
        classify_answer_document(&launcher, true, Some("2.0.0"), true, "a.json"),
        Ok(LoadedDocument::Launcher { locale: "en-US".to_string(), schema_version: "2.0.0".to_string() })
    );
    assert_eq!(
        classify_answer_document(&launcher, true, Some("2.0.0"), false, "a.json"),
        Err(AnswerDocumentError::Wizard(WizardError::SchemaVersionMismatch {
            found: "1.0.0".to_string(),
            requested: "2.0.0".to_string()
        }))
    );
    let err = classify_answer_document(&launcher, false, None, false, "a.json").unwrap_err();
    assert_eq!(err.message(), "AnswerDocument `answers` must be a JSON object in a.json");
    let bundle = identity("greentic-bundle.wizard.main", "greentic-bundle.main", "1.0.0");
    assert_eq!(
        classify_answer_document(&bundle, true, None, false, "b.json"),
        Ok(LoadedDocument::Delegated { selected_action: "bundle", locale: "en-US".to_string(), schema_version: "1.0.0".to_string() })
    );
    let other = identity("greentic-dev.wizard.pack.build", "greentic-dev.pack.build", "1.0.0");
    let err = classify_answer_document(&other, true, None, false, "c.json").unwrap_err();
    assert!(err.message().contains("unsupported wizard_id"));
}

#[test]
fn delegate_documents_must_be_objects() {
    assert_eq!(delegate_document_present(false, false), Ok(false));
    assert_eq!(delegate_document_present(true, true), Ok(true));
    assert_eq!(delegate_document_present(true, false), Err("answers.delegate_answer_document must be a JSON object"));
}
