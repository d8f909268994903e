use greentic_dev::answers::AnswerDocumentError;
use greentic_dev::cli::{WizardApplyArgs, WizardLaunchArgs, WizardValidateArgs};
use greentic_dev::wizard::{
    apply, launch_on_terminal, run_log_line, validate, RunCommandStep, AnswerIdentity, ExecutionMode, LaunchRoute, RunOptions,
    WizardError, WizardFrontend, WizardStep,
};
use greentic_dev::wizard_run::{
    apply_run, decide_run, launch_run, next_command, validate_run, DelegateDocument, ExecStep,
    LaunchDecision, LocaleSources, RunError, RunInput,
};

fn locales() -> LocaleSources {
    LocaleSources { env: None, sys: None, supported: vec!["en-US".to_string()] }
}

fn identity(wizard_id: &str, schema_id: &str) -> AnswerIdentity {
    AnswerIdentity {
        wizard_id: wizard_id.to_string(),
        schema_id: schema_id.to_string(),
        schema_version: "1.0.0".to_string(),
        locale: "en-US".to_string(),
    }
}

fn launcher_document(selected: &str, delegate: DelegateDocument) -> RunInput {
    RunInput::Document {
        identity: identity("greentic-dev.wizard.launcher.main", "greentic-dev.launcher.main"),
        answers_is_object: true,
        source: "answers.json".to_string(),
        selected_action: Some(selected.to_string()),
        delegate,
    }
}

fn validate_options(frontend: &str) -> RunOptions {
    validate(&WizardValidateArgs {
        answers: "answers.json".to_string(),
        frontend: frontend.to_string(),
        locale: None,
        emit_answers: None,
        schema_version: None,
        migrate: false,
        out: Some("out".to_string()),
    })
}

fn apply_options(emit: Option<&str>) -> RunOptions {
    apply(&WizardApplyArgs {
        answers: "answers.json".to_string(),
        frontend: "json".to_string(),
        locale: None,
        emit_answers: emit.map(str::to_string),
        schema_version: None,
        migrate: false,
        out: Some("out".to_string()),
        yes: false,
        non_interactive: true,
        unsafe_commands: false,
        allow_destructive: false,
    })
}

fn command_of(step: &WizardStep) -> (String, Vec<String>) {
    match step {
        WizardStep::RunCommand(cmd) => (cmd.program.clone(), cmd.args.clone()),
        other => panic!("not a command: {other:?}"),
    }
}

#[test]
fn validate_dry_runs_the_launcher_plan_without_executing() {
    let decision = decide_run(
        &validate_options("json"),
        &launcher_document("pack", DelegateDocument::Absent),
        &locales(),
        "out",
    )
    .unwrap_or_else(|e| panic!("refused: {}", e.message()));
    assert_eq!(decision.plan.metadata.target, "launcher");
    assert_eq!(decision.plan.metadata.mode, "main");
    assert_eq!(decision.plan.metadata.frontend, WizardFrontend::Json);
    assert!(matches!(decision.plan.steps[0], WizardStep::LaunchPackWizard));
    let (program, args) = command_of(&decision.plan.steps[1]);
    assert_eq!(program, "greentic-pack");
    assert_eq!(args, vec!["wizard", "--dry-run"]);
    assert_eq!(decision.exec_log, None);
    assert!(decision.emitted.is_none());
    assert_eq!(decision.locale, "en-US");
}

#[test]
fn apply_executes_and_logs_the_delegate() {
    let decision = decide_run(
        &apply_options(None),
        &launcher_document("pack", DelegateDocument::Absent),
        &locales(),
        "out",
    )
    .unwrap_or_else(|e| panic!("refused: {}", e.message()));
    let (program, args) = command_of(&decision.plan.steps[1]);
    assert_eq!(program, "greentic-pack");
    assert_eq!(args, vec!["wizard"]);
    assert_eq!(decision.exec_log.as_deref(), Some("out/exec.log"));
    assert!(!decision.execute_options.unsafe_commands);
}

#[test]
fn apply_refuses_another_wizards_document_before_running() {
    let input = RunInput::Document {
        identity: identity("greentic-dev.wizard.pack.build", "greentic-dev.launcher.main"),
        answers_is_object: true,
        source: "answers.json".to_string(),
        selected_action: Some("pack".to_string()),
        delegate: DelegateDocument::Absent,
    };
    let err = match decide_run(&apply_options(None), &input, &locales(), "out") {
        Err(e) => e,
        Ok(_) => panic!("accepted another wizard's document"),
    };
    assert!(matches!(
        err,
        RunError::Document(AnswerDocumentError::Wizard(WizardError::UnsupportedWizardId { .. }))
    ));
    assert!(err.message().contains("unsupported wizard_id"));
}

#[test]
fn apply_emits_a_launcher_answer_document() {
    let decision = decide_run(
        &apply_options(Some("emitted.json")),
        &launcher_document("bundle", DelegateDocument::Absent),
        &locales(),
        "out",
    )
    .unwrap_or_else(|e| panic!("refused: {}", e.message()));
    let emitted = decision.emitted.expect("emitted");
    assert_eq!(emitted.path, "emitted.json");
    assert_eq!(emitted.identity.wizard_id, "greentic-dev.wizard.launcher.main");
    assert_eq!(emitted.identity.schema_id, "greentic-dev.launcher.main");
    assert_eq!(emitted.identity.schema_version, "1.0.0");
    assert_eq!(decision.request.selected_action.as_deref(), Some("bundle"));
}

#[test]
fn launch_dry_run_applies_the_delegated_answers() {
    let opts = match launch_on_terminal(
        &WizardLaunchArgs {
            answers: Some("answers.json".to_string()),
            frontend: "json".to_string(),
            locale: None,
            emit_answers: None,
            schema_version: None,
            migrate: false,
            out: Some("out".to_string()),
            dry_run: true,
            yes: false,
            non_interactive: false,
            unsafe_commands: false,
            allow_destructive: false,
        },
        false,
    ) {
        Ok(LaunchRoute::FromAnswers(opts)) => opts,
        _ => panic!("expected a document run"),
    };
    assert_eq!(opts.mode, ExecutionMode::DryRun);
    let decision = decide_run(
        &opts,
        &launcher_document("bundle", DelegateDocument::Object),
        &locales(),
        "out",
    )
    .unwrap_or_else(|e| panic!("refused: {}", e.message()));
    assert_eq!(
        decision.request.delegated_answers_path.as_deref(),
        Some("out/delegated-answers.json")
    );
    let (program, args) = command_of(&decision.plan.steps[1]);
    assert_eq!(program, "greentic-bundle");
    assert_eq!(args, vec!["wizard", "apply", "--answers", "out/delegated-answers.json", "--dry-run"]);
    assert_eq!(decision.exec_log, None);
}

#[test]
fn a_pack_document_is_delegated_as_its_own_answers() {
    let input = RunInput::Document {
        identity: identity("greentic-bundle.wizard.main", "greentic-bundle.main"),
        answers_is_object: true,
        source: "answers.json".to_string(),
        selected_action: Some("create".to_string()),
        delegate: DelegateDocument::Absent,
    };
    let decision = decide_run(&validate_options("text"), &input, &locales(), "out")
        .unwrap_or_else(|e| panic!("refused: {}", e.message()));
    assert!(decision.delegated_document);
    assert_eq!(decision.request.selected_action.as_deref(), Some("bundle"));
    assert_eq!(
        decision.request.delegated_answers_path.as_deref(),
        Some("out/delegated-answers.json")
    );
}

#[test]
fn launch_without_answers_needs_a_terminal() {
    let args = WizardLaunchArgs {
        answers: None,
        frontend: "json".to_string(),
        locale: None,
        emit_answers: None,
        schema_version: None,
        migrate: false,
        out: None,
        dry_run: true,
        yes: false,
        non_interactive: false,
        unsafe_commands: false,
        allow_destructive: false,
    };
    let err = match launch_on_terminal(&args, false) {
        Err(e) => e,
        Ok(_) => panic!("launched without a terminal"),
    };
    assert_eq!(err, WizardError::InteractiveRequired);
    assert_eq!(err.message(), "cli.wizard.error.interactive_required");
    assert!(matches!(launch_on_terminal(&args, true), Ok(LaunchRoute::PromptOnce(_))));
}

#[test]
fn unsupported_frontend_and_bad_delegate_are_refused() {
    let err = match decide_run(
        &validate_options("html"),
        &launcher_document("pack", DelegateDocument::Absent),
        &locales(),
        "out",
    ) {
        Err(e) => e,
        Ok(_) => panic!("accepted html"),
    };
    assert_eq!(err.message(), "unsupported frontend `html`; expected text|json|adaptive-card");
    let err = match decide_run(
        &validate_options("json"),
        &launcher_document("pack", DelegateDocument::NotObject),
        &locales(),
        "out",
    ) {
        Err(e) => e,
        Ok(_) => panic!("accepted a non-object delegate"),
    };
    assert!(matches!(err, RunError::DelegateNotObject));
    let err = match decide_run(
        &validate_options("json"),
        &launcher_document("flow", DelegateDocument::Absent),
        &locales(),
        "out",
    ) {
        Err(e) => e,
        Ok(_) => panic!("accepted flow"),
    };
    assert!(matches!(err, RunError::Plan(WizardError::UnsupportedAction(_))));
}

#[test]
fn executed_commands_are_logged_as_run_lines() {
    let cmd = RunCommandStep {
        program: "greentic-pack".to_string(),
        args: vec!["wizard".to_string()],
        destructive: false,
    };
    assert_eq!(run_log_line(&cmd), "RUN greentic-pack wizard");
    let cmd = RunCommandStep {
        program: "greentic-bundle".to_string(),
        args: vec!["wizard".to_string(), "--dry-run".to_string()],
        destructive: false,
    };
    assert_eq!(run_log_line(&cmd), "RUN greentic-bundle wizard --dry-run");
}

#[test]
fn validate_and_apply_runs_compose_their_flags() {
    let args = WizardValidateArgs {
        answers: "answers.json".to_string(),
        frontend: "json".to_string(),
        locale: None,
        emit_answers: None,
        schema_version: None,
        migrate: false,
        out: Some("out".to_string()),
    };
    let decision = validate_run(&args, &launcher_document("pack", DelegateDocument::Absent), &locales(), "out")
        .unwrap_or_else(|e| panic!("refused: {}", e.message()));
    assert_eq!(decision.exec_log, None);
    assert!(decision.yes && decision.non_interactive);
    let args = WizardApplyArgs {
        answers: "answers.json".to_string(),
        frontend: "json".to_string(),
        locale: None,
        emit_answers: Some("emitted.json".to_string()),
        schema_version: None,
        migrate: false,
        out: Some("out".to_string()),
        yes: false,
        non_interactive: true,
        unsafe_commands: false,
        allow_destructive: false,
    };
    let decision = apply_run(&args, &launcher_document("bundle", DelegateDocument::Absent), &locales(), "out")
        .unwrap_or_else(|e| panic!("refused: {}", e.message()));
    assert_eq!(decision.exec_log.as_deref(), Some("out/exec.log"));
    assert_eq!(decision.emitted.expect("emitted").identity.wizard_id, "greentic-dev.wizard.launcher.main");
    let other = RunInput::Document {
        identity: identity("greentic-dev.wizard.pack.build", "greentic-dev.launcher.main"),
        answers_is_object: true,
        source: "answers.json".to_string(),
        selected_action: Some("pack".to_string()),
        delegate: DelegateDocument::Absent,
    };
    let err = match apply_run(&args, &other, &locales(), "out") {
        Err(e) => e,
        Ok(_) => panic!("accepted another wizard's document"),
    };
    assert!(err.message().contains("unsupported wizard_id"));
}

#[test]
fn launch_runs_refuse_without_a_terminal_and_dry_run_menu_picks() {
    let mut args = WizardLaunchArgs {
        answers: None,
        frontend: "json".to_string(),
        locale: None,
        emit_answers: None,
        schema_version: None,
        migrate: false,
        out: None,
        dry_run: true,
        yes: false,
        non_interactive: false,
        unsafe_commands: false,
        allow_destructive: false,
    };
    let menu = RunInput::Menu {
        selected_action: "bundle".to_string(),
        with_delegate_document: true,
        locale: "en-US".to_string(),
    };
    match launch_run(&args, false, &menu, &locales(), "out") {
        Err(e) => assert_eq!(e.message(), "cli.wizard.error.interactive_required"),
        Ok(_) => panic!("launched without a terminal"),
    }
    match launch_run(&args, true, &menu, &locales(), "out") {
        Ok(LaunchDecision::Run(d)) => {
            let (program, cmd_args) = command_of(&d.plan.steps[1]);
            assert_eq!(program, "greentic-bundle");
            assert_eq!(cmd_args, vec!["wizard", "apply", "--answers", "out/delegated-answers.json", "--dry-run"]);
            assert_eq!(d.exec_log, None);
        }
        _ => panic!("expected a dry run"),
    }
    args.dry_run = false;
    assert!(matches!(launch_run(&args, true, &menu, &locales(), "out"), Ok(LaunchDecision::Menu)));
}

#[test]
fn execution_steps_through_the_plan_commands() {
    let decision = decide_run(
        &apply_options(None),
        &launcher_document("pack", DelegateDocument::Absent),
        &locales(),
        "out",
    )
    .unwrap_or_else(|e| panic!("refused: {}", e.message()));
    let opts = decision.execute_options;
    match next_command(&decision.plan, &opts, 0) {
        Ok(ExecStep::Run { step, log_line }) => {
            assert_eq!(step, 1);
            assert_eq!(log_line, "RUN greentic-pack wizard");
        }
        _ => panic!("expected the delegate"),
    }
    assert!(matches!(next_command(&decision.plan, &opts, 2), Ok(ExecStep::Done)));
}
