use greentic_dev::cli::{WizardApplyArgs, WizardLaunchArgs, WizardValidateArgs};
use greentic_dev::strmap::StrMap;
use greentic_dev::wizard::{
    annotate_execution_metadata, answer_schema_version, apply, args_look_unsafe, check_command,
    check_plan, confirmation_answer, confirmation_step, delegate_program,
    delegated_selected_action, interactive_delegate_args, is_allowed_program,
    is_launcher_answer_document, launch, parse_launcher_menu_choice, record_command,
    record_resolved_version, render_text_plan, validate, validate_answer_document_identity,
    validate_version_pin, AnswerIdentity, ConfirmStep, ExecuteOptions, ExecutionMode,
    ExecutionReport, LauncherMenuChoice, LaunchRoute, ProviderRequest, RunCommandStep,
    ShellWizardProvider, WizardError, WizardFrontend, WizardPlan, WizardPlanMetadata,
    WizardProvider, WizardStep,
};

fn plan_with_inputs(inputs: StrMap) -> WizardPlan {
    WizardPlan {
        plan_version: 1,
        created_at: None,
        metadata: WizardPlanMetadata {
            target: "flow".to_string(),
            mode: "create".to_string(),
            locale: "en-US".to_string(),
            frontend: WizardFrontend::Json,
        },
        inputs,
        steps: vec![],
    }
}

#[test]
fn frontend_parser_accepts_supported_values() {
    assert_eq!(WizardFrontend::parse("text"), Some(WizardFrontend::Text));
    assert_eq!(WizardFrontend::parse("json"), Some(WizardFrontend::Json));
    assert_eq!(
        WizardFrontend::parse("adaptive-card"),
        Some(WizardFrontend::AdaptiveCard)
    );
    assert_eq!(WizardFrontend::parse("html"), None);
}

#[test]
fn allowlist_basics() {
    assert!(is_allowed_program("greentic-flow"));
    assert!(!is_allowed_program("bash"));
    assert!(!is_allowed_program("greentic-operator"));
}

#[test]
fn unsafe_args_blocked() {
    assert!(args_look_unsafe(&vec!["-c".to_string()]));
    assert!(args_look_unsafe(&vec!["rm".to_string()]));
    assert!(!args_look_unsafe(&vec![
        "doctor".to_string(),
        "--json".to_string()
    ]));
}

#[test]
fn version_pin_accepts_match() {
    let mut inputs = StrMap::new();
    inputs.insert(
        "resolved_versions.greentic-flow".to_string(),
        "greentic-flow 0.4.99".to_string(),
    );
    let plan = plan_with_inputs(inputs);
    validate_version_pin(&plan, "greentic-flow", "greentic-flow 0.4.99").expect("match");
}

#[test]
fn version_pin_rejects_mismatch() {
    let mut inputs = StrMap::new();
    inputs.insert(
        "resolved_versions.greentic-flow".to_string(),
        "greentic-flow 0.4.10".to_string(),
    );
    let plan = plan_with_inputs(inputs);
    let err = validate_version_pin(&plan, "greentic-flow", "greentic-flow 0.4.11")
        .expect_err("expected mismatch");
    assert!(err.message().contains("replay pin mismatch"));
}

#[test]
fn parse_main_menu_navigation_keys() {
    assert_eq!(
        parse_launcher_menu_choice("1", true, "en-US").expect("parse"),
        LauncherMenuChoice::Pack
    );
    assert_eq!(
        parse_launcher_menu_choice("2", true, "en-US").expect("parse"),
        LauncherMenuChoice::Bundle
    );
    assert_eq!(
        parse_launcher_menu_choice("0", true, "en-US").expect("parse"),
        LauncherMenuChoice::Exit
    );
    assert_eq!(
        parse_launcher_menu_choice("M", true, "en-US").expect("parse"),
        LauncherMenuChoice::MainMenu
    );
}

#[test]
fn parse_nested_menu_zero_returns_to_main_menu() {
    assert_eq!(
        parse_launcher_menu_choice("0", false, "en-US").expect("parse"),
        LauncherMenuChoice::MainMenu
    );
}

#[test]
fn bundle_delegate_receives_locale_flag() {
    assert_eq!(
        interactive_delegate_args("greentic-bundle", "en-GB"),
        vec!["--locale", "en-GB", "wizard"]
    );
}

#[test]
fn pack_delegate_keeps_plain_wizard_args() {
    assert_eq!(
        interactive_delegate_args("greentic-pack", "en-GB"),
        vec!["wizard"]
    );
}

#[test]
fn menu_rejects_unknown_entries_and_trims_input() {
    assert_eq!(
        parse_launcher_menu_choice(" 2\n", true, "en-US"),
        Ok(LauncherMenuChoice::Bundle)
    );
    assert_eq!(
        parse_launcher_menu_choice("1", false, "de"),
        Err(WizardError::InvalidSelection {
            locale: "de".to_string()
        })
    );
}

fn request(action: Option<&str>, dry_run: bool) -> ProviderRequest {
    ProviderRequest {
        frontend: WizardFrontend::Json,
        locale: "en-US".to_string(),
        dry_run,
        selected_action: action.map(str::to_string),
        delegated_answers_path: None,
    }
}

#[test]
fn build_plan_pack_apply() {
    let plan = ShellWizardProvider
        .build_plan(&request(Some("pack"), false))
        .expect("build plan");
    assert_eq!(plan.metadata.target, "launcher");
    assert_eq!(plan.metadata.mode, "main");
    assert!(matches!(plan.steps[0], WizardStep::LaunchPackWizard));
    match plan.steps.last().expect("run step") {
        WizardStep::RunCommand(cmd) => {
            assert_eq!(cmd.program, "greentic-pack");
            assert_eq!(cmd.args, vec!["wizard"]);
        }
        other => panic!("expected RunCommand step, got {other:?}"),
    }
}

#[test]
fn build_plan_bundle_dry_run() {
    let plan = ShellWizardProvider
        .build_plan(&request(Some("bundle"), true))
        .expect("build plan");
    match plan.steps.last().expect("run step") {
        WizardStep::RunCommand(cmd) => {
            assert_eq!(cmd.program, "greentic-bundle");
            assert_eq!(cmd.args, vec!["wizard", "--dry-run"]);
        }
        other => panic!("expected RunCommand step, got {other:?}"),
    }
    assert_eq!(
        render_text_plan(&plan),
        "wizard plan v1: launcher.main\nlocale: en-US\nsteps: 2\n1. LaunchBundleWizard\n2. RunCommand greentic-bundle wizard --dry-run\n"
    );
}

#[test]
fn build_plan_requires_a_supported_action() {
    assert_eq!(
        ShellWizardProvider.build_plan(&request(None, false)).unwrap_err(),
        WizardError::MissingSelectedAction
    );
    assert_eq!(
        ShellWizardProvider
            .build_plan(&request(Some("flow"), false))
            .unwrap_err(),
        WizardError::UnsupportedAction("flow".to_string())
    );
    assert_eq!(delegate_program(Some("bundle")), Ok("greentic-bundle"));
}

#[test]
fn commands_pass_the_gates_in_order() {
    let safe = ExecuteOptions {
        unsafe_commands: false,
        allow_destructive: false,
    };
    let cmd = RunCommandStep {
        program: "bash".to_string(),
        args: vec!["-c".to_string()],
        destructive: true,
    };
    assert_eq!(
        check_command(&cmd, &safe),
        Err(WizardError::ProgramNotAllowed("bash".to_string()))
    );
    let unsafe_ok = ExecuteOptions {
        unsafe_commands: true,
        allow_destructive: false,
    };
    assert_eq!(
        check_command(&cmd, &unsafe_ok),
        Err(WizardError::UnsafeArgs("bash".to_string()))
    );
    let mut plan = plan_with_inputs(StrMap::new());
    plan.steps.push(WizardStep::RunCommand(cmd));
    assert_eq!(check_plan(&plan, &safe), Err(WizardError::Destructive));
}

#[test]
fn a_run_records_its_versions_as_replay_pins() {
    let mut plan = plan_with_inputs(StrMap::new());
    let mut report = ExecutionReport {
        resolved_versions: StrMap::new(),
        commands_executed: 0,
    };
    record_resolved_version(&plan, &mut report, "greentic-pack", "greentic-pack 0.1").unwrap();
    record_resolved_version(&plan, &mut report, "greentic-pack", "greentic-pack 0.2").unwrap();
    record_command(&mut report);
    annotate_execution_metadata(&mut plan, &report);
    assert_eq!(
        plan.inputs
            .get("resolved_versions.greentic-pack")
            .map(String::as_str),
        Some("greentic-pack 0.1")
    );
    assert_eq!(
        plan.inputs.get("executed_commands").map(String::as_str),
        Some("1")
    );
    assert!(validate_version_pin(&plan, "greentic-pack", "greentic-pack 0.1").is_ok());
    assert!(validate_version_pin(&plan, "greentic-pack", "greentic-pack 0.2").is_err());
}

#[test]
fn confirmation_rules() {
    assert_eq!(confirmation_step(true, false, true), Ok(ConfirmStep::Proceed));
    assert_eq!(confirmation_step(false, true, false), Ok(ConfirmStep::Proceed));
    assert_eq!(
        confirmation_step(false, false, false),
        Err(WizardError::NonInteractive)
    );
    assert_eq!(confirmation_step(false, false, true), Ok(ConfirmStep::Prompt));
    assert!(confirmation_answer("yes\n").is_ok());
    assert!(confirmation_answer(" Y ").is_ok());
    assert_eq!(confirmation_answer("n\n"), Err(WizardError::Canceled));
}

fn identity(wizard_id: &str, schema_id: &str) -> AnswerIdentity {
    AnswerIdentity {
        wizard_id: wizard_id.to_string(),
        schema_id: schema_id.to_string(),
        schema_version: "1.0.0".to_string(),
        locale: "en-US".to_string(),
    }
}

#[test]
fn answer_documents_are_told_apart_by_identity() {
    let launcher = identity("greentic-dev.wizard.launcher.main", "greentic-dev.launcher.main");
    assert!(is_launcher_answer_document(&launcher));
    assert!(validate_answer_document_identity(&launcher, "answers.json").is_ok());
    let pack = identity("greentic-dev.wizard.pack.build", "greentic-dev.launcher.main");
    let err = validate_answer_document_identity(&pack, "answers.json").unwrap_err();
    assert!(err.message().contains("unsupported wizard_id"));
    assert_eq!(
        delegated_selected_action(&identity("greentic-bundle.wizard.main", "x")),
        Some("bundle")
    );
    assert_eq!(
        delegated_selected_action(&identity("greentic-pack.wizard.main", "x")),
        Some("pack")
    );
    assert_eq!(delegated_selected_action(&launcher), None);
    assert_eq!(answer_schema_version("1.0.0", Some("2.0.0"), true), Ok("2.0.0".to_string()));
    assert!(answer_schema_version("1.0.0", Some("2.0.0"), false).is_err());
    assert_eq!(answer_schema_version("1.0.0", None, false), Ok("1.0.0".to_string()));
}

fn launch_args(answers: Option<&str>, dry_run: bool) -> WizardLaunchArgs {
    WizardLaunchArgs {
        answers: answers.map(str::to_string),
        frontend: "json".to_string(),
        locale: None,
        emit_answers: None,
        schema_version: None,
        migrate: false,
        out: None,
        dry_run,
        yes: false,
        non_interactive: false,
        unsafe_commands: false,
        allow_destructive: false,
    }
}

#[test]
fn subcommands_route_to_their_run_options() {
    assert!(matches!(launch(&launch_args(None, false)), LaunchRoute::Interactive));
    match launch(&launch_args(None, true)) {
        LaunchRoute::PromptOnce(options) => assert_eq!(options.mode, ExecutionMode::DryRun),
        other => panic!("unexpected {other:?}"),
    }
    match launch(&launch_args(Some("a.json"), false)) {
        LaunchRoute::FromAnswers(options) => {
            assert_eq!(options.mode, ExecutionMode::Execute);
            assert_eq!(options.answers.as_deref(), Some("a.json"));
        }
        other => panic!("unexpected {other:?}"),
    }
    let validated = validate(&WizardValidateArgs {
        answers: "a.json".to_string(),
        frontend: "text".to_string(),
        locale: None,
        emit_answers: None,
        schema_version: None,
        migrate: false,
        out: None,
    });
    assert_eq!(validated.mode, ExecutionMode::DryRun);
    assert!(validated.yes && validated.non_interactive);
    assert!(!validated.unsafe_commands && !validated.allow_destructive);
    let applied = apply(&WizardApplyArgs {
        answers: "a.json".to_string(),
        frontend: "text".to_string(),
        locale: Some("de".to_string()),
        emit_answers: None,
        schema_version: None,
        migrate: false,
        out: None,
        yes: true,
        non_interactive: false,
        unsafe_commands: true,
        allow_destructive: false,
    });
    assert_eq!(applied.mode, ExecutionMode::Execute);
    assert!(applied.yes && applied.unsafe_commands);
    assert_eq!(applied.cli_locale.as_deref(), Some("de"));
}

#[test]
fn browser_front_end_apply_arguments_and_ids() {
    assert_eq!(
        greentic_dev::wizard::ui_apply_args("greentic-bundle", "nl", "/tmp/a.json"),
        vec!["--locale", "nl", "wizard", "apply", "--answers", "/tmp/a.json"]
    );
    assert_eq!(
        greentic_dev::wizard::ui_apply_args("greentic-pack", "nl", "/tmp/a.json"),
        vec!["wizard", "apply", "--answers", "/tmp/a.json"]
    );
    assert_eq!(
        greentic_dev::wizard::ui_answer_ids("pack"),
        ("greentic-pack.wizard.run", "greentic-pack.wizard.answers")
    );
    assert_eq!(
        greentic_dev::wizard::ui_answer_ids("bundle"),
        ("greentic-bundle.wizard.run", "greentic-bundle.wizard.answers")
    );
    assert_eq!(greentic_dev::wizard::ui_answer_ids("flow"), ("unknown", "unknown"));
}

// The confirmation decisions of the wizard: the prompt and its reply are the
// caller's terminal I/O, so each reply is fed to `confirmation_answer`.
#[test]
fn yes_flag_bypasses_confirmation() {
    assert_eq!(confirmation_step(true, false, true), Ok(ConfirmStep::Proceed));
}

#[test]
fn non_interactive_mode_allows_execution_without_tty() {
    assert_eq!(confirmation_step(false, true, false), Ok(ConfirmStep::Proceed));
}

#[test]
fn non_interactive_without_opt_in_is_rejected() {
    let err = confirmation_step(false, false, false).unwrap_err();
    assert_eq!(err, WizardError::NonInteractive);
    assert!(err.message().contains("non_interactive"));
}

#[test]
fn interactive_decline_is_rejected() {
    assert_eq!(confirmation_step(false, false, true), Ok(ConfirmStep::Prompt));
    let err = confirmation_answer("n\n").unwrap_err();
    assert!(err.message().contains("canceled"));
}

#[test]
fn interactive_accept_is_allowed() {
    assert_eq!(confirmation_step(false, false, true), Ok(ConfirmStep::Prompt));
    confirmation_answer("yes\n").unwrap();
}

#[test]
fn delegated_answers_are_applied_by_the_delegate() {
    let mut req = request(Some("bundle"), false);
    req.delegated_answers_path = Some("out/delegated-answers.json".to_string());
    let plan = ShellWizardProvider.build_plan(&req).expect("build plan");
    match plan.steps.last().expect("run step") {
        WizardStep::RunCommand(cmd) => {
            assert_eq!(cmd.program, "greentic-bundle");
            assert_eq!(cmd.args, vec!["wizard", "apply", "--answers", "out/delegated-answers.json"]);
        }
        other => panic!("expected RunCommand step, got {other:?}"),
    }
    req.dry_run = true;
    let plan = ShellWizardProvider.build_plan(&req).expect("build plan");
    match plan.steps.last().expect("run step") {
        WizardStep::RunCommand(cmd) => {
            assert_eq!(cmd.args, vec!["wizard", "apply", "--answers", "out/delegated-answers.json", "--dry-run"]);
        }
        other => panic!("expected RunCommand step, got {other:?}"),
    }
}
