use greentic_dev::components::{stream_capture, StreamMode};
use greentic_dev::commands::{
    cargo_args_for_network, cli_locale_from_args, component_short_name, component_target, env_flag_is_true,
    external_subcommand, help_is_localized, help_subcommand_path, is_known_subcommand,
    pack_delegate, resolve_component_program, wants_help, ComponentTarget, DelegateError,
};

fn args(items: &[&str]) -> Vec<Option<String>> {
    items.iter().map(|s| Some(s.to_string())).collect()
}

#[test]
fn built_in_subcommands_are_known() {
    for name in ["flow", "pack", "component", "config", "coverage", "mcp", "gui", "secrets", "tools", "install", "cbor", "wizard", "help"] {
        assert!(is_known_subcommand(name), "{name}");
    }
    assert!(!is_known_subcommand("deployer"));
    assert!(!is_known_subcommand("Flow"));
}

#[test]
fn unknown_subcommand_goes_to_prefixed_executable() {
    assert_eq!(external_subcommand(&args(&["deployer", "--x"])), Some("greentic-deployer".to_string()));
    assert_eq!(external_subcommand(&args(&["flow", "run"])), None);
    assert_eq!(external_subcommand(&args(&["--help"])), None);
    assert_eq!(external_subcommand(&[None].to_vec()), None);
    assert_eq!(external_subcommand(&Vec::new()), None);
}

#[test]
fn help_is_detected_anywhere() {
    assert!(wants_help(&args(&["wizard", "--help"])));
    assert!(wants_help(&args(&["-h"])));
    assert!(!wants_help(&args(&["wizard", "--helpme"])));
    assert!(!wants_help(&Vec::new()));
}

#[test]
fn help_path_skips_options_and_locale_value() {
    assert_eq!(
        help_subcommand_path(&args(&["--locale", "nl", "install", "tools", "--latest", "--help", "extra"])),
        vec!["install".to_string(), "tools".to_string()]
    );
    assert_eq!(
        help_subcommand_path(&args(&["--locale=nl", "wizard", "-h"])),
        vec!["wizard".to_string()]
    );
    let mut with_gap = args(&["config"]);
    with_gap.push(None);
    with_gap.push(Some("set".to_string()));
    assert_eq!(help_subcommand_path(&with_gap), vec!["config".to_string(), "set".to_string()]);
}

#[test]
fn passthrough_help_is_left_to_the_tool() {
    assert!(!help_is_localized(Some("flow")));
    assert!(!help_is_localized(Some("gui")));
    assert!(help_is_localized(Some("wizard")));
    assert!(help_is_localized(None));
}

#[test]
fn pack_run_goes_to_runner() {
    assert_eq!(pack_delegate(&args(&["run", "x.gtpack"])), ("greentic-runner-cli", 1));
    assert_eq!(pack_delegate(&args(&["build"])), ("greentic-pack", 0));
    assert_eq!(pack_delegate(&Vec::new()), ("greentic-pack", 0));
}

#[test]
fn env_flags_accept_one_and_true() {
    assert!(env_flag_is_true(Some("1")));
    assert!(env_flag_is_true(Some("TRUE")));
    assert!(env_flag_is_true(Some("True")));
    assert!(!env_flag_is_true(Some("yes")));
    assert!(!env_flag_is_true(Some("0")));
    assert!(!env_flag_is_true(None));
}

#[test]
fn cargo_locks_unless_offline() {
    assert_eq!(cargo_args_for_network(false), vec!["--locked"]);
    assert!(cargo_args_for_network(true).is_empty());
}

#[test]
fn short_name_is_after_last_separator() {
    assert_eq!(component_short_name("ai.greentic.echo"), Some("echo".to_string()));
    assert_eq!(component_short_name("repo:tool"), Some("tool".to_string()));
    assert_eq!(component_short_name("plain"), Some("plain".to_string()));
    assert_eq!(component_short_name("trailing."), None);
    assert_eq!(component_short_name(""), None);
}

#[test]
fn component_target_prefers_existing_paths() {
    assert_eq!(
        component_target("ai.echo", None, false, None, false),
        ComponentTarget::Direct("ai.echo".to_string())
    );
    assert_eq!(
        component_target("ai.echo", Some("components"), true, Some("components/echo"), true),
        ComponentTarget::Path("components/ai.echo".to_string())
    );
    assert_eq!(
        component_target("ai.echo", Some("components"), false, Some("components/echo"), true),
        ComponentTarget::Path("components/echo".to_string())
    );
    assert_eq!(
        component_target("ai.echo", Some("components"), false, Some("components/echo"), false),
        ComponentTarget::Path("components/ai.echo".to_string())
    );
}

#[test]
fn component_program_resolution() {
    assert_eq!(resolve_component_program(Some("/opt/gc"), true, Some("/usr/bin/gc")), Ok("/opt/gc".to_string()));
    assert_eq!(
        resolve_component_program(Some("/opt/gc"), false, Some("/usr/bin/gc")),
        Err(DelegateError::ConfiguredMissing("/opt/gc".to_string()))
    );
    assert_eq!(resolve_component_program(None, false, Some("/usr/bin/gc")), Ok("/usr/bin/gc".to_string()));
    assert_eq!(resolve_component_program(None, false, None), Err(DelegateError::NotFound));
}

#[test]
fn resolve_program_uses_existing_configured_path() {
    assert_eq!(
        resolve_component_program(Some("/tmp/x/greentic-component"), true, None),
        Ok("/tmp/x/greentic-component".to_string())
    );
}

#[test]
fn resolve_program_rejects_missing_configured_path() {
    let err = resolve_component_program(Some("/tmp/x/missing-component"), false, None)
        .err()
        .expect("expected missing path");
    assert_eq!(err, DelegateError::ConfiguredMissing("/tmp/x/missing-component".to_string()));
}

#[test]
fn ensure_success_accepts_successful_status() {
    greentic_dev::commands::delegate_outcome("greentic-component", "doctor", true, Some(0)).unwrap();
}

#[test]
fn ensure_success_reports_failure_code() {
    let err = greentic_dev::commands::delegate_outcome("greentic-component", "doctor", false, Some(7)).unwrap_err();
    assert!(err.contains("exit code 7"));
    assert_eq!(err, "`greentic-component` doctor failed with exit code 7");
    assert_eq!(
        greentic_dev::commands::delegate_outcome("p", "x", false, Some(-2)).unwrap_err(),
        "`p` x failed with exit code -2"
    );
    assert_eq!(
        greentic_dev::commands::delegate_outcome("p", "x", false, None).unwrap_err(),
        "`p` x failed with exit code 0"
    );
}

// Only the short-named entry exists under the components directory.
#[test]
fn component_target_falls_back_to_short_name() {
    let short = component_short_name("ai.greentic.hello-world").unwrap();
    assert_eq!(short, "hello-world");
    let short_path = format!("/tmp/components/{short}");
    let target = component_target("ai.greentic.hello-world", Some("/tmp/components"), false, Some(&short_path), true);
    match target {
        ComponentTarget::Path(path) => assert_eq!(path, "/tmp/components/hello-world"),
        _ => panic!("expected path target"),
    }
}

#[test]
fn mixed_modes_are_rejected() {
    let err = stream_capture(StreamMode::Capture, StreamMode::Inherit).err().expect("expected mixed-mode failure");
    assert!(err.contains("mixed capture/inherit mode"));
    assert_eq!(stream_capture(StreamMode::Capture, StreamMode::Capture), Ok(true));
    assert_eq!(stream_capture(StreamMode::Inherit, StreamMode::Inherit), Ok(false));
}

#[test]
fn locale_is_read_from_the_command_line() {

    assert_eq!(cli_locale_from_args(&args(&["wizard", "--locale", "nl", "--locale", "de"])), Some("nl".to_string()));
    assert_eq!(cli_locale_from_args(&args(&["--locale=fr", "install"])), Some("fr".to_string()));
    assert_eq!(cli_locale_from_args(&args(&["install", "--locale"])), None);
    assert_eq!(cli_locale_from_args(&args(&["install"])), None);
}

#[test]
fn every_subcommand_and_argument_has_a_help_key() {
    let texts = greentic_dev::help_keys::help_texts();
    assert_eq!(texts.len(), 63);
    assert_eq!(texts[0], ("flow", None, "cli.command.flow.about"));
    assert!(texts.contains(&("install tools", Some("latest"), "cli.command.tools.install.latest")));
    assert!(texts.contains(&("wizard apply", Some("allow_destructive"), "cli.command.wizard.allow_destructive")));
    assert!(texts.contains(&("secrets init", Some("passthrough"), "cli.command.secrets.init.passthrough")));
    let wizard_validate = texts.iter().filter(|(path, _, _)| *path == "wizard validate").count();
    assert_eq!(wizard_validate, 8);
}
