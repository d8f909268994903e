use greentic_dev::binstall::{
    binstall_action, binstall_failure_line, program_version_line, crate_install_plan, external_install_steps,
    external_tool_note, parse_installed_binstall_version, parse_latest_binstall_version,
    split_words, toolchain_install_result, BinstallAction, BinstallVersionError,
    CrateInstallPlan,
};
use greentic_dev::passthrough::{resolve_external_tool, PassthroughError, ToolchainChannel};
use greentic_dev::release::{PackageSpec, ResearchVersion};
use greentic_dev::semver::{parse_version, version_text};

fn spec(crate_name: &str, bins: &[&str]) -> PackageSpec {
    PackageSpec { crate_name: crate_name.to_string(), bins: bins.iter().map(|b| b.to_string()).collect() }
}

#[test]
fn parse_installed_binstall_version_line() {
    let parsed = parse_installed_binstall_version("cargo-binstall 1.15.7\n").expect("version should exist");
    assert_eq!(version_text(&parsed), "1.15.7");
}

#[test]
fn parse_latest_binstall_version_line() {
    let parsed = parse_latest_binstall_version(
        "cargo-binstall = \"1.15.7\"    # Binary installation for rust projects\n",
    )
    .expect("parse should succeed");
    assert_eq!(version_text(&parsed), "1.15.7");
}

#[test]
fn installed_version_accepts_a_v_prefix_and_only_the_first_line() {
    let parsed = parse_installed_binstall_version("binstall v1.2.3 (abc)\ncargo-binstall 9.9.9\n").unwrap();
    assert_eq!(version_text(&parsed), "1.2.3");
    assert!(parse_installed_binstall_version("no version here\n1.0.0").is_none());
    assert!(parse_installed_binstall_version("").is_none());
}

#[test]
fn latest_version_errors() {
    assert_eq!(parse_latest_binstall_version("\n  \n").unwrap_err(), BinstallVersionError::NoResults);
    assert_eq!(
        parse_latest_binstall_version("\ncargo-binstall 1.0\n").unwrap_err(),
        BinstallVersionError::UnexpectedOutput("cargo-binstall 1.0".to_string())
    );
    assert_eq!(
        parse_latest_binstall_version("cargo-binstall = \"soon\"\r\n").unwrap_err(),
        BinstallVersionError::Unparseable("cargo-binstall = \"soon\"".to_string())
    );
}

#[test]
fn words_split_on_any_white_space() {
    assert_eq!(split_words("  a\tbb \u{3000}c  "), vec!["a", "bb", "c"]);
    assert!(split_words(" \n ").is_empty());
}

#[test]
fn binstall_itself_is_installed_updated_or_kept() {
    let old = parse_version("1.10.0").unwrap();
    let new = parse_version("1.15.7").unwrap();
    assert_eq!(binstall_action(None, Some(&new)), BinstallAction::Install);
    assert_eq!(binstall_action(Some(&old), Some(&new)), BinstallAction::Update);
    assert_eq!(binstall_action(Some(&new), Some(&new)), BinstallAction::Keep);
    assert_eq!(binstall_action(Some(&new), Some(&old)), BinstallAction::Keep);
    assert_eq!(binstall_action(Some(&old), None), BinstallAction::KeepUnchecked);
}

#[test]
fn dev_channel_installs_dev_binaries() {
    let plan = crate_install_plan(&spec("greentic-runner", &["greentic-runner"]), ToolchainChannel::Development, false, None);
    match plan {
        CrateInstallPlan::Install { crate_name, steps } => {
            assert_eq!(crate_name, "greentic-runner-dev");
            assert_eq!(steps.len(), 1);
            assert_eq!(steps[0].bin, "greentic-runner-dev");
            assert_eq!(
                steps[0].args,
                vec!["binstall", "-y", "--locked", "--maximum-resolution-timeout", "60", "greentic-runner-dev", "--bin", "greentic-runner-dev"]
            );
        }
        other => panic!("unexpected {other:?}"),
    }
}

#[test]
fn research_channel_pins_or_skips() {
    let pinned = ResearchVersion::Pinned("1.2.0-research.4".to_string());
    match crate_install_plan(&spec("greentic-start", &["greentic-start"]), ToolchainChannel::Rnd, true, Some(&pinned)) {
        CrateInstallPlan::Install { crate_name, steps } => {
            assert_eq!(crate_name, "greentic-start-rnd");
            assert_eq!(
                steps[0].args,
                vec!["binstall", "-y", "--locked", "--maximum-resolution-timeout", "60", "greentic-start-rnd", "--bin", "greentic-start-rnd", "--version", "1.2.0-research.4", "--force"]
            );
        }
        other => panic!("unexpected {other:?}"),
    }
    assert_eq!(
        crate_install_plan(&spec("greentic-operator", &["greentic-operator"]), ToolchainChannel::Rnd, false, Some(&ResearchVersion::Absent)),
        CrateInstallPlan::Skip {
            note: "note: `greentic-operator-rnd` has no research build on crates.io; skipping it on the research toolchain (use the stable channel for this tool)".to_string()
        }
    );
}

#[test]
fn external_tools_keep_plain_names() {
    let steps = external_install_steps(&spec("greentic-mcp-generator", &["greentic-mcp-gen"]), false);
    assert_eq!(steps[0].bin, "greentic-mcp-gen");
    assert_eq!(steps[0].args[5], "greentic-mcp-generator");
    assert_eq!(
        external_tool_note("greentic-mcp-gen", "greentic-mcp-generator", "exit 76"),
        "note: optional external tool `greentic-mcp-gen` (crate `greentic-mcp-generator`) is unavailable; skipping it: exit 76"
    );
}

#[test]
fn failed_required_binaries_are_named() {
    assert!(toolchain_install_result(&Vec::new()).is_ok());
    assert_eq!(
        toolchain_install_result(&vec!["greentic-setup-dev".to_string(), "greentic-start-dev".to_string()]),
        Err("could not install 2 required toolchain binaries: greentic-setup-dev, greentic-start-dev".to_string())
    );
    assert_eq!(
        binstall_failure_line("greentic-setup-dev", "greentic-setup-dev", "exit 1"),
        "error: `greentic-setup-dev` (crate `greentic-setup-dev`) could not be installed: exit 1"
    );
}

// Nothing on the search path and no override: the error names the plain name.
#[test]
fn resolve_external_tool_errors_with_plain_name_when_absent() {
    let err = resolve_external_tool("greentic-mcp-gen-absent-xyz", None, false, None)
        .expect_err("expected resolution to fail");
    assert_eq!(
        err,
        PassthroughError::BinaryNotFound {
            name: "greentic-mcp-gen-absent-xyz".to_string(),
            env_key: "GREENTIC_DEV_BIN_GREENTIC_MCP_GEN_ABSENT_XYZ".to_string(),
        }
    );
    assert_eq!(resolve_external_tool("x", Some("/opt/x"), true, None), Ok("/opt/x".to_string()));
    assert_eq!(resolve_external_tool("x", None, false, Some("/usr/bin/x")), Ok("/usr/bin/x".to_string()));
}

#[test]
fn program_version_is_the_first_non_blank_line() {

    assert_eq!(program_version_line("\n  greentic-pack 0.4.1  \nbuilt 2024\n"), Some("greentic-pack 0.4.1".to_string()));
    assert_eq!(program_version_line(" \n\t\n"), None);
    assert_eq!(program_version_line(""), None);
}
