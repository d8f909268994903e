use greentic_dev::passthrough::{
    binstall_args, channel_binary_env_key, current_toolchain_channel, delegated_binary_name,
    delegated_binary_name_for_channel, external_tool_env_key, resolve_binary, PassthroughError,
    ToolchainChannel,
};

#[test]
fn binstall_args_include_force_only_when_latest_requested() {
    assert_eq!(
        binstall_args("greentic-runner", "greentic-runner", false, None),
        vec![
            "binstall",
            "-y",
            "--locked",
            "--maximum-resolution-timeout",
            "60",
            "greentic-runner",
            "--bin",
            "greentic-runner"
        ]
    );
    assert_eq!(
        binstall_args("greentic-runner", "greentic-runner", true, None),
        vec![
            "binstall",
            "-y",
            "--locked",
            "--maximum-resolution-timeout",
            "60",
            "greentic-runner",
            "--bin",
            "greentic-runner",
            "--force"
        ]
    );
}

#[test]
fn binstall_args_pin_version_for_rnd_prerelease() {
    assert_eq!(
        binstall_args(
            "greentic-start-rnd",
            "greentic-start-rnd",
            false,
            Some("1.2.0-research.1"),
        ),
        vec![
            "binstall",
            "-y",
            "--locked",
            "--maximum-resolution-timeout",
            "60",
            "greentic-start-rnd",
            "--bin",
            "greentic-start-rnd",
            "--version",
            "1.2.0-research.1",
        ]
    );
}

#[test]
fn executable_name_selects_toolchain_channel() {
    assert_eq!(
        ToolchainChannel::from_executable_name("greentic-dev"),
        ToolchainChannel::Stable
    );
    assert_eq!(
        ToolchainChannel::from_executable_name("greentic-dev-dev"),
        ToolchainChannel::Development
    );
    assert_eq!(
        ToolchainChannel::from_executable_name("greentic-dev-dev.exe"),
        ToolchainChannel::Development
    );
    assert_eq!(
        ToolchainChannel::from_executable_name("greentic-dev-rnd"),
        ToolchainChannel::Rnd
    );
    assert_eq!(
        ToolchainChannel::from_executable_name("greentic-dev-rnd.exe"),
        ToolchainChannel::Rnd
    );
}

#[test]
fn development_channel_uses_dev_binary_names() {
    assert_eq!(
        delegated_binary_name_for_channel("greentic-pack", ToolchainChannel::Development),
        "greentic-pack-dev"
    );
    assert_eq!(
        delegated_binary_name_for_channel("greentic-runner-cli", ToolchainChannel::Development),
        "greentic-runner-cli-dev"
    );
    assert_eq!(
        delegated_binary_name_for_channel("greentic-pack-dev", ToolchainChannel::Development),
        "greentic-pack-dev"
    );
}

#[test]
fn rnd_channel_uses_rnd_binary_names() {
    assert_eq!(
        delegated_binary_name_for_channel("greentic-pack", ToolchainChannel::Rnd),
        "greentic-pack-rnd"
    );
    assert_eq!(
        delegated_binary_name_for_channel("greentic-runner-cli", ToolchainChannel::Rnd),
        "greentic-runner-cli-rnd"
    );
    assert_eq!(
        delegated_binary_name_for_channel("greentic-pack-rnd", ToolchainChannel::Rnd),
        "greentic-pack-rnd"
    );
}

#[test]
fn external_tool_env_key_is_plain_uppercase_no_channel_suffix() {
    assert_eq!(
        external_tool_env_key("greentic-mcp-gen"),
        "GREENTIC_DEV_BIN_GREENTIC_MCP_GEN"
    );
}

#[test]
fn the_greentic_dev_binary_takes_the_channel_suffix_once() {
    assert_eq!(
        delegated_binary_name_for_channel("greentic-dev", ToolchainChannel::Rnd),
        "greentic-dev-rnd"
    );
    let once = delegated_binary_name_for_channel("greentic-flow", ToolchainChannel::Development);
    assert_eq!(
        delegated_binary_name_for_channel(&once, ToolchainChannel::Development),
        once
    );
    assert_eq!(
        delegated_binary_name_for_channel("greentic-flow", ToolchainChannel::Stable),
        "greentic-flow"
    );
}

#[test]
fn running_executable_selects_the_delegated_name() {
    assert_eq!(current_toolchain_channel(None), ToolchainChannel::Stable);
    assert_eq!(
        delegated_binary_name("greentic-pack", Some("greentic-dev-dev")),
        "greentic-pack-dev"
    );
    assert_eq!(delegated_binary_name("greentic-pack", None), "greentic-pack");
}

#[test]
fn channel_env_key_uses_the_resolved_name() {
    assert_eq!(
        channel_binary_env_key("greentic-pack", ToolchainChannel::Development),
        "GREENTIC_DEV_BIN_GREENTIC_PACK_DEV"
    );
}

#[test]
fn binary_resolution_prefers_the_override_then_the_search_path() {
    assert_eq!(
        resolve_binary("greentic-pack", ToolchainChannel::Stable, Some("/opt/p"), true, Some("/usr/bin/p")),
        Ok("/opt/p".to_string())
    );
    assert_eq!(
        resolve_binary("greentic-pack", ToolchainChannel::Stable, Some("/opt/p"), false, Some("/usr/bin/p")),
        Err(PassthroughError::EnvBinaryMissing {
            env_key: "GREENTIC_DEV_BIN_GREENTIC_PACK".to_string(),
            path: "/opt/p".to_string(),
        })
    );
    assert_eq!(
        resolve_binary("greentic-pack", ToolchainChannel::Rnd, None, false, None),
        Err(PassthroughError::BinaryNotFound {
            name: "greentic-pack-rnd".to_string(),
            env_key: "GREENTIC_DEV_BIN_GREENTIC_PACK_RND".to_string(),
        })
    );
}
