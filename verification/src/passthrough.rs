//! Toolchain channels and the names of the binaries delegated to on each.
use vstd::prelude::*;

use crate::text::{
    ascii_upper, concat, concat3, ends_with, has_suffix, map_char, owned, replace_char, str_eq,
    strip_suffix,
};

verus! {

/// Which published lane of the Greentic toolchain is in use.
#[derive(Clone, Copy, Debug, PartialEq, Eq, Structural)]
pub enum ToolchainChannel {
    Stable,
    Development,
    Rnd,
}

/// The name without a trailing `.exe`.
pub open spec fn exe_stem(name: Seq<char>) -> Seq<char> {
    if has_suffix(name, ".exe"@) {
        name.subrange(0, name.len() - 4)
    } else {
        name
    }
}

/// The channel an executable's file name selects.
pub open spec fn channel_of_executable(name: Seq<char>) -> ToolchainChannel {
    let stem = exe_stem(name);
    if stem == "greentic-dev-dev"@ {
        ToolchainChannel::Development
    } else if stem == "greentic-dev-rnd"@ {
        ToolchainChannel::Rnd
    } else {
        ToolchainChannel::Stable
    }
}

/// `name` carrying the `-<suffix>` channel suffix exactly once.
pub open spec fn suffixed_name(name: Seq<char>, suffix: Seq<char>) -> Seq<char> {
    if name == "greentic-dev"@ {
        "greentic-dev-"@ + suffix
    } else if has_suffix(name, "-"@ + suffix) {
        name
    } else {
        name + "-"@ + suffix
    }
}

/// The short tag of a non-stable channel used as a name suffix.
pub open spec fn channel_suffix(channel: ToolchainChannel) -> Seq<char> {
    match channel {
        ToolchainChannel::Stable => Seq::empty(),
        ToolchainChannel::Development => "dev"@,
        ToolchainChannel::Rnd => "rnd"@,
    }
}

/// The binary `name` resolves to on `channel`.
pub open spec fn channel_binary_name(name: Seq<char>, channel: ToolchainChannel) -> Seq<char> {
    match channel {
        ToolchainChannel::Stable => name,
        _ => suffixed_name(name, channel_suffix(channel)),
    }
}

/// The environment variable that overrides the location of `name`.
pub open spec fn binary_env_key(name: Seq<char>) -> Seq<char> {
    "GREENTIC_DEV_BIN_"@ + upper_case(map_char(name, '-', '_'))
}

/// Unicode upper-casing as `str::to_uppercase` performs it.
pub uninterp spec fn upper_case(s: Seq<char>) -> Seq<char>;

/// True when every character is ASCII.
pub open spec fn all_ascii(s: Seq<char>) -> bool {
    forall|i: int| 0 <= i < s.len() ==> (s[i] as u32) < 128
}

/// `str::to_uppercase`. Its result is named `upper_case`; for ASCII input std
/// maps exactly `a..=z` to `A..=Z` and leaves every other character alone.
#[verifier::external_body]
fn to_uppercase(s: &str) -> (r: String)
    ensures
        r@ == upper_case(s@),
        all_ascii(s@) ==> r@ == ascii_upper(s@),
{
    s.to_uppercase()
}

impl ToolchainChannel {
    /// The channel selected by the name the CLI was invoked under.
    pub fn from_executable_name(name: &str) -> (c: Self)
        ensures
            c == channel_of_executable(name@),
    {
        let stem = match strip_suffix(name, ".exe") {
            Some(s) => s,
            None => owned(name),
        };
        proof {
            reveal_strlit(".exe");
        }
        if str_eq(stem.as_str(), "greentic-dev-dev") {
            ToolchainChannel::Development
        } else if str_eq(stem.as_str(), "greentic-dev-rnd") {
            ToolchainChannel::Rnd
        } else {
            ToolchainChannel::Stable
        }
    }
}

/// `name` with the `-<suffix>` channel suffix, added only when missing.
fn suffixed_binary_name(name: &str, suffix: &str) -> (r: String)
    ensures
        r@ == suffixed_name(name@, suffix@),
{
    if str_eq(name, "greentic-dev") {
        return concat("greentic-dev-", suffix);
    }
    let dashed = concat("-", suffix);
    if ends_with(name, dashed.as_str()) {
        owned(name)
    } else {
        concat3(name, "-", suffix)
    }
}

/// The binary to run for `name` on `channel`.
pub fn delegated_binary_name_for_channel(name: &str, channel: ToolchainChannel) -> (r: String)
    ensures
        r@ == channel_binary_name(name@, channel),
{
    match channel {
        ToolchainChannel::Stable => owned(name),
        ToolchainChannel::Development => suffixed_binary_name(name, "dev"),
        ToolchainChannel::Rnd => suffixed_binary_name(name, "rnd"),
    }
}

/// Environment-override key for a binary, e.g. `greentic-mcp-gen` becomes
/// `GREENTIC_DEV_BIN_GREENTIC_MCP_GEN`; never carries a channel suffix.
pub fn external_tool_env_key(name: &str) -> (r: String)
    ensures
        r@ == binary_env_key(name@),
{
    let replaced = replace_char(name, '-', '_');
    let upper = to_uppercase(replaced.as_str());
    concat("GREENTIC_DEV_BIN_", upper.as_str())
}

/// Environment-override key of the binary `name` resolves to on `channel`.
pub fn channel_binary_env_key(name: &str, channel: ToolchainChannel) -> (r: String)
    ensures
        r@ == binary_env_key(channel_binary_name(name@, channel)),
{
    let resolved = delegated_binary_name_for_channel(name, channel);
    external_tool_env_key(resolved.as_str())
}

/// The fixed leading arguments of every `cargo binstall` invocation.
pub open spec fn binstall_base(crate_name: Seq<char>, bin_name: Seq<char>) -> Seq<Seq<char>> {
    seq![
        "binstall"@,
        "-y"@,
        "--locked"@,
        "--maximum-resolution-timeout"@,
        "60"@,
        crate_name,
        "--bin"@,
        bin_name,
    ]
}

/// Arguments for `cargo binstall` of one binary.
pub open spec fn binstall_arg_list(
    crate_name: Seq<char>,
    bin_name: Seq<char>,
    force_latest: bool,
    version: Option<Seq<char>>,
) -> Seq<Seq<char>> {
    let pinned = match version {
        Some(v) => binstall_base(crate_name, bin_name) + seq!["--version"@, v],
        None => binstall_base(crate_name, bin_name),
    };
    if force_latest {
        pinned.push("--force"@)
    } else {
        pinned
    }
}

/// The `cargo` arguments installing `bin_name` from `crate_name`; a version
/// pins a prerelease that binstall would not otherwise select.
pub fn binstall_args(crate_name: &str, bin_name: &str, force_latest: bool, version: Option<&str>) -> (r: Vec<String>)
    ensures
        r.deep_view() == binstall_arg_list(crate_name@, bin_name@, force_latest, version.deep_view()),
{
    let mut args: Vec<String> = Vec::new();
    args.push("binstall".to_string());
    args.push("-y".to_string());
    args.push("--locked".to_string());
    args.push("--maximum-resolution-timeout".to_string());
    args.push("60".to_string());
    args.push(owned(crate_name));
    args.push("--bin".to_string());
    args.push(owned(bin_name));
    assert(args.deep_view() =~= binstall_base(crate_name@, bin_name@));
    if let Some(v) = version {
        args.push("--version".to_string());
        args.push(owned(v));
    }
    if force_latest {
        args.push("--force".to_string());
    }
    assert(args.deep_view() =~= binstall_arg_list(crate_name@, bin_name@, force_latest, version.deep_view()));
    args
}

/// Resolving a name that already carries the channel suffix changes nothing,
/// unless the first resolution produced the CLI's own stable name.
pub proof fn lemma_channel_name_idempotent(name: Seq<char>, channel: ToolchainChannel)
    requires
        channel_binary_name(name, channel) != "greentic-dev"@,
    ensures
        channel_binary_name(channel_binary_name(name, channel), channel)
            == channel_binary_name(name, channel),
{
    reveal_strlit("greentic-dev");
    reveal_strlit("greentic-dev-");
    reveal_strlit("-");
    reveal_strlit("dev");
    reveal_strlit("rnd");
    if channel != ToolchainChannel::Stable {
        let s = channel_suffix(channel);
        let once = suffixed_name(name, s);
        assert(has_suffix(once, "-"@ + s)) by {
            if name == "greentic-dev"@ {
                assert(once.subrange(once.len() - (1 + s.len()), once.len() as int) =~= "-"@ + s);
            } else if !has_suffix(name, "-"@ + s) {
                assert(once.subrange(once.len() - (1 + s.len()), once.len() as int) =~= "-"@ + s);
            }
        }
    }
}

/// The CLI invoked under the channel's own name of `greentic-dev` selects that channel.
pub proof fn lemma_channel_round_trip(channel: ToolchainChannel)
    ensures
        channel_of_executable(channel_binary_name("greentic-dev"@, channel)) == channel,
{
    reveal_strlit("greentic-dev");
    reveal_strlit("greentic-dev-");
    reveal_strlit("greentic-dev-dev");
    reveal_strlit("greentic-dev-rnd");
    reveal_strlit(".exe");
    reveal_strlit("dev");
    reveal_strlit("rnd");
    let n = channel_binary_name("greentic-dev"@, channel);
    match channel {
        ToolchainChannel::Stable => {
            assert(!has_suffix(n, ".exe"@)) by {
                assert(n.subrange(n.len() - 4, n.len() as int)[0] != ".exe"@[0]);
            }
            assert(n != "greentic-dev-dev"@);
            assert(n != "greentic-dev-rnd"@);
        },
        ToolchainChannel::Development => {
            assert(n =~= "greentic-dev-dev"@);
            assert(!has_suffix(n, ".exe"@)) by {
                assert(n.subrange(n.len() - 4, n.len() as int)[0] != ".exe"@[0]);
            }
        },
        ToolchainChannel::Rnd => {
            assert(n =~= "greentic-dev-rnd"@);
            assert(!has_suffix(n, ".exe"@)) by {
                assert(n.subrange(n.len() - 4, n.len() as int)[0] != ".exe"@[0]);
            }
            assert(n != "greentic-dev-dev"@) by {
                assert(n[15] != "greentic-dev-dev"@[15]);
            }
        },
    }
}

/// The channel the running executable selects; stable when its name is unknown.
pub fn current_toolchain_channel(executable_name: Option<&str>) -> (c: ToolchainChannel)
    ensures
        c == match executable_name {
            Some(n) => channel_of_executable(n@),
            None => ToolchainChannel::Stable,
        },
{
    match executable_name {
        Some(n) => ToolchainChannel::from_executable_name(n),
        None => ToolchainChannel::Stable,
    }
}

/// The binary to run for `name` on the channel the running executable's
/// name (`executable_name`) selects.
pub fn delegated_binary_name(name: &str, executable_name: Option<&str>) -> (r: String)
    ensures
        r@ == channel_binary_name(
            name@,
            match executable_name {
                Some(n) => channel_of_executable(n@),
                None => ToolchainChannel::Stable,
            },
        ),
{
    delegated_binary_name_for_channel(name, current_toolchain_channel(executable_name))
}

/// Why a delegated binary could not be found.
#[derive(Clone, Debug, PartialEq, Eq)]
pub enum PassthroughError {
    /// The override variable names a path that does not exist.
    EnvBinaryMissing { env_key: String, path: String },
    /// Neither an override nor the search path has the binary.
    BinaryNotFound { name: String, env_key: String },
}

/// Where the binary for `name` on `channel` is: the path its override
/// variable names (`env_value`, which must exist: `env_path_exists`), else
/// the one found on the search path (`on_path`).
pub fn resolve_binary(
    name: &str,
    channel: ToolchainChannel,
    env_value: Option<&str>,
    env_path_exists: bool,
    on_path: Option<&str>,
) -> (r: Result<String, PassthroughError>)
    ensures
        match (env_value, on_path) {
            (Some(p), _) => if env_path_exists {
                r matches Ok(found) && found@ == p@
            } else {
                r matches Err(PassthroughError::EnvBinaryMissing { env_key, path }) && env_key@
                    == binary_env_key(channel_binary_name(name@, channel)) && path@ == p@
            },
            (None, Some(p)) => r matches Ok(found) && found@ == p@,
            (None, None) => r matches Err(PassthroughError::BinaryNotFound { name: n, env_key }) && n@
                == channel_binary_name(name@, channel) && env_key@ == binary_env_key(
                channel_binary_name(name@, channel),
            ),
        },
{
    let resolved = delegated_binary_name_for_channel(name, channel);
    let env_key = external_tool_env_key(resolved.as_str());
    if let Some(p) = env_value {
        if env_path_exists {
            return Ok(owned(p));
        }
        return Err(PassthroughError::EnvBinaryMissing { env_key, path: owned(p) });
    }
    if let Some(p) = on_path {
        return Ok(owned(p));
    }
    Err(PassthroughError::BinaryNotFound { name: resolved, env_key })
}

/// Where an external tool is: by its plain name, never the channel's, the
/// path its override variable names (`env_value`, which must exist:
/// `env_path_exists`), else the one found on the search path (`on_path`).
pub fn resolve_external_tool(
    name: &str,
    env_value: Option<&str>,
    env_path_exists: bool,
    on_path: Option<&str>,
) -> (r: Result<String, PassthroughError>)
    ensures
        match (env_value, on_path) {
            (Some(p), _) => if env_path_exists {
                r matches Ok(found) && found@ == p@
            } else {
                r matches Err(PassthroughError::EnvBinaryMissing { env_key, path }) && env_key@
                    == binary_env_key(name@) && path@ == p@
            },
            (None, Some(p)) => r matches Ok(found) && found@ == p@,
            (None, None) => r matches Err(PassthroughError::BinaryNotFound { name: n, env_key }) && n@
                == name@ && env_key@ == binary_env_key(name@),
        },
{
    let env_key = external_tool_env_key(name);
    if let Some(p) = env_value {
        if env_path_exists {
            return Ok(owned(p));
        }
        return Err(PassthroughError::EnvBinaryMissing { env_key, path: owned(p) });
    }
    if let Some(p) = on_path {
        return Ok(owned(p));
    }
    Err(PassthroughError::BinaryNotFound { name: owned(name), env_key })
}

} // verus!
