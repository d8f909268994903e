//! Arguments of the subcommands whose logic lives in this library, as plain
//! values (paths as text). The command-line parser fills them in.
use vstd::prelude::*;

verus! {

#[derive(Clone, Debug)]
pub enum McpCommand {
    Doctor(McpDoctorArgs),
}

#[derive(Clone, Debug)]
pub struct McpDoctorArgs {
    pub provider: String,
    pub json: bool,
}

#[derive(Clone, Debug)]
pub enum ConfigCommand {
    /// `config set`.
    SetValue(ConfigSetArgs),
}

#[derive(Clone, Debug)]
pub enum ToolsCommand {
    Install(ToolsInstallArgs),
}

#[derive(Clone, Debug)]
pub enum InstallSubcommand {
    Tools(ToolsInstallArgs),
}

#[derive(Clone, Debug)]
pub struct InstallArgs {
    pub command: Option<InstallSubcommand>,
    pub tenant: Option<String>,
    pub token: Option<String>,
    pub bin_dir: Option<String>,
    pub docs_dir: Option<String>,
    pub locale: Option<String>,
}

#[derive(Clone, Copy, Debug)]
pub struct ToolsInstallArgs {
    pub latest: bool,
}

#[derive(Clone, Debug)]
pub struct ConfigSetArgs {
    pub key: String,
    pub value: String,
    pub file: Option<String>,
}

#[derive(Clone, Debug)]
pub struct CborArgs {
    pub path: String,
}

#[derive(Clone, Debug)]
pub struct WizardCommand {
    pub command: Option<WizardSubcommand>,
    pub launch: WizardLaunchArgs,
}

#[derive(Clone, Debug)]
pub enum WizardSubcommand {
    Validate(WizardValidateArgs),
    Apply(WizardApplyArgs),
}

#[derive(Clone, Debug)]
pub struct WizardLaunchArgs {
    /// A local path or an http(s) URL.
    pub answers: Option<String>,
    /// `json` unless given.
    pub frontend: String,
    pub locale: Option<String>,
    pub emit_answers: Option<String>,
    pub schema_version: Option<String>,
    pub migrate: bool,
    pub out: Option<String>,
    pub dry_run: bool,
    pub yes: bool,
    pub non_interactive: bool,
    pub unsafe_commands: bool,
    pub allow_destructive: bool,
}

#[derive(Clone, Debug)]
pub struct WizardValidateArgs {
    pub answers: String,
    pub frontend: String,
    pub locale: Option<String>,
    pub emit_answers: Option<String>,
    pub schema_version: Option<String>,
    pub migrate: bool,
    pub out: Option<String>,
}

#[derive(Clone, Debug)]
pub struct WizardApplyArgs {
    pub answers: String,
    pub frontend: String,
    pub locale: Option<String>,
    pub emit_answers: Option<String>,
    pub schema_version: Option<String>,
    pub migrate: bool,
    pub out: Option<String>,
    pub yes: bool,
    pub non_interactive: bool,
    pub unsafe_commands: bool,
    pub allow_destructive: bool,
}

} // verus!
