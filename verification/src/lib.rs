//! Decision logic of the Greentic developer CLI: toolchain channels and
//! delegated binary names, configuration merging, message catalogues, the
//! launcher wizard plan, toolchain release manifests and tenant installs.
pub mod text;
pub mod ordered;
pub mod strmap;
pub mod passthrough;
pub mod semver;
pub mod release;
pub mod release_gate;
pub mod crates_io;
pub mod dev_release;
pub mod wizard;
pub mod config;
pub mod i18n;
pub mod cli;
pub mod components;
pub mod install;
pub mod messages;
pub mod commands;
pub mod tenant;
pub mod component_check;
pub mod answers;
pub mod release_flow;
pub mod binstall;
pub mod wizard_form;
pub mod wizard_run;
pub mod component_scaffold;
pub mod component_resolve;
pub mod flow_schema;
pub mod help_keys;
pub mod bundle;
