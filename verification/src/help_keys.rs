//! Which catalogue message is the help text of each subcommand and argument.
use vstd::prelude::*;

verus! {

/// The help texts, by subcommand path (names separated by a space),
/// argument (none for the subcommand's own description) and message key.
pub open spec fn help_table() -> Seq<(Seq<char>, Option<Seq<char>>, Seq<char>)> {
    seq![
        ("flow"@, None, "cli.command.flow.about"@),
        ("pack"@, None, "cli.command.pack.about"@),
        ("component"@, None, "cli.command.component.about"@),
        ("config"@, None, "cli.command.config.about"@),
        ("mcp"@, None, "cli.command.mcp.about"@),
        ("gui"@, None, "cli.command.gui.about"@),
        ("secrets"@, None, "cli.command.secrets.about"@),
        ("tools"@, None, "cli.command.tools.about"@),
        ("install"@, None, "cli.command.install.about"@),
        ("cbor"@, None, "cli.command.cbor.about"@),
        ("wizard"@, None, "cli.command.wizard.about"@),
        ("secrets init"@, None, "cli.command.secrets.init.about"@),
        ("secrets init"@, Some("pack"@), "cli.command.secrets.init.pack"@),
        ("secrets init"@, Some("passthrough"@), "cli.command.secrets.init.passthrough"@),
        ("config set"@, None, "cli.command.config.set.about"@),
        ("config set"@, Some("key"@), "cli.command.config.set.key"@),
        ("config set"@, Some("value"@), "cli.command.config.set.value"@),
        ("config set"@, Some("file"@), "cli.command.config.set.file"@),
        ("mcp doctor"@, None, "cli.command.mcp.doctor.about"@),
        ("mcp doctor"@, Some("provider"@), "cli.command.mcp.doctor.provider"@),
        ("mcp doctor"@, Some("json"@), "cli.command.mcp.doctor.json"@),
        ("tools install"@, None, "cli.command.tools.install.about"@),
        ("tools install"@, Some("latest"@), "cli.command.tools.install.latest"@),
        ("install tools"@, None, "cli.command.install.tools.about"@),
        ("install tools"@, Some("latest"@), "cli.command.tools.install.latest"@),
        ("install"@, Some("tenant"@), "cli.command.install.tenant"@),
        ("install"@, Some("token"@), "cli.command.install.token"@),
        ("install"@, Some("bin_dir"@), "cli.command.install.bin_dir"@),
        ("install"@, Some("docs_dir"@), "cli.command.install.docs_dir"@),
        ("install"@, Some("locale"@), "cli.command.install.locale"@),
        ("cbor"@, Some("path"@), "cli.command.cbor.path"@),
        ("wizard"@, Some("answers"@), "cli.command.wizard.answers"@),
        ("wizard"@, Some("frontend"@), "cli.command.wizard.frontend"@),
        ("wizard"@, Some("locale"@), "cli.command.wizard.locale"@),
        ("wizard"@, Some("emit_answers"@), "cli.command.wizard.emit_answers"@),
        ("wizard"@, Some("schema_version"@), "cli.command.wizard.schema_version"@),
        ("wizard"@, Some("migrate"@), "cli.command.wizard.migrate"@),
        ("wizard"@, Some("out"@), "cli.command.wizard.out"@),
        ("wizard"@, Some("dry_run"@), "cli.command.wizard.dry_run"@),
        ("wizard"@, Some("yes"@), "cli.command.wizard.yes"@),
        ("wizard"@, Some("non_interactive"@), "cli.command.wizard.non_interactive"@),
        ("wizard"@, Some("unsafe_commands"@), "cli.command.wizard.unsafe_commands"@),
        ("wizard"@, Some("allow_destructive"@), "cli.command.wizard.allow_destructive"@),
        ("wizard validate"@, None, "cli.command.wizard.validate.about"@),
        ("wizard validate"@, Some("answers"@), "cli.command.wizard.answers"@),
        ("wizard validate"@, Some("frontend"@), "cli.command.wizard.frontend"@),
        ("wizard validate"@, Some("locale"@), "cli.command.wizard.locale"@),
        ("wizard validate"@, Some("emit_answers"@), "cli.command.wizard.emit_answers"@),
        ("wizard validate"@, Some("schema_version"@), "cli.command.wizard.schema_version"@),
        ("wizard validate"@, Some("migrate"@), "cli.command.wizard.migrate"@),
        ("wizard validate"@, Some("out"@), "cli.command.wizard.out"@),
        ("wizard apply"@, None, "cli.command.wizard.apply.about"@),
        ("wizard apply"@, Some("answers"@), "cli.command.wizard.answers"@),
        ("wizard apply"@, Some("frontend"@), "cli.command.wizard.frontend"@),
        ("wizard apply"@, Some("locale"@), "cli.command.wizard.locale"@),
        ("wizard apply"@, Some("emit_answers"@), "cli.command.wizard.emit_answers"@),
        ("wizard apply"@, Some("schema_version"@), "cli.command.wizard.schema_version"@),
        ("wizard apply"@, Some("migrate"@), "cli.command.wizard.migrate"@),
        ("wizard apply"@, Some("out"@), "cli.command.wizard.out"@),
        ("wizard apply"@, Some("yes"@), "cli.command.wizard.yes"@),
        ("wizard apply"@, Some("non_interactive"@), "cli.command.wizard.non_interactive"@),
        ("wizard apply"@, Some("unsafe_commands"@), "cli.command.wizard.unsafe_commands"@),
        ("wizard apply"@, Some("allow_destructive"@), "cli.command.wizard.allow_destructive"@),
    ]
}

/// The help texts of the command line, in the order they are applied.
pub fn help_texts() -> (r: Vec<(&'static str, Option<&'static str>, &'static str)>)
    ensures
        r.deep_view() == help_table(),
{
    let mut out: Vec<(&'static str, Option<&'static str>, &'static str)> = Vec::new();
    out.push(("flow", None, "cli.command.flow.about"));
    out.push(("pack", None, "cli.command.pack.about"));
    out.push(("component", None, "cli.command.component.about"));
    out.push(("config", None, "cli.command.config.about"));
    out.push(("mcp", None, "cli.command.mcp.about"));
    out.push(("gui", None, "cli.command.gui.about"));
    out.push(("secrets", None, "cli.command.secrets.about"));
    out.push(("tools", None, "cli.command.tools.about"));
    out.push(("install", None, "cli.command.install.about"));
    out.push(("cbor", None, "cli.command.cbor.about"));
    out.push(("wizard", None, "cli.command.wizard.about"));
    out.push(("secrets init", None, "cli.command.secrets.init.about"));
    out.push(("secrets init", Some("pack"), "cli.command.secrets.init.pack"));
    out.push(("secrets init", Some("passthrough"), "cli.command.secrets.init.passthrough"));
    out.push(("config set", None, "cli.command.config.set.about"));
    out.push(("config set", Some("key"), "cli.command.config.set.key"));
    out.push(("config set", Some("value"), "cli.command.config.set.value"));
    out.push(("config set", Some("file"), "cli.command.config.set.file"));
    out.push(("mcp doctor", None, "cli.command.mcp.doctor.about"));
    out.push(("mcp doctor", Some("provider"), "cli.command.mcp.doctor.provider"));
    out.push(("mcp doctor", Some("json"), "cli.command.mcp.doctor.json"));
    out.push(("tools install", None, "cli.command.tools.install.about"));
    out.push(("tools install", Some("latest"), "cli.command.tools.install.latest"));
    out.push(("install tools", None, "cli.command.install.tools.about"));
    out.push(("install tools", Some("latest"), "cli.command.tools.install.latest"));
    out.push(("install", Some("tenant"), "cli.command.install.tenant"));
    out.push(("install", Some("token"), "cli.command.install.token"));
    out.push(("install", Some("bin_dir"), "cli.command.install.bin_dir"));
    out.push(("install", Some("docs_dir"), "cli.command.install.docs_dir"));
    out.push(("install", Some("locale"), "cli.command.install.locale"));
    out.push(("cbor", Some("path"), "cli.command.cbor.path"));
    out.push(("wizard", Some("answers"), "cli.command.wizard.answers"));
    out.push(("wizard", Some("frontend"), "cli.command.wizard.frontend"));
    out.push(("wizard", Some("locale"), "cli.command.wizard.locale"));
    out.push(("wizard", Some("emit_answers"), "cli.command.wizard.emit_answers"));
    out.push(("wizard", Some("schema_version"), "cli.command.wizard.schema_version"));
    out.push(("wizard", Some("migrate"), "cli.command.wizard.migrate"));
    out.push(("wizard", Some("out"), "cli.command.wizard.out"));
    out.push(("wizard", Some("dry_run"), "cli.command.wizard.dry_run"));
    out.push(("wizard", Some("yes"), "cli.command.wizard.yes"));
    out.push(("wizard", Some("non_interactive"), "cli.command.wizard.non_interactive"));
    out.push(("wizard", Some("unsafe_commands"), "cli.command.wizard.unsafe_commands"));
    out.push(("wizard", Some("allow_destructive"), "cli.command.wizard.allow_destructive"));
    out.push(("wizard validate", None, "cli.command.wizard.validate.about"));
    out.push(("wizard validate", Some("answers"), "cli.command.wizard.answers"));
    out.push(("wizard validate", Some("frontend"), "cli.command.wizard.frontend"));
    out.push(("wizard validate", Some("locale"), "cli.command.wizard.locale"));
    out.push(("wizard validate", Some("emit_answers"), "cli.command.wizard.emit_answers"));
    out.push(("wizard validate", Some("schema_version"), "cli.command.wizard.schema_version"));
    out.push(("wizard validate", Some("migrate"), "cli.command.wizard.migrate"));
    out.push(("wizard validate", Some("out"), "cli.command.wizard.out"));
    out.push(("wizard apply", None, "cli.command.wizard.apply.about"));
    out.push(("wizard apply", Some("answers"), "cli.command.wizard.answers"));
    out.push(("wizard apply", Some("frontend"), "cli.command.wizard.frontend"));
    out.push(("wizard apply", Some("locale"), "cli.command.wizard.locale"));
    out.push(("wizard apply", Some("emit_answers"), "cli.command.wizard.emit_answers"));
    out.push(("wizard apply", Some("schema_version"), "cli.command.wizard.schema_version"));
    out.push(("wizard apply", Some("migrate"), "cli.command.wizard.migrate"));
    out.push(("wizard apply", Some("out"), "cli.command.wizard.out"));
    out.push(("wizard apply", Some("yes"), "cli.command.wizard.yes"));
    out.push(("wizard apply", Some("non_interactive"), "cli.command.wizard.non_interactive"));
    out.push(("wizard apply", Some("unsafe_commands"), "cli.command.wizard.unsafe_commands"));
    out.push(("wizard apply", Some("allow_destructive"), "cli.command.wizard.allow_destructive"));
    assert(out.deep_view() =~= help_table());
    out
}

} // verus!
