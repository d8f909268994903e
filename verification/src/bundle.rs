//! Bundles: which files of a bundle directory count as installed provider
//! packs, how a bundle's status reads, and the choices the bundle commands
//! make before handing a request to the setup engine.
use vstd::prelude::*;

use crate::text::{concat, concat3, decimal_text, has_prefix, has_suffix, owned, str_eq, strip_suffix, u64_text};
use crate::wizard::{join, join_spec};

verus! {

/// The provider domains a bundle keeps packs under, in the order they are listed.
pub open spec fn provider_domains_spec() -> Seq<Seq<char>> {
    seq!["messaging"@, "events"@, "oauth"@, "secrets"@, "mcp"@, "state"@, "other"@]
}

pub fn provider_domains() -> (r: Vec<&'static str>)
    ensures
        r.deep_view() == provider_domains_spec(),
{
    let mut out: Vec<&'static str> = Vec::new();
    out.push("messaging");
    out.push("events");
    out.push("oauth");
    out.push("secrets");
    out.push("mcp");
    out.push("state");
    out.push("other");
    assert(out.deep_view() =~= provider_domains_spec());
    out
}

/// The pack a file of a provider domain stands for: `<domain>/<stem>` for a
/// `<stem>.gtpack` file whose stem is not empty.
pub open spec fn pack_entry_spec(domain: Seq<char>, file_name: Seq<char>) -> Option<Seq<char>> {
    if has_suffix(file_name, ".gtpack"@) && file_name.len() > 7 {
        Some(domain + "/"@ + file_name.subrange(0, file_name.len() - 7))
    } else {
        None
    }
}

pub fn pack_entry(domain: &str, file_name: &str) -> (r: Option<String>)
    ensures
        match r {
            Some(p) => pack_entry_spec(domain@, file_name@) == Some(p@),
            None => pack_entry_spec(domain@, file_name@) is None,
        },
{
    proof {
        reveal_strlit(".gtpack");
    }
    match strip_suffix(file_name, ".gtpack") {
        Some(stem) => {
            if stem.unicode_len() == 0 {
                None
            } else {
                Some(concat3(domain, "/", stem.as_str()))
            }
        },
        None => None,
    }
}

/// What `bundle status` found.
#[derive(Clone, Debug, PartialEq, Eq)]
pub struct BundleStatus {
    pub path: String,
    /// The bundle has its `greentic.demo.yaml`.
    pub valid: bool,
    /// `<domain>/<pack>`, domain by domain.
    pub packs: Vec<String>,
    pub tenants: Vec<String>,
}

/// The text of `bundle status`.
pub open spec fn status_lines_spec(s: BundleStatus) -> Seq<Seq<char>> {
    seq![
        "Bundle: "@ + s.path@,
        "Valid: "@ + (if s.valid {
            "yes"@
        } else {
            "no (missing greentic.demo.yaml)"@
        }),
        "Packs: "@ + decimal_text(s.packs@.len()) + " installed"@,
    ] + Seq::new(s.packs@.len(), |i: int| "  - "@ + s.packs@[i]@) + seq![
        "Tenants: "@ + decimal_text(s.tenants@.len()),
    ] + Seq::new(s.tenants@.len(), |i: int| "  - "@ + s.tenants@[i]@)
}

fn item_lines(items: &Vec<String>) -> (r: Vec<String>)
    ensures
        r.deep_view() == Seq::new(items@.len(), |i: int| "  - "@ + items@[i]@),
{
    let mut out: Vec<String> = Vec::new();
    let mut i: usize = 0;
    while i < items.len()
        invariant
            i <= items@.len(),
            out.deep_view() =~= Seq::new(i as nat, |k: int| "  - "@ + items@[k]@),
        decreases items@.len() - i,
    {
        let ghost before = out.deep_view();
        let line = concat("  - ", items[i].as_str());
        out.push(line);
        assert(out.deep_view() =~= before.push("  - "@ + items@[i as int]@));
        i = i + 1;
    }
    out
}

pub fn status_lines(s: &BundleStatus) -> (r: Vec<String>)
    requires
        s.packs@.len() <= u64::MAX,
        s.tenants@.len() <= u64::MAX,
    ensures
        r.deep_view() == status_lines_spec(*s),
{
    let ghost spec_lines = status_lines_spec(*s);
    let mut out: Vec<String> = Vec::new();
    let l1 = concat("Bundle: ", s.path.as_str());
    let l2 = concat("Valid: ", if s.valid { "yes" } else { "no (missing greentic.demo.yaml)" });
    let packs = u64_text(s.packs.len() as u64);
    let l3 = concat3("Packs: ", packs.as_str(), " installed");
    out.push(l1);
    out.push(l2);
    out.push(l3);
    assert(out.deep_view() =~= seq![l1@, l2@, l3@]);
    let pack_lines = item_lines(&s.packs);
    let ghost head = out.deep_view();
    let mut i: usize = 0;
    while i < pack_lines.len()
        invariant
            i <= pack_lines@.len(),
            out.deep_view() =~= head + pack_lines.deep_view().take(i as int),
        decreases pack_lines@.len() - i,
    {
        let ghost before = out.deep_view();
        assert(pack_lines.deep_view().take(i + 1) =~= pack_lines.deep_view().take(i as int).push(pack_lines@[i as int]@));
        out.push(pack_lines[i].clone());
        assert(out.deep_view() =~= before.push(pack_lines@[i as int]@));
        i = i + 1;
    }
    assert(pack_lines.deep_view().take(pack_lines@.len() as int) =~= pack_lines.deep_view());
    let tenants = u64_text(s.tenants.len() as u64);
    let l4 = concat("Tenants: ", tenants.as_str());
    let ghost before_tenants = out.deep_view();
    out.push(l4);
    assert(out.deep_view() =~= before_tenants.push(l4@));
    let tenant_lines = item_lines(&s.tenants);
    let ghost mid = out.deep_view();
    let mut j: usize = 0;
    while j < tenant_lines.len()
        invariant
            j <= tenant_lines@.len(),
            out.deep_view() =~= mid + tenant_lines.deep_view().take(j as int),
        decreases tenant_lines@.len() - j,
    {
        let ghost before = out.deep_view();
        assert(tenant_lines.deep_view().take(j + 1) =~= tenant_lines.deep_view().take(j as int).push(tenant_lines@[j as int]@));
        out.push(tenant_lines[j].clone());
        assert(out.deep_view() =~= before.push(tenant_lines@[j as int]@));
        j = j + 1;
    }
    assert(tenant_lines.deep_view().take(tenant_lines@.len() as int) =~= tenant_lines.deep_view());
    assert(out.deep_view() =~= spec_lines);
    out
}

/// What `bundle status` prints for a directory that does not exist.
pub fn missing_bundle_text(path: &str, json: bool) -> (r: String)
    ensures
        r@ == (if json {
            "{\"exists\": false, \"path\": \""@ + path@ + "\"}"@
        } else {
            "Bundle not found: "@ + path@
        }),
{
    if json {
        concat3("{\"exists\": false, \"path\": \"", path, "\"}")
    } else {
        concat("Bundle not found: ", path)
    }
}

/// How a setup answers file is read.
#[derive(Clone, Copy, Debug, PartialEq, Eq, Structural)]
pub enum AnswersFormat {
    Yaml,
    Json,
}

/// Which command asks for setup answers.
#[derive(Clone, Copy, Debug, PartialEq, Eq, Structural)]
pub enum SetupCommand {
    Setup,
    Update,
}

/// The extension of a file name as `Path::extension` takes it: the text
/// after its last `.`, unless that `.` starts the name.
pub open spec fn extension_of(name: Seq<char>) -> Option<Seq<char>> {
    match crate::text::last_index_of(name, '.') {
        Some(i) => if i == 0 {
            None
        } else {
            Some(name.skip(i + 1))
        },
        None => None,
    }
}

/// The answers a setup or update reads: a `.yaml`/`.yml` file as YAML, any
/// other as JSON; without a file, the non-interactive and interactive
/// refusals.
pub fn answers_format(file_name: Option<&str>, non_interactive: bool, command: SetupCommand) -> (r: Result<
    AnswersFormat,
    &'static str,
>)
    ensures
        match file_name {
            Some(f) => r == Ok::<AnswersFormat, &'static str>(
                if extension_of(f@) == Some("yaml"@) || extension_of(f@) == Some("yml"@) {
                    AnswersFormat::Yaml
                } else {
                    AnswersFormat::Json
                },
            ),
            None => r matches Err(m) && m@ == (if non_interactive {
                "--answers required in non-interactive mode"@
            } else if command == SetupCommand::Setup {
                "interactive setup requires --answers file"@
            } else {
                "interactive update requires --answers file"@
            }),
        },
{
    match file_name {
        Some(f) => {
            let ext = extension(f);
            let yaml = match &ext {
                Some(e) => str_eq(e.as_str(), "yaml") || str_eq(e.as_str(), "yml"),
                None => false,
            };
            if yaml {
                Ok(AnswersFormat::Yaml)
            } else {
                Ok(AnswersFormat::Json)
            }
        },
        None => {
            if non_interactive {
                Err("--answers required in non-interactive mode")
            } else {
                match command {
                    SetupCommand::Setup => Err("interactive setup requires --answers file"),
                    SetupCommand::Update => Err("interactive update requires --answers file"),
                }
            }
        },
    }
}

fn extension(name: &str) -> (r: Option<String>)
    ensures
        match r {
            Some(e) => extension_of(name@) == Some(e@),
            None => extension_of(name@) is None,
        },
{
    proof {
        crate::text::lemma_last_index_in_range(name@, '.');
    }
    let n = name.unicode_len();
    match crate::text::rfind_char(name, '.') {
        Some(i) => {
            if i == 0 {
                None
            } else {
                Some(crate::text::slice_chars(name, i + 1, n))
            }
        },
        None => None,
    }
}

/// `bundle remove` goes ahead only with `--force`.
pub fn removal_confirmed(force: bool) -> (r: Result<(), &'static str>)
    ensures
        force ==> r is Ok,
        !force ==> (r matches Err(m) && m@ == "removal cancelled - use --force to confirm"@),
{
    if force {
        Ok(())
    } else {
        Err("removal cancelled - use --force to confirm")
    }
}

/// The team a bundle command reports: the one given, else `default`.
pub fn team_label(team: Option<&str>) -> (r: String)
    ensures
        r@ == (match team {
            Some(t) => t@,
            None => "default"@,
        }),
{
    match team {
        Some(t) => owned(t),
        None => owned("default"),
    }
}

} // verus!
