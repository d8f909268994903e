//! The questions the browser front end of the launcher wizard asks: the form
//! steps of the pack and bundle wizards, the launcher's options, and the
//! program a finished form is handed to.
use vstd::prelude::*;

use crate::commands::opt_text;
use crate::i18n::{t, translated, Catalogs};
use crate::text::{concat, owned, str_eq};

verus! {

/// How a field is answered.
#[derive(Clone, Copy, Debug, PartialEq, Eq, Structural)]
pub enum FieldKind {
    Text,
    Select,
    Boolean,
}

/// One entry of a select field.
#[derive(Clone, Debug)]
pub struct Choice {
    pub value: String,
    pub label: String,
}

/// A field shown only when another field has a given value.
#[derive(Clone, Debug)]
pub struct FieldDependency {
    pub field: String,
    pub value: String,
}

/// One question of a form step.
#[derive(Clone, Debug)]
pub struct FormField {
    pub id: String,
    pub label: String,
    pub kind: FieldKind,
    pub required: bool,
    pub default_value: Option<String>,
    pub placeholder: Option<String>,
    pub choices: Vec<Choice>,
    pub depends_on: Option<FieldDependency>,
}

/// One page of a wizard form.
#[derive(Clone, Debug)]
pub struct FormStep {
    pub id: String,
    pub title: String,
    pub description: String,
    pub fields: Vec<FormField>,
}

/// `f` has these texts, kind, requiredness, default and placeholder.
pub open spec fn field_is(
    f: FormField,
    id: Seq<char>,
    label: Seq<char>,
    kind: FieldKind,
    required: bool,
    default_value: Option<Seq<char>>,
    placeholder: Option<Seq<char>>,
) -> bool {
    &&& f.id@ == id
    &&& f.label@ == label
    &&& f.kind == kind
    &&& f.required == required
    &&& opt_text(f.default_value) == default_value
    &&& opt_text(f.placeholder) == placeholder
}

/// `f` offers no choices and is always shown.
pub open spec fn plain(f: FormField) -> bool {
    f.choices@.len() == 0 && f.depends_on is None
}

/// `f` is shown only when field `field` has value `value`.
pub open spec fn shown_when(f: FormField, field: Seq<char>, value: Seq<char>) -> bool {
    match f.depends_on {
        Some(d) => d.field@ == field && d.value@ == value,
        None => false,
    }
}

/// `s` has these texts and `n` fields.
pub open spec fn step_is(s: FormStep, id: Seq<char>, title: Seq<char>, description: Seq<char>, n: nat) -> bool {
    &&& s.id@ == id
    &&& s.title@ == title
    &&& s.description@ == description
    &&& s.fields@.len() == n
}

/// The pack wizard's form: the pack's id and directory, then whether to
/// run doctor and build and whether (and with which key) to sign.
pub open spec fn pack_form(r: Seq<FormStep>) -> bool {
    &&& r.len() == 2
    &&& step_is(
        r[0],
        "pack_basics"@,
        "Create Application Pack"@,
        "Set up a new application pack with flows and components."@,
        2,
    )
    &&& field_is(r[0].fields@[0], "create_pack_id"@, "Pack ID"@, FieldKind::Text, true, None, Some("my-app-pack"@))
    &&& plain(r[0].fields@[0])
    &&& field_is(r[0].fields@[1], "pack_dir"@, "Pack Directory"@, FieldKind::Text, true, Some("./"@), Some("./my-app-pack"@))
    &&& plain(r[0].fields@[1])
    &&& step_is(
        r[1],
        "pack_options"@,
        "Build Options"@,
        "Select which steps to run after creating the pack."@,
        4,
    )
    &&& field_is(r[1].fields@[0], "run_doctor"@, "Run doctor (validate pack)"@, FieldKind::Boolean, false, Some("true"@), None)
    &&& plain(r[1].fields@[0])
    &&& field_is(r[1].fields@[1], "run_build"@, "Run build (compile pack)"@, FieldKind::Boolean, false, Some("true"@), None)
    &&& plain(r[1].fields@[1])
    &&& field_is(r[1].fields@[2], "sign"@, "Sign package"@, FieldKind::Boolean, false, Some("false"@), None)
    &&& plain(r[1].fields@[2])
    &&& field_is(r[1].fields@[3], "sign_key_path"@, "Signing key path"@, FieldKind::Text, false, None, Some("./signing.key"@))
    &&& r[1].fields@[3].choices@.len() == 0
    &&& shown_when(r[1].fields@[3], "sign"@, "true"@)
}

/// The bundle wizard's form: the bundle's name, id and output directory,
/// one application pack and its scope, and the bundle assets switch.
pub open spec fn bundle_form(r: Seq<FormStep>) -> bool {
    &&& r.len() == 3
    &&& step_is(r[0], "bundle_basics"@, "Create Bundle"@, "Set up a new production bundle workspace."@, 3)
    &&& field_is(r[0].fields@[0], "bundle_name"@, "Bundle Name"@, FieldKind::Text, true, None, Some("My Production Bundle"@))
    &&& plain(r[0].fields@[0])
    &&& field_is(r[0].fields@[1], "bundle_id"@, "Bundle ID"@, FieldKind::Text, true, None, Some("my-bundle"@))
    &&& plain(r[0].fields@[1])
    &&& field_is(r[0].fields@[2], "output_dir"@, "Output Directory"@, FieldKind::Text, true, None, Some("~/.greentic/bundles/my-bundle/"@))
    &&& plain(r[0].fields@[2])
    &&& step_is(
        r[1],
        "bundle_packs"@,
        "Application Packs"@,
        "Add application packs to include in this bundle."@,
        2,
    )
    &&& field_is(r[1].fields@[0], "app_pack_reference"@, "App Pack Reference"@, FieldKind::Text, true, None, Some("oci://ghcr.io/greenticai/my-pack:latest"@))
    &&& plain(r[1].fields@[0])
    &&& field_is(r[1].fields@[1], "app_pack_scope"@, "Scope"@, FieldKind::Select, true, Some("global"@), None)
    &&& r[1].fields@[1].depends_on is None
    &&& r[1].fields@[1].choices@.len() == 3
    &&& r[1].fields@[1].choices@[0].value@ == "global"@ && r[1].fields@[1].choices@[0].label@ == "Global"@
    &&& r[1].fields@[1].choices@[1].value@ == "tenant"@ && r[1].fields@[1].choices@[1].label@ == "Tenant"@
    &&& r[1].fields@[1].choices@[2].value@ == "tenant_team"@ && r[1].fields@[1].choices@[2].label@ == "Tenant + Team"@
    &&& step_is(r[2], "bundle_options"@, "Bundle Options"@, "Configure additional bundle settings."@, 1)
    &&& field_is(r[2].fields@[0], "enable_bundle_assets"@, "Enable bundle assets capability"@, FieldKind::Boolean, false, Some("false"@), None)
    &&& plain(r[2].fields@[0])
}

fn opt_owned(o: Option<&str>) -> (r: Option<String>)
    ensures
        opt_text(r) == (match o {
            Some(s) => Some(s@),
            None => None::<Seq<char>>,
        }),
{
    match o {
        Some(s) => Some(owned(s)),
        None => None,
    }
}

fn field(
    id: &str,
    label: &str,
    kind: FieldKind,
    required: bool,
    default_value: Option<&str>,
    placeholder: Option<&str>,
) -> (r: FormField)
    ensures
        field_is(
            r,
            id@,
            label@,
            kind,
            required,
            match default_value {
                Some(s) => Some(s@),
                None => None,
            },
            match placeholder {
                Some(s) => Some(s@),
                None => None,
            },
        ),
        plain(r),
{
    FormField {
        id: owned(id),
        label: owned(label),
        kind,
        required,
        default_value: opt_owned(default_value),
        placeholder: opt_owned(placeholder),
        choices: Vec::new(),
        depends_on: None,
    }
}

fn step(id: &str, title: &str, description: &str, fields: Vec<FormField>) -> (r: FormStep)
    ensures
        step_is(r, id@, title@, description@, fields@.len()),
        r.fields@ == fields@,
{
    FormStep { id: owned(id), title: owned(title), description: owned(description), fields }
}

fn choice(value: &str, label: &str) -> (r: Choice)
    ensures
        r.value@ == value@,
        r.label@ == label@,
{
    Choice { value: owned(value), label: owned(label) }
}

pub fn pack_create_steps() -> (r: Vec<FormStep>)
    ensures
        pack_form(r@),
{
    let mut basics: Vec<FormField> = Vec::new();
    basics.push(field("create_pack_id", "Pack ID", FieldKind::Text, true, None, Some("my-app-pack")));
    basics.push(field("pack_dir", "Pack Directory", FieldKind::Text, true, Some("./"), Some("./my-app-pack")));
    let mut options: Vec<FormField> = Vec::new();
    options.push(field("run_doctor", "Run doctor (validate pack)", FieldKind::Boolean, false, Some("true"), None));
    options.push(field("run_build", "Run build (compile pack)", FieldKind::Boolean, false, Some("true"), None));
    options.push(field("sign", "Sign package", FieldKind::Boolean, false, Some("false"), None));
    let mut key = field("sign_key_path", "Signing key path", FieldKind::Text, false, None, Some("./signing.key"));
    key.depends_on = Some(FieldDependency { field: owned("sign"), value: owned("true") });
    options.push(key);
    let mut out: Vec<FormStep> = Vec::new();
    out.push(step(
        "pack_basics",
        "Create Application Pack",
        "Set up a new application pack with flows and components.",
        basics,
    ));
    out.push(step(
        "pack_options",
        "Build Options",
        "Select which steps to run after creating the pack.",
        options,
    ));
    out
}

pub fn bundle_create_steps() -> (r: Vec<FormStep>)
    ensures
        bundle_form(r@),
{
    let mut basics: Vec<FormField> = Vec::new();
    basics.push(field("bundle_name", "Bundle Name", FieldKind::Text, true, None, Some("My Production Bundle")));
    basics.push(field("bundle_id", "Bundle ID", FieldKind::Text, true, None, Some("my-bundle")));
    basics.push(field("output_dir", "Output Directory", FieldKind::Text, true, None, Some("~/.greentic/bundles/my-bundle/")));
    let mut packs: Vec<FormField> = Vec::new();
    packs.push(field(
        "app_pack_reference",
        "App Pack Reference",
        FieldKind::Text,
        true,
        None,
        Some("oci://ghcr.io/greenticai/my-pack:latest"),
    ));
    let mut scope = field("app_pack_scope", "Scope", FieldKind::Select, true, Some("global"), None);
    scope.choices.push(choice("global", "Global"));
    scope.choices.push(choice("tenant", "Tenant"));
    scope.choices.push(choice("tenant_team", "Tenant + Team"));
    packs.push(scope);
    let mut options: Vec<FormField> = Vec::new();
    options.push(field(
        "enable_bundle_assets",
        "Enable bundle assets capability",
        FieldKind::Boolean,
        false,
        Some("false"),
        None,
    ));
    let mut out: Vec<FormStep> = Vec::new();
    out.push(step("bundle_basics", "Create Bundle", "Set up a new production bundle workspace.", basics));
    out.push(step(
        "bundle_packs",
        "Application Packs",
        "Add application packs to include in this bundle.",
        packs,
    ));
    out.push(step("bundle_options", "Bundle Options", "Configure additional bundle settings.", options));
    out
}

/// The form of a wizard type: the pack or bundle form, no steps for any
/// other type.
pub fn steps_for(wizard_type: &str) -> (r: Vec<FormStep>)
    ensures
        wizard_type@ == "pack"@ ==> pack_form(r@),
        wizard_type@ == "bundle"@ ==> bundle_form(r@),
        wizard_type@ != "pack"@ && wizard_type@ != "bundle"@ ==> r@.len() == 0,
{
    proof {
        reveal_strlit("pack");
        reveal_strlit("bundle");
        assert("pack"@[0] != "bundle"@[0]);
    }
    if str_eq(wizard_type, "pack") {
        pack_create_steps()
    } else if str_eq(wizard_type, "bundle") {
        bundle_create_steps()
    } else {
        Vec::new()
    }
}

/// One entry of the launcher: the action it selects and its label.
#[derive(Clone, Debug)]
pub struct LauncherOption {
    pub value: String,
    pub label: String,
}

/// What the launcher page shows.
#[derive(Clone, Debug)]
pub struct LauncherOptions {
    pub title: String,
    pub options: Vec<LauncherOption>,
    pub locale: String,
}

/// The launcher page in `locale`: its title, then the pack and bundle
/// wizards, each labelled from the catalogues.
pub fn launcher_options(catalogs: &Catalogs, locale: &str) -> (r: LauncherOptions)
    ensures
        r.title@ == translated(catalogs@, locale@, "cli.wizard.launcher.title"@),
        r.locale@ == locale@,
        r.options@.len() == 2,
        r.options@[0].value@ == "pack"@,
        r.options@[0].label@ == translated(catalogs@, locale@, "cli.wizard.launcher.option_pack"@),
        r.options@[1].value@ == "bundle"@,
        r.options@[1].label@ == translated(catalogs@, locale@, "cli.wizard.launcher.option_bundle"@),
{
    let mut options: Vec<LauncherOption> = Vec::new();
    options.push(LauncherOption {
        value: owned("pack"),
        label: t(catalogs, locale, "cli.wizard.launcher.option_pack"),
    });
    options.push(LauncherOption {
        value: owned("bundle"),
        label: t(catalogs, locale, "cli.wizard.launcher.option_bundle"),
    });
    LauncherOptions {
        title: t(catalogs, locale, "cli.wizard.launcher.title"),
        options,
        locale: owned(locale),
    }
}

/// The program a finished form of `wizard_type` is handed to, or the
/// message for a type that has none.
pub fn ui_program(wizard_type: &str) -> (r: Result<&'static str, String>)
    ensures
        wizard_type@ == "pack"@ ==> (r matches Ok(p) && p@ == "greentic-pack"@),
        wizard_type@ == "bundle"@ ==> (r matches Ok(p) && p@ == "greentic-bundle"@),
        wizard_type@ != "pack"@ && wizard_type@ != "bundle"@ ==> (r matches Err(m) && m@
            == "Unknown wizard type: "@ + wizard_type@),
{
    proof {
        reveal_strlit("pack");
        reveal_strlit("bundle");
        assert("pack"@[0] != "bundle"@[0]);
    }
    if str_eq(wizard_type, "pack") {
        Ok("greentic-pack")
    } else if str_eq(wizard_type, "bundle") {
        Ok("greentic-bundle")
    } else {
        Err(concat("Unknown wizard type: ", wizard_type))
    }
}

} // verus!
