//! Wizard answers: the top-level keys of an answers object, each bound to its
//! value written as JSON text, and how the sources of answers are layered.
use vstd::prelude::*;

use crate::strmap::{assoc_map, StrMap};
use crate::text::{concat, has_prefix};
use crate::wizard::{
    answer_schema_version, delegated_selected_action, is_launcher_answer_document, launcher_schema_id,
    launcher_wizard_id, validate_answer_document_identity, AnswerIdentity, ExecutionMode, WizardError,
};

verus! {

/// `base` with `layer`'s bindings on top; no layer when the source is not an object.
pub open spec fn layered(
    base: Map<Seq<char>, Seq<char>>,
    layer: Option<Map<Seq<char>, Seq<char>>>,
) -> Map<Seq<char>, Seq<char>> {
    match layer {
        Some(m) => base.union_prefer_right(m),
        None => base,
    }
}

/// The answers a run uses: provider defaults, then the answers file, then
/// what a parent wizard prefilled, then the command line, each later source
/// winning over the earlier ones key by key.
pub open spec fn merged_answers(
    cli: Option<Map<Seq<char>, Seq<char>>>,
    prefill: Option<Map<Seq<char>, Seq<char>>>,
    file: Option<Map<Seq<char>, Seq<char>>>,
    defaults: Option<Map<Seq<char>, Seq<char>>>,
) -> Map<Seq<char>, Seq<char>> {
    layered(layered(layered(layered(Map::empty(), defaults), file), prefill), cli)
}

pub open spec fn map_of(o: Option<&StrMap>) -> Option<Map<Seq<char>, Seq<char>>> {
    match o {
        Some(m) => Some(m@),
        None => None,
    }
}

/// Puts `src`'s bindings on top of `dst`'s.
fn merge_layer(dst: &mut StrMap, src: &StrMap)
    ensures
        final(dst)@ == old(dst)@.union_prefer_right(src@),
{
    let ghost base = dst@;
    let entries = src.entries();
    let mut i: usize = 0;
    assert(base.union_prefer_right(assoc_map(entries@.take(0))) =~= base);
    while i < entries.len()
        invariant
            i <= entries@.len(),
            assoc_map(entries@) == src@,
            dst@ == base.union_prefer_right(assoc_map(entries@.take(i as int))),
        decreases entries@.len() - i,
    {
        let ghost prev = assoc_map(entries@.take(i as int));
        assert(entries@.take(i + 1).drop_last() =~= entries@.take(i as int));
        let (k, v) = &entries[i];
        dst.insert(k.clone(), v.clone());
        assert(dst@ =~= base.union_prefer_right(prev.insert(k@, v@)));
        i = i + 1;
    }
    assert(entries@.take(entries@.len() as int) =~= entries@);
}

/// The answers of a run, from its sources; `None` stands for a source that
/// is absent or is not a JSON object.
pub fn merge_answers(
    cli: Option<&StrMap>,
    prefill: Option<&StrMap>,
    file: Option<&StrMap>,
    defaults: Option<&StrMap>,
) -> (r: StrMap)
    ensures
        r@ == merged_answers(map_of(cli), map_of(prefill), map_of(file), map_of(defaults)),
{
    let mut out = StrMap::new();
    if let Some(m) = defaults {
        merge_layer(&mut out, m);
    }
    if let Some(m) = file {
        merge_layer(&mut out, m);
    }
    if let Some(m) = prefill {
        merge_layer(&mut out, m);
    }
    if let Some(m) = cli {
        merge_layer(&mut out, m);
    }
    out
}

/// A command-line answer always wins.
pub proof fn lemma_cli_answers_win(
    cli: Map<Seq<char>, Seq<char>>,
    prefill: Option<Map<Seq<char>, Seq<char>>>,
    file: Option<Map<Seq<char>, Seq<char>>>,
    defaults: Option<Map<Seq<char>, Seq<char>>>,
    key: Seq<char>,
)
    requires
        cli.contains_key(key),
    ensures
        merged_answers(Some(cli), prefill, file, defaults).contains_key(key),
        merged_answers(Some(cli), prefill, file, defaults)[key] == cli[key],
{
}

/// A key no later source binds keeps the answer of the first source, in
/// precedence order, that binds it; a key no source binds is absent.
pub proof fn lemma_answer_precedence(
    cli: Option<Map<Seq<char>, Seq<char>>>,
    prefill: Option<Map<Seq<char>, Seq<char>>>,
    file: Option<Map<Seq<char>, Seq<char>>>,
    defaults: Option<Map<Seq<char>, Seq<char>>>,
    key: Seq<char>,
)
    ensures
        ({
            let m = merged_answers(cli, prefill, file, defaults);
            let binds = |o: Option<Map<Seq<char>, Seq<char>>>| o matches Some(x) && x.contains_key(
                key,
            );
            &&& binds(cli) ==> m.contains_key(key) && m[key] == cli->0[key]
            &&& !binds(cli) && binds(prefill) ==> m.contains_key(key) && m[key] == prefill->0[key]
            &&& !binds(cli) && !binds(prefill) && binds(file) ==> m.contains_key(key) && m[key]
                == file->0[key]
            &&& !binds(cli) && !binds(prefill) && !binds(file) && binds(defaults) ==> m.contains_key(
                key,
            ) && m[key] == defaults->0[key]
            &&& !binds(cli) && !binds(prefill) && !binds(file) && !binds(defaults)
                ==> !m.contains_key(key)
        }),
{
}

/// What the launcher menu answers: the selected action, and in a dry run an
/// empty document for the delegated wizard's own answers.
#[derive(Clone, Debug, PartialEq, Eq)]
pub struct LauncherAnswers {
    pub selected_action: String,
    pub with_delegate_document: bool,
}

pub fn build_launcher_answers(mode: ExecutionMode, selected_action: &str) -> (r: LauncherAnswers)
    ensures
        r.selected_action@ == selected_action@,
        r.with_delegate_document == (mode == ExecutionMode::DryRun),
{
    LauncherAnswers {
        selected_action: selected_action.to_string(),
        with_delegate_document: match mode {
            ExecutionMode::DryRun => true,
            ExecutionMode::Execute => false,
        },
    }
}

/// The schema version an emitted answer document carries: the one asked
/// for, else the loaded document's, else `1.0.0`.
pub fn emitted_schema_version(requested: Option<&str>, loaded: Option<&str>) -> (r: String)
    ensures
        r@ == (match requested {
            Some(v) => v@,
            None => match loaded {
                Some(v) => v@,
                None => "1.0.0"@,
            },
        }),
{
    match requested {
        Some(v) => v.to_string(),
        None => match loaded {
            Some(v) => v.to_string(),
            None => "1.0.0".to_string(),
        },
    }
}

/// The identity of an answer document this launcher writes.
pub fn launcher_document_identity(locale: &str, schema_version: &str) -> (r: AnswerIdentity)
    ensures
        r.wizard_id@ == launcher_wizard_id(),
        r.schema_id@ == launcher_schema_id(),
        r.schema_version@ == schema_version@,
        r.locale@ == locale@,
{
    proof {
        reveal_strlit("greentic-dev.wizard.launcher.main");
        reveal_strlit("greentic-dev.launcher.main");
    }
    AnswerIdentity {
        wizard_id: "greentic-dev.wizard.launcher.main".to_string(),
        schema_id: "greentic-dev.launcher.main".to_string(),
        schema_version: schema_version.to_string(),
        locale: locale.to_string(),
    }
}

/// What a loaded answer document is run as.
#[derive(Clone, Debug, PartialEq, Eq)]
pub enum LoadedDocument {
    /// A launcher document, run with its own answers, at its locale and at
    /// this schema version (the requested one once migrated).
    Launcher { locale: String, schema_version: String },
    /// A pack or bundle wizard's own document: run as launcher answers that
    /// select `selected_action` and carry the document for the delegate.
    Delegated { selected_action: &'static str, locale: String, schema_version: String },
}

/// Why an answer document is refused.
#[derive(Clone, Debug, PartialEq, Eq)]
pub enum AnswerDocumentError {
    Wizard(WizardError),
    /// A launcher document whose `answers` is not a JSON object.
    AnswersNotObject(String),
}

impl AnswerDocumentError {
    pub fn message(&self) -> (r: String)
        ensures
            r@ == (match *self {
                AnswerDocumentError::Wizard(e) => crate::messages::wizard_error_text(e),
                AnswerDocumentError::AnswersNotObject(source) =>
                    "AnswerDocument `answers` must be a JSON object in "@ + source@,
            }),
    {
        match self {
            AnswerDocumentError::Wizard(e) => e.message(),
            AnswerDocumentError::AnswersNotObject(source) => concat(
                "AnswerDocument `answers` must be a JSON object in ",
                source.as_str(),
            ),
        }
    }
}

/// A launcher document runs as it is, at the requested schema version
/// (which takes `--migrate` when it differs) and only with an answers
/// object; a pack or bundle document is delegated at the requested schema
/// version, else `1.0.0`; any other document is refused.
pub fn classify_answer_document(
    doc: &AnswerIdentity,
    answers_is_object: bool,
    requested: Option<&str>,
    migrate: bool,
    source: &str,
) -> (r: Result<LoadedDocument, AnswerDocumentError>)
    ensures
        doc.wizard_id@ == launcher_wizard_id() && doc.schema_id@ == launcher_schema_id() ==> (match requested {
            Some(q) => if q@ != doc.schema_version@ && !migrate {
                r matches Err(AnswerDocumentError::Wizard(WizardError::SchemaVersionMismatch { found, requested: x }))
                    && found@ == doc.schema_version@ && x@ == q@
            } else if !answers_is_object {
                r matches Err(AnswerDocumentError::AnswersNotObject(x)) && x@ == source@
            } else {
                r matches Ok(LoadedDocument::Launcher { locale, schema_version }) && locale@
                    == doc.locale@ && schema_version@ == q@
            },
            None => if !answers_is_object {
                r matches Err(AnswerDocumentError::AnswersNotObject(x)) && x@ == source@
            } else {
                r matches Ok(LoadedDocument::Launcher { locale, schema_version }) && locale@
                    == doc.locale@ && schema_version@ == doc.schema_version@
            },
        }),
        !(doc.wizard_id@ == launcher_wizard_id() && doc.schema_id@ == launcher_schema_id()) ==> (
        if has_prefix(doc.wizard_id@, "greentic-bundle."@) || has_prefix(doc.wizard_id@, "greentic-pack."@) {
            r matches Ok(LoadedDocument::Delegated { selected_action, locale, schema_version })
                && selected_action@ == (if has_prefix(doc.wizard_id@, "greentic-bundle."@) {
                "bundle"@
            } else {
                "pack"@
            }) && locale@ == doc.locale@ && schema_version@ == (match requested {
                Some(q) => q@,
                None => "1.0.0"@,
            })
        } else {
            r matches Err(AnswerDocumentError::Wizard(WizardError::UnsupportedWizardId { wizard_id, source: s }))
                && wizard_id == doc.wizard_id && s@ == source@
        }),
{
    if is_launcher_answer_document(doc) {
        let version = match answer_schema_version(doc.schema_version.as_str(), requested, migrate) {
            Ok(v) => v,
            Err(e) => return Err(AnswerDocumentError::Wizard(e)),
        };
        if !answers_is_object {
            return Err(AnswerDocumentError::AnswersNotObject(source.to_string()));
        }
        return Ok(LoadedDocument::Launcher { locale: doc.locale.clone(), schema_version: version });
    }
    if let Some(action) = delegated_selected_action(doc) {
        let version = match requested {
            Some(q) => q.to_string(),
            None => "1.0.0".to_string(),
        };
        return Ok(
            LoadedDocument::Delegated {
                selected_action: action,
                locale: doc.locale.clone(),
                schema_version: version,
            },
        );
    }
    match validate_answer_document_identity(doc, source) {
        Err(e) => Err(AnswerDocumentError::Wizard(e)),
        Ok(()) => Err(
            AnswerDocumentError::Wizard(
                WizardError::UnsupportedWizardId { wizard_id: doc.wizard_id.clone(), source: source.to_string() },
            ),
        ),
    }
}

/// Whether the answers carry a document for the delegated wizard to apply
/// (`delegate_answer_document`, which must then be a JSON object).
pub fn delegate_document_present(present: bool, is_object: bool) -> (r: Result<bool, &'static str>)
    ensures
        !present ==> r == Ok::<bool, &'static str>(false),
        present && is_object ==> r == Ok::<bool, &'static str>(true),
        present && !is_object ==> (r matches Err(m) && m@
            == "answers.delegate_answer_document must be a JSON object"@),
{
    if !present {
        Ok(false)
    } else if is_object {
        Ok(true)
    } else {
        Err("answers.delegate_answer_document must be a JSON object")
    }
}

} // verus!
