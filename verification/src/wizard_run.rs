//! One wizard run, decided before anything runs: whether the answers are
//! accepted, the locale and plan, which files are written, whether the plan
//! is executed and where its commands are logged.
use vstd::prelude::*;

use crate::answers::{classify_answer_document, emitted_schema_version, launcher_document_identity, AnswerDocumentError, LoadedDocument};
use crate::i18n::{lemma_cli_locale_wins, resolved_locale, select_locale_from, selected_locale};
use crate::text::{concat3, has_prefix};
use crate::cli::{WizardApplyArgs, WizardLaunchArgs, WizardValidateArgs};
use crate::wizard::{
    apply, check_command, command_verdict, join_spec, launch_on_terminal,
    options_from_apply, options_from_launch, options_from_validate, run_log_line, validate,
    LaunchRoute, WizardStep, frontend_named, launcher_plan, launcher_schema_id, launcher_wizard_id, ov, AnswerIdentity,
    ExecuteOptions, ExecutionMode, ProviderRequest, RunOptions, ShellWizardProvider, WizardError,
    WizardFrontend, WizardPlan, WizardProvider,
};

verus! {

/// What the answers carry for the delegated wizard (`delegate_answer_document`).
#[derive(Clone, Copy, Debug, PartialEq, Eq, Structural)]
pub enum DelegateDocument {
    Absent,
    /// A JSON object: written out for the delegated wizard to apply.
    Object,
    /// Present but not an object: refused.
    NotObject,
}

/// Where a run's answers come from.
#[derive(Clone, Debug)]
pub enum RunInput {
    /// An answer document read from `source`: its identity, whether its
    /// `answers` is an object, and what those answers select and carry.
    Document {
        identity: AnswerIdentity,
        answers_is_object: bool,
        source: String,
        selected_action: Option<String>,
        delegate: DelegateDocument,
    },
    /// Answers picked from the launcher menu, shown in `locale`.
    Menu { selected_action: String, with_delegate_document: bool, locale: String },
}

/// Where the locale may come from besides the command line and the answers.
#[derive(Clone, Debug)]
pub struct LocaleSources {
    pub env: Option<String>,
    pub sys: Option<String>,
    pub supported: Vec<String>,
}

/// The answer document written to `--emit-answers`.
#[derive(Clone, Debug)]
pub struct EmittedAnswers {
    pub path: String,
    pub identity: AnswerIdentity,
}

/// What a run does.
pub struct RunDecision {
    pub locale: String,
    /// The request the plan is built from; its `delegated_answers_path`, when
    /// set, is where the delegated wizard's answer document is written.
    pub request: ProviderRequest,
    pub plan: WizardPlan,
    /// The answers came as a pack or bundle wizard's own document.
    pub delegated_document: bool,
    /// Where executed commands are logged; set only when the plan is executed.
    pub exec_log: Option<String>,
    pub execute_options: ExecuteOptions,
    /// Confirmation is not asked for (`--yes`).
    pub yes: bool,
    /// Without a terminal, proceed rather than refuse (`--non-interactive`).
    pub non_interactive: bool,
    pub emitted: Option<EmittedAnswers>,
}

/// Why a run stops before anything runs.
#[derive(Clone, Debug)]
pub enum RunError {
    Document(AnswerDocumentError),
    UnsupportedFrontend(String),
    DelegateNotObject,
    Plan(WizardError),
    /// The launcher cannot be offered (no answers and no terminal).
    Launch(WizardError),
}

impl RunError {
    /// What the error reads as; a wizard error reads as its message (a
    /// catalogue key where it is spoken in the user's language).
    pub fn message(&self) -> (r: String)
        ensures
            (match *self {
                RunError::Document(e) => r@ == (match e {
                    AnswerDocumentError::Wizard(w) => crate::messages::wizard_error_text(w),
                    AnswerDocumentError::AnswersNotObject(source) =>
                        "AnswerDocument `answers` must be a JSON object in "@ + source@,
                }),
                RunError::UnsupportedFrontend(f) => r@ == "unsupported frontend `"@ + f@
                    + "`; expected text|json|adaptive-card"@,
                RunError::DelegateNotObject => r@
                    == "answers.delegate_answer_document must be a JSON object"@,
                RunError::Plan(w) => r@ == crate::messages::wizard_error_text(w),
                RunError::Launch(w) => r@ == crate::messages::wizard_error_text(w),
            }),
    {
        match self {
            RunError::Document(e) => e.message(),
            RunError::UnsupportedFrontend(f) => concat3(
                "unsupported frontend `",
                f.as_str(),
                "`; expected text|json|adaptive-card",
            ),
            RunError::DelegateNotObject => "answers.delegate_answer_document must be a JSON object".to_string(),
            RunError::Plan(w) => w.message(),
            RunError::Launch(w) => w.message(),
        }
    }
}

/// How an answer document runs, as `(delegated action, locale, schema
/// version)` (no action for a launcher document), or `None` when refused:
/// a launcher document at the requested schema version (which takes
/// `--migrate` when it differs) and only with an answers object; a pack or
/// bundle document delegated at the requested schema version, else `1.0.0`.
pub open spec fn document_run(
    doc: AnswerIdentity,
    answers_is_object: bool,
    requested: Option<Seq<char>>,
    migrate: bool,
) -> Option<(Option<Seq<char>>, Seq<char>, Seq<char>)> {
    if doc.wizard_id@ == launcher_wizard_id() && doc.schema_id@ == launcher_schema_id() {
        let version = match requested {
            Some(q) => q,
            None => doc.schema_version@,
        };
        if (requested matches Some(q) && q != doc.schema_version@ && !migrate) || !answers_is_object {
            None
        } else {
            Some((None, doc.locale@, version))
        }
    } else if has_prefix(doc.wizard_id@, "greentic-bundle."@) || has_prefix(
        doc.wizard_id@,
        "greentic-pack."@,
    ) {
        let action = if has_prefix(doc.wizard_id@, "greentic-bundle."@) {
            "bundle"@
        } else {
            "pack"@
        };
        let version = match requested {
            Some(q) => q,
            None => "1.0.0"@,
        };
        Some((Some(action), doc.locale@, version))
    } else {
        None
    }
}

/// The answers a run works from, as `(selected action, delegated document,
/// locale the answers name (the menu's, for a menu pick), schema version
/// they were loaded at)`, or `None`
/// when the document is refused. A pack or bundle document selects its own
/// wizard and is itself the delegated document.
pub open spec fn run_answers(opts: RunOptions, input: RunInput) -> Option<
    (Option<Seq<char>>, DelegateDocument, Option<Seq<char>>, Option<Seq<char>>),
> {
    match input {
        RunInput::Document { identity, answers_is_object, selected_action, delegate, .. } => match document_run(
            identity,
            answers_is_object,
            ov(opts.schema_version),
            opts.migrate,
        ) {
            None => None,
            Some((None, l, v)) => Some((ov(selected_action), delegate, Some(l), Some(v))),
            Some((Some(a), l, v)) => Some((Some(a), DelegateDocument::Object, Some(l), Some(v))),
        },
        RunInput::Menu { selected_action, with_delegate_document, locale } => Some(
            (
                Some(selected_action@),
                if with_delegate_document {
                    DelegateDocument::Object
                } else {
                    DelegateDocument::Absent
                },
                Some(locale@),
                ov(opts.schema_version),
            ),
        ),
    }
}

/// The locale asked for: the command line's, else the answers', else `en-US`.
pub open spec fn asked_locale(opts: RunOptions, from_answers: Option<Seq<char>>) -> Seq<char> {
    match ov(opts.cli_locale) {
        Some(c) => c,
        None => match from_answers {
            Some(l) => l,
            None => "en-US"@,
        },
    }
}

/// A file of the run inside the output directory.
pub open spec fn out_file(out_dir: Seq<char>, name: Seq<char>) -> Seq<char> {
    out_dir + "/"@ + name
}

/// The schema version an emitted answer document carries.
pub open spec fn emitted_version(requested: Option<Seq<char>>, loaded: Option<Seq<char>>) -> Seq<char> {
    match requested {
        Some(v) => v,
        None => match loaded {
            Some(v) => v,
            None => "1.0.0"@,
        },
    }
}

/// `d` is the run of `action` at `locale`: the launcher plan built for the
/// run's mode, the delegated answers written where the plan's command reads
/// them, commands executed and logged only outside a dry run, and the
/// launcher answer document emitted when asked for.
pub open spec fn decision_follows(
    d: RunDecision,
    opts: RunOptions,
    action: Seq<char>,
    delegate: DelegateDocument,
    locale: Seq<char>,
    loaded: Option<Seq<char>>,
    out_dir: Seq<char>,
) -> bool {
    &&& d.locale@ == locale
    &&& Some(d.request.frontend) == frontend_named(opts.frontend@)
    &&& d.request.locale@ == locale
    &&& d.request.dry_run == (opts.mode == ExecutionMode::DryRun)
    &&& ov(d.request.selected_action) == Some(action)
    &&& ov(d.request.delegated_answers_path) == (if delegate == DelegateDocument::Object {
        Some(out_file(out_dir, "delegated-answers.json"@))
    } else {
        None
    })
    &&& launcher_plan(d.plan, d.request, action)
    &&& ov(d.exec_log) == (if opts.mode == ExecutionMode::Execute {
        Some(out_file(out_dir, "exec.log"@))
    } else {
        None
    })
    &&& d.execute_options.unsafe_commands == opts.unsafe_commands
    &&& d.execute_options.allow_destructive == opts.allow_destructive
    &&& d.yes == opts.yes && d.non_interactive == opts.non_interactive
    &&& match ov(opts.emit_answers) {
        None => d.emitted is None,
        Some(p) => d.emitted matches Some(e) && e.path@ == p && e.identity.wizard_id@
            == launcher_wizard_id() && e.identity.schema_id@ == launcher_schema_id()
            && e.identity.locale@ == locale && e.identity.schema_version@ == emitted_version(
            ov(opts.schema_version),
            loaded,
        ),
    }
}

fn copy_opt(o: &Option<String>) -> (r: Option<String>)
    ensures
        ov(r) == ov(*o),
{
    match o {
        Some(s) => Some(s.clone()),
        None => None,
    }
}

/// What a run decides for `opts` and `input`: another wizard's document
/// refused, an unsupported frontend or non-object delegated document
/// refused, a missing or unknown action refused; else the launcher plan
/// of the selected action at the chosen locale, as `decision_follows` says.
pub open spec fn run_decided(
    opts: RunOptions,
    input: RunInput,
    locales: LocaleSources,
    out_dir: Seq<char>,
    r: Result<RunDecision, RunError>,
) -> bool {
    &&& (run_answers(opts, input) is None <==> r matches Err(RunError::Document(_)))
    &&& (match input {
        RunInput::Document { identity, source, .. } => !(identity.wizard_id@
            == launcher_wizard_id() && identity.schema_id@ == launcher_schema_id())
            && !has_prefix(identity.wizard_id@, "greentic-bundle."@) && !has_prefix(
            identity.wizard_id@,
            "greentic-pack."@,
        ) ==> (r matches Err(
            RunError::Document(
                AnswerDocumentError::Wizard(WizardError::UnsupportedWizardId { wizard_id, source: s }),
            ),
        ) && wizard_id == identity.wizard_id && s@ == source@),
        RunInput::Menu { .. } => true,
    })
    &&& (run_answers(opts, input) matches Some((selected, delegate, named, loaded)) ==> {
        let locale = selected_locale(
            Some(asked_locale(opts, named)),
            ov(locales.env),
            ov(locales.sys),
            locales.supported.deep_view(),
        );
        if frontend_named(opts.frontend@) is None {
            r matches Err(RunError::UnsupportedFrontend(f)) && f@ == opts.frontend@
        } else if delegate == DelegateDocument::NotObject {
            r matches Err(RunError::DelegateNotObject)
        } else {
            match selected {
                None => r matches Err(RunError::Plan(WizardError::MissingSelectedAction)),
                Some(a) => if a == "pack"@ || a == "bundle"@ {
                    r matches Ok(d) && decision_follows(
                        d,
                        opts,
                        a,
                        delegate,
                        locale,
                        loaded,
                        out_dir,
                    ) && d.delegated_document == (input is Document && document_run(
                        input->identity,
                        input->answers_is_object,
                        ov(opts.schema_version),
                        opts.migrate,
                    ) matches Some((Some(_), _, _)))
                } else {
                    r matches Err(RunError::Plan(WizardError::UnsupportedAction(x))) && x@ == a
                },
            }
        }
    })
}

/// A command-line locale that resolves to a supported locale is the
/// locale a run is decided in, whatever locale the answers name.
pub proof fn lemma_run_speaks_cli_locale(
    opts: RunOptions,
    input: RunInput,
    locales: LocaleSources,
    out_dir: Seq<char>,
    d: RunDecision,
)
    requires
        run_decided(opts, input, locales, out_dir, Ok(d)),
        opts.cli_locale is Some,
        resolved_locale(opts.cli_locale->0@, locales.supported.deep_view()) is Some,
    ensures
        d.locale@ == resolved_locale(opts.cli_locale->0@, locales.supported.deep_view())->0,
{
    let (selected, delegate, named, loaded) = run_answers(opts, input)->0;
    assert(asked_locale(opts, named) == opts.cli_locale->0@);
    lemma_cli_locale_wins(
        opts.cli_locale->0@,
        ov(locales.env),
        ov(locales.sys),
        locales.supported.deep_view(),
    );
}

/// The locale the answers of a run name, when they are accepted and name one.
pub open spec fn answers_locale(opts: RunOptions, input: RunInput) -> Option<Seq<char>> {
    match run_answers(opts, input) {
        Some((_, _, named, _)) => named,
        None => None,
    }
}

/// Without a command-line locale, the locale the answers name (the
/// document's, or the menu's) is the run's locale when it resolves.
pub proof fn lemma_run_speaks_answers_locale(
    opts: RunOptions,
    input: RunInput,
    locales: LocaleSources,
    out_dir: Seq<char>,
    d: RunDecision,
)
    requires
        run_decided(opts, input, locales, out_dir, Ok(d)),
        opts.cli_locale is None,
        answers_locale(opts, input) is Some,
        resolved_locale(answers_locale(opts, input)->0, locales.supported.deep_view()) is Some,
    ensures
        d.locale@ == resolved_locale(answers_locale(opts, input)->0, locales.supported.deep_view())->0,
{
    let l = answers_locale(opts, input)->0;
    lemma_cli_locale_wins(l, ov(locales.env), ov(locales.sys), locales.supported.deep_view());
}

/// Decides a run: the document is classified (another wizard's document is
/// refused), the locale chosen, the frontend read, the delegated document
/// checked and the launcher plan built, all before anything is written or
/// run; a dry run never executes.
pub fn decide_run(
    opts: &RunOptions,
    input: &RunInput,
    locales: &LocaleSources,
    out_dir: &str,
) -> (r: Result<RunDecision, RunError>)
    ensures
        run_decided(*opts, *input, *locales, out_dir@, r),
        r is Ok && opts.cli_locale is Some && resolved_locale(
            opts.cli_locale->0@,
            locales.supported.deep_view(),
        ) is Some ==> r->Ok_0.locale@ == resolved_locale(
            opts.cli_locale->0@,
            locales.supported.deep_view(),
        )->0,
{
    let requested: Option<&str> = match &opts.schema_version {
        Some(v) => Some(v.as_str()),
        None => None,
    };
    let (selected, delegate, named, loaded, delegated_document): (
        Option<String>,
        DelegateDocument,
        Option<String>,
        Option<String>,
        bool,
    ) = match input {
        RunInput::Document { identity, answers_is_object, source, selected_action, delegate } => {
            match classify_answer_document(identity, *answers_is_object, requested, opts.migrate, source.as_str()) {
                Err(e) => return Err(RunError::Document(e)),
                Ok(LoadedDocument::Launcher { locale, schema_version }) => (
                    copy_opt(selected_action),
                    *delegate,
                    Some(locale),
                    Some(schema_version),
                    false,
                ),
                Ok(LoadedDocument::Delegated { selected_action: action, locale, schema_version }) => (
                    Some(action.to_string()),
                    DelegateDocument::Object,
                    Some(locale),
                    Some(schema_version),
                    true,
                ),
            }
        },
        RunInput::Menu { selected_action, with_delegate_document, locale } => (
            Some(selected_action.clone()),
            if *with_delegate_document {
                DelegateDocument::Object
            } else {
                DelegateDocument::Absent
            },
            Some(locale.clone()),
            copy_opt(&opts.schema_version),
            false,
        ),
    };
    assert(run_answers(*opts, *input) == Some((ov(selected), delegate, ov(named), ov(loaded))));
    let asked: String = match &opts.cli_locale {
        Some(c) => c.clone(),
        None => match &named {
            Some(l) => l.clone(),
            None => "en-US".to_string(),
        },
    };
    let env: Option<&str> = match &locales.env {
        Some(v) => Some(v.as_str()),
        None => None,
    };
    let sys: Option<&str> = match &locales.sys {
        Some(v) => Some(v.as_str()),
        None => None,
    };
    let locale = select_locale_from(Some(asked.as_str()), env, sys, &locales.supported);
    let frontend = match WizardFrontend::parse(opts.frontend.as_str()) {
        Some(f) => f,
        None => return Err(RunError::UnsupportedFrontend(opts.frontend.clone())),
    };
    let delegated_answers_path = match delegate {
        DelegateDocument::NotObject => return Err(RunError::DelegateNotObject),
        DelegateDocument::Absent => None,
        DelegateDocument::Object => Some(concat3(out_dir, "/", "delegated-answers.json")),
    };
    let dry_run = match opts.mode {
        ExecutionMode::DryRun => true,
        ExecutionMode::Execute => false,
    };
    let request = ProviderRequest {
        frontend,
        locale: locale.clone(),
        dry_run,
        selected_action: copy_opt(&selected),
        delegated_answers_path,
    };
    let plan = match ShellWizardProvider.build_plan(&request) {
        Ok(plan) => plan,
        Err(e) => return Err(RunError::Plan(e)),
    };
    let exec_log = match opts.mode {
        ExecutionMode::DryRun => None,
        ExecutionMode::Execute => Some(concat3(out_dir, "/", "exec.log")),
    };
    let emitted = match &opts.emit_answers {
        None => None,
        Some(path) => {
            let loaded_version: Option<&str> = match &loaded {
                Some(v) => Some(v.as_str()),
                None => None,
            };
            let version = emitted_schema_version(requested, loaded_version);
            let identity = launcher_document_identity(locale.as_str(), version.as_str());
            Some(EmittedAnswers { path: path.clone(), identity })
        },
    };
    let execute_options = ExecuteOptions {
        unsafe_commands: opts.unsafe_commands,
        allow_destructive: opts.allow_destructive,
    };
    Ok(
        RunDecision {
            locale,
            request,
            plan,
            delegated_document,
            exec_log,
            execute_options,
            yes: opts.yes,
            non_interactive: opts.non_interactive,
            emitted,
        },
    )
}

/// `wizard validate` with its answers loaded: the run of the document's
/// plan as a dry run that never prompts and allows nothing unsafe.
pub fn validate_run(
    args: &WizardValidateArgs,
    input: &RunInput,
    locales: &LocaleSources,
    out_dir: &str,
) -> (r: Result<RunDecision, RunError>)
    ensures
        exists|o: RunOptions|
            options_from_validate(o, *args) && run_decided(o, *input, *locales, out_dir@, r),
{
    let opts = validate(args);
    decide_run(&opts, input, locales, out_dir)
}

/// `wizard apply` with its answers loaded: the run of the document's plan,
/// executed as the flags allow.
pub fn apply_run(
    args: &WizardApplyArgs,
    input: &RunInput,
    locales: &LocaleSources,
    out_dir: &str,
) -> (r: Result<RunDecision, RunError>)
    ensures
        exists|o: RunOptions| options_from_apply(o, *args) && run_decided(o, *input, *locales, out_dir@, r),
{
    let opts = apply(args);
    decide_run(&opts, input, locales, out_dir)
}

/// What `wizard` without a subcommand does once its answers are known.
pub enum LaunchDecision {
    /// Carry out this run.
    Run(RunDecision),
    /// Keep offering the launcher menu, delegating each pick.
    Menu,
}

/// A launch dry-runs under `--dry-run` and executes otherwise.
pub open spec fn launch_mode(args: WizardLaunchArgs) -> ExecutionMode {
    if args.dry_run {
        ExecutionMode::DryRun
    } else {
        ExecutionMode::Execute
    }
}

/// `wizard` without a subcommand, with `input` the answer document read
/// from `--answers`, else the pick made on the launcher menu: refused
/// without answers and without a terminal; the menu loop for an execution
/// without answers; else the run of the answers, dry under `--dry-run`.
pub fn launch_run(
    args: &WizardLaunchArgs,
    interactive: bool,
    input: &RunInput,
    locales: &LocaleSources,
    out_dir: &str,
) -> (r: Result<LaunchDecision, RunError>)
    ensures
        args.answers is None && !interactive ==> r matches Err(
            RunError::Launch(WizardError::InteractiveRequired),
        ),
        args.answers is None && interactive && !args.dry_run ==> r matches Ok(LaunchDecision::Menu),
        args.answers is Some || (interactive && args.dry_run) ==> exists|o: RunOptions|
            #[trigger] options_from_launch(o, *args, launch_mode(*args)) && match r {
                Ok(LaunchDecision::Run(d)) => run_decided(o, *input, *locales, out_dir@, Ok(d)),
                Ok(LaunchDecision::Menu) => false,
                Err(e) => run_decided(o, *input, *locales, out_dir@, Err(e)),
            },
{
    let route = match launch_on_terminal(args, interactive) {
        Ok(route) => route,
        Err(e) => return Err(RunError::Launch(e)),
    };
    let opts = match route {
        LaunchRoute::Interactive => return Ok(LaunchDecision::Menu),
        LaunchRoute::FromAnswers(o) => o,
        LaunchRoute::PromptOnce(o) => o,
    };
    match decide_run(&opts, input, locales, out_dir) {
        Ok(d) => Ok(LaunchDecision::Run(d)),
        Err(e) => Err(e),
    }
}

/// What running a plan's commands does next, from step `from` on.
pub enum ExecStep {
    /// Run the command at `step` (its program with its arguments), first
    /// appending `log_line` to the execution log.
    Run { step: usize, log_line: String },
    /// No command is left.
    Done,
}

/// The first command step at or after `from`.
pub open spec fn next_command_index(steps: Seq<WizardStep>, from: int) -> Option<int>
    decreases steps.len() - from,
{
    if from >= steps.len() || from < 0 {
        None
    } else if steps[from] is RunCommand {
        Some(from)
    } else {
        next_command_index(steps, from + 1)
    }
}

/// The next command of an execution: the first command step at or after
/// `from`, refused when its program is not allowed or its arguments look
/// like a shell's; its log line is `RUN`, the program and its arguments.
pub fn next_command(plan: &WizardPlan, opts: &ExecuteOptions, from: usize) -> (r: Result<ExecStep, WizardError>)
    ensures
        match next_command_index(plan.steps@, from as int) {
            None => r matches Ok(ExecStep::Done),
            Some(k) => plan.steps@[k] matches WizardStep::RunCommand(cmd) && match r {
                Ok(ExecStep::Run { step, log_line }) => step == k && command_verdict(cmd, *opts, Ok(()))
                    && log_line@ == "RUN "@ + cmd.program@ + " "@ + join_spec(cmd.args.deep_view(), " "@),
                Ok(ExecStep::Done) => false,
                Err(e) => command_verdict(cmd, *opts, Err(e)),
            },
        },
{
    let mut i: usize = from;
    while i < plan.steps.len()
        invariant
            from <= i,
            next_command_index(plan.steps@, from as int) == next_command_index(plan.steps@, i as int),
        decreases plan.steps@.len() - i,
    {
        match &plan.steps[i] {
            WizardStep::RunCommand(cmd) => {
                return match check_command(cmd, opts) {
                    Ok(()) => Ok(ExecStep::Run { step: i, log_line: run_log_line(cmd) }),
                    Err(e) => Err(e),
                };
            },
            _ => {},
        }
        i = i + 1;
    }
    Ok(ExecStep::Done)
}

} // verus!
