//! The launcher wizard: its plan, the provider that builds it, the gates a
//! plan's commands pass before they run, and the menu and answer-document
//! decisions around them.
use vstd::prelude::*;

use crate::strmap::{assoc_map, StrMap};
use crate::text::{
    ascii_lower, concat, concat3, decimal_text, has_prefix, owned, push_char, str_eq, starts_with,
    to_ascii_lowercase, trim, trim_ws, u64_text,
};

verus! {

/// How a plan is shown.
#[derive(Clone, Copy, Debug, PartialEq, Eq, Structural)]
pub enum WizardFrontend {
    Text,
    Json,
    AdaptiveCard,
}

/// The frontend a `--frontend` value names.
pub open spec fn frontend_named(value: Seq<char>) -> Option<WizardFrontend> {
    if value == "text"@ {
        Some(WizardFrontend::Text)
    } else if value == "json"@ {
        Some(WizardFrontend::Json)
    } else if value == "adaptive-card"@ {
        Some(WizardFrontend::AdaptiveCard)
    } else {
        None
    }
}

impl WizardFrontend {
    pub fn parse(value: &str) -> (r: Option<Self>)
        ensures
            r == frontend_named(value@),
    {
        if str_eq(value, "text") {
            Some(WizardFrontend::Text)
        } else if str_eq(value, "json") {
            Some(WizardFrontend::Json)
        } else if str_eq(value, "adaptive-card") {
            Some(WizardFrontend::AdaptiveCard)
        } else {
            None
        }
    }
}

#[derive(Clone, Debug)]
pub struct WizardPlanMetadata {
    pub target: String,
    pub mode: String,
    pub locale: String,
    pub frontend: WizardFrontend,
}

#[derive(Clone, Debug)]
pub struct RunCommandStep {
    pub program: String,
    pub args: Vec<String>,
    /// Written out only when true.
    pub destructive: bool,
}

#[derive(Clone, Debug)]
pub enum WizardStep {
    LaunchPackWizard,
    LaunchBundleWizard,
    RunCommand(RunCommandStep),
}

#[derive(Clone, Debug)]
pub struct WizardPlan {
    pub plan_version: u32,
    pub created_at: Option<String>,
    pub metadata: WizardPlanMetadata,
    /// Replay pins and execution notes, by key.
    pub inputs: StrMap,
    pub steps: Vec<WizardStep>,
}

/// A flag that is left out of a written plan when it is false.
pub fn is_false(v: &bool) -> (r: bool)
    ensures
        r == !*v,
{
    !*v
}

/// What a plan run may do.
pub struct ExecuteOptions {
    /// Run programs outside the allowlist.
    pub unsafe_commands: bool,
    /// Run steps marked destructive.
    pub allow_destructive: bool,
}

/// What a plan run did.
pub struct ExecutionReport {
    /// The version each program reported, by program.
    pub resolved_versions: StrMap,
    pub commands_executed: usize,
}

/// Why the wizard stopped.
#[derive(Clone, Debug, PartialEq, Eq)]
pub enum WizardError {
    /// The plan has destructive steps and they were not allowed.
    Destructive,
    /// A program outside the allowlist, with unsafe commands not allowed.
    ProgramNotAllowed(String),
    /// A command with shell-like arguments.
    UnsafeArgs(String),
    /// A program reported another version than the plan pins.
    PinMismatch { program: String, expected: String, actual: String },
    /// The answers name no `selected_action`.
    MissingSelectedAction,
    /// The answers name an action other than `pack` or `bundle`.
    UnsupportedAction(String),
    /// A menu entry that does not exist; reported in `locale`.
    InvalidSelection { locale: String },
    /// No terminal to confirm on, and `--non-interactive` was not given.
    NonInteractive,
    /// No terminal to offer the launcher menu on, and no answers were given.
    InteractiveRequired,
    /// The user declined.
    Canceled,
    /// An answer document of another wizard.
    UnsupportedWizardId { wizard_id: String, source: String },
    /// An answer document of another schema.
    UnsupportedSchemaId { schema_id: String, source: String },
    /// The document's schema version is not the requested one and `--migrate` was not given.
    SchemaVersionMismatch { found: String, requested: String },
}

// ---------------------------------------------------------------------------
// Command gates
// ---------------------------------------------------------------------------

/// The programs a plan may run without `--unsafe-commands`.
pub open spec fn allowed_program(p: Seq<char>) -> bool {
    ||| p == "greentic-pack"@
    ||| p == "greentic-component"@
    ||| p == "greentic-bundle"@
    ||| p == "greentic-flow"@
    ||| p == "greentic-runner-cli"@
}

pub fn is_allowed_program(program: &str) -> (r: bool)
    ensures
        r == allowed_program(program@),
{
    str_eq(program, "greentic-pack") || str_eq(program, "greentic-component") || str_eq(
        program,
        "greentic-bundle",
    ) || str_eq(program, "greentic-flow") || str_eq(
        program,
        "greentic-runner-cli",
    )
}

/// Shell-like arguments a plan command may not carry.
pub open spec fn blocked_arg(a: Seq<char>) -> bool {
    ||| a == "|"@
    ||| a == ";"@
    ||| a == "&&"@
    ||| a == "||"@
    ||| a == "sh"@
    ||| a == "-c"@
    ||| a == "rm"@
    ||| a == "mv"@
    ||| a == "dd"@
}

pub fn args_look_unsafe(args: &Vec<String>) -> (r: bool)
    ensures
        r == exists|i: int| 0 <= i < args@.len() && blocked_arg(#[trigger] args@[i]@),
{
    let mut i: usize = 0;
    while i < args.len()
        invariant
            i <= args@.len(),
            forall|j: int| 0 <= j < i ==> !blocked_arg(#[trigger] args@[j]@),
        decreases args@.len() - i,
    {
        let a = args[i].as_str();
        if str_eq(a, "|") || str_eq(a, ";") || str_eq(a, "&&") || str_eq(a, "||") || str_eq(a, "sh")
            || str_eq(a, "-c") || str_eq(a, "rm") || str_eq(a, "mv") || str_eq(a, "dd") {
            assert(blocked_arg(args@[i as int]@));
            return true;
        }
        i = i + 1;
    }
    false
}

pub open spec fn is_destructive(step: WizardStep) -> bool {
    step matches WizardStep::RunCommand(c) && c.destructive
}

pub open spec fn has_destructive_step(plan: WizardPlan) -> bool {
    exists|i: int| 0 <= i < plan.steps@.len() && is_destructive(#[trigger] plan.steps@[i])
}

pub fn plan_has_destructive_step(plan: &WizardPlan) -> (r: bool)
    ensures
        r == has_destructive_step(*plan),
{
    let mut i: usize = 0;
    while i < plan.steps.len()
        invariant
            i <= plan.steps@.len(),
            forall|j: int| 0 <= j < i ==> !is_destructive(#[trigger] plan.steps@[j]),
        decreases plan.steps@.len() - i,
    {
        if let WizardStep::RunCommand(cmd) = &plan.steps[i] {
            if cmd.destructive {
                assert(is_destructive(plan.steps@[i as int]));
                return true;
            }
        }
        i = i + 1;
    }
    false
}

/// A plan with destructive steps runs only with `--allow-destructive`.
pub fn check_plan(plan: &WizardPlan, opts: &ExecuteOptions) -> (r: Result<(), WizardError>)
    ensures
        r is Err <==> !opts.allow_destructive && has_destructive_step(*plan),
        r is Err ==> r == Err::<(), WizardError>(WizardError::Destructive),
{
    if !opts.allow_destructive && plan_has_destructive_step(plan) {
        Err(WizardError::Destructive)
    } else {
        Ok(())
    }
}

/// What checking a command gives: refused when its program is not allowed
/// (and unsafe commands are not), else when one of its arguments is
/// shell-like; allowed otherwise.
pub open spec fn command_verdict(cmd: RunCommandStep, opts: ExecuteOptions, r: Result<(), WizardError>) -> bool {
    if !opts.unsafe_commands && !allowed_program(cmd.program@) {
        r matches Err(WizardError::ProgramNotAllowed(p)) && p@ == cmd.program@
    } else if exists|i: int| 0 <= i < cmd.args@.len() && blocked_arg(#[trigger] cmd.args@[i]@) {
        r matches Err(WizardError::UnsafeArgs(p)) && p@ == cmd.program@
    } else {
        r is Ok
    }
}

/// A command runs when its program is allowed (or unsafe commands are) and
/// none of its arguments is shell-like.
pub fn check_command(cmd: &RunCommandStep, opts: &ExecuteOptions) -> (r: Result<(), WizardError>)
    ensures
        command_verdict(*cmd, *opts, r),
{
    if !opts.unsafe_commands && !is_allowed_program(cmd.program.as_str()) {
        return Err(WizardError::ProgramNotAllowed(cmd.program.clone()));
    }
    if args_look_unsafe(&cmd.args) {
        return Err(WizardError::UnsafeArgs(cmd.program.clone()));
    }
    Ok(())
}

/// The plan input that pins a program's version.
pub open spec fn pin_key(program: Seq<char>) -> Seq<char> {
    "resolved_versions."@ + program
}

/// A program whose version the plan pins must report exactly that version.
pub fn validate_version_pin(plan: &WizardPlan, program: &str, actual_version: &str) -> (r: Result<(), WizardError>)
    ensures
        r is Ok <==> !(plan.inputs@.contains_key(pin_key(program@)) && plan.inputs@[pin_key(program@)]
            != actual_version@),
        r matches Err(e) ==> (e matches WizardError::PinMismatch { program: p, expected, actual } && p@
            == program@ && expected@ == plan.inputs@[pin_key(program@)] && actual@ == actual_version@),
{
    let key = concat("resolved_versions.", program);
    match plan.inputs.get(key.as_str()) {
        Some(expected) => {
            if !str_eq(expected.as_str(), actual_version) {
                return Err(
                    WizardError::PinMismatch {
                        program: owned(program),
                        expected: expected.clone(),
                        actual: owned(actual_version),
                    },
                );
            }
            Ok(())
        },
        None => Ok(()),
    }
}

/// Records the version a program reported: it must match the plan's pin,
/// and the first version seen for a program is the one kept.
pub fn record_resolved_version(
    plan: &WizardPlan,
    report: &mut ExecutionReport,
    program: &str,
    actual_version: &str,
) -> (r: Result<(), WizardError>)
    ensures
        r is Ok <==> !(plan.inputs@.contains_key(pin_key(program@)) && plan.inputs@[pin_key(program@)]
            != actual_version@),
        r is Err ==> final(report).resolved_versions@ == old(report).resolved_versions@,
        r is Ok ==> final(report).resolved_versions@ == (if old(report).resolved_versions@.contains_key(
            program@,
        ) {
            old(report).resolved_versions@
        } else {
            old(report).resolved_versions@.insert(program@, actual_version@)
        }),
        final(report).commands_executed == old(report).commands_executed,
{
    validate_version_pin(plan, program, actual_version)?;
    if report.resolved_versions.get(program).is_none() {
        report.resolved_versions.insert(owned(program), owned(actual_version));
    }
    Ok(())
}

/// Counts one command that ran.
pub fn record_command(report: &mut ExecutionReport)
    requires
        old(report).commands_executed < usize::MAX,
    ensures
        final(report).commands_executed == old(report).commands_executed + 1,
        final(report).resolved_versions@ == old(report).resolved_versions@,
{
    report.commands_executed = report.commands_executed + 1;
}

// ---------------------------------------------------------------------------
// Confirmation
// ---------------------------------------------------------------------------

/// Before executing: go ahead, or ask on the terminal.
#[derive(Clone, Copy, Debug, PartialEq, Eq, Structural)]
pub enum ConfirmStep {
    Proceed,
    Prompt,
}

/// `--yes` proceeds; without a terminal, only `--non-interactive` proceeds;
/// otherwise the user is asked.
pub fn confirmation_step(yes: bool, non_interactive: bool, interactive: bool) -> (r: Result<ConfirmStep, WizardError>)
    ensures
        yes ==> r == Ok::<ConfirmStep, WizardError>(ConfirmStep::Proceed),
        !yes && !interactive && non_interactive ==> r == Ok::<ConfirmStep, WizardError>(
            ConfirmStep::Proceed,
        ),
        !yes && !interactive && !non_interactive ==> r == Err::<ConfirmStep, WizardError>(
            WizardError::NonInteractive,
        ),
        !yes && interactive ==> r == Ok::<ConfirmStep, WizardError>(ConfirmStep::Prompt),
{
    if yes {
        return Ok(ConfirmStep::Proceed);
    }
    if !interactive {
        if non_interactive {
            return Ok(ConfirmStep::Proceed);
        }
        return Err(WizardError::NonInteractive);
    }
    Ok(ConfirmStep::Prompt)
}

/// The typed answer accepts: `y` or `yes`, any case, surrounding blanks ignored.
pub open spec fn accepts(input: Seq<char>) -> bool {
    ascii_lower(trim_ws(input)) == "y"@ || ascii_lower(trim_ws(input)) == "yes"@
}

pub fn confirmation_answer(input: &str) -> (r: Result<(), WizardError>)
    ensures
        r is Ok <==> accepts(input@),
        r is Err ==> r == Err::<(), WizardError>(WizardError::Canceled),
{
    let trimmed = trim(input);
    let lowered = to_ascii_lowercase(trimmed.as_str());
    if str_eq(lowered.as_str(), "y") || str_eq(lowered.as_str(), "yes") {
        Ok(())
    } else {
        Err(WizardError::Canceled)
    }
}

// ---------------------------------------------------------------------------
// Provider
// ---------------------------------------------------------------------------

/// What a provider builds a plan from.
#[derive(Clone, Debug)]
pub struct ProviderRequest {
    pub frontend: WizardFrontend,
    pub locale: String,
    pub dry_run: bool,
    /// `answers.selected_action`, when it is a string.
    pub selected_action: Option<String>,
    /// Where the delegated wizard's own answer document was written, when
    /// the answers carry one; the delegated wizard then applies it.
    pub delegated_answers_path: Option<String>,
}

/// The delegated wizard's arguments: `wizard`, then `apply --answers <path>`
/// when it replays its own answer document, then `--dry-run` in a dry run.
pub open spec fn delegate_step_args(req: ProviderRequest) -> Seq<Seq<char>> {
    let base = match req.delegated_answers_path {
        Some(p) => seq!["wizard"@, "apply"@, "--answers"@, p@],
        None => seq!["wizard"@],
    };
    if req.dry_run {
        base.push("--dry-run"@)
    } else {
        base
    }
}

/// Builds a wizard plan from a request.
pub trait WizardProvider {
    fn build_plan(&self, req: &ProviderRequest) -> Result<WizardPlan, WizardError>;
}

/// Launches the pack or bundle wizard as a child command.
pub struct ShellWizardProvider;

/// The launcher plan for `action` (`pack` or `bundle`).
pub open spec fn launcher_plan(plan: WizardPlan, req: ProviderRequest, action: Seq<char>) -> bool {
    &&& plan.plan_version == 1
    &&& plan.created_at is None
    &&& plan.metadata.target@ == "launcher"@
    &&& plan.metadata.mode@ == "main"@
    &&& plan.metadata.locale@ == req.locale@
    &&& plan.metadata.frontend == req.frontend
    &&& plan.inputs@ == Map::<Seq<char>, Seq<char>>::empty()
    &&& plan.steps@.len() == 2
    &&& (if action == "pack"@ {
        plan.steps@[0] is LaunchPackWizard
    } else {
        plan.steps@[0] is LaunchBundleWizard
    })
    &&& plan.steps@[1] matches WizardStep::RunCommand(cmd) && cmd.program@ == (if action == "pack"@ {
        "greentic-pack"@
    } else {
        "greentic-bundle"@
    }) && !cmd.destructive && cmd.args.deep_view() == delegate_step_args(req)
}

impl WizardProvider for ShellWizardProvider {
    fn build_plan(&self, req: &ProviderRequest) -> (r: Result<WizardPlan, WizardError>)
        ensures
            match req.selected_action {
                None => r == Err::<WizardPlan, WizardError>(WizardError::MissingSelectedAction),
                Some(a) => if a@ == "pack"@ || a@ == "bundle"@ {
                    r matches Ok(plan) && launcher_plan(plan, *req, a@)
                } else {
                    r matches Err(WizardError::UnsupportedAction(x)) && x@ == a@
                },
            },
    {
        let action = match &req.selected_action {
            Some(a) => a,
            None => return Err(WizardError::MissingSelectedAction),
        };
        let mut args: Vec<String> = Vec::new();
        args.push("wizard".to_string());
        if let Some(p) = &req.delegated_answers_path {
            args.push("apply".to_string());
            args.push("--answers".to_string());
            args.push(p.clone());
        }
        if req.dry_run {
            args.push("--dry-run".to_string());
        }
        assert(args.deep_view() =~= delegate_step_args(*req));
        let (program, semantic_step) = if str_eq(action.as_str(), "pack") {
            ("greentic-pack".to_string(), WizardStep::LaunchPackWizard)
        } else if str_eq(action.as_str(), "bundle") {
            ("greentic-bundle".to_string(), WizardStep::LaunchBundleWizard)
        } else {
            return Err(WizardError::UnsupportedAction(action.clone()));
        };
        let mut steps: Vec<WizardStep> = Vec::new();
        steps.push(semantic_step);
        steps.push(WizardStep::RunCommand(RunCommandStep { program, args, destructive: false }));
        let plan = WizardPlan {
            plan_version: 1,
            created_at: None,
            metadata: WizardPlanMetadata {
                target: "launcher".to_string(),
                mode: "main".to_string(),
                locale: req.locale.clone(),
                frontend: req.frontend,
            },
            inputs: StrMap::new(),
            steps,
        };
        proof {
            reveal_strlit("pack");
            reveal_strlit("bundle");
            assert("pack"@[0] != "bundle"@[0]);
        }
        Ok(plan)
    }
}

// ---------------------------------------------------------------------------
// Launcher menu and delegation
// ---------------------------------------------------------------------------

#[derive(Clone, Copy, Debug, PartialEq, Eq, Structural)]
pub enum ExecutionMode {
    DryRun,
    Execute,
}

#[derive(Clone, Copy, Debug, PartialEq, Eq, Structural)]
pub enum LauncherMenuChoice {
    Pack,
    Bundle,
    MainMenu,
    Exit,
}

/// What a menu entry selects: `1` pack, `2` bundle, `0` exit (in the main
/// menu) or back to it (elsewhere), `m`/`M` the main menu.
pub open spec fn menu_choice(input: Seq<char>, in_main_menu: bool) -> Option<LauncherMenuChoice> {
    let t = trim_ws(input);
    if t == "1"@ && in_main_menu {
        Some(LauncherMenuChoice::Pack)
    } else if t == "2"@ && in_main_menu {
        Some(LauncherMenuChoice::Bundle)
    } else if t == "0"@ && in_main_menu {
        Some(LauncherMenuChoice::Exit)
    } else if t == "0"@ {
        Some(LauncherMenuChoice::MainMenu)
    } else if t == "m"@ || t == "M"@ {
        Some(LauncherMenuChoice::MainMenu)
    } else {
        None
    }
}

/// The choice a typed menu entry makes; anything else is rejected, reported in `locale`.
pub fn parse_launcher_menu_choice(input: &str, in_main_menu: bool, locale: &str) -> (r: Result<
    LauncherMenuChoice,
    WizardError,
>)
    ensures
        match menu_choice(input@, in_main_menu) {
            Some(c) => r == Ok::<LauncherMenuChoice, WizardError>(c),
            None => r matches Err(WizardError::InvalidSelection { locale: l }) && l@ == locale@,
        },
{
    let t = trim(input);
    let t = t.as_str();
    if str_eq(t, "1") && in_main_menu {
        Ok(LauncherMenuChoice::Pack)
    } else if str_eq(t, "2") && in_main_menu {
        Ok(LauncherMenuChoice::Bundle)
    } else if str_eq(t, "0") && in_main_menu {
        Ok(LauncherMenuChoice::Exit)
    } else if str_eq(t, "0") {
        Ok(LauncherMenuChoice::MainMenu)
    } else if str_eq(t, "m") || str_eq(t, "M") {
        Ok(LauncherMenuChoice::MainMenu)
    } else {
        Err(WizardError::InvalidSelection { locale: owned(locale) })
    }
}

/// The program an interactive selection delegates to.
pub fn delegate_program(selected_action: Option<&str>) -> (r: Result<&'static str, WizardError>)
    ensures
        match selected_action {
            None => r == Err::<&'static str, WizardError>(WizardError::MissingSelectedAction),
            Some(a) => if a@ == "pack"@ {
                r matches Ok(p) && p@ == "greentic-pack"@
            } else if a@ == "bundle"@ {
                r matches Ok(p) && p@ == "greentic-bundle"@
            } else {
                r matches Err(WizardError::UnsupportedAction(x)) && x@ == a@
            },
        },
{
    match selected_action {
        None => Err(WizardError::MissingSelectedAction),
        Some(a) => {
            if str_eq(a, "pack") {
                Ok("greentic-pack")
            } else if str_eq(a, "bundle") {
                Ok("greentic-bundle")
            } else {
                Err(WizardError::UnsupportedAction(owned(a)))
            }
        },
    }
}

/// Arguments of the delegated wizard: the bundle wizard is told the locale.
pub fn interactive_delegate_args(program: &str, locale: &str) -> (r: Vec<String>)
    ensures
        r.deep_view() == (if program@ == "greentic-bundle"@ {
            seq!["--locale"@, locale@, "wizard"@]
        } else {
            seq!["wizard"@]
        }),
{
    let mut out: Vec<String> = Vec::new();
    if str_eq(program, "greentic-bundle") {
        out.push("--locale".to_string());
        out.push(owned(locale));
        out.push("wizard".to_string());
        assert(out.deep_view() =~= seq!["--locale"@, locale@, "wizard"@]);
    } else {
        out.push("wizard".to_string());
        assert(out.deep_view() =~= seq!["wizard"@]);
    }
    out
}

/// Arguments of a delegated wizard run from the browser front end: the
/// wizard arguments, then `apply --answers <path>`.
pub fn ui_apply_args(program: &str, locale: &str, answers_path: &str) -> (r: Vec<String>)
    ensures
        r.deep_view() == (if program@ == "greentic-bundle"@ {
            seq!["--locale"@, locale@, "wizard"@]
        } else {
            seq!["wizard"@]
        }) + seq!["apply"@, "--answers"@, answers_path@],
{
    let mut out = interactive_delegate_args(program, locale);
    let ghost head = out.deep_view();
    out.push("apply".to_string());
    out.push("--answers".to_string());
    out.push(owned(answers_path));
    assert(out.deep_view() =~= head + seq!["apply"@, "--answers"@, answers_path@]);
    out
}

/// The `wizard_id` and `schema_id` of the answer document the browser front
/// end writes for a wizard type; `unknown` for any other type.
pub fn ui_answer_ids(wizard_type: &str) -> (r: (&'static str, &'static str))
    ensures
        wizard_type@ == "pack"@ ==> r.0@ == "greentic-pack.wizard.run"@ && r.1@
            == "greentic-pack.wizard.answers"@,
        wizard_type@ == "bundle"@ ==> r.0@ == "greentic-bundle.wizard.run"@ && r.1@
            == "greentic-bundle.wizard.answers"@,
        wizard_type@ != "pack"@ && wizard_type@ != "bundle"@ ==> r.0@ == "unknown"@ && r.1@
            == "unknown"@,
{
    proof {
        reveal_strlit("pack");
        reveal_strlit("bundle");
        assert("pack"@[0] != "bundle"@[0]);
    }
    if str_eq(wizard_type, "pack") {
        ("greentic-pack.wizard.run", "greentic-pack.wizard.answers")
    } else if str_eq(wizard_type, "bundle") {
        ("greentic-bundle.wizard.run", "greentic-bundle.wizard.answers")
    } else {
        ("unknown", "unknown")
    }
}

// ---------------------------------------------------------------------------
// Text rendering
// ---------------------------------------------------------------------------

/// `parts` joined with `sep` between them.
pub open spec fn join_spec(parts: Seq<Seq<char>>, sep: Seq<char>) -> Seq<char>
    decreases parts.len(),
{
    if parts.len() == 0 {
        Seq::empty()
    } else if parts.len() == 1 {
        parts[0]
    } else {
        join_spec(parts.drop_last(), sep) + sep + parts.last()
    }
}

pub fn join(parts: &Vec<String>, sep: &str) -> (r: String)
    ensures
        r@ == join_spec(parts.deep_view(), sep@),
{
    let mut out = String::new();
    let mut i: usize = 0;
    while i < parts.len()
        invariant
            i <= parts@.len(),
            out@ == join_spec(parts.deep_view().take(i as int), sep@),
        decreases parts@.len() - i,
    {
        let ghost next = parts.deep_view().take(i + 1);
        assert(next.drop_last() =~= parts.deep_view().take(i as int));
        assert(next.last() == parts@[i as int]@);
        if i == 0 {
            out = parts[i].clone();
        } else {
            out = concat(out.as_str(), sep);
            out = concat(out.as_str(), parts[i].as_str());
        }
        i = i + 1;
    }
    assert(parts.deep_view().take(parts@.len() as int) =~= parts.deep_view());
    out
}

/// The execution log's line for a command about to run: `RUN`, the program
/// and its arguments, separated by spaces.
pub fn run_log_line(cmd: &RunCommandStep) -> (r: String)
    ensures
        r@ == "RUN "@ + cmd.program@ + " "@ + join_spec(cmd.args.deep_view(), " "@),
{
    let args = join(&cmd.args, " ");
    let head = concat3("RUN ", cmd.program.as_str(), " ");
    concat(head.as_str(), args.as_str())
}

/// One line of the text plan for the step at `idx`.
pub open spec fn step_line(idx: nat, step: WizardStep) -> Seq<char> {
    decimal_text(idx + 1) + ". "@ + match step {
        WizardStep::RunCommand(cmd) => "RunCommand "@ + cmd.program@ + " "@ + join_spec(
            cmd.args.deep_view(),
            " "@,
        ),
        WizardStep::LaunchPackWizard => "LaunchPackWizard"@,
        WizardStep::LaunchBundleWizard => "LaunchBundleWizard"@,
    } + "\n"@
}

pub open spec fn steps_text(steps: Seq<WizardStep>) -> Seq<char>
    decreases steps.len(),
{
    if steps.len() == 0 {
        Seq::empty()
    } else {
        steps_text(steps.drop_last()) + step_line((steps.len() - 1) as nat, steps.last())
    }
}

/// The text frontend's rendering of a plan.
pub open spec fn text_plan(plan: WizardPlan) -> Seq<char> {
    "wizard plan v"@ + decimal_text(plan.plan_version as nat) + ": "@ + plan.metadata.target@ + "."@
        + plan.metadata.mode@ + "\n"@ + "locale: "@ + plan.metadata.locale@ + "\n"@ + "steps: "@
        + decimal_text(plan.steps@.len()) + "\n"@ + steps_text(plan.steps@)
}

pub fn render_text_plan(plan: &WizardPlan) -> (r: String)
    ensures
        r@ == text_plan(*plan),
{
    let mut out = concat("wizard plan v", u64_text(plan.plan_version as u64).as_str());
    out = concat(out.as_str(), ": ");
    out = concat(out.as_str(), plan.metadata.target.as_str());
    out = concat(out.as_str(), ".");
    out = concat(out.as_str(), plan.metadata.mode.as_str());
    out = concat(out.as_str(), "\n");
    out = concat(out.as_str(), "locale: ");
    out = concat(out.as_str(), plan.metadata.locale.as_str());
    out = concat(out.as_str(), "\n");
    out = concat(out.as_str(), "steps: ");
    out = concat(out.as_str(), u64_text(plan.steps.len() as u64).as_str());
    out = concat(out.as_str(), "\n");
    let ghost header = out@;
    let mut i: usize = 0;
    while i < plan.steps.len()
        invariant
            i <= plan.steps@.len(),
            out@ == header + steps_text(plan.steps@.take(i as int)),
        decreases plan.steps@.len() - i,
    {
        let ghost next = plan.steps@.take(i + 1);
        assert(next.drop_last() =~= plan.steps@.take(i as int));
        let mut line = concat(u64_text((i as u64) + 1).as_str(), ". ");
        match &plan.steps[i] {
            WizardStep::RunCommand(cmd) => {
                line = concat(line.as_str(), "RunCommand ");
                line = concat(line.as_str(), cmd.program.as_str());
                line = concat(line.as_str(), " ");
                line = concat(line.as_str(), join(&cmd.args, " ").as_str());
            },
            WizardStep::LaunchPackWizard => {
                line = concat(line.as_str(), "LaunchPackWizard");
            },
            WizardStep::LaunchBundleWizard => {
                line = concat(line.as_str(), "LaunchBundleWizard");
            },
        }
        line = concat(line.as_str(), "\n");
        assert(line@ =~= step_line(i as nat, plan.steps@[i as int]));
        out = concat(out.as_str(), line.as_str());
        assert(out@ =~= header + steps_text(next));
        i = i + 1;
    }
    assert(plan.steps@.take(plan.steps@.len() as int) =~= plan.steps@);
    out
}

// ---------------------------------------------------------------------------
// Answer documents
// ---------------------------------------------------------------------------

pub open spec fn launcher_wizard_id() -> Seq<char> {
    "greentic-dev.wizard.launcher.main"@
}

pub open spec fn launcher_schema_id() -> Seq<char> {
    "greentic-dev.launcher.main"@
}

/// The identity fields of an answer document.
#[derive(Clone, Debug)]
pub struct AnswerIdentity {
    pub wizard_id: String,
    pub schema_id: String,
    pub schema_version: String,
    pub locale: String,
}

pub fn is_launcher_answer_document(doc: &AnswerIdentity) -> (r: bool)
    ensures
        r == (doc.wizard_id@ == launcher_wizard_id() && doc.schema_id@ == launcher_schema_id()),
{
    str_eq(doc.wizard_id.as_str(), "greentic-dev.wizard.launcher.main") && str_eq(
        doc.schema_id.as_str(),
        "greentic-dev.launcher.main",
    )
}

/// The launcher action a pack or bundle wizard's own document selects.
pub fn delegated_selected_action(doc: &AnswerIdentity) -> (r: Option<&'static str>)
    ensures
        match r {
            Some(a) => if has_prefix(doc.wizard_id@, "greentic-bundle."@) {
                a@ == "bundle"@
            } else {
                has_prefix(doc.wizard_id@, "greentic-pack."@) && a@ == "pack"@
            },
            None => !has_prefix(doc.wizard_id@, "greentic-bundle."@) && !has_prefix(
                doc.wizard_id@,
                "greentic-pack."@,
            ),
        },
{
    if starts_with(doc.wizard_id.as_str(), "greentic-bundle.") {
        Some("bundle")
    } else if starts_with(doc.wizard_id.as_str(), "greentic-pack.") {
        Some("pack")
    } else {
        None
    }
}

/// Only the launcher's own documents are accepted.
pub fn validate_answer_document_identity(doc: &AnswerIdentity, source: &str) -> (r: Result<(), WizardError>)
    ensures
        doc.wizard_id@ != launcher_wizard_id() || doc.schema_id@ != launcher_schema_id() ==> (r
            matches Err(WizardError::UnsupportedWizardId { wizard_id, source: s }) && wizard_id
            == doc.wizard_id && s@ == source@),
        doc.wizard_id@ == launcher_wizard_id() && doc.schema_id@ == launcher_schema_id() ==> r is Ok,
{
    if !is_launcher_answer_document(doc) {
        return Err(
            WizardError::UnsupportedWizardId { wizard_id: doc.wizard_id.clone(), source: owned(source) },
        );
    }
    Ok(())
}

/// The schema version a launcher document is read at: its own, unless
/// another was requested, which takes `--migrate`.
pub fn answer_schema_version(doc_version: &str, requested: Option<&str>, migrate: bool) -> (r: Result<
    String,
    WizardError,
>)
    ensures
        match requested {
            Some(req) => if req@ == doc_version@ {
                r matches Ok(v) && v@ == doc_version@
            } else if migrate {
                r matches Ok(v) && v@ == req@
            } else {
                r matches Err(WizardError::SchemaVersionMismatch { found, requested: q }) && found@
                    == doc_version@ && q@ == req@
            },
            None => r matches Ok(v) && v@ == doc_version@,
        },
{
    match requested {
        Some(req) => {
            if str_eq(doc_version, req) {
                Ok(owned(doc_version))
            } else if migrate {
                Ok(owned(req))
            } else {
                Err(
                    WizardError::SchemaVersionMismatch {
                        found: owned(doc_version),
                        requested: owned(req),
                    },
                )
            }
        },
        None => Ok(owned(doc_version)),
    }
}

// ---------------------------------------------------------------------------
// Execution metadata
// ---------------------------------------------------------------------------

/// `inputs` with each resolved version recorded under `resolved_versions.<program>`.
pub open spec fn with_resolved(inputs: Map<Seq<char>, Seq<char>>, resolved: Map<Seq<char>, Seq<char>>) -> Map<
    Seq<char>,
    Seq<char>,
> {
    Map::new(
        |k: Seq<char>|
            inputs.contains_key(k) || (has_prefix(k, "resolved_versions."@) && resolved.contains_key(
                k.skip(18),
            )),
        |k: Seq<char>|
            if has_prefix(k, "resolved_versions."@) && resolved.contains_key(k.skip(18)) {
                resolved[k.skip(18)]
            } else {
                inputs[k]
            },
    )
}

proof fn lemma_with_resolved_insert(
    inputs: Map<Seq<char>, Seq<char>>,
    resolved: Map<Seq<char>, Seq<char>>,
    program: Seq<char>,
    version: Seq<char>,
)
    ensures
        with_resolved(inputs, resolved.insert(program, version)) == with_resolved(
            inputs,
            resolved,
        ).insert(pin_key(program), version),
{
    reveal_strlit("resolved_versions.");
    let key = pin_key(program);
    assert(key.skip(18) =~= program);
    assert(has_prefix(key, "resolved_versions."@)) by {
        assert(key.subrange(0, 18) =~= "resolved_versions."@);
    }
    let a = with_resolved(inputs, resolved.insert(program, version));
    let b = with_resolved(inputs, resolved).insert(key, version);
    assert forall|k: Seq<char>| #[trigger] a.contains_key(k) == b.contains_key(k) by {
        if k == key {
        } else if has_prefix(k, "resolved_versions."@) && k.skip(18) == program {
            assert(k =~= "resolved_versions."@ + k.skip(18));
        }
    }
    assert forall|k: Seq<char>| #[trigger] a.contains_key(k) implies a[k] == b[k] by {
        if k != key && has_prefix(k, "resolved_versions."@) && k.skip(18) == program {
            assert(k =~= "resolved_versions."@ + k.skip(18));
        }
    }
    assert(a =~= b);
}

/// Writes into the plan's inputs what a run resolved: each program's version
/// (a replay pin) and the number of commands executed.
pub fn annotate_execution_metadata(plan: &mut WizardPlan, report: &ExecutionReport)
    ensures
        final(plan).inputs@ == with_resolved(
            old(plan).inputs@,
            report.resolved_versions@,
        ).insert("executed_commands"@, decimal_text(report.commands_executed as nat)),
        final(plan).steps@ == old(plan).steps@,
        final(plan).plan_version == old(plan).plan_version,
{
    let ghost before_run = plan.inputs@;
    let entries = report.resolved_versions.entries();
    let mut i: usize = 0;
    assert(assoc_map(entries@.take(0)) =~= Map::<Seq<char>, Seq<char>>::empty());
    assert(with_resolved(before_run, Map::empty()) =~= before_run);
    while i < entries.len()
        invariant
            i <= entries@.len(),
            plan.inputs@ == with_resolved(before_run, assoc_map(entries@.take(i as int))),
            plan.steps@ == old(plan).steps@,
            plan.plan_version == old(plan).plan_version,
        decreases entries@.len() - i,
    {
        let ghost next = entries@.take(i + 1);
        assert(next.drop_last() =~= entries@.take(i as int));
        let (program, version) = &entries[i];
        proof {
            lemma_with_resolved_insert(
                before_run,
                assoc_map(entries@.take(i as int)),
                program@,
                version@,
            );
        }
        plan.inputs.insert(concat("resolved_versions.", program.as_str()), version.clone());
        i = i + 1;
    }
    assert(entries@.take(entries@.len() as int) =~= entries@);
    plan.inputs.insert("executed_commands".to_string(), u64_text(report.commands_executed as u64));
}

// ---------------------------------------------------------------------------
// Subcommand routing
// ---------------------------------------------------------------------------

/// How a plan run is carried out, whatever subcommand asked for it.
#[derive(Debug)]
pub struct RunOptions {
    /// Where the answers come from (a path or URL), when a document is read.
    pub answers: Option<String>,
    pub frontend: String,
    pub cli_locale: Option<String>,
    pub out: Option<String>,
    pub mode: ExecutionMode,
    pub yes: bool,
    pub non_interactive: bool,
    pub unsafe_commands: bool,
    pub allow_destructive: bool,
    pub emit_answers: Option<String>,
    pub schema_version: Option<String>,
    pub migrate: bool,
}

/// What `wizard` without a subcommand does.
#[derive(Debug)]
pub enum LaunchRoute {
    /// Run the plan the answer document describes.
    FromAnswers(RunOptions),
    /// Ask once on the terminal, then dry-run the plan.
    PromptOnce(RunOptions),
    /// Keep offering the launcher menu, delegating each selection.
    Interactive,
}

pub open spec fn ov(o: Option<String>) -> Option<Seq<char>> {
    match o {
        Some(s) => Some(s@),
        None => None,
    }
}

fn copy_opt(o: &Option<String>) -> (r: Option<String>)
    ensures
        ov(r) == ov(*o),
{
    match o {
        Some(s) => Some(s.clone()),
        None => None,
    }
}

/// `o` carries the launch arguments, in `mode`.
pub open spec fn options_from_launch(o: RunOptions, args: crate::cli::WizardLaunchArgs, mode: ExecutionMode) -> bool {
    &&& ov(o.answers) == ov(args.answers)
    &&& o.frontend@ == args.frontend@
    &&& ov(o.cli_locale) == ov(args.locale)
    &&& ov(o.out) == ov(args.out)
    &&& o.mode == mode
    &&& o.yes == args.yes
    &&& o.non_interactive == args.non_interactive
    &&& o.unsafe_commands == args.unsafe_commands
    &&& o.allow_destructive == args.allow_destructive
    &&& ov(o.emit_answers) == ov(args.emit_answers)
    &&& ov(o.schema_version) == ov(args.schema_version)
    &&& o.migrate == args.migrate
}

fn launch_options(args: &crate::cli::WizardLaunchArgs, mode: ExecutionMode) -> (r: RunOptions)
    ensures
        options_from_launch(r, *args, mode),
{
    RunOptions {
        answers: copy_opt(&args.answers),
        frontend: args.frontend.clone(),
        cli_locale: copy_opt(&args.locale),
        out: copy_opt(&args.out),
        mode,
        yes: args.yes,
        non_interactive: args.non_interactive,
        unsafe_commands: args.unsafe_commands,
        allow_destructive: args.allow_destructive,
        emit_answers: copy_opt(&args.emit_answers),
        schema_version: copy_opt(&args.schema_version),
        migrate: args.migrate,
    }
}

/// `wizard`: with an answer document, run it (dry-run under `--dry-run`);
/// without one, a dry run asks once and an execution keeps offering the menu.
pub fn launch(args: &crate::cli::WizardLaunchArgs) -> (r: LaunchRoute)
    ensures
        args.answers is Some ==> (r matches LaunchRoute::FromAnswers(o) && options_from_launch(
            o,
            *args,
            if args.dry_run {
                ExecutionMode::DryRun
            } else {
                ExecutionMode::Execute
            },
        )),
        args.answers is None && args.dry_run ==> (r matches LaunchRoute::PromptOnce(o)
            && options_from_launch(o, *args, ExecutionMode::DryRun)),
        args.answers is None && !args.dry_run ==> r is Interactive,
{
    let mode = if args.dry_run {
        ExecutionMode::DryRun
    } else {
        ExecutionMode::Execute
    };
    if args.answers.is_some() {
        return LaunchRoute::FromAnswers(launch_options(args, mode));
    }
    if args.dry_run {
        return LaunchRoute::PromptOnce(launch_options(args, mode));
    }
    LaunchRoute::Interactive
}

/// `wizard` where the terminal is known: the route `launch` picks, refused
/// when it would offer the launcher menu and there is no terminal.
pub fn launch_on_terminal(args: &crate::cli::WizardLaunchArgs, interactive: bool) -> (r: Result<LaunchRoute, WizardError>)
    ensures
        args.answers is None && !interactive <==> r == Err::<LaunchRoute, WizardError>(WizardError::InteractiveRequired),
        args.answers is Some ==> (r matches Ok(LaunchRoute::FromAnswers(o)) && options_from_launch(
            o,
            *args,
            if args.dry_run {
                ExecutionMode::DryRun
            } else {
                ExecutionMode::Execute
            },
        )),
        args.answers is None && interactive && args.dry_run ==> (r matches Ok(LaunchRoute::PromptOnce(o))
            && options_from_launch(o, *args, ExecutionMode::DryRun)),
        args.answers is None && interactive && !args.dry_run ==> r matches Ok(LaunchRoute::Interactive),
{
    if args.answers.is_none() && !interactive {
        return Err(WizardError::InteractiveRequired);
    }
    Ok(launch(args))
}

/// `o` carries the `wizard validate` arguments: a dry run that never
/// prompts and allows nothing unsafe or destructive.
pub open spec fn options_from_validate(o: RunOptions, args: crate::cli::WizardValidateArgs) -> bool {
    &&& ov(o.answers) == Some(args.answers@)
    &&& o.frontend@ == args.frontend@
    &&& ov(o.cli_locale) == ov(args.locale)
    &&& ov(o.out) == ov(args.out)
    &&& o.mode == ExecutionMode::DryRun
    &&& o.yes && o.non_interactive
    &&& !o.unsafe_commands && !o.allow_destructive
    &&& ov(o.emit_answers) == ov(args.emit_answers)
    &&& ov(o.schema_version) == ov(args.schema_version)
    &&& o.migrate == args.migrate
}

/// `o` carries the `wizard apply` arguments: an execution, as the flags allow.
pub open spec fn options_from_apply(o: RunOptions, args: crate::cli::WizardApplyArgs) -> bool {
    &&& ov(o.answers) == Some(args.answers@)
    &&& o.frontend@ == args.frontend@
    &&& ov(o.cli_locale) == ov(args.locale)
    &&& ov(o.out) == ov(args.out)
    &&& o.mode == ExecutionMode::Execute
    &&& o.yes == args.yes
    &&& o.non_interactive == args.non_interactive
    &&& o.unsafe_commands == args.unsafe_commands
    &&& o.allow_destructive == args.allow_destructive
    &&& ov(o.emit_answers) == ov(args.emit_answers)
    &&& ov(o.schema_version) == ov(args.schema_version)
    &&& o.migrate == args.migrate
}

/// `wizard validate`: a dry run of the document's plan that never prompts
/// and allows nothing unsafe or destructive.
pub fn validate(args: &crate::cli::WizardValidateArgs) -> (r: RunOptions)
    ensures
        options_from_validate(r, *args),
{
    RunOptions {
        answers: Some(args.answers.clone()),
        frontend: args.frontend.clone(),
        cli_locale: copy_opt(&args.locale),
        out: copy_opt(&args.out),
        mode: ExecutionMode::DryRun,
        yes: true,
        non_interactive: true,
        unsafe_commands: false,
        allow_destructive: false,
        emit_answers: copy_opt(&args.emit_answers),
        schema_version: copy_opt(&args.schema_version),
        migrate: args.migrate,
    }
}

/// `wizard apply`: executes the document's plan as the flags allow.
pub fn apply(args: &crate::cli::WizardApplyArgs) -> (r: RunOptions)
    ensures
        options_from_apply(r, *args),
{
    RunOptions {
        answers: Some(args.answers.clone()),
        frontend: args.frontend.clone(),
        cli_locale: copy_opt(&args.locale),
        out: copy_opt(&args.out),
        mode: ExecutionMode::Execute,
        yes: args.yes,
        non_interactive: args.non_interactive,
        unsafe_commands: args.unsafe_commands,
        allow_destructive: args.allow_destructive,
        emit_answers: copy_opt(&args.emit_answers),
        schema_version: copy_opt(&args.schema_version),
        migrate: args.migrate,
    }
}

/// A run's recorded versions become the plan's replay pins: after
/// annotating, each program's pin is the version the run resolved, so
/// replaying with that version passes `validate_version_pin`.
pub proof fn lemma_recorded_versions_replay(
    inputs: Map<Seq<char>, Seq<char>>,
    resolved: Map<Seq<char>, Seq<char>>,
    executed: nat,
    program: Seq<char>,
)
    requires
        resolved.contains_key(program),
    ensures
        ({
            let annotated = with_resolved(inputs, resolved).insert(
                "executed_commands"@,
                decimal_text(executed),
            );
            annotated.contains_key(pin_key(program)) && annotated[pin_key(program)]
                == resolved[program]
        }),
{
    reveal_strlit("resolved_versions.");
    reveal_strlit("executed_commands");
    let key = pin_key(program);
    assert(key.skip(18) =~= program);
    assert(key.subrange(0, 18) =~= "resolved_versions."@);
    assert(key.len() != "executed_commands"@.len());
}

} // verus!
