//! Installing the toolchain with `cargo binstall`: reading the versions
//! cargo reports, deciding whether binstall itself needs installing or
//! updating, what each crate of the toolchain installs, and how the run ends.
use vstd::prelude::*;

use crate::passthrough::{
    binstall_arg_list, binstall_args, channel_binary_name, delegated_binary_name_for_channel,
    ToolchainChannel,
};
use crate::release::{PackageSpec, ResearchVersion};
use crate::semver::{compare_versions, parse_version, semver_order, semver_parse, SemVersion, VersionParts};
use crate::text::{
    concat, concat3, first_index_of, is_whitespace, is_ws, owned, push_char, slice_chars,
    trim_start_all, trim_start_matches, trim_ws, trim, decimal_text, u64_text,
};
use crate::wizard::{join, join_spec};

verus! {

/// The first line of `s` as `str::lines` yields it: up to the first `\n`,
/// without the `\r` of a `\r\n` ending; empty for an empty text.
pub open spec fn first_line(s: Seq<char>) -> Seq<char> {
    match first_index_of(s, '\n') {
        Some(i) => strip_cr(s.take(i)),
        None => s,
    }
}

/// A line ended by `\n` loses a trailing `\r`.
pub open spec fn strip_cr(line: Seq<char>) -> Seq<char> {
    if line.len() > 0 && line.last() == '\r' {
        line.drop_last()
    } else {
        line
    }
}

/// The lines `str::lines` yields.
pub open spec fn lines_of(s: Seq<char>) -> Seq<Seq<char>>
    decreases s.len(),
{
    if s.len() == 0 {
        Seq::empty()
    } else {
        match first_index_of(s, '\n') {
            Some(i) => if 0 <= i < s.len() {
                seq![strip_cr(s.take(i))] + lines_of(s.skip(i + 1))
            } else {
                Seq::empty()
            },
            None => seq![s],
        }
    }
}

/// The words `str::split_whitespace` yields from `s`, `cur` being a word
/// already begun.
pub open spec fn words_from(s: Seq<char>, cur: Seq<char>) -> Seq<Seq<char>>
    decreases s.len(),
{
    if s.len() == 0 {
        if cur.len() > 0 {
            seq![cur]
        } else {
            Seq::empty()
        }
    } else if is_ws(s[0]) {
        (if cur.len() > 0 {
            seq![cur]
        } else {
            Seq::empty()
        }) + words_from(s.drop_first(), Seq::empty())
    } else {
        words_from(s.drop_first(), cur.push(s[0]))
    }
}

pub open spec fn words(s: Seq<char>) -> Seq<Seq<char>> {
    words_from(s, Seq::empty())
}

fn first_line_of(s: &str) -> (r: String)
    ensures
        r@ == first_line(s@),
{
    match crate::text::find_char(s, '\n') {
        Some(i) => {
            proof {
                crate::text::lemma_first_index_in_range(s@, '\n');
            }
            let line = slice_chars(s, 0, i);
            assert(line@ =~= s@.take(i as int));
            strip_cr_exec(line)
        },
        None => owned(s),
    }
}

fn strip_cr_exec(line: String) -> (r: String)
    ensures
        r@ == strip_cr(line@),
{
    let n = line.unicode_len();
    if n > 0 && line.as_str().get_char(n - 1) == '\r' {
        let r = slice_chars(line.as_str(), 0, n - 1);
        assert(r@ =~= line@.drop_last());
        r
    } else {
        line
    }
}

/// `str::split_whitespace`.
pub fn split_words(s: &str) -> (r: Vec<String>)
    ensures
        r.deep_view() == words(s@),
{
    let n = s.unicode_len();
    let mut out: Vec<String> = Vec::new();
    let mut cur = String::new();
    let mut i: usize = 0;
    assert(s@.skip(0) =~= s@);
    while i < n
        invariant
            n == s@.len(),
            i <= n,
            out.deep_view() + words_from(s@.skip(i as int), cur@) == words(s@),
        decreases n - i,
    {
        let c = s.get_char(i);
        let ghost rest = s@.skip(i as int);
        assert(rest[0] == c);
        assert(rest.drop_first() =~= s@.skip(i + 1));
        if is_whitespace(c) {
            if cur.unicode_len() > 0 {
                let ghost before = out.deep_view();
                let ghost w = cur@;
                out.push(cur);
                assert(out.deep_view() =~= before.push(w));
                assert(before + (seq![w] + words_from(s@.skip(i + 1), Seq::empty())) =~= out.deep_view()
                    + words_from(s@.skip(i + 1), Seq::empty()));
            } else {
                assert(out.deep_view() + (Seq::<Seq<char>>::empty() + words_from(s@.skip(i + 1), Seq::empty()))
                    =~= out.deep_view() + words_from(s@.skip(i + 1), Seq::empty()));
            }
            cur = String::new();
            assert(cur@ =~= Seq::<char>::empty());
        } else {
            let ghost before = cur@;
            push_char(&mut cur, c);
            assert(cur@ =~= before.push(c));
        }
        i = i + 1;
    }
    assert(s@.skip(n as int) =~= Seq::<char>::empty());
    if cur.unicode_len() > 0 {
        let ghost before = out.deep_view();
        let ghost w = cur@;
        out.push(cur);
        assert(out.deep_view() =~= before + seq![w]);
    } else {
        assert(out.deep_view() + Seq::<Seq<char>>::empty() =~= out.deep_view());
    }
    out
}

/// The first word that, without leading `v`s, parses as a version.
pub open spec fn first_version_word(ws: Seq<Seq<char>>) -> Option<VersionParts>
    decreases ws.len(),
{
    if ws.len() == 0 {
        None
    } else {
        match semver_parse(trim_start_all(ws[0], "v"@)) {
            Some(p) => Some(p),
            None => first_version_word(ws.drop_first()),
        }
    }
}

/// The version `cargo binstall -V` reports: the first word of its first
/// line that is a version, a leading `v` allowed.
pub fn parse_installed_binstall_version(stdout: &str) -> (r: Option<SemVersion>)
    ensures
        match r {
            Some(v) => first_version_word(words(first_line(stdout@))) == Some(v@),
            None => first_version_word(words(first_line(stdout@))) is None,
        },
{
    let line = first_line_of(stdout);
    let ws = split_words(line.as_str());
    let ghost all = ws.deep_view();
    let mut i: usize = 0;
    assert(all.skip(0) =~= all);
    while i < ws.len()
        invariant
            i <= ws@.len(),
            all == ws.deep_view(),
            all == words(first_line(stdout@)),
            first_version_word(all.skip(i as int)) == first_version_word(all),
        decreases ws@.len() - i,
    {
        let ghost rest = all.skip(i as int);
        assert(rest[0] == ws@[i as int]@);
        assert(rest.drop_first() =~= all.skip(i + 1));
        let bare = trim_start_matches(ws[i].as_str(), "v");
        if let Some(v) = parse_version(bare.as_str()) {
            return Some(v);
        }
        i = i + 1;
    }
    assert(all.skip(i as int).len() == 0);
    None
}

/// The first line holding more than white space.
pub open spec fn first_nonblank(lines: Seq<Seq<char>>) -> Option<Seq<char>>
    decreases lines.len(),
{
    if lines.len() == 0 {
        None
    } else if trim_ws(lines[0]).len() > 0 {
        Some(lines[0])
    } else {
        first_nonblank(lines.drop_first())
    }
}

/// `s` without every leading and trailing `"` (`trim_matches('"')`).
pub open spec fn trim_quotes(s: Seq<char>) -> Seq<char>
    decreases s.len(),
{
    if s.len() > 0 && s[0] == '"' {
        trim_quotes(s.drop_first())
    } else if s.len() > 0 && s.last() == '"' {
        trim_quotes(s.drop_last())
    } else {
        s
    }
}

/// The text before the first `c`, or all of it.
pub open spec fn before_char(s: Seq<char>, c: char) -> Seq<char> {
    match first_index_of(s, c) {
        Some(i) => s.take(i),
        None => s,
    }
}

/// The version text of a `cargo search` result line `name = "x.y.z"  # …`:
/// after the first `=`, before any `#`, trimmed, without quotes.
pub open spec fn search_version_text(line: Seq<char>) -> Option<Seq<char>> {
    match first_index_of(line, '=') {
        Some(i) => Some(trim_quotes(trim_ws(before_char(line.skip(i + 1), '#')))),
        None => None,
    }
}

/// Why the latest binstall version could not be read from `cargo search`.
#[derive(Clone, Debug, PartialEq, Eq)]
pub enum BinstallVersionError {
    /// The search printed nothing.
    NoResults,
    /// The first result line has no `=`.
    UnexpectedOutput(String),
    /// The version on the result line does not parse.
    Unparseable(String),
}

/// `str::lines`.
pub fn split_lines(s: &str) -> (r: Vec<String>)
    ensures
        r.deep_view() == lines_of(s@),
{
    let mut out: Vec<String> = Vec::new();
    let mut rest = owned(s);
    loop
        invariant
            out.deep_view() + lines_of(rest@) == lines_of(s@),
        decreases rest@.len(),
    {
        let n = rest.unicode_len();
        if n == 0 {
            assert(out.deep_view() + Seq::<Seq<char>>::empty() =~= out.deep_view());
            return out;
        }
        match crate::text::find_char(rest.as_str(), '\n') {
            Some(i) => {
                proof {
                    crate::text::lemma_first_index_in_range(rest@, '\n');
                }
                let head = slice_chars(rest.as_str(), 0, i);
                assert(head@ =~= rest@.take(i as int));
                let line = strip_cr_exec(head);
                let tail = slice_chars(rest.as_str(), i + 1, n);
                assert(tail@ =~= rest@.skip(i + 1));
                let ghost before = out.deep_view();
                let ghost l = line@;
                out.push(line);
                assert(out.deep_view() =~= before.push(l));
                assert(before + (seq![l] + lines_of(tail@)) =~= out.deep_view() + lines_of(tail@));
                rest = tail;
            },
            None => {
                let ghost before = out.deep_view();
                let ghost l = rest@;
                out.push(rest);
                assert(out.deep_view() =~= before + seq![l]);
                return out;
            },
        }
    }
}

fn trim_quotes_exec(s: &str) -> (r: String)
    ensures
        r@ == trim_quotes(s@),
{
    let mut cur = owned(s);
    loop
        invariant
            trim_quotes(cur@) == trim_quotes(s@),
        decreases cur@.len(),
    {
        let n = cur.unicode_len();
        if n > 0 && cur.as_str().get_char(0) == '"' {
            let next = slice_chars(cur.as_str(), 1, n);
            assert(next@ =~= cur@.drop_first());
            cur = next;
        } else if n > 0 && cur.as_str().get_char(n - 1) == '"' {
            let next = slice_chars(cur.as_str(), 0, n - 1);
            assert(next@ =~= cur@.drop_last());
            cur = next;
        } else {
            return cur;
        }
    }
}

/// The version `cargo search cargo-binstall --limit 1` reports on its
/// first non-blank line.
pub fn parse_latest_binstall_version(stdout: &str) -> (r: Result<SemVersion, BinstallVersionError>)
    ensures
        match first_nonblank(lines_of(stdout@)) {
            None => r == Err::<SemVersion, BinstallVersionError>(BinstallVersionError::NoResults),
            Some(line) => match search_version_text(line) {
                None => r matches Err(BinstallVersionError::UnexpectedOutput(l)) && l@ == line,
                Some(t) => match semver_parse(t) {
                    Some(p) => r matches Ok(v) && v@ == p,
                    None => r matches Err(BinstallVersionError::Unparseable(l)) && l@ == line,
                },
            },
        },
{
    let lines = split_lines(stdout);
    let ghost all = lines.deep_view();
    let mut i: usize = 0;
    assert(all.skip(0) =~= all);
    while i < lines.len() && trim(lines[i].as_str()).unicode_len() == 0
        invariant
            i <= lines@.len(),
            all == lines.deep_view(),
            all == lines_of(stdout@),
            first_nonblank(all.skip(i as int)) == first_nonblank(all),
        decreases lines@.len() - i,
    {
        let ghost rest = all.skip(i as int);
        assert(rest[0] == lines@[i as int]@);
        assert(rest.drop_first() =~= all.skip(i + 1));
        i = i + 1;
    }
    if i == lines.len() {
        assert(all.skip(i as int).len() == 0);
        return Err(BinstallVersionError::NoResults);
    }
    let ghost rest = all.skip(i as int);
    assert(rest[0] == lines@[i as int]@);
    let line = &lines[i];
    let eq = match crate::text::find_char(line.as_str(), '=') {
        Some(k) => k,
        None => return Err(BinstallVersionError::UnexpectedOutput(line.clone())),
    };
    proof {
        crate::text::lemma_first_index_in_range(line@, '=');
    }
    let n = line.unicode_len();
    let rhs = slice_chars(line.as_str(), eq + 1, n);
    assert(rhs@ =~= line@.skip(eq + 1));
    let head = match crate::text::find_char(rhs.as_str(), '#') {
        Some(h) => {
            proof {
                crate::text::lemma_first_index_in_range(rhs@, '#');
            }
            let t = slice_chars(rhs.as_str(), 0, h);
            assert(t@ =~= rhs@.take(h as int));
            t
        },
        None => rhs,
    };
    let trimmed = trim(head.as_str());
    let text = trim_quotes_exec(trimmed.as_str());
    match parse_version(text.as_str()) {
        Some(v) => Ok(v),
        None => Err(BinstallVersionError::Unparseable(line.clone())),
    }
}

/// What to do about `cargo-binstall` itself.
#[derive(Clone, Copy, Debug, PartialEq, Eq)]
pub enum BinstallAction {
    /// It is missing: install it.
    Install,
    /// It is older than the latest release: reinstall it.
    Update,
    /// It is current.
    Keep,
    /// The latest release could not be checked: keep it, with a warning.
    KeepUnchecked,
}

/// `installed` is the version binstall reports, `latest` the one the search
/// reported (`None` when the search failed).
pub fn binstall_action(installed: Option<&SemVersion>, latest: Option<&SemVersion>) -> (r: BinstallAction)
    ensures
        installed is None ==> r == BinstallAction::Install,
        installed is Some && latest is None ==> r == BinstallAction::KeepUnchecked,
        installed is Some && latest is Some ==> r == (if semver_order(installed->0@, latest->0@) >= 0 {
            BinstallAction::Keep
        } else {
            BinstallAction::Update
        }),
{
    match installed {
        None => BinstallAction::Install,
        Some(i) => match latest {
            None => BinstallAction::KeepUnchecked,
            Some(l) => if compare_versions(i, l) >= 0 {
                BinstallAction::Keep
            } else {
                BinstallAction::Update
            },
        },
    }
}

/// One `cargo binstall` run: the binary it installs and its arguments.
#[derive(Clone, Debug, PartialEq, Eq)]
pub struct BinstallStep {
    pub bin: String,
    pub args: Vec<String>,
}

/// What installing one toolchain crate takes.
#[derive(Clone, Debug, PartialEq, Eq)]
pub enum CrateInstallPlan {
    /// The crate has no research build: it is skipped, with this note.
    Skip { note: String },
    /// Install each of its binaries under the channel's names.
    Install { crate_name: String, steps: Vec<BinstallStep> },
}

/// The version a research resolution pins.
pub open spec fn research_pin(research: Option<ResearchVersion>) -> Option<Seq<char>> {
    match research {
        Some(ResearchVersion::Pinned(v)) => Some(v@),
        _ => None,
    }
}

pub open spec fn no_research_note(crate_name: Seq<char>) -> Seq<char> {
    "note: `"@ + crate_name
        + "` has no research build on crates.io; skipping it on the research toolchain (use the stable channel for this tool)"@
}

pub open spec fn deref_research(r: Option<&ResearchVersion>) -> Option<ResearchVersion> {
    match r {
        Some(v) => Some(*v),
        None => None,
    }
}

/// The plan for one toolchain crate on `channel`: crate and binaries under
/// the channel's names, pinned to the research version when one was
/// resolved (the research channel), skipped when there is none.
pub fn crate_install_plan(
    spec: &PackageSpec,
    channel: ToolchainChannel,
    latest: bool,
    research: Option<&ResearchVersion>,
) -> (r: CrateInstallPlan)
    ensures
        deref_research(research) == Some(ResearchVersion::Absent) ==> (r matches CrateInstallPlan::Skip {
            note,
        } && note@ == no_research_note(channel_binary_name(spec.crate_name@, channel))),
        deref_research(research) != Some(ResearchVersion::Absent) ==> (r matches CrateInstallPlan::Install {
            crate_name,
            steps,
        } && crate_name@ == channel_binary_name(spec.crate_name@, channel) && steps@.len()
            == spec.bins@.len() && forall|i: int|
            0 <= i < steps@.len() ==> (#[trigger] steps@[i]).bin@ == channel_binary_name(
                spec.bins@[i]@,
                channel,
            ) && steps@[i].args.deep_view() == binstall_arg_list(
                crate_name@,
                steps@[i].bin@,
                latest,
                research_pin(deref_research(research)),
            )),
{
    let crate_name = delegated_binary_name_for_channel(spec.crate_name.as_str(), channel);
    let version: Option<&str> = match research {
        Some(ResearchVersion::Absent) => {
            let note = concat3(
                "note: `",
                crate_name.as_str(),
                "` has no research build on crates.io; skipping it on the research toolchain (use the stable channel for this tool)",
            );
            return CrateInstallPlan::Skip { note };
        },
        Some(ResearchVersion::Pinned(v)) => Some(v.as_str()),
        None => None,
    };
    let mut steps: Vec<BinstallStep> = Vec::new();
    let mut i: usize = 0;
    while i < spec.bins.len()
        invariant
            i <= spec.bins@.len(),
            steps@.len() == i,
            crate_name@ == channel_binary_name(spec.crate_name@, channel),
            version.deep_view() == research_pin(deref_research(research)),
            forall|k: int|
                0 <= k < i ==> (#[trigger] steps@[k]).bin@ == channel_binary_name(
                    spec.bins@[k]@,
                    channel,
                ) && steps@[k].args.deep_view() == binstall_arg_list(
                    crate_name@,
                    steps@[k].bin@,
                    latest,
                    research_pin(deref_research(research)),
                ),
        decreases spec.bins@.len() - i,
    {
        let bin = delegated_binary_name_for_channel(spec.bins[i].as_str(), channel);
        let args = binstall_args(crate_name.as_str(), bin.as_str(), latest, version);
        steps.push(BinstallStep { bin, args });
        i = i + 1;
    }
    CrateInstallPlan::Install { crate_name, steps }
}

/// The runs installing an external tool: its binaries under their plain
/// names, never pinned.
pub fn external_install_steps(spec: &PackageSpec, latest: bool) -> (r: Vec<BinstallStep>)
    ensures
        r@.len() == spec.bins@.len(),
        forall|i: int|
            0 <= i < r@.len() ==> (#[trigger] r@[i]).bin@ == spec.bins@[i]@ && r@[i].args.deep_view()
                == binstall_arg_list(spec.crate_name@, spec.bins@[i]@, latest, None),
{
    let mut steps: Vec<BinstallStep> = Vec::new();
    let mut i: usize = 0;
    while i < spec.bins.len()
        invariant
            i <= spec.bins@.len(),
            steps@.len() == i,
            forall|k: int|
                0 <= k < i ==> (#[trigger] steps@[k]).bin@ == spec.bins@[k]@ && steps@[k].args.deep_view()
                    == binstall_arg_list(spec.crate_name@, spec.bins@[k]@, latest, None),
        decreases spec.bins@.len() - i,
    {
        let args = binstall_args(spec.crate_name.as_str(), spec.bins[i].as_str(), latest, None);
        steps.push(BinstallStep { bin: spec.bins[i].clone(), args });
        i = i + 1;
    }
    steps
}

/// The error line for a required binary that did not install.
pub fn binstall_failure_line(bin: &str, crate_name: &str, err: &str) -> (r: String)
    ensures
        r@ == "error: `"@ + bin@ + "` (crate `"@ + crate_name@ + "`) could not be installed: "@
            + err@,
{
    let head = concat3("error: `", bin, "` (crate `");
    let mid = concat3(head.as_str(), crate_name, "`) could not be installed: ");
    concat(mid.as_str(), err)
}

/// The note for an optional external tool that did not install.
pub fn external_tool_note(bin: &str, crate_name: &str, err: &str) -> (r: String)
    ensures
        r@ == "note: optional external tool `"@ + bin@ + "` (crate `"@ + crate_name@
            + "`) is unavailable; skipping it: "@ + err@,
{
    let head = concat3("note: optional external tool `", bin, "` (crate `");
    let mid = concat3(head.as_str(), crate_name, "`) is unavailable; skipping it: ");
    concat(mid.as_str(), err)
}

/// A toolchain install fails when any required binary did not install,
/// naming each of them.
pub fn toolchain_install_result(failed: &Vec<String>) -> (r: Result<(), String>)
    ensures
        failed@.len() == 0 ==> r is Ok,
        failed@.len() > 0 ==> (r matches Err(m) && m@ == "could not install "@ + decimal_text(
            failed@.len(),
        ) + " required toolchain binaries: "@ + join_spec(failed.deep_view(), ", "@)),
{
    if failed.len() == 0 {
        return Ok(());
    }
    let count = u64_text(failed.len() as u64);
    let head = concat3("could not install ", count.as_str(), " required toolchain binaries: ");
    Err(concat(head.as_str(), join(failed, ", ").as_str()))
}

/// The first line that is not blank, trimmed.
pub open spec fn first_trimmed_line(lines: Seq<Seq<char>>) -> Option<Seq<char>>
    decreases lines.len(),
{
    if lines.len() == 0 {
        None
    } else if trim_ws(lines[0]).len() > 0 {
        Some(trim_ws(lines[0]))
    } else {
        first_trimmed_line(lines.drop_first())
    }
}

/// The version a program reports for `--version`: its first non-blank
/// output line, trimmed.
pub fn program_version_line(stdout: &str) -> (r: Option<String>)
    ensures
        r.deep_view() == first_trimmed_line(lines_of(stdout@)),
{
    let lines = split_lines(stdout);
    let ghost all = lines.deep_view();
    let mut i: usize = 0;
    assert(all.skip(0) =~= all);
    while i < lines.len()
        invariant
            i <= lines@.len(),
            all == lines.deep_view(),
            all == lines_of(stdout@),
            first_trimmed_line(all.skip(i as int)) == first_trimmed_line(all),
        decreases lines@.len() - i,
    {
        let ghost rest = all.skip(i as int);
        assert(rest[0] == lines@[i as int]@);
        assert(rest.drop_first() =~= all.skip(i + 1));
        let t = trim(lines[i].as_str());
        if t.unicode_len() > 0 {
            return Some(t);
        }
        i = i + 1;
    }
    assert(all.skip(i as int).len() == 0);
    None
}

} // verus!
