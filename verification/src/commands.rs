//! Command-line routing: which subcommands are built in, which are handed
//! to a `greentic-<name>` executable, the help path, and the small choices
//! the coverage and component commands make.
use vstd::prelude::*;

use crate::text::{concat, concat3, decimal_text, ends_with, has_prefix, has_suffix, map_char, owned, replace_char, starts_with, str_eq, strip_prefix, ascii_lower, to_ascii_lowercase, u64_text};

verus! {

/// Subcommands this executable handles itself.
pub open spec fn known_subcommand(s: Seq<char>) -> bool {
    ||| s == "flow"@
    ||| s == "pack"@
    ||| s == "component"@
    ||| s == "config"@
    ||| s == "coverage"@
    ||| s == "mcp"@
    ||| s == "gui"@
    ||| s == "secrets"@
    ||| s == "tools"@
    ||| s == "install"@
    ||| s == "cbor"@
    ||| s == "wizard"@
    ||| s == "help"@
}

pub fn is_known_subcommand(subcmd: &str) -> (r: bool)
    ensures
        r == known_subcommand(subcmd@),
{
    str_eq(subcmd, "flow") || str_eq(subcmd, "pack") || str_eq(subcmd, "component") || str_eq(
        subcmd,
        "config",
    ) || str_eq(subcmd, "coverage") || str_eq(subcmd, "mcp") || str_eq(subcmd, "gui") || str_eq(
        subcmd,
        "secrets",
    ) || str_eq(subcmd, "tools") || str_eq(subcmd, "install") || str_eq(subcmd, "cbor") || str_eq(
        subcmd,
        "wizard",
    ) || str_eq(subcmd, "help")
}

/// The executable an unknown first argument is handed to: `greentic-<name>`;
/// `None` for options, built-in subcommands and arguments that are not text.
pub open spec fn external_executable(first: Option<Option<Seq<char>>>) -> Option<Seq<char>> {
    match first {
        Some(Some(s)) => if has_prefix(s, "-"@) || known_subcommand(s) {
            None
        } else {
            Some("greentic-"@ + s)
        },
        _ => None,
    }
}

pub open spec fn opt_text(o: Option<String>) -> Option<Seq<char>> {
    match o {
        Some(s) => Some(s@),
        None => None,
    }
}

/// `args` are the arguments after the executable name; `None` marks one that is not text.
pub fn external_subcommand(args: &Vec<Option<String>>) -> (r: Option<String>)
    ensures
        opt_text(r) == external_executable(
            if args@.len() > 0 {
                Some(opt_text(args@[0]))
            } else {
                None
            },
        ),
{
    if args.len() == 0 {
        return None;
    }
    match &args[0] {
        Some(s) => {
            if starts_with(s.as_str(), "-") || is_known_subcommand(s.as_str()) {
                None
            } else {
                Some(concat("greentic-", s.as_str()))
            }
        },
        None => None,
    }
}

/// Whether help is asked for anywhere in the arguments.
pub fn wants_help(args: &Vec<Option<String>>) -> (r: bool)
    ensures
        r == exists|i: int|
            0 <= i < args@.len() && (opt_text(#[trigger] args@[i]) == Some("-h"@) || opt_text(
                args@[i],
            ) == Some("--help"@)),
{
    let mut i: usize = 0;
    while i < args.len()
        invariant
            i <= args@.len(),
            forall|k: int|
                0 <= k < i ==> !(opt_text(#[trigger] args@[k]) == Some("-h"@) || opt_text(args@[k])
                    == Some("--help"@)),
        decreases args@.len() - i,
    {
        if let Some(a) = &args[i] {
            if str_eq(a.as_str(), "-h") || str_eq(a.as_str(), "--help") {
                return true;
            }
        }
        i = i + 1;
    }
    false
}

/// The subcommand path help is asked about: the words before `-h`/`--help`,
/// leaving out options and the value of `--locale`.
pub open spec fn help_path_spec(args: Seq<Option<String>>, skip_next: bool) -> Seq<Seq<char>>
    decreases args.len(),
{
    if args.len() == 0 {
        Seq::empty()
    } else if skip_next {
        help_path_spec(args.drop_first(), false)
    } else {
        match args[0] {
            None => help_path_spec(args.drop_first(), false),
            Some(a) => if a@ == "-h"@ || a@ == "--help"@ {
                Seq::empty()
            } else if a@ == "--locale"@ {
                help_path_spec(args.drop_first(), true)
            } else if has_prefix(a@, "-"@) {
                help_path_spec(args.drop_first(), false)
            } else {
                seq![a@] + help_path_spec(args.drop_first(), false)
            },
        }
    }
}

pub fn help_subcommand_path(args: &Vec<Option<String>>) -> (r: Vec<String>)
    ensures
        r.deep_view() == help_path_spec(args@, false),
{
    let mut path: Vec<String> = Vec::new();
    let mut skip_next = false;
    let mut i: usize = 0;
    assert(args@.skip(0) =~= args@);
    while i < args.len()
        invariant
            i <= args@.len(),
            path.deep_view() + help_path_spec(args@.skip(i as int), skip_next) == help_path_spec(
                args@,
                false,
            ),
        decreases args@.len() - i,
    {
        let ghost rest = args@.skip(i as int);
        assert(rest.drop_first() =~= args@.skip(i + 1));
        assert(rest[0] == args@[i as int]);
        if skip_next {
            skip_next = false;
        } else {
            match &args[i] {
                None => {},
                Some(a) => {
                    if str_eq(a.as_str(), "-h") || str_eq(a.as_str(), "--help") {
                        assert(path.deep_view() + Seq::<Seq<char>>::empty() =~= path.deep_view());
                        return path;
                    } else if str_eq(a.as_str(), "--locale") {
                        skip_next = true;
                    } else if starts_with(a.as_str(), "-") {
                    } else {
                        let ghost before = path.deep_view();
                        path.push(a.clone());
                        assert(path.deep_view() =~= before.push(a@));
                        assert(before + (seq![a@] + help_path_spec(args@.skip(i + 1), false))
                            =~= path.deep_view() + help_path_spec(args@.skip(i + 1), false));
                    }
                },
            }
        }
        i = i + 1;
    }
    assert(path.deep_view() + Seq::<Seq<char>>::empty() =~= path.deep_view());
    path
}

/// Whether localized help is rendered here: not for the passthrough
/// subcommands, whose own executables answer it.
pub fn help_is_localized(first_command: Option<&str>) -> (r: bool)
    ensures
        r == match first_command {
            Some(c) => !(c@ == "flow"@ || c@ == "pack"@ || c@ == "component"@ || c@ == "gui"@),
            None => true,
        },
{
    match first_command {
        Some(c) => !(str_eq(c, "flow") || str_eq(c, "pack") || str_eq(c, "component") || str_eq(c, "gui")),
        None => true,
    }
}

/// `pack run …` goes to the runner CLI without the `run`; any other `pack …` to `greentic-pack`.
pub fn pack_delegate(args: &Vec<Option<String>>) -> (r: (&'static str, usize))
    ensures
        (args@.len() > 0 && opt_text(args@[0]) == Some("run"@)) ==> r.0@ == "greentic-runner-cli"@
            && r.1 == 1,
        !(args@.len() > 0 && opt_text(args@[0]) == Some("run"@)) ==> r.0@ == "greentic-pack"@ && r.1
            == 0,
{
    if args.len() > 0 {
        if let Some(a) = &args[0] {
            if str_eq(a.as_str(), "run") {
                return ("greentic-runner-cli", 1);
            }
        }
    }
    ("greentic-pack", 0)
}

/// An environment flag is on when it is `1` or `true` in any case.
pub open spec fn flag_on(value: Option<Seq<char>>) -> bool {
    match value {
        Some(v) => v == "1"@ || ascii_lower(v) == "true"@,
        None => false,
    }
}

pub fn env_flag_is_true(value: Option<&str>) -> (r: bool)
    ensures
        r == flag_on(value.deep_view()),
{
    match value {
        Some(v) => str_eq(v, "1") || str_eq(to_ascii_lowercase(v).as_str(), "true"),
        None => false,
    }
}

/// `--locked` unless cargo works offline.
pub fn cargo_args_for_network(offline: bool) -> (r: Vec<&'static str>)
    ensures
        offline ==> r@.len() == 0,
        !offline ==> r@.len() == 1 && r@[0]@ == "--locked"@,
{
    let mut args: Vec<&'static str> = Vec::new();
    if !offline {
        args.push("--locked");
    }
    args
}

/// The component a flow names: a path under the components directory when
/// there is one (its full name, else its short name when only that exists),
/// or the name itself.
#[derive(Clone, Debug, PartialEq, Eq)]
pub enum ComponentTarget {
    Direct(String),
    Path(String),
}

impl ComponentTarget {
    /// The id or path the target names.
    pub fn as_ref(&self) -> (r: &str)
        ensures
            r@ == (match *self {
                ComponentTarget::Direct(id) => id@,
                ComponentTarget::Path(p) => p@,
            }),
    {
        match self {
            ComponentTarget::Direct(id) => id.as_str(),
            ComponentTarget::Path(p) => p.as_str(),
        }
    }
}

/// The short name of a qualified component id: the part after its last `.`, `:` or `/`.
pub open spec fn short_name_spec(name: Seq<char>) -> Seq<char>
    decreases name.len(),
{
    if name.len() == 0 {
        name
    } else if name.last() == '.' || name.last() == ':' || name.last() == '/' {
        Seq::empty()
    } else {
        short_name_spec(name.drop_last()).push(name.last())
    }
}

pub fn component_short_name(name: &str) -> (r: Option<String>)
    ensures
        match r {
            Some(s) => s@ == short_name_spec(name@) && s@.len() > 0,
            None => short_name_spec(name@).len() == 0,
        },
{
    let n = name.unicode_len();
    let mut start: usize = n;
    assert(name@.take(n as int) =~= name@);
    while start > 0 && name.get_char(start - 1) != '.' && name.get_char(start - 1) != ':'
        && name.get_char(start - 1) != '/'
        invariant
            n == name@.len(),
            start <= n,
            short_name_spec(name@) == short_name_spec(name@.take(start as int)) + name@.subrange(
                start as int,
                n as int,
            ),
        decreases start,
    {
        let c = name.get_char(start - 1);
        let ghost pre = name@.take(start as int);
        assert(pre.drop_last() =~= name@.take(start - 1));
        assert(pre.last() == c);
        assert(name@.subrange(start - 1, n as int) =~= seq![c] + name@.subrange(start as int, n as int));
        assert(short_name_spec(name@.take(start - 1)).push(c) + name@.subrange(start as int, n as int)
            =~= short_name_spec(name@.take(start - 1)) + name@.subrange(start - 1, n as int));
        start = start - 1;
    }
    if start > 0 {
        let ghost pre = name@.take(start as int);
        assert(pre.last() == name@[start - 1]);
    }
    assert(short_name_spec(name@.take(start as int)).len() == 0);
    assert(short_name_spec(name@) =~= name@.subrange(start as int, n as int));
    if start == n {
        return None;
    }
    Some(crate::text::slice_chars(name, start, n))
}

/// Where a component is read from: `candidate` (`root/name`) when it
/// exists, else `short` (`root/<short name>`) when that exists, else the
/// candidate anyway; without a root, the name itself.
pub fn component_target(
    name: &str,
    root: Option<&str>,
    candidate_exists: bool,
    short_path: Option<&str>,
    short_exists: bool,
) -> (r: ComponentTarget)
    ensures
        match root {
            None => r matches ComponentTarget::Direct(d) && d@ == name@,
            Some(dir) => {
                let candidate = crate::config::join_path(dir@, name@);
                if candidate_exists {
                    r matches ComponentTarget::Path(p) && p@ == candidate
                } else if short_path is Some && short_exists {
                    r matches ComponentTarget::Path(p) && p@ == short_path->0@
                } else {
                    r matches ComponentTarget::Path(p) && p@ == candidate
                }
            },
        },
{
    match root {
        None => ComponentTarget::Direct(owned(name)),
        Some(dir) => {
            let candidate = crate::config::path_join(dir, name);
            if candidate_exists {
                return ComponentTarget::Path(candidate);
            }
            if let Some(short) = short_path {
                if short_exists {
                    return ComponentTarget::Path(owned(short));
                }
            }
            ComponentTarget::Path(candidate)
        },
    }
}

/// Why the component tool could not be found.
#[derive(Clone, Debug, PartialEq, Eq)]
pub enum DelegateError {
    /// The configured path does not exist.
    ConfiguredMissing(String),
    /// Not configured and not on the search path.
    NotFound,
}

/// The component tool: the configured path (which must exist), else the one
/// on the search path.
pub fn resolve_component_program(
    configured: Option<&str>,
    configured_exists: bool,
    on_path: Option<&str>,
) -> (r: Result<String, DelegateError>)
    ensures
        match (configured, on_path) {
            (Some(c), _) => if configured_exists {
                r matches Ok(p) && p@ == c@
            } else {
                r matches Err(DelegateError::ConfiguredMissing(p)) && p@ == c@
            },
            (None, Some(p)) => r matches Ok(x) && x@ == p@,
            (None, None) => r == Err::<String, DelegateError>(DelegateError::NotFound),
        },
{
    if let Some(c) = configured {
        if !configured_exists {
            return Err(DelegateError::ConfiguredMissing(owned(c)));
        }
        return Ok(owned(c));
    }
    match on_path {
        Some(p) => Ok(owned(p)),
        None => Err(DelegateError::NotFound),
    }
}

/// `n.to_string()` for a signed number.
pub open spec fn signed_text(n: int) -> Seq<char> {
    if n < 0 {
        "-"@ + decimal_text((-n) as nat)
    } else {
        decimal_text(n as nat)
    }
}

fn i32_text(n: i32) -> (r: String)
    ensures
        r@ == signed_text(n as int),
{
    if n < 0 {
        let magnitude: u64 = (0i64 - (n as i64)) as u64;
        concat("-", u64_text(magnitude).as_str())
    } else {
        u64_text(n as u64)
    }
}

/// A delegated component command must succeed; otherwise it fails naming the
/// program, the command and its exit code (`0` when the process reported none).
pub fn delegate_outcome(program: &str, label: &str, success: bool, code: Option<i32>) -> (r: Result<
    (),
    String,
>)
    ensures
        success ==> r is Ok,
        !success ==> (r matches Err(m) && m@ == "`"@ + program@ + "` "@ + label@
            + " failed with exit code "@ + signed_text(
            match code {
                Some(c) => c as int,
                None => 0,
            },
        )),
{
    if success {
        return Ok(());
    }
    let c: i32 = match code {
        Some(c) => c,
        None => 0,
    };
    let head = concat3("`", program, "` ");
    let mid = concat3(head.as_str(), label, " failed with exit code ");
    Err(concat(mid.as_str(), i32_text(c).as_str()))
}

/// The locale the command line asks for: the value after the first
/// `--locale`, or what follows `--locale=`.
pub open spec fn cli_locale_spec(args: Seq<Option<String>>) -> Option<Seq<char>>
    decreases args.len(),
{
    if args.len() == 0 {
        None
    } else {
        match args[0] {
            Some(a) => if a@ == "--locale"@ {
                if args.len() > 1 {
                    opt_text(args[1])
                } else {
                    None
                }
            } else if has_prefix(a@, "--locale="@) {
                Some(a@.skip(9))
            } else {
                cli_locale_spec(args.drop_first())
            },
            None => cli_locale_spec(args.drop_first()),
        }
    }
}

pub fn cli_locale_from_args(args: &Vec<Option<String>>) -> (r: Option<String>)
    ensures
        opt_text(r) == cli_locale_spec(args@),
{
    proof {
        reveal_strlit("--locale=");
    }
    assert("--locale="@.len() == 9);
    let mut i: usize = 0;
    assert(args@.skip(0) =~= args@);
    while i < args.len()
        invariant
            i <= args@.len(),
            cli_locale_spec(args@.skip(i as int)) == cli_locale_spec(args@),
            "--locale="@.len() == 9,
        decreases args@.len() - i,
    {
        let ghost rest = args@.skip(i as int);
        assert(rest[0] == args@[i as int]);
        assert(rest.drop_first() =~= args@.skip(i + 1));
        if let Some(a) = &args[i] {
            if str_eq(a.as_str(), "--locale") {
                if i + 1 < args.len() {
                    assert(rest[1] == args@[i + 1]);
                    return match &args[i + 1] {
                        Some(v) => Some(v.clone()),
                        None => None,
                    };
                }
                return None;
            }
            if let Some(v) = crate::text::strip_prefix(a.as_str(), "--locale=") {
                return Some(v);
            }
        }
        i = i + 1;
    }
    None
}

/// `path` below `root`, as `Path::strip_prefix` takes it: the rest after
/// `root` and its separator, nothing for `root` itself.
pub open spec fn below_root(path: Seq<char>, root: Seq<char>) -> Option<Seq<char>> {
    if path == root {
        Some(Seq::empty())
    } else if has_suffix(root, "/"@) && has_prefix(path, root) {
        Some(path.skip(root.len() as int))
    } else if has_prefix(path, root + "/"@) {
        Some(path.skip(root.len() + 1int))
    } else {
        None
    }
}

/// A coverage report's file name as the policy names it: relative to the
/// repository root when its canonical path lies below it, else as written;
/// either way with `/` separators.
pub fn relativize_path(root: &str, canonical: Option<&str>, raw: &str) -> (r: String)
    ensures
        r@ == (match canonical {
            Some(c) => match below_root(c@, root@) {
                Some(rel) => map_char(rel, '\\', '/'),
                None => map_char(raw@, '\\', '/'),
            },
            None => map_char(raw@, '\\', '/'),
        }),
{
    proof {
        reveal_strlit("/");
    }
    if let Some(c) = canonical {
        if str_eq(c, root) {
            assert(map_char(Seq::<char>::empty(), '\\', '/') =~= Seq::<char>::empty());
            return String::new();
        }
        if ends_with(root, "/") {
            if let Some(rel) = strip_prefix(c, root) {
                return replace_char(rel.as_str(), '\\', '/');
            }
            proof {
                if has_prefix(c@, root@ + "/"@) {
                    assert(c@.subrange(0, root@.len() as int) =~= root@);
                }
            }
        } else {
            let with_sep = concat(root, "/");
            if let Some(rel) = strip_prefix(c, with_sep.as_str()) {
                return replace_char(rel.as_str(), '\\', '/');
            }
        }
    }
    replace_char(raw, '\\', '/')
}

} // verus!
