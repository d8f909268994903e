//! Scaffolding and packing components: the versions pinned from the lock
//! file and from the interfaces crate's WIT packages, the placeholders a new
//! component's templates are rendered with, and where a packed component goes.
use vstd::prelude::*;

use convert_case::Casing;

use crate::config::{join_path, path_join};
use crate::install::{sanitize_relative_path, split_spec, InstallError};
use crate::semver::{compare_versions, parse_version, semver_display, semver_order, semver_parse, version_text, SemVersion};
use crate::text::{concat, concat3, has_prefix, owned, replace_all, replace_str, strip_prefix, trim, trim_ws};

verus! {

// ---------------------------------------------------------------------------
// Errors
// ---------------------------------------------------------------------------

/// Why scaffolding or packing a component stopped.
#[derive(Clone, Debug, PartialEq, Eq)]
pub enum ScaffoldError {
    /// A component name that is blank.
    EmptyName,
    /// A version that is not semver, and what it was the version of.
    InvalidSemver { version: String, owner: String },
    /// The lock file pins no version of the crate.
    CrateNotLocked { crate_name: String, lock_path: String },
    /// No WIT package with the prefix in the namespace directory.
    PackageNotFound { prefix: String, namespace_dir: String },
    /// An output directory given as an absolute path.
    AbsoluteOutDir,
    /// An output directory that climbs with `..`.
    ParentOutDir,
    /// Neither `CARGO_HOME` nor `HOME` is set.
    NoCargoHome,
}

pub open spec fn scaffold_error_text(e: ScaffoldError) -> Seq<char> {
    match e {
        ScaffoldError::EmptyName => "component name cannot be empty"@,
        ScaffoldError::InvalidSemver { version, owner } => "invalid semver `"@ + version@ + "` for "@
            + owner@,
        ScaffoldError::CrateNotLocked { crate_name, lock_path } => "crate `"@ + crate_name@
            + "` not found in "@ + lock_path@,
        ScaffoldError::PackageNotFound { prefix, namespace_dir } => "unable to locate WIT package `"@
            + prefix@ + "` under "@ + namespace_dir@,
        ScaffoldError::AbsoluteOutDir => "--out-dir must be relative to the component directory"@,
        ScaffoldError::ParentOutDir => "--out-dir must not contain parent segments (`..`)"@,
        ScaffoldError::NoCargoHome => "unable to determine CARGO_HOME; set the environment variable explicitly"@,
    }
}

impl ScaffoldError {
    /// What the error reads as.
    pub fn message(&self) -> (r: String)
        ensures
            r@ == scaffold_error_text(*self),
    {
        match self {
            ScaffoldError::EmptyName => owned("component name cannot be empty"),
            ScaffoldError::InvalidSemver { version, owner } => {
                let head = concat3("invalid semver `", version.as_str(), "` for ");
                concat(head.as_str(), owner.as_str())
            },
            ScaffoldError::CrateNotLocked { crate_name, lock_path } => {
                let head = concat3("crate `", crate_name.as_str(), "` not found in ");
                concat(head.as_str(), lock_path.as_str())
            },
            ScaffoldError::PackageNotFound { prefix, namespace_dir } => {
                let head = concat3("unable to locate WIT package `", prefix.as_str(), "` under ");
                concat(head.as_str(), namespace_dir.as_str())
            },
            ScaffoldError::AbsoluteOutDir => owned("--out-dir must be relative to the component directory"),
            ScaffoldError::ParentOutDir => owned("--out-dir must not contain parent segments (`..`)"),
            ScaffoldError::NoCargoHome => owned(
                "unable to determine CARGO_HOME; set the environment variable explicitly",
            ),
        }
    }
}

// ---------------------------------------------------------------------------
// The highest version among candidates
// ---------------------------------------------------------------------------

/// A candidate that is there but is not a semver version.
pub open spec fn unparsable(c: Option<Seq<char>>) -> bool {
    match c {
        Some(t) => semver_parse(t) is None,
        None => false,
    }
}

/// `k` is the first candidate that does not parse.
pub open spec fn first_unparsable_at(cands: Seq<Option<Seq<char>>>, k: int) -> bool {
    &&& 0 <= k < cands.len()
    &&& unparsable(cands[k])
    &&& forall|j: int| 0 <= j < k ==> !unparsable(#[trigger] cands[j])
}

pub open spec fn all_parse(cands: Seq<Option<Seq<char>>>) -> bool {
    forall|j: int| 0 <= j < cands.len() ==> !unparsable(#[trigger] cands[j])
}

/// The index of the highest candidate, the earliest of equal ones.
pub open spec fn best_candidate(cands: Seq<Option<Seq<char>>>) -> Option<int>
    decreases cands.len(),
{
    if cands.len() == 0 {
        None
    } else {
        let b = best_candidate(cands.drop_last());
        match cands.last() {
            None => b,
            Some(t) => match semver_parse(t) {
                None => b,
                Some(p) => match b {
                    None => Some(cands.len() - 1),
                    Some(i) => if semver_order(p, semver_parse(cands[i]->0)->0) == 1 {
                        Some(cands.len() - 1)
                    } else {
                        Some(i)
                    },
                },
            },
        }
    }
}

/// The chosen version is one of the candidates: one that is there and parses.
pub proof fn lemma_best_candidate(cands: Seq<Option<Seq<char>>>)
    ensures
        best_candidate(cands) matches Some(i) ==> 0 <= i < cands.len() && cands[i] is Some
            && semver_parse(cands[i]->0) is Some,
    decreases cands.len(),
{
    if cands.len() > 0 {
        lemma_best_candidate(cands.drop_last());
    }
}

/// The first candidate that does not parse, or else the highest one with
/// its parsed version.
pub fn best_version_index(cands: &Vec<Option<String>>) -> (r: Result<Option<(usize, SemVersion)>, usize>)
    ensures
        match r {
            Err(k) => first_unparsable_at(cands.deep_view(), k as int),
            Ok(None) => all_parse(cands.deep_view()) && best_candidate(cands.deep_view()) is None,
            Ok(Some((i, v))) => all_parse(cands.deep_view()) && best_candidate(cands.deep_view())
                == Some(i as int) && semver_parse(cands.deep_view()[i as int]->0) == Some(v@),
        },
{
    let ghost cv = cands.deep_view();
    let mut best: Option<(usize, SemVersion)> = None;
    let mut i: usize = 0;
    while i < cands.len()
        invariant
            cv == cands.deep_view(),
            i <= cv.len(),
            forall|j: int| 0 <= j < i ==> !unparsable(#[trigger] cv[j]),
            match best {
                None => best_candidate(cv.take(i as int)) is None,
                Some((k, v)) => best_candidate(cv.take(i as int)) == Some(k as int) && k < i
                    && cv[k as int] is Some && semver_parse(cv[k as int]->0) == Some(v@),
            },
        decreases cv.len() - i,
    {
        let ghost next = cv.take(i + 1);
        assert(next.drop_last() =~= cv.take(i as int));
        assert(next.last() == cv[i as int]);
        proof {
            lemma_best_candidate(cv.take(i as int));
        }
        match &cands[i] {
            None => {},
            Some(text) => {
                assert(cv[i as int] == Some(text@));
                match parse_version(text.as_str()) {
                    None => {
                        return Err(i);
                    },
                    Some(parsed) => {
                        let better = match &best {
                            None => true,
                            Some((k, current)) => {
                                assert(next[*k as int] == cv[*k as int]);
                                compare_versions(&parsed, current) == 1
                            },
                        };
                        if better {
                            best = Some((i, parsed));
                        }
                    },
                }
            },
        }
        i = i + 1;
    }
    assert(cv.take(cv.len() as int) =~= cv);
    Ok(best)
}

// ---------------------------------------------------------------------------
// Pinned versions
// ---------------------------------------------------------------------------

/// One `[[package]]` of a lock file.
#[derive(Clone, Debug)]
pub struct LockPackage {
    pub name: String,
    pub version: String,
}

/// The lock file's versions of `crate_name`, in order.
pub open spec fn lock_candidates(pkgs: Seq<LockPackage>, crate_name: Seq<char>) -> Seq<Option<Seq<char>>> {
    Seq::new(
        pkgs.len(),
        |i: int|
            if pkgs[i].name@ == crate_name {
                Some(pkgs[i].version@)
            } else {
                None
            },
    )
}

/// The highest version of `crate_name` the lock file pins, as written there.
pub fn locked_version(pkgs: &Vec<LockPackage>, crate_name: &str, lock_path: &str) -> (r: Result<String, ScaffoldError>)
    ensures
        ({
            let c = lock_candidates(pkgs@, crate_name@);
            &&& forall|k: int| first_unparsable_at(c, k) ==> (r matches Err(ScaffoldError::InvalidSemver { version, owner })
                && version@ == pkgs@[k].version@ && owner@ == crate_name@)
            &&& all_parse(c) ==> match best_candidate(c) {
                Some(i) => r matches Ok(v) && v@ == pkgs@[i].version@,
                None => r matches Err(ScaffoldError::CrateNotLocked { crate_name: n, lock_path: p })
                    && n@ == crate_name@ && p@ == lock_path@,
            }
        }),
{
    let ghost c = lock_candidates(pkgs@, crate_name@);
    let mut cands: Vec<Option<String>> = Vec::new();
    let mut i: usize = 0;
    while i < pkgs.len()
        invariant
            c == lock_candidates(pkgs@, crate_name@),
            i <= pkgs@.len(),
            cands.deep_view() =~= c.take(i as int),
        decreases pkgs@.len() - i,
    {
        let ghost before = cands.deep_view();
        assert(c.take(i + 1) =~= c.take(i as int).push(c[i as int]));
        if crate::text::str_eq(pkgs[i].name.as_str(), crate_name) {
            cands.push(Some(pkgs[i].version.clone()));
            assert(cands.deep_view() =~= before.push(Some(pkgs@[i as int].version@)));
        } else {
            cands.push(None);
            assert(cands.deep_view() =~= before.push(None));
        }
        i = i + 1;
    }
    assert(c.take(pkgs@.len() as int) =~= c);
    match best_version_index(&cands) {
        Err(k) => {
            assert(c[k as int] == Some(pkgs@[k as int].version@));
            Err(ScaffoldError::InvalidSemver { version: pkgs[k].version.clone(), owner: owned(crate_name) })
        },
        Ok(None) => Err(ScaffoldError::CrateNotLocked { crate_name: owned(crate_name), lock_path: owned(lock_path) }),
        Ok(Some((k, _))) => {
            proof {
                lemma_best_candidate(c);
            }
            Ok(pkgs[k].version.clone())
        },
    }
}

/// The versions of the WIT packages named `<prefix>`: the directory names
/// that start with it, without it.
pub open spec fn prefixed_candidates(names: Seq<Seq<char>>, prefix: Seq<char>) -> Seq<Option<Seq<char>>> {
    Seq::new(
        names.len(),
        |i: int|
            if has_prefix(names[i], prefix) {
                Some(names[i].skip(prefix.len() as int))
            } else {
                None
            },
    )
}

fn prefixed(names: &Vec<String>, prefix: &str) -> (r: Vec<Option<String>>)
    ensures
        r.deep_view() == prefixed_candidates(names.deep_view(), prefix@),
{
    let ghost c = prefixed_candidates(names.deep_view(), prefix@);
    let mut out: Vec<Option<String>> = Vec::new();
    let mut i: usize = 0;
    while i < names.len()
        invariant
            c == prefixed_candidates(names.deep_view(), prefix@),
            i <= names@.len(),
            out.deep_view() =~= c.take(i as int),
        decreases names@.len() - i,
    {
        let ghost before = out.deep_view();
        assert(c.take(i + 1) =~= c.take(i as int).push(c[i as int]));
        let stripped = strip_prefix(names[i].as_str(), prefix);
        let ghost sv = stripped.deep_view();
        assert(sv == c[i as int]);
        out.push(stripped);
        assert(out.deep_view() =~= before.push(sv));
        i = i + 1;
    }
    assert(c.take(names@.len() as int) =~= c);
    out
}

/// The highest version of the WIT package `<prefix>@…` among the
/// directories of the interfaces crate's namespace directory.
pub fn wit_package_version(names: &Vec<String>, prefix: &str, namespace_dir: &str) -> (r: Result<String, ScaffoldError>)
    ensures
        ({
            let c = prefixed_candidates(names.deep_view(), prefix@ + "@"@);
            &&& forall|k: int| first_unparsable_at(c, k) ==> (r matches Err(ScaffoldError::InvalidSemver { version, owner })
                && version@ == c[k]->0 && owner@ == prefix@ + "@"@)
            &&& all_parse(c) ==> match best_candidate(c) {
                Some(i) => r matches Ok(v) && v@ == semver_display(semver_parse(c[i]->0)->0),
                None => r matches Err(ScaffoldError::PackageNotFound { prefix: p, namespace_dir: d })
                    && p@ == prefix@ + "@"@ && d@ == namespace_dir@,
            }
        }),
{
    let full = concat(prefix, "@");
    let cands = prefixed(names, full.as_str());
    match best_version_index(&cands) {
        Err(k) => {
            let version = match &cands[k] {
                Some(t) => t.clone(),
                None => String::new(),
            };
            Err(ScaffoldError::InvalidSemver { version, owner: full })
        },
        Ok(None) => Err(ScaffoldError::PackageNotFound { prefix: full, namespace_dir: owned(namespace_dir) }),
        Ok(Some((_, v))) => Ok(version_text(&v)),
    }
}

/// One directory of the namespace directory: its name, and whether its
/// `package.wit` exports `node` (read only for `component@…` directories).
#[derive(Clone, Debug)]
pub struct WitPackageDir {
    pub name: String,
    pub exports_node: bool,
}

pub open spec fn dir_names(dirs: Seq<WitPackageDir>) -> Seq<Seq<char>> {
    Seq::new(dirs.len(), |i: int| dirs[i].name@)
}

/// The `component@…` versions whose package exports `node`.
pub open spec fn node_candidates(dirs: Seq<WitPackageDir>) -> Seq<Option<Seq<char>>> {
    Seq::new(
        dirs.len(),
        |i: int|
            if has_prefix(dirs[i].name@, "component@"@) && dirs[i].exports_node {
                Some(dirs[i].name@.skip(10))
            } else {
                None
            },
    )
}

/// The component world's version: the highest `component@…` package that
/// exports `node`, else the highest `component@…` package.
pub fn component_world_version(dirs: &Vec<WitPackageDir>, namespace_dir: &str) -> (r: Result<String, ScaffoldError>)
    ensures
        ({
            let all = prefixed_candidates(dir_names(dirs@), "component@"@);
            let node = node_candidates(dirs@);
            &&& forall|k: int| first_unparsable_at(all, k) ==> (r matches Err(ScaffoldError::InvalidSemver { version, owner })
                && version@ == all[k]->0 && owner@ == "component@"@)
            &&& all_parse(all) ==> match best_candidate(node) {
                Some(i) => r matches Ok(v) && v@ == semver_display(semver_parse(node[i]->0)->0),
                None => match best_candidate(all) {
                    Some(i) => r matches Ok(v) && v@ == semver_display(semver_parse(all[i]->0)->0),
                    None => r matches Err(ScaffoldError::PackageNotFound { prefix: p, namespace_dir: d })
                        && p@ == "component@"@ && d@ == namespace_dir@,
                },
            }
        }),
{
    proof {
        reveal_strlit("component@");
    }
    let mut names: Vec<String> = Vec::new();
    let mut node: Vec<Option<String>> = Vec::new();
    let mut i: usize = 0;
    while i < dirs.len()
        invariant
            i <= dirs@.len(),
            "component@"@.len() == 10,
            names.deep_view() =~= dir_names(dirs@).take(i as int),
            node.deep_view() =~= node_candidates(dirs@).take(i as int),
        decreases dirs@.len() - i,
    {
        let ghost names_before = names.deep_view();
        let ghost node_before = node.deep_view();
        let ghost dn = dir_names(dirs@);
        let ghost nc = node_candidates(dirs@);
        assert(dn.take(i + 1) =~= dn.take(i as int).push(dn[i as int]));
        assert(nc.take(i + 1) =~= nc.take(i as int).push(nc[i as int]));
        names.push(dirs[i].name.clone());
        assert(names.deep_view() =~= names_before.push(dn[i as int]));
        if dirs[i].exports_node {
            let stripped = strip_prefix(dirs[i].name.as_str(), "component@");
            let ghost sv = stripped.deep_view();
            assert(sv == nc[i as int]);
            node.push(stripped);
            assert(node.deep_view() =~= node_before.push(sv));
        } else {
            node.push(None);
            assert(node.deep_view() =~= node_before.push(None));
        }
        i = i + 1;
    }
    assert(dir_names(dirs@).take(dirs@.len() as int) =~= dir_names(dirs@));
    assert(node_candidates(dirs@).take(dirs@.len() as int) =~= node_candidates(dirs@));
    assert("component"@ + "@"@ =~= "component@"@) by {
        reveal_strlit("component");
        reveal_strlit("@");
    }
    let all = prefixed(&names, "component@");
    let ghost av = all.deep_view();
    let ghost nv = node.deep_view();
    match best_version_index(&all) {
        Err(k) => {
            let version = match &all[k] {
                Some(t) => t.clone(),
                None => String::new(),
            };
            return Err(ScaffoldError::InvalidSemver { version, owner: owned("component@") });
        },
        Ok(_) => {},
    }
    assert forall|j: int| 0 <= j < nv.len() implies !unparsable(#[trigger] nv[j]) by {
        assert(!unparsable(av[j]));
    }
    match best_version_index(&node) {
        Err(k) => {
            assert(!unparsable(av[k as int]));
            Err(ScaffoldError::InvalidSemver { version: String::new(), owner: owned("component@") })
        },
        Ok(Some((_, v))) => Ok(version_text(&v)),
        Ok(None) => wit_package_version(&names, "component", namespace_dir),
    }
}

/// The versions a new component is pinned to.
#[derive(Clone, Debug)]
pub struct Versions {
    pub interfaces: String,
    pub types: String,
    pub component_runtime: String,
    pub component_wit_version: String,
    pub secrets_wit_version: String,
    pub state_wit_version: String,
    pub http_wit_version: String,
    pub telemetry_wit_version: String,
}

// ---------------------------------------------------------------------------
// Templates
// ---------------------------------------------------------------------------

/// The cases a component name is written in.
#[derive(Clone, Copy, Debug, PartialEq, Eq, Structural)]
pub enum TextCase {
    Kebab,
    Snake,
    Pascal,
}

/// What `convert_case`'s `Casing::to_case` turns a text into in a case.
pub uninterp spec fn cased(text: Seq<char>, case: TextCase) -> Seq<char>;

/// `convert_case::Casing::to_case` in the kebab, snake or pascal case. The
/// result depends on the text and the case alone; nothing more is claimed of it.
#[verifier::external_body]
fn to_case(text: &str, case: TextCase) -> (r: String)
    ensures
        r@ == cased(text@, case),
{
    match case {
        TextCase::Kebab => text.to_case(convert_case::Case::Kebab),
        TextCase::Snake => text.to_case(convert_case::Case::Snake),
        TextCase::Pascal => text.to_case(convert_case::Case::Pascal),
    }
}

/// What the templates of a new component are rendered with.
#[derive(Clone, Debug)]
pub struct TemplateContext {
    pub component_name: String,
    pub component_kebab: String,
    /// Placeholder names and their values, in the order they are filled in.
    pub placeholders: Vec<(String, String)>,
}

/// The placeholders of a component named `kebab`, `snake` and `pascal` in
/// the three cases, pinned to `v`.
pub open spec fn placeholder_list(kebab: Seq<char>, snake: Seq<char>, pascal: Seq<char>, v: Versions) -> Seq<(Seq<char>, Seq<char>)> {
    seq![
        ("component_name"@, kebab),
        ("component_kebab"@, kebab),
        ("component_snake"@, snake),
        ("component_pascal"@, pascal),
        ("component_crate"@, kebab),
        ("component_dir"@, "component-"@ + kebab),
        ("interfaces_version"@, v.interfaces@),
        ("types_version"@, v.types@),
        ("component_runtime_version"@, v.component_runtime@),
        ("component_world_version"@, v.component_wit_version@),
        ("interfaces_guest_version"@, v.interfaces@),
        ("secrets_wit_version"@, v.secrets_wit_version@),
        ("state_wit_version"@, v.state_wit_version@),
        ("http_wit_version"@, v.http_wit_version@),
        ("telemetry_wit_version"@, v.telemetry_wit_version@),
    ]
}

/// The value the first placeholder named `name` is bound to.
pub open spec fn bound_value(ps: Seq<(Seq<char>, Seq<char>)>, name: Seq<char>) -> Option<Seq<char>>
    decreases ps.len(),
{
    if ps.len() == 0 {
        None
    } else if ps[0].0 == name {
        Some(ps[0].1)
    } else {
        bound_value(ps.drop_first(), name)
    }
}

/// Each placeholder is bound to what it names: the component's name in
/// each case and its directory, and every version to the `Versions` field
/// of the same name.
pub open spec fn placeholders_bind(
    ps: Seq<(Seq<char>, Seq<char>)>,
    kebab: Seq<char>,
    snake: Seq<char>,
    pascal: Seq<char>,
    v: Versions,
) -> bool {
    &&& bound_value(ps, "component_name"@) == Some(kebab)
    &&& bound_value(ps, "component_kebab"@) == Some(kebab)
    &&& bound_value(ps, "component_snake"@) == Some(snake)
    &&& bound_value(ps, "component_pascal"@) == Some(pascal)
    &&& bound_value(ps, "component_crate"@) == Some(kebab)
    &&& bound_value(ps, "component_dir"@) == Some("component-"@ + kebab)
    &&& bound_value(ps, "interfaces_version"@) == Some(v.interfaces@)
    &&& bound_value(ps, "interfaces_guest_version"@) == Some(v.interfaces@)
    &&& bound_value(ps, "types_version"@) == Some(v.types@)
    &&& bound_value(ps, "component_runtime_version"@) == Some(v.component_runtime@)
    &&& bound_value(ps, "component_world_version"@) == Some(v.component_wit_version@)
    &&& bound_value(ps, "secrets_wit_version"@) == Some(v.secrets_wit_version@)
    &&& bound_value(ps, "state_wit_version"@) == Some(v.state_wit_version@)
    &&& bound_value(ps, "http_wit_version"@) == Some(v.http_wit_version@)
    &&& bound_value(ps, "telemetry_wit_version"@) == Some(v.telemetry_wit_version@)
}

/// The first binding of `name` is the one at `i`.
proof fn lemma_bound_at(ps: Seq<(Seq<char>, Seq<char>)>, name: Seq<char>, i: int)
    requires
        0 <= i < ps.len(),
        ps[i].0 == name,
        forall|j: int| 0 <= j < i ==> ps[j].0 != name,
    ensures
        bound_value(ps, name) == Some(ps[i].1),
    decreases i,
{
    if i > 0 {
        lemma_bound_at(ps.drop_first(), name, i - 1);
    }
}

/// The placeholders of a new component bind each name to the value of the
/// same name: `secrets_wit_version` to the secrets WIT version, and so on.
pub proof fn lemma_placeholders_bind_their_fields(kebab: Seq<char>, snake: Seq<char>, pascal: Seq<char>, v: Versions)
    ensures
        placeholders_bind(placeholder_list(kebab, snake, pascal, v), kebab, snake, pascal, v),
{
    reveal_strlit("component_name");
    reveal_strlit("component_kebab");
    reveal_strlit("component_snake");
    reveal_strlit("component_pascal");
    reveal_strlit("component_crate");
    reveal_strlit("component_dir");
    reveal_strlit("interfaces_version");
    reveal_strlit("types_version");
    reveal_strlit("component_runtime_version");
    reveal_strlit("component_world_version");
    reveal_strlit("interfaces_guest_version");
    reveal_strlit("secrets_wit_version");
    reveal_strlit("state_wit_version");
    reveal_strlit("http_wit_version");
    reveal_strlit("telemetry_wit_version");
    let ps = placeholder_list(kebab, snake, pascal, v);
    lemma_bound_at(ps, "component_name"@, 0);
    assert("component_name"@.len() != "component_kebab"@.len());
    lemma_bound_at(ps, "component_kebab"@, 1);
    assert("component_name"@.len() != "component_snake"@.len());
    assert("component_kebab"@[10] != "component_snake"@[10]);
    lemma_bound_at(ps, "component_snake"@, 2);
    assert("component_name"@.len() != "component_pascal"@.len());
    assert("component_kebab"@.len() != "component_pascal"@.len());
    assert("component_snake"@.len() != "component_pascal"@.len());
    lemma_bound_at(ps, "component_pascal"@, 3);
    assert("component_name"@.len() != "component_crate"@.len());
    assert("component_kebab"@[10] != "component_crate"@[10]);
    assert("component_snake"@[10] != "component_crate"@[10]);
    assert("component_pascal"@.len() != "component_crate"@.len());
    lemma_bound_at(ps, "component_crate"@, 4);
    assert("component_name"@.len() != "component_dir"@.len());
    assert("component_kebab"@.len() != "component_dir"@.len());
    assert("component_snake"@.len() != "component_dir"@.len());
    assert("component_pascal"@.len() != "component_dir"@.len());
    assert("component_crate"@.len() != "component_dir"@.len());
    lemma_bound_at(ps, "component_dir"@, 5);
    assert("component_name"@.len() != "interfaces_version"@.len());
    assert("component_kebab"@.len() != "interfaces_version"@.len());
    assert("component_snake"@.len() != "interfaces_version"@.len());
    assert("component_pascal"@.len() != "interfaces_version"@.len());
    assert("component_crate"@.len() != "interfaces_version"@.len());
    assert("component_dir"@.len() != "interfaces_version"@.len());
    lemma_bound_at(ps, "interfaces_version"@, 6);
    assert("component_name"@.len() != "types_version"@.len());
    assert("component_kebab"@.len() != "types_version"@.len());
    assert("component_snake"@.len() != "types_version"@.len());
    assert("component_pascal"@.len() != "types_version"@.len());
    assert("component_crate"@.len() != "types_version"@.len());
    assert("component_dir"@[0] != "types_version"@[0]);
    assert("interfaces_version"@.len() != "types_version"@.len());
    lemma_bound_at(ps, "types_version"@, 7);
    assert("component_name"@.len() != "component_runtime_version"@.len());
    assert("component_kebab"@.len() != "component_runtime_version"@.len());
    assert("component_snake"@.len() != "component_runtime_version"@.len());
    assert("component_pascal"@.len() != "component_runtime_version"@.len());
    assert("component_crate"@.len() != "component_runtime_version"@.len());
    assert("component_dir"@.len() != "component_runtime_version"@.len());
    assert("interfaces_version"@.len() != "component_runtime_version"@.len());
    assert("types_version"@.len() != "component_runtime_version"@.len());
    lemma_bound_at(ps, "component_runtime_version"@, 8);
    assert("component_name"@.len() != "component_world_version"@.len());
    assert("component_kebab"@.len() != "component_world_version"@.len());
    assert("component_snake"@.len() != "component_world_version"@.len());
    assert("component_pascal"@.len() != "component_world_version"@.len());
    assert("component_crate"@.len() != "component_world_version"@.len());
    assert("component_dir"@.len() != "component_world_version"@.len());
    assert("interfaces_version"@.len() != "component_world_version"@.len());
    assert("types_version"@.len() != "component_world_version"@.len());
    assert("component_runtime_version"@.len() != "component_world_version"@.len());
    lemma_bound_at(ps, "component_world_version"@, 9);
    assert("component_name"@.len() != "interfaces_guest_version"@.len());
    assert("component_kebab"@.len() != "interfaces_guest_version"@.len());
    assert("component_snake"@.len() != "interfaces_guest_version"@.len());
    assert("component_pascal"@.len() != "interfaces_guest_version"@.len());
    assert("component_crate"@.len() != "interfaces_guest_version"@.len());
    assert("component_dir"@.len() != "interfaces_guest_version"@.len());
    assert("interfaces_version"@.len() != "interfaces_guest_version"@.len());
    assert("types_version"@.len() != "interfaces_guest_version"@.len());
    assert("component_runtime_version"@.len() != "interfaces_guest_version"@.len());
    assert("component_world_version"@.len() != "interfaces_guest_version"@.len());
    lemma_bound_at(ps, "interfaces_guest_version"@, 10);
    assert("component_name"@.len() != "secrets_wit_version"@.len());
    assert("component_kebab"@.len() != "secrets_wit_version"@.len());
    assert("component_snake"@.len() != "secrets_wit_version"@.len());
    assert("component_pascal"@.len() != "secrets_wit_version"@.len());
    assert("component_crate"@.len() != "secrets_wit_version"@.len());
    assert("component_dir"@.len() != "secrets_wit_version"@.len());
    assert("interfaces_version"@.len() != "secrets_wit_version"@.len());
    assert("types_version"@.len() != "secrets_wit_version"@.len());
    assert("component_runtime_version"@.len() != "secrets_wit_version"@.len());
    assert("component_world_version"@.len() != "secrets_wit_version"@.len());
    assert("interfaces_guest_version"@.len() != "secrets_wit_version"@.len());
    lemma_bound_at(ps, "secrets_wit_version"@, 11);
    assert("component_name"@.len() != "state_wit_version"@.len());
    assert("component_kebab"@.len() != "state_wit_version"@.len());
    assert("component_snake"@.len() != "state_wit_version"@.len());
    assert("component_pascal"@.len() != "state_wit_version"@.len());
    assert("component_crate"@.len() != "state_wit_version"@.len());
    assert("component_dir"@.len() != "state_wit_version"@.len());
    assert("interfaces_version"@.len() != "state_wit_version"@.len());
    assert("types_version"@.len() != "state_wit_version"@.len());
    assert("component_runtime_version"@.len() != "state_wit_version"@.len());
    assert("component_world_version"@.len() != "state_wit_version"@.len());
    assert("interfaces_guest_version"@.len() != "state_wit_version"@.len());
    assert("secrets_wit_version"@.len() != "state_wit_version"@.len());
    lemma_bound_at(ps, "state_wit_version"@, 12);
    assert("component_name"@.len() != "http_wit_version"@.len());
    assert("component_kebab"@.len() != "http_wit_version"@.len());
    assert("component_snake"@.len() != "http_wit_version"@.len());
    assert("component_pascal"@[0] != "http_wit_version"@[0]);
    assert("component_crate"@.len() != "http_wit_version"@.len());
    assert("component_dir"@.len() != "http_wit_version"@.len());
    assert("interfaces_version"@.len() != "http_wit_version"@.len());
    assert("types_version"@.len() != "http_wit_version"@.len());
    assert("component_runtime_version"@.len() != "http_wit_version"@.len());
    assert("component_world_version"@.len() != "http_wit_version"@.len());
    assert("interfaces_guest_version"@.len() != "http_wit_version"@.len());
    assert("secrets_wit_version"@.len() != "http_wit_version"@.len());
    assert("state_wit_version"@.len() != "http_wit_version"@.len());
    lemma_bound_at(ps, "http_wit_version"@, 13);
    assert("component_name"@.len() != "telemetry_wit_version"@.len());
    assert("component_kebab"@.len() != "telemetry_wit_version"@.len());
    assert("component_snake"@.len() != "telemetry_wit_version"@.len());
    assert("component_pascal"@.len() != "telemetry_wit_version"@.len());
    assert("component_crate"@.len() != "telemetry_wit_version"@.len());
    assert("component_dir"@.len() != "telemetry_wit_version"@.len());
    assert("interfaces_version"@.len() != "telemetry_wit_version"@.len());
    assert("types_version"@.len() != "telemetry_wit_version"@.len());
    assert("component_runtime_version"@.len() != "telemetry_wit_version"@.len());
    assert("component_world_version"@.len() != "telemetry_wit_version"@.len());
    assert("interfaces_guest_version"@.len() != "telemetry_wit_version"@.len());
    assert("secrets_wit_version"@.len() != "telemetry_wit_version"@.len());
    assert("state_wit_version"@.len() != "telemetry_wit_version"@.len());
    assert("http_wit_version"@.len() != "telemetry_wit_version"@.len());
    lemma_bound_at(ps, "telemetry_wit_version"@, 14);
}

/// The context of a component whose name reads `kebab`, `snake` and
/// `pascal` in the three cases; its name is the kebab one.
pub fn template_context_from(kebab: String, snake: String, pascal: String, versions: &Versions) -> (r: TemplateContext)
    ensures
        r.component_name@ == kebab@,
        r.component_kebab@ == kebab@,
        r.placeholders.deep_view() == placeholder_list(kebab@, snake@, pascal@, *versions),
        placeholders_bind(r.placeholders.deep_view(), kebab@, snake@, pascal@, *versions),
{
    proof {
        lemma_placeholders_bind_their_fields(kebab@, snake@, pascal@, *versions);
    }
    let mut p: Vec<(String, String)> = Vec::new();
    p.push((owned("component_name"), kebab.clone()));
    p.push((owned("component_kebab"), kebab.clone()));
    p.push((owned("component_snake"), snake));
    p.push((owned("component_pascal"), pascal));
    p.push((owned("component_crate"), kebab.clone()));
    p.push((owned("component_dir"), concat("component-", kebab.as_str())));
    p.push((owned("interfaces_version"), versions.interfaces.clone()));
    p.push((owned("types_version"), versions.types.clone()));
    p.push((owned("component_runtime_version"), versions.component_runtime.clone()));
    p.push((owned("component_world_version"), versions.component_wit_version.clone()));
    p.push((owned("interfaces_guest_version"), versions.interfaces.clone()));
    p.push((owned("secrets_wit_version"), versions.secrets_wit_version.clone()));
    p.push((owned("state_wit_version"), versions.state_wit_version.clone()));
    p.push((owned("http_wit_version"), versions.http_wit_version.clone()));
    p.push((owned("telemetry_wit_version"), versions.telemetry_wit_version.clone()));
    let ghost want = placeholder_list(kebab@, snake@, pascal@, *versions);
    assert(p.deep_view() =~= want);
    TemplateContext { component_name: kebab.clone(), component_kebab: kebab, placeholders: p }
}

impl TemplateContext {
    /// The context of a component named `raw` (surrounding blanks ignored),
    /// pinned to `versions`; a blank name is refused.
    pub fn new(raw: &str, versions: &Versions) -> (r: Result<TemplateContext, ScaffoldError>)
        ensures
            trim_ws(raw@).len() == 0 ==> r == Err::<TemplateContext, ScaffoldError>(ScaffoldError::EmptyName),
            trim_ws(raw@).len() > 0 ==> (r matches Ok(c) && c.component_kebab@ == cased(trim_ws(raw@), TextCase::Kebab)
                && c.component_name@ == c.component_kebab@ && c.placeholders.deep_view() == placeholder_list(
                cased(trim_ws(raw@), TextCase::Kebab),
                cased(trim_ws(raw@), TextCase::Snake),
                cased(trim_ws(raw@), TextCase::Pascal),
                *versions,
            ) && placeholders_bind(
                c.placeholders.deep_view(),
                cased(trim_ws(raw@), TextCase::Kebab),
                cased(trim_ws(raw@), TextCase::Snake),
                cased(trim_ws(raw@), TextCase::Pascal),
                *versions,
            )),
    {
        proof {
            lemma_placeholders_bind_their_fields(
                cased(trim_ws(raw@), TextCase::Kebab),
                cased(trim_ws(raw@), TextCase::Snake),
                cased(trim_ws(raw@), TextCase::Pascal),
                *versions,
            );
        }
        let trimmed = trim(raw);
        if trimmed.unicode_len() == 0 {
            return Err(ScaffoldError::EmptyName);
        }
        let kebab = to_case(trimmed.as_str(), TextCase::Kebab);
        let snake = to_case(trimmed.as_str(), TextCase::Snake);
        let pascal = to_case(trimmed.as_str(), TextCase::Pascal);
        Ok(template_context_from(kebab, snake, pascal, versions))
    }

    /// The directory a new component is created in.
    pub fn component_dir(&self) -> (r: String)
        ensures
            r@ == "component-"@ + self.component_kebab@,
    {
        concat("component-", self.component_kebab.as_str())
    }
}

/// How placeholder `key` is written in a template.
pub open spec fn placeholder_token(key: Seq<char>) -> Seq<char> {
    "{{"@ + key + "}}"@
}

/// `template` with each placeholder, in order, replaced by its value.
pub open spec fn rendered(template: Seq<char>, ps: Seq<(Seq<char>, Seq<char>)>) -> Seq<char>
    decreases ps.len(),
{
    if ps.len() == 0 {
        template
    } else {
        replace_all(rendered(template, ps.drop_last()), placeholder_token(ps.last().0), ps.last().1)
    }
}

pub fn render_template(template: &str, context: &TemplateContext) -> (r: String)
    ensures
        r@ == rendered(template@, context.placeholders.deep_view()),
{
    proof {
        reveal_strlit("{{");
    }
    let ghost ps = context.placeholders.deep_view();
    let mut output = owned(template);
    let mut i: usize = 0;
    while i < context.placeholders.len()
        invariant
            "{{"@.len() == 2,
            ps == context.placeholders.deep_view(),
            i <= ps.len(),
            output@ == rendered(template@, ps.take(i as int)),
        decreases ps.len() - i,
    {
        let ghost next = ps.take(i + 1);
        assert(next.drop_last() =~= ps.take(i as int));
        let key = &context.placeholders[i].0;
        let value = &context.placeholders[i].1;
        let token = concat3("{{", key.as_str(), "}}");
        output = replace_str(output.as_str(), token.as_str(), value.as_str());
        i = i + 1;
    }
    assert(ps.take(ps.len() as int) =~= ps);
    output
}

/// `raw` when it is absolute, else `raw` under `base`.
pub fn resolve_path(base: &str, raw: &str) -> (r: String)
    ensures
        r@ == (if has_prefix(raw@, "/"@) {
            raw@
        } else {
            join_path(base@, raw@)
        }),
{
    if crate::text::starts_with(raw, "/") {
        owned(raw)
    } else {
        path_join(base, raw)
    }
}

/// Cargo's home: `CARGO_HOME`, else `~/.cargo`.
pub fn cargo_home_from(cargo_home: Option<&str>, home: Option<&str>) -> (r: Result<String, ScaffoldError>)
    ensures
        match (cargo_home, home) {
            (Some(c), _) => r matches Ok(p) && p@ == c@,
            (None, Some(h)) => r matches Ok(p) && p@ == join_path(h@, ".cargo"@),
            (None, None) => r == Err::<String, ScaffoldError>(ScaffoldError::NoCargoHome),
        },
{
    match cargo_home {
        Some(c) => Ok(owned(c)),
        None => match home {
            Some(h) => Ok(path_join(h, ".cargo")),
            None => Err(ScaffoldError::NoCargoHome),
        },
    }
}

/// The directory a crate's source is unpacked in under a registry index.
pub fn crate_source_dir(index_dir: &str, crate_name: &str, version: &str) -> (r: String)
    ensures
        r@ == join_path(index_dir@, crate_name@ + "-"@ + version@),
{
    let name = concat3(crate_name, "-", version);
    path_join(index_dir, name.as_str())
}

// ---------------------------------------------------------------------------
// Packing
// ---------------------------------------------------------------------------

/// Where packs are written: `--out-dir` under the component directory, else
/// its `packs` directory; an absolute or climbing `--out-dir` is refused.
pub fn pack_out_dir(component_dir: &str, out_dir: Option<&str>) -> (r: Result<String, ScaffoldError>)
    ensures
        match out_dir {
            None => r matches Ok(p) && p@ == join_path(component_dir@, "packs"@),
            Some(d) => if has_prefix(d@, "/"@) {
                r == Err::<String, ScaffoldError>(ScaffoldError::AbsoluteOutDir)
            } else if split_spec(d@, '/').contains(".."@) {
                r == Err::<String, ScaffoldError>(ScaffoldError::ParentOutDir)
            } else {
                r matches Ok(p) && p@ == join_path(component_dir@, d@)
            },
        },
{
    match out_dir {
        None => Ok(path_join(component_dir, "packs")),
        Some(d) => match sanitize_relative_path(d) {
            Ok(p) => Ok(path_join(component_dir, p.as_str())),
            Err(InstallError::AbsolutePath) => Err(ScaffoldError::AbsoluteOutDir),
            Err(_) => Err(ScaffoldError::ParentOutDir),
        },
    }
}

/// Where one packed component goes and what its artifact is called.
#[derive(Clone, Debug, PartialEq, Eq)]
pub struct PackLayout {
    /// `<out>/<name>/<version>`.
    pub dest_dir: String,
    /// `<name>-<version>.wasm`.
    pub artifact_file: String,
}

pub fn pack_layout(base_out: &str, name: &str, version: &str) -> (r: PackLayout)
    ensures
        r.dest_dir@ == join_path(join_path(base_out@, name@), version@),
        r.artifact_file@ == name@ + "-"@ + version@ + ".wasm"@,
{
    let by_name = path_join(base_out, name);
    let dest_dir = path_join(by_name.as_str(), version);
    let head = concat3(name, "-", version);
    PackLayout { dest_dir, artifact_file: concat(head.as_str(), ".wasm") }
}

/// The `SHA256SUMS` line of a packed artifact.
pub fn sha256sums_line(sha256: &str, artifact_file: &str) -> (r: String)
    ensures
        r@ == sha256@ + "  "@ + artifact_file@,
{
    concat3(sha256, "  ", artifact_file)
}

} // verus!
