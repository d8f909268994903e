//! Checking a built component against its provider metadata: the WIT
//! packages it embeds, the world it exports, the pinned ABI versions, and
//! where its artifact may have been built to.
use vstd::prelude::*;

use crate::ordered::{contains_str, insert_sorted, strictly_sorted};
use crate::text::{
    concat, concat3, contains, contains_seq, first_index_of, has_prefix, last_index_of, owned,
    replace_all, replace_str, rfind_char, find_char, slice_chars, starts_with, str_eq,
};

verus! {

/// A WIT package name: `namespace:name`, with an optional version.
#[derive(Clone, Debug, PartialEq, Eq)]
pub struct WitPackageName {
    pub namespace: String,
    pub name: String,
    pub version: Option<String>,
}

/// `namespace:name`, then `@version` when there is one.
pub open spec fn package_ident(p: WitPackageName) -> Seq<char> {
    match p.version {
        Some(v) => p.namespace@ + ":"@ + p.name@ + "@"@ + v@,
        None => p.namespace@ + ":"@ + p.name@,
    }
}

pub fn package_id(p: &WitPackageName) -> (r: String)
    ensures
        r@ == package_ident(*p),
{
    let head = concat3(p.namespace.as_str(), ":", p.name.as_str());
    match &p.version {
        Some(v) => concat3(head.as_str(), "@", v.as_str()),
        None => head,
    }
}

/// Packages of the `root` namespace are the component's own, not embedded ones.
pub open spec fn is_root(p: WitPackageName) -> bool {
    p.namespace@ == "root"@
}

/// The embedded packages of a component: every package outside the `root`
/// namespace, by identifier, sorted and without repeats.
pub fn embedded_packages(packages: &Vec<WitPackageName>) -> (r: Vec<String>)
    ensures
        strictly_sorted(r.deep_view()),
        forall|x: Seq<char>|
            #![trigger r.deep_view().contains(x)]
            r.deep_view().contains(x) <==> exists|i: int|
                0 <= i < packages@.len() && !is_root(#[trigger] packages@[i]) && package_ident(
                    packages@[i],
                ) == x,
{
    let mut out: Vec<String> = Vec::new();
    let mut i: usize = 0;
    while i < packages.len()
        invariant
            i <= packages@.len(),
            strictly_sorted(out.deep_view()),
            forall|x: Seq<char>|
                #![trigger out.deep_view().contains(x)]
                out.deep_view().contains(x) <==> exists|k: int|
                    0 <= k < i && !is_root(#[trigger] packages@[k]) && package_ident(packages@[k])
                        == x,
        decreases packages@.len() - i,
    {
        let p = &packages[i];
        if !str_eq(p.namespace.as_str(), "root") {
            let id = package_id(p);
            let ghost before = out.deep_view();
            insert_sorted(&mut out, id);
            assert forall|x: Seq<char>|
                #![trigger out.deep_view().contains(x)]
                out.deep_view().contains(x) <==> exists|k: int|
                    0 <= k < i + 1 && !is_root(#[trigger] packages@[k]) && package_ident(
                        packages@[k],
                    ) == x by {
                if x == package_ident(packages@[i as int]) {
                    assert(!is_root(packages@[i as int]));
                }
            }
        } else {
            assert forall|x: Seq<char>|
                #![trigger out.deep_view().contains(x)]
                out.deep_view().contains(x) <==> exists|k: int|
                    0 <= k < i + 1 && !is_root(#[trigger] packages@[k]) && package_ident(
                        packages@[k],
                    ) == x by {
                if exists|k: int|
                    0 <= k < i + 1 && !is_root(#[trigger] packages@[k]) && package_ident(
                        packages@[k],
                    ) == x {
                    let k = choose|k: int|
                        0 <= k < i + 1 && !is_root(#[trigger] packages@[k]) && package_ident(
                            packages@[k],
                        ) == x;
                    assert(k != i);
                }
            }
        }
        i = i + 1;
    }
    out
}

/// The first exported interface's package outside the `root` namespace;
/// `exports` gives each export's interface package, `None` for the rest.
pub open spec fn first_export_package(exports: Seq<Option<WitPackageName>>) -> Option<Seq<char>>
    decreases exports.len(),
{
    if exports.len() == 0 {
        None
    } else {
        match exports[0] {
            Some(p) => if !is_root(p) {
                Some(package_ident(p))
            } else {
                first_export_package(exports.drop_first())
            },
            None => first_export_package(exports.drop_first()),
        }
    }
}

pub fn export_package(exports: &Vec<Option<WitPackageName>>) -> (r: Option<String>)
    ensures
        r.deep_view() == first_export_package(exports@),
{
    let mut i: usize = 0;
    assert(exports@.skip(0) =~= exports@);
    while i < exports.len()
        invariant
            i <= exports@.len(),
            first_export_package(exports@.skip(i as int)) == first_export_package(exports@),
        decreases exports@.len() - i,
    {
        let ghost rest = exports@.skip(i as int);
        assert(rest[0] == exports@[i as int]);
        assert(rest.drop_first() =~= exports@.skip(i + 1));
        if let Some(p) = &exports[i] {
            if !str_eq(p.namespace.as_str(), "root") {
                return Some(package_id(p));
            }
        }
        i = i + 1;
    }
    assert(exports@.skip(i as int).len() == 0);
    None
}

/// The world a component targets: `namespace:name/world`, then `@version`
/// when its package has one; the bare world name when it has no package.
pub open spec fn world_ident(package: Option<WitPackageName>, world_name: Seq<char>) -> Seq<char> {
    match package {
        Some(p) => match p.version {
            Some(v) => p.namespace@ + ":"@ + p.name@ + "/"@ + world_name + "@"@ + v@,
            None => p.namespace@ + ":"@ + p.name@ + "/"@ + world_name,
        },
        None => world_name,
    }
}

pub open spec fn deref_package(o: Option<&WitPackageName>) -> Option<WitPackageName> {
    match o {
        Some(p) => Some(*p),
        None => None,
    }
}

pub fn world_text(package: Option<&WitPackageName>, world_name: &str) -> (r: String)
    ensures
        r@ == world_ident(deref_package(package), world_name@),
{
    match package {
        Some(p) => {
            let head = concat3(p.namespace.as_str(), ":", p.name.as_str());
            let with_world = concat3(head.as_str(), "/", world_name);
            match &p.version {
                Some(v) => concat3(with_world.as_str(), "@", v.as_str()),
                None => with_world,
            }
        },
        None => owned(world_name),
    }
}

/// The package a `namespace:package/world@version` world belongs to:
/// `namespace:package@version`; `None` when the world lacks `/` or a version.
pub open spec fn world_package_spec(world: Seq<char>) -> Option<Seq<char>> {
    match first_index_of(world, '/') {
        None => None,
        Some(i) => {
            let rest = world.skip(i + 1);
            match last_index_of(rest, '@') {
                None => None,
                Some(j) => Some(world.take(i) + "@"@ + rest.skip(j + 1)),
            }
        },
    }
}

pub fn world_to_package_id(world: &str) -> (r: Option<String>)
    ensures
        r.deep_view() == world_package_spec(world@),
{
    let slash = match find_char(world, '/') {
        Some(i) => i,
        None => return None,
    };
    proof {
        crate::text::lemma_first_index_in_range(world@, '/');
    }
    let n = world.unicode_len();
    let rest = slice_chars(world, slash + 1, n);
    assert(rest@ =~= world@.skip(slash + 1));
    let at = match rfind_char(rest.as_str(), '@') {
        Some(j) => j,
        None => return None,
    };
    proof {
        crate::text::lemma_last_index_in_range(rest@, '@');
    }
    let pkg = slice_chars(world, 0, slash);
    assert(pkg@ =~= world@.take(slash as int));
    let version = slice_chars(rest.as_str(), at + 1, rest.unicode_len());
    assert(version@ =~= rest@.skip(at + 1));
    Some(concat3(pkg.as_str(), "@", version.as_str()))
}

/// Target directories an artifact built for one WASI target may have been
/// written under instead, tried in this order.
pub open spec fn wasi_swaps() -> Seq<(Seq<char>, Seq<char>)> {
    seq![
        ("wasm32-wasip2"@, "wasm32-wasip1"@),
        ("wasm32-wasip2"@, "wasm32-wasi"@),
        ("wasm32-wasip1"@, "wasm32-wasip2"@),
        ("wasm32-wasip1"@, "wasm32-wasi"@),
        ("wasm32-wasi"@, "wasm32-wasip2"@),
        ("wasm32-wasi"@, "wasm32-wasip1"@),
    ]
}

/// The artifact path as given, then each path a swap of target names makes
/// of it that differs from it and is not already listed.
pub open spec fn candidates_spec(declared: Seq<char>, swaps: Seq<(Seq<char>, Seq<char>)>) -> Seq<
    Seq<char>,
>
    decreases swaps.len(),
{
    if swaps.len() == 0 {
        seq![declared]
    } else {
        let prev = candidates_spec(declared, swaps.drop_last());
        let from = swaps.last().0;
        let to = swaps.last().1;
        let c = replace_all(declared, from, to);
        if contains_seq(declared, from) && c != declared && !prev.contains(c) {
            prev.push(c)
        } else {
            prev
        }
    }
}

pub fn candidate_artifact_paths(declared: &str) -> (r: Vec<String>)
    ensures
        r.deep_view() == candidates_spec(declared@, wasi_swaps()),
{
    let mut froms: Vec<&'static str> = Vec::new();
    let mut tos: Vec<&'static str> = Vec::new();
    froms.push("wasm32-wasip2");
    tos.push("wasm32-wasip1");
    froms.push("wasm32-wasip2");
    tos.push("wasm32-wasi");
    froms.push("wasm32-wasip1");
    tos.push("wasm32-wasip2");
    froms.push("wasm32-wasip1");
    tos.push("wasm32-wasi");
    froms.push("wasm32-wasi");
    tos.push("wasm32-wasip2");
    froms.push("wasm32-wasi");
    tos.push("wasm32-wasip1");
    let ghost swaps = wasi_swaps();
    proof {
        reveal_strlit("wasm32-wasip2");
        reveal_strlit("wasm32-wasip1");
        reveal_strlit("wasm32-wasi");
    }
    assert(froms@.len() == 6 && tos@.len() == 6);
    assert(forall|k: int| 0 <= k < 6 ==> froms@[k]@ == swaps[k].0 && tos@[k]@ == swaps[k].1);
    let mut paths: Vec<String> = Vec::new();
    paths.push(owned(declared));
    assert(swaps.take(0) =~= Seq::<(Seq<char>, Seq<char>)>::empty());
    assert(paths.deep_view() =~= seq![declared@]);
    let mut i: usize = 0;
    while i < 6
        invariant
            i <= 6,
            froms@.len() == 6,
            tos@.len() == 6,
            swaps == wasi_swaps(),
            forall|k: int| 0 <= k < 6 ==> froms@[k]@ == swaps[k].0 && tos@[k]@ == swaps[k].1,
            forall|k: int| 0 <= k < 6 ==> (#[trigger] froms@[k])@.len() > 0,
            paths.deep_view() == candidates_spec(declared@, swaps.take(i as int)),
        decreases 6 - i,
    {
        let from = froms[i];
        let to = tos[i];
        assert(swaps.take(i + 1).drop_last() =~= swaps.take(i as int));
        assert(swaps.take(i + 1).last() == swaps[i as int]);
        if contains(declared, from) {
            let candidate = replace_str(declared, from, to);
            if !str_eq(candidate.as_str(), declared) && !contains_str(&paths, candidate.as_str()) {
                let ghost before = paths.deep_view();
                paths.push(candidate);
                assert(paths.deep_view() =~= before.push(replace_all(declared@, from@, to@)));
            }
        }
        i = i + 1;
    }
    assert(swaps.take(6) =~= swaps);
    paths
}

/// Why a component does not match its provider metadata.
#[derive(Clone, Debug, PartialEq, Eq)]
pub enum ComponentCheckError {
    /// The artifact is not a WASM component.
    ArtifactFormat(String),
    /// The provider's interfaces version is not the pinned one.
    InterfacesVersion { found: String, pinned: String },
    /// The provider's types version is not the pinned one.
    TypesVersion { found: String, pinned: String },
    /// The component embeds no WIT package.
    NoPackages,
    /// The component exports another package than its world's.
    PackageMismatch { world: String, expected: String, actual: String },
    /// The world's package is not embedded.
    PackageMissing { world: String, expected: String, found: Vec<String> },
    /// The provider's world is not `<namespace>:<package>/<world>@<version>`.
    WorldFormat(String),
    /// Some declared Greentic packages are not embedded; both sets sorted.
    WitPackagesUnsatisfied { expected: Vec<String>, actual: Vec<String> },
}

/// The provider metadata a component is checked against.
#[derive(Clone, Debug, PartialEq, Eq)]
pub struct ProviderAbi {
    pub world: String,
    pub interfaces_version: String,
    pub types_version: String,
    pub wit_packages: Vec<String>,
}

/// Only WASM components are accepted as artifacts.
pub fn check_artifact_format(format: &str) -> (r: Result<(), ComponentCheckError>)
    ensures
        format@ == "wasm-component"@ ==> r is Ok,
        format@ != "wasm-component"@ ==> (r matches Err(ComponentCheckError::ArtifactFormat(f))
            && f@ == format@),
{
    if str_eq(format, "wasm-component") {
        Ok(())
    } else {
        Err(ComponentCheckError::ArtifactFormat(owned(format)))
    }
}

/// The provider must declare the pinned interfaces and types versions.
pub fn ensure_version_alignment(abi: &ProviderAbi, pinned_interfaces: &str, pinned_types: &str) -> (r:
    Result<(), ComponentCheckError>)
    ensures
        abi.interfaces_version@ != pinned_interfaces@ ==> (r matches Err(
            ComponentCheckError::InterfacesVersion { found, pinned },
        ) && found@ == abi.interfaces_version@ && pinned@ == pinned_interfaces@),
        abi.interfaces_version@ == pinned_interfaces@ && abi.types_version@ != pinned_types@ ==> (
        r matches Err(ComponentCheckError::TypesVersion { found, pinned }) && found@
            == abi.types_version@ && pinned@ == pinned_types@),
        abi.interfaces_version@ == pinned_interfaces@ && abi.types_version@ == pinned_types@
            ==> r is Ok,
{
    if !str_eq(abi.interfaces_version.as_str(), pinned_interfaces) {
        return Err(
            ComponentCheckError::InterfacesVersion {
                found: abi.interfaces_version.clone(),
                pinned: owned(pinned_interfaces),
            },
        );
    }
    if !str_eq(abi.types_version.as_str(), pinned_types) {
        return Err(
            ComponentCheckError::TypesVersion {
                found: abi.types_version.clone(),
                pinned: owned(pinned_types),
            },
        );
    }
    Ok(())
}

/// A declared package is satisfied when it is a Greentic package the component embeds.
pub open spec fn greentic_embedded(packages: Seq<Seq<char>>, p: Seq<char>) -> bool {
    has_prefix(p, "greentic:"@) && packages.contains(p)
}

/// What checking the embedded packages and world concludes.
pub open spec fn component_check_ok(
    abi_world: Seq<char>,
    wit_packages: Seq<Seq<char>>,
    world: Seq<char>,
    export: Option<Seq<char>>,
    packages: Seq<Seq<char>>,
) -> bool {
    &&& packages.len() > 0
    &&& abi_world != world ==> match world_package_spec(abi_world) {
        Some(expected) => match export {
            Some(actual) => actual == expected,
            None => packages.contains(expected),
        },
        None => false,
    }
    &&& forall|p: Seq<char>| #[trigger] wit_packages.contains(p) ==> greentic_embedded(packages, p)
}

/// Checks a decoded component against the provider: it embeds packages,
/// exports its world (or, when the world text differs, the world's package),
/// and embeds every declared Greentic package.
pub fn check_embedded_component(
    abi: &ProviderAbi,
    world: &str,
    export: Option<&str>,
    packages: &Vec<String>,
) -> (r: Result<(), ComponentCheckError>)
    ensures
        r is Ok <==> component_check_ok(
            abi.world@,
            abi.wit_packages.deep_view(),
            world@,
            export.deep_view(),
            packages.deep_view(),
        ),
        packages@.len() == 0 ==> r == Err::<(), ComponentCheckError>(ComponentCheckError::NoPackages),
        packages@.len() > 0 && abi.world@ != world@ && world_package_spec(abi.world@) is None ==> (
        r matches Err(ComponentCheckError::WorldFormat(w)) && w@ == abi.world@),
        packages@.len() > 0 && abi.world@ != world@ ==> match (world_package_spec(abi.world@), export) {
            (Some(expected), Some(actual)) => actual@ != expected ==> (r matches Err(
                ComponentCheckError::PackageMismatch { world: w, expected: e, actual: a },
            ) && w@ == abi.world@ && e@ == expected && a@ == actual@),
            (Some(expected), None) => !packages.deep_view().contains(expected) ==> (r matches Err(
                ComponentCheckError::PackageMissing { world: w, expected: e, found: f },
            ) && w@ == abi.world@ && e@ == expected && f.deep_view() == packages.deep_view()),
            _ => true,
        },
{
    if packages.len() == 0 {
        return Err(ComponentCheckError::NoPackages);
    }
    if !str_eq(abi.world.as_str(), world) {
        match world_to_package_id(abi.world.as_str()) {
            Some(expected) => {
                match export {
                    Some(actual) => {
                        if !str_eq(actual, expected.as_str()) {
                            return Err(
                                ComponentCheckError::PackageMismatch {
                                    world: abi.world.clone(),
                                    expected,
                                    actual: owned(actual),
                                },
                            );
                        }
                    },
                    None => {
                        if !contains_str(packages, expected.as_str()) {
                            return Err(
                                ComponentCheckError::PackageMissing {
                                    world: abi.world.clone(),
                                    expected,
                                    found: copy_strings(packages),
                                },
                            );
                        }
                    },
                }
            },
            None => return Err(ComponentCheckError::WorldFormat(abi.world.clone())),
        }
    }
    check_wit_packages(&abi.wit_packages, packages)
}

fn copy_strings(v: &Vec<String>) -> (r: Vec<String>)
    ensures
        r.deep_view() == v.deep_view(),
{
    let mut out: Vec<String> = Vec::new();
    let mut i: usize = 0;
    while i < v.len()
        invariant
            i <= v@.len(),
            out@ == v@.take(i as int),
        decreases v@.len() - i,
    {
        out.push(v[i].clone());
        assert(out@ =~= v@.take(i + 1));
        i = i + 1;
    }
    assert(v@.take(v@.len() as int) =~= v@);
    assert(out.deep_view() =~= v.deep_view());
    out
}

/// Every declared package must be a Greentic package the component embeds;
/// when one is not, the error lists the declared set and the embedded
/// Greentic set, each sorted.
pub fn check_wit_packages(expected: &Vec<String>, packages: &Vec<String>) -> (r: Result<
    (),
    ComponentCheckError,
>)
    ensures
        r is Ok <==> forall|p: Seq<char>| #[trigger]
            expected.deep_view().contains(p) ==> greentic_embedded(packages.deep_view(), p),
        r matches Err(e) ==> e matches ComponentCheckError::WitPackagesUnsatisfied { expected: x, actual: a }
            && strictly_sorted(x.deep_view()) && strictly_sorted(a.deep_view()) && (forall|
            p: Seq<char>,
        | #[trigger] x.deep_view().contains(p) <==> expected.deep_view().contains(p)) && (forall|
            p: Seq<char>,
        | #[trigger] a.deep_view().contains(p) <==> greentic_embedded(packages.deep_view(), p)),
{
    let ghost ex = expected.deep_view();
    let ghost pk = packages.deep_view();
    let mut wanted: Vec<String> = Vec::new();
    let mut i: usize = 0;
    let mut satisfied = true;
    while i < expected.len()
        invariant
            i <= expected@.len(),
            ex == expected.deep_view(),
            pk == packages.deep_view(),
            strictly_sorted(wanted.deep_view()),
            forall|p: Seq<char>|
                #![trigger wanted.deep_view().contains(p)]
                wanted.deep_view().contains(p) <==> exists|k: int| 0 <= k < i && #[trigger] ex[k] == p,
            satisfied <==> forall|k: int| 0 <= k < i ==> greentic_embedded(pk, #[trigger] ex[k]),
        decreases expected@.len() - i,
    {
        let e = &expected[i];
        assert(ex[i as int] == e@);
        let ok = starts_with(e.as_str(), "greentic:") && contains_str(packages, e.as_str());
        if !ok {
            satisfied = false;
        }
        insert_sorted(&mut wanted, e.clone());
        assert forall|p: Seq<char>|
            #![trigger wanted.deep_view().contains(p)]
            wanted.deep_view().contains(p) <==> exists|k: int| 0 <= k < i + 1 && #[trigger] ex[k] == p by {
            if p == e@ {
                assert(ex[i as int] == p);
            }
            if exists|k: int| 0 <= k < i + 1 && #[trigger] ex[k] == p {
                let k = choose|k: int| 0 <= k < i + 1 && #[trigger] ex[k] == p;
                if k < i {
                    assert(exists|k2: int| 0 <= k2 < i && #[trigger] ex[k2] == p);
                }
            }
        }
        i = i + 1;
    }
    assert forall|p: Seq<char>| #[trigger] ex.contains(p) <==> exists|k: int|
        0 <= k < ex.len() && ex[k] == p by {
        if ex.contains(p) {
            let k = choose|k: int| 0 <= k < ex.len() && ex[k] == p;
            assert(ex[k] == p);
        }
    }
    if satisfied {
        return Ok(());
    }
    proof {
        let k = choose|k: int| 0 <= k < ex.len() && !greentic_embedded(pk, #[trigger] ex[k]);
        assert(ex.contains(ex[k]));
    }
    let mut actual: Vec<String> = Vec::new();
    let mut j: usize = 0;
    while j < packages.len()
        invariant
            j <= packages@.len(),
            pk == packages.deep_view(),
            strictly_sorted(actual.deep_view()),
            forall|p: Seq<char>|
                #![trigger actual.deep_view().contains(p)]
                actual.deep_view().contains(p) <==> (has_prefix(p, "greentic:"@) && exists|k: int|
                    0 <= k < j && #[trigger] pk[k] == p),
        decreases packages@.len() - j,
    {
        let p = &packages[j];
        assert(pk[j as int] == p@);
        let ghost before = actual.deep_view();
        if starts_with(p.as_str(), "greentic:") {
            insert_sorted(&mut actual, p.clone());
        }
        assert forall|q: Seq<char>|
            #![trigger actual.deep_view().contains(q)]
            actual.deep_view().contains(q) <==> (has_prefix(q, "greentic:"@) && exists|k: int|
                0 <= k < j + 1 && #[trigger] pk[k] == q) by {
            if q == p@ {
                assert(pk[j as int] == q);
            }
            if exists|k: int| 0 <= k < j + 1 && #[trigger] pk[k] == q {
                let k = choose|k: int| 0 <= k < j + 1 && #[trigger] pk[k] == q;
                if k < j {
                    assert(exists|k2: int| 0 <= k2 < j && #[trigger] pk[k2] == q);
                }
            }
        }
        j = j + 1;
    }
    assert forall|p: Seq<char>| #[trigger] pk.contains(p) <==> exists|k: int|
        0 <= k < pk.len() && pk[k] == p by {
        if pk.contains(p) {
            let k = choose|k: int| 0 <= k < pk.len() && pk[k] == p;
            assert(pk[k] == p);
        }
    }
    Err(ComponentCheckError::WitPackagesUnsatisfied { expected: wanted, actual })
}

} // verus!
