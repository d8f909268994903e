//! Resolving the components a flow's nodes name: the version requirement a
//! node states, whether a prepared component satisfies it, and the JSON
//! pointers schema problems are reported at.
use vstd::prelude::*;

use crate::components::NodeSchemaError;
use crate::flow_schema::{schema_json_error, SchemaFault};
use crate::semver::{compare_versions, semver_display, semver_order, SemVersion, VersionParts};
use crate::text::{concat, concat3, owned, str_eq, trim, trim_ws};

verus! {

/// `semver::VersionReq`, carried opaquely.
#[verifier::external_type_specification]
#[verifier::external_body]
pub struct ExSemverVersionReq(semver::VersionReq);

/// `semver::VersionReq::parse` accepts the text.
pub uninterp spec fn req_parses(text: Seq<char>) -> bool;

/// The text of the error `semver::VersionReq::parse` reports for a text it refuses.
pub uninterp spec fn req_error(text: Seq<char>) -> Seq<char>;

/// Whether the requirement parsed from a text matches a version.
pub uninterp spec fn req_matches(text: Seq<char>, v: VersionParts) -> bool;

/// The text the requirement parsed from a text displays as.
pub uninterp spec fn req_display(text: Seq<char>) -> Seq<char>;

/// A parsed version requirement, with the text it was parsed from.
#[derive(Debug)]
pub struct VersionRequirement {
    text: String,
    raw: semver::VersionReq,
}

impl View for VersionRequirement {
    type V = Seq<char>;

    closed spec fn view(&self) -> Seq<char> {
        self.text@
    }
}

/// `semver::VersionReq::parse`. A lone `*` parses (to `VersionReq::STAR`).
#[verifier::external_body]
fn parse_requirement(text: &str) -> (r: Result<VersionRequirement, String>)
    ensures
        r is Ok == req_parses(text@),
        r matches Ok(q) ==> q@ == text@,
        r matches Err(m) ==> m@ == req_error(text@),
        text@ == "*"@ ==> r is Ok,
{
    match semver::VersionReq::parse(text) {
        Ok(raw) => Ok(VersionRequirement { text: text.to_string(), raw }),
        Err(e) => Err(e.to_string()),
    }
}

/// `semver::VersionReq::matches`. A `*` requirement matches exactly the
/// versions without a prerelease: it has no comparators, and a prerelease
/// only matches a comparator naming its numbers and a prerelease.
#[verifier::external_body]
fn matches_raw(req: &VersionRequirement, version: &SemVersion) -> (r: bool)
    ensures
        r == req_matches(req@, version@),
        req@ == "*"@ ==> r == (version@.3.len() == 0),
{
    req.raw.matches(version.raw())
}

/// `semver::VersionReq`'s `Display` text.
#[verifier::external_body]
fn display_raw(req: &VersionRequirement) -> (r: String)
    ensures
        r@ == req_display(req@),
{
    req.raw.to_string()
}

/// Whether `version` satisfies `req`.
pub fn requirement_matches(req: &VersionRequirement, version: &SemVersion) -> (r: bool)
    ensures
        r == req_matches(req@, version@),
        req@ == "*"@ ==> r == (version@.3.len() == 0),
{
    matches_raw(req, version)
}

/// The text a requirement is written as.
pub fn requirement_text(req: &VersionRequirement) -> (r: String)
    ensures
        r@ == req_display(req@),
{
    display_raw(req)
}

/// A node's version requirement: `*` when blank, else the text as given.
pub fn parse_version_req(input: &str) -> (r: Result<VersionRequirement, String>)
    ensures
        trim_ws(input@).len() == 0 ==> (r matches Ok(q) && q@ == "*"@),
        trim_ws(input@).len() > 0 ==> (r is Ok == req_parses(input@)),
        trim_ws(input@).len() > 0 ==> (r matches Ok(q) ==> q@ == input@),
        trim_ws(input@).len() > 0 ==> (r matches Err(m) ==> m@ == req_error(input@)),
{
    let trimmed = trim(input);
    if trimmed.unicode_len() == 0 {
        proof {
            reveal_strlit("*");
        }
        parse_requirement("*")
    } else {
        parse_requirement(input)
    }
}

/// A prepared component's version must satisfy the node's requirement.
pub fn check_requirement(name: &str, version: &SemVersion, req: &VersionRequirement) -> (r: Result<(), String>)
    ensures
        req_matches(req@, version@) ==> r is Ok,
        !req_matches(req@, version@) ==> (r matches Err(m) && m@ == "component `"@ + name@ + "` version `"@
            + semver_display(version@) + "` does not satisfy requirement `"@ + req_display(req@) + "`"@),
{
    if requirement_matches(req, version) {
        return Ok(());
    }
    let shown = crate::semver::version_text(version);
    let wanted = requirement_text(req);
    let head = concat3("component `", name, "` version `");
    let mid = concat3(head.as_str(), shown.as_str(), "` does not satisfy requirement `");
    Err(concat3(mid.as_str(), wanted.as_str(), "`"))
}

/// Where a node's component payload sits in the flow document.
pub fn node_pointer(node_id: &str, component_name: &str) -> (r: String)
    ensures
        r@ == "/nodes/"@ + node_id@ + "/"@ + component_name@,
{
    let head = concat3("/nodes/", node_id, "/");
    concat(head.as_str(), component_name)
}

/// Where a schema problem is reported: the node's pointer, followed by the
/// problem's instance path unless that is empty or the root.
pub fn issue_pointer(node_pointer: &str, instance_path: &str) -> (r: String)
    ensures
        r@ == (if instance_path@.len() == 0 || instance_path@ == "/"@ {
            node_pointer@
        } else {
            node_pointer@ + instance_path@
        }),
{
    if instance_path.unicode_len() == 0 || str_eq(instance_path, "/") {
        owned(node_pointer)
    } else {
        concat(node_pointer, instance_path)
    }
}

/// The position of the newest of `versions`, the first listed among equal
/// ones: each later version replaces the one kept only when it ranks above it.
pub open spec fn latest_index(versions: Seq<VersionParts>) -> Option<int>
    decreases versions.len(),
{
    if versions.len() == 0 {
        None
    } else {
        let n = versions.len() - 1;
        match latest_index(versions.drop_last()) {
            None => Some(n),
            Some(b) => if semver_order(versions[n], versions[b]) == 1 {
                Some(n)
            } else {
                Some(b)
            },
        }
    }
}

/// The described version a component's schema is taken from: the newest,
/// the first listed among equals; `None` when nothing is described.
pub fn choose_latest_version(versions: &Vec<SemVersion>) -> (r: Option<usize>)
    ensures
        match r {
            Some(i) => latest_index(versions@.map_values(|v: SemVersion| v@)) == Some(i as int),
            None => versions@.len() == 0,
        },
{
    let ghost vs = versions@.map_values(|v: SemVersion| v@);
    let mut best: Option<usize> = None;
    let mut i: usize = 0;
    while i < versions.len()
        invariant
            i <= versions@.len(),
            vs == versions@.map_values(|v: SemVersion| v@),
            match best {
                Some(b) => latest_index(vs.take(i as int)) == Some(b as int) && b < i,
                None => i == 0,
            },
        decreases versions@.len() - i,
    {
        let ghost next = vs.take(i + 1);
        assert(next.drop_last() =~= vs.take(i as int));
        assert(next[i as int] == versions@[i as int]@);
        best = match best {
            None => Some(i),
            Some(b) => {
                assert(next[b as int] == versions@[b as int]@);
                if compare_versions(&versions[i], &versions[b]) == 1 {
                    Some(i)
                } else {
                    Some(b)
                }
            },
        };
        i = i + 1;
    }
    assert(vs.take(versions@.len() as int) =~= vs);
    best
}

/// A member of a JSON object text, as JSON text: `None` when the text is
/// not a JSON object, `Some(None)` when the object lacks the key.
pub uninterp spec fn json_object_member(text: Seq<char>, key: Seq<char>) -> Option<Option<Seq<char>>>;

/// `serde_json::from_str` into a `Value`, then `as_object`, `get(key)` and
/// the member's `to_string`.
#[verifier::external_body]
fn object_member(text: &str, key: &str) -> (r: Option<Option<String>>)
    ensures
        match r {
            None => json_object_member(text@, key@) is None,
            Some(None) => json_object_member(text@, key@) == Some(None::<Seq<char>>),
            Some(Some(v)) => json_object_member(text@, key@) == Some(Some(v@)),
        },
{
    let value = serde_json::from_str::<serde_json::Value>(text).ok()?;
    let object = value.as_object()?;
    Some(object.get(key).map(|member| member.to_string()))
}

/// What extracting a node's component payload gives: the flow's `nodes`
/// object, its entry for the node (an object), and that entry's member
/// named after the component; or the first of them that is missing.
pub open spec fn payload_outcome(
    document: Seq<char>,
    node_id: Seq<char>,
    component_name: Seq<char>,
) -> Result<Seq<char>, Seq<char>> {
    let missing_nodes = "flow document missing `nodes` object"@;
    let missing_node = "flow document missing node `"@ + node_id + "`"@;
    match json_object_member(document, "nodes"@) {
        Some(Some(nodes)) => match json_object_member(nodes, node_id) {
            Some(Some(entry)) => match json_object_member(entry, component_name) {
                Some(Some(payload)) => Ok(payload),
                Some(None) => Err(
                    "node `"@ + node_id + "` missing component payload `"@ + component_name + "`"@,
                ),
                None => Err(missing_node),
            },
            Some(None) => Err(missing_node),
            None => Err(missing_nodes),
        },
        _ => Err(missing_nodes),
    }
}

/// The payload a flow document holds for a node's component, as JSON text.
pub fn extract_node_payload(document: &str, node_id: &str, component_name: &str) -> (r: Result<String, String>)
    ensures
        match r {
            Ok(p) => payload_outcome(document@, node_id@, component_name@) == Ok::<Seq<char>, Seq<char>>(p@),
            Err(m) => payload_outcome(document@, node_id@, component_name@) == Err::<Seq<char>, Seq<char>>(m@),
        },
{
    let missing_nodes = "flow document missing `nodes` object";
    proof {
        reveal_strlit("flow document missing `nodes` object");
    }
    let nodes = match object_member(document, "nodes") {
        Some(Some(nodes)) => nodes,
        _ => return Err(missing_nodes.to_string()),
    };
    let missing_node = concat3("flow document missing node `", node_id, "`");
    let entry = match object_member(nodes.as_str(), node_id) {
        Some(Some(entry)) => entry,
        Some(None) => return Err(missing_node),
        None => return Err(missing_nodes.to_string()),
    };
    match object_member(entry.as_str(), component_name) {
        Some(Some(payload)) => Ok(payload),
        Some(None) => {
            let head = concat3("node `", node_id, "` missing component payload `");
            Err(concat3(head.as_str(), component_name, "`"))
        },
        None => Err(missing_node),
    }
}

/// The error `jsonschema`, set to draft 7, reports for a JSON schema it
/// cannot compile; `None` for one it compiles.
pub uninterp spec fn draft7_compile_error(schema: Seq<char>) -> Option<Seq<char>>;

/// `(instance path, message)` of the error `jsonschema::Validator::validate`
/// reports for an instance against a draft-7 schema; `None` when it conforms.
pub uninterp spec fn draft7_first_error(schema: Seq<char>, instance: Seq<char>) -> Option<(Seq<char>, Seq<char>)>;

/// `(instance path, message)` of each error `jsonschema::Validator::iter_errors`
/// reports for an instance against a draft-7 schema, in order.
pub uninterp spec fn draft7_errors(schema: Seq<char>, instance: Seq<char>) -> Seq<(Seq<char>, Seq<char>)>;

pub open spec fn pair_text(p: (String, String)) -> (Seq<char>, Seq<char>) {
    (p.0@, p.1@)
}

/// `serde_json::from_str` into a `Value`, then
/// `jsonschema::options().with_draft(Draft::Draft7).build`.
#[verifier::external_body]
fn compile_draft7(schema: &str) -> (r: Result<(), SchemaFault>)
    ensures
        match r {
            Ok(()) => schema_json_error(schema@) is None && draft7_compile_error(schema@) is None,
            Err(SchemaFault::InvalidJson(e)) => schema_json_error(schema@) == Some(e@),
            Err(SchemaFault::NotCompiled(e)) => schema_json_error(schema@) is None
                && draft7_compile_error(schema@) == Some(e@),
        },
{
    let value: serde_json::Value = serde_json::from_str(schema).map_err(|e| SchemaFault::InvalidJson(e.to_string()))?;
    let options = jsonschema::options().with_draft(jsonschema::Draft::Draft7);
    options.build(&value).map(|_| ()).map_err(|e| SchemaFault::NotCompiled(e.to_string()))
}

/// The draft-7 validator of the schema applied to the instance read with
/// `serde_json::from_str` (the instance's parse error when it is not JSON):
/// `validate`'s error and every error of `iter_errors`, each as its
/// instance path and its text.
#[verifier::external_body]
fn draft7_check(schema: &str, instance: &str) -> (r: Result<(Option<(String, String)>, Vec<(String, String)>), String>)
    requires
        schema_json_error(schema@) is None,
        draft7_compile_error(schema@) is None,
    ensures
        match r {
            Err(e) => schema_json_error(instance@) == Some(e@),
            Ok((first, all)) => schema_json_error(instance@) is None && match first {
                Some(f) => draft7_first_error(schema@, instance@) == Some(pair_text(f)),
                None => draft7_first_error(schema@, instance@) is None,
            } && all@.map_values(|p: (String, String)| pair_text(p)) == draft7_errors(schema@, instance@),
        },
{
    let value: serde_json::Value = serde_json::from_str(schema).map_err(|e| e.to_string())?;
    let validator = jsonschema::options().with_draft(jsonschema::Draft::Draft7).build(&value).map_err(|e| e.to_string())?;
    let node: serde_json::Value = serde_json::from_str(instance).map_err(|e| e.to_string())?;
    let first = validator.validate(&node).err().map(|e| (e.instance_path().to_string(), e.to_string()));
    let all = validator.iter_errors(&node).map(|e| (e.instance_path().to_string(), e.to_string())).collect();
    Ok((first, all))
}

/// The pointer a schema problem at `path` of a node at `pointer` is
/// reported at.
pub open spec fn issue_pointer_of(pointer: Seq<char>, path: Seq<char>) -> Seq<char> {
    if path.len() == 0 || path == "/"@ {
        pointer
    } else {
        pointer + path
    }
}

/// The problems reported for a node: none when it conforms, else the
/// first error followed by every error, as the validator lists them.
pub open spec fn reported_problems(schema: Seq<char>, config: Seq<char>) -> Seq<(Seq<char>, Seq<char>)> {
    match draft7_first_error(schema, config) {
        None => Seq::empty(),
        Some(f) => seq![f] + draft7_errors(schema, config),
    }
}

/// `e` reports `problem` (instance path, message) for node `node_id` of
/// `component`, whose payload sits at `pointer`.
pub open spec fn reports_problem(
    e: NodeSchemaError,
    node_id: Seq<char>,
    component: Seq<char>,
    pointer: Seq<char>,
    problem: (Seq<char>, Seq<char>),
) -> bool {
    &&& e.node_id@ == node_id
    &&& e.component@ == component
    &&& e.pointer@ == issue_pointer_of(pointer, problem.0)
    &&& e.message@ == problem.1
}

/// The problems a node's configuration has against its component's draft-7
/// schema, each with the pointer it sits at; none without a schema. A schema
/// that is not JSON or does not compile, or a configuration that is not
/// JSON, is an error.
pub fn node_schema_errors(
    node_id: &str,
    component: &str,
    pointer: &str,
    schema: Option<&str>,
    config: &str,
) -> (r: Result<Vec<NodeSchemaError>, String>)
    ensures
        match schema {
            None => r matches Ok(v) && v@.len() == 0,
            Some(s) => match schema_json_error(s@) {
                Some(e) => r matches Err(m) && m@ == "invalid schema JSON: "@ + e,
                None => match draft7_compile_error(s@) {
                    Some(e) => r matches Err(m) && m@ == "failed to compile schema JSON: "@ + e,
                    None => match schema_json_error(config@) {
                        Some(e) => r matches Err(m) && m@ == "invalid node configuration JSON: "@ + e,
                        None => r matches Ok(v) && v@.len() == reported_problems(s@, config@).len()
                            && forall|k: int|
                            0 <= k < v@.len() ==> reports_problem(
                                #[trigger] v@[k],
                                node_id@,
                                component@,
                                pointer@,
                                reported_problems(s@, config@)[k],
                            ),
                    },
                },
            },
        },
{
    let s = match schema {
        None => return Ok(Vec::new()),
        Some(s) => s,
    };
    match compile_draft7(s) {
        Err(SchemaFault::InvalidJson(e)) => return Err(concat("invalid schema JSON: ", e.as_str())),
        Err(SchemaFault::NotCompiled(e)) => return Err(concat("failed to compile schema JSON: ", e.as_str())),
        Ok(()) => {},
    }
    let (first, all) = match draft7_check(s, config) {
        Err(e) => return Err(concat("invalid node configuration JSON: ", e.as_str())),
        Ok(found) => found,
    };
    let mut problems: Vec<(String, String)> = Vec::new();
    match first {
        None => {},
        Some(f) => {
            problems.push(f);
            let mut j: usize = 0;
            while j < all.len()
                invariant
                    j <= all@.len(),
                    problems@.len() == j + 1,
                    problems@.map_values(|p: (String, String)| pair_text(p)) == seq![pair_text(f)]
                        + all@.map_values(|p: (String, String)| pair_text(p)).take(j as int),
                decreases all@.len() - j,
            {
                let ghost before = problems@.map_values(|p: (String, String)| pair_text(p));
                let item = (all[j].0.clone(), all[j].1.clone());
                problems.push(item);
                assert(problems@.map_values(|p: (String, String)| pair_text(p)) =~= before.push(pair_text(all@[j as int])));
                assert(all@.map_values(|p: (String, String)| pair_text(p)).take(j + 1) =~= all@.map_values(
                    |p: (String, String)| pair_text(p),
                ).take(j as int).push(pair_text(all@[j as int])));
                j = j + 1;
            }
            assert(all@.map_values(|p: (String, String)| pair_text(p)).take(all@.len() as int) =~= all@.map_values(
                |p: (String, String)| pair_text(p),
            ));
        },
    }
    let ghost found = problems@.map_values(|p: (String, String)| pair_text(p));
    assert(found == reported_problems(s@, config@));
    let mut out: Vec<NodeSchemaError> = Vec::new();
    let mut k: usize = 0;
    while k < problems.len()
        invariant
            k <= problems@.len(),
            found == problems@.map_values(|p: (String, String)| pair_text(p)),
            found == reported_problems(s@, config@),
            out@.len() == k,
            forall|m: int|
                0 <= m < k ==> reports_problem(#[trigger] out@[m], node_id@, component@, pointer@, found[m]),
        decreases problems@.len() - k,
    {
        let pointer_here = issue_pointer(pointer, problems[k].0.as_str());
        out.push(
            NodeSchemaError {
                node_id: owned(node_id),
                component: owned(component),
                pointer: pointer_here,
                message: problems[k].1.clone(),
            },
        );
        assert(found[k as int] == pair_text(problems@[k as int]));
        k = k + 1;
    }
    Ok(out)
}

} // verus!
