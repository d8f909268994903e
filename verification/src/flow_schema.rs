//! The node schemas a flow is checked against: what a describer reports for
//! a component, the built-in stubs, which component a node names, and a
//! schema's `$id`.
use vstd::prelude::*;

use crate::commands::opt_text;
use crate::components::{ComponentDescriber, ComponentSchema, FlowValidationError};
use crate::strmap::KeyedMap;
use crate::text::{concat, owned, str_eq};

verus! {

/// A built-in component: its node schema (JSON text) and its defaults (YAML text).
#[derive(Clone, Debug, PartialEq, Eq)]
pub struct ComponentStub {
    pub schema: String,
    pub defaults: String,
}

impl View for ComponentStub {
    type V = ComponentStub;

    open spec fn view(&self) -> ComponentStub {
        *self
    }
}

/// The node schema of the built-in `oauth` component.
pub open spec fn oauth_schema() -> Seq<char> {
    "{\"$id\":\"https://greenticai.github.io/component-oauth/schemas/v1/oauth.node.schema.json\",\"type\":\"object\"}"@
}

/// The defaults of the built-in `oauth` component.
pub open spec fn oauth_defaults() -> Seq<char> {
    "\ncomponent: oauth\ninputs:\n  client_id: null\n  client_secret: null\n  scopes: []\n"@
}

/// The built-in components flows may use without describing them.
#[derive(Clone, Debug)]
pub struct DescribeRegistry {
    stubs: KeyedMap<ComponentStub>,
}

impl View for DescribeRegistry {
    type V = Map<Seq<char>, ComponentStub>;

    closed spec fn view(&self) -> Map<Seq<char>, ComponentStub> {
        self.stubs@
    }
}

impl DescribeRegistry {
    /// The registry with the `oauth` component.
    pub fn new() -> (r: Self)
        ensures
            r@.dom() == set!["oauth"@],
            r@["oauth"@].schema@ == oauth_schema(),
            r@["oauth"@].defaults@ == oauth_defaults(),
    {
        let mut stubs: KeyedMap<ComponentStub> = KeyedMap::new();
        stubs.insert(
            owned("oauth"),
            ComponentStub {
                schema: owned(
                    "{\"$id\":\"https://greenticai.github.io/component-oauth/schemas/v1/oauth.node.schema.json\",\"type\":\"object\"}",
                ),
                defaults: owned(
                    "\ncomponent: oauth\ninputs:\n  client_id: null\n  client_secret: null\n  scopes: []\n",
                ),
            },
        );
        assert(stubs@.dom() =~= set!["oauth"@]);
        DescribeRegistry { stubs }
    }

    pub fn get_schema(&self, name: &str) -> (r: Option<&str>)
        ensures
            match r {
                Some(s) => self@.contains_key(name@) && s@ == self@[name@].schema@,
                None => !self@.contains_key(name@),
            },
    {
        match self.stubs.get(name) {
            Some(stub) => Some(stub.schema.as_str()),
            None => None,
        }
    }

    pub fn get_defaults(&self, name: &str) -> (r: Option<&str>)
        ensures
            match r {
                Some(s) => self@.contains_key(name@) && s@ == self@[name@].defaults@,
                None => !self@.contains_key(name@),
            },
    {
        match self.stubs.get(name) {
            Some(stub) => Some(stub.defaults.as_str()),
            None => None,
        }
    }
}

/// The component a node names: its `component` field, else its `type`
/// field (each counted only when it is a string).
pub fn component_name(component: Option<&str>, type_field: Option<&str>) -> (r: Option<String>)
    ensures
        opt_text(r) == (match component {
            Some(c) => Some(c@),
            None => match type_field {
                Some(t) => Some(t@),
                None => None,
            },
        }),
{
    match component {
        Some(c) => Some(owned(c)),
        None => match type_field {
            Some(t) => Some(owned(t)),
            None => None,
        },
    }
}

/// The schema a node is checked against: the built-in stub's, else the one
/// its describer reports.
pub fn node_schema_for(registry: &DescribeRegistry, component: &str, described: &ComponentSchema) -> (r: Option<String>)
    ensures
        opt_text(r) == (if registry@.contains_key(component@) {
            Some(registry@[component@].schema@)
        } else {
            opt_text(described.node_schema)
        }),
{
    match registry.get_schema(component) {
        Some(s) => Some(owned(s)),
        None => match &described.node_schema {
            Some(s) => Some(s.clone()),
            None => None,
        },
    }
}

/// The string value of a top-level key of a JSON object text; `None` when
/// the text is not JSON, not an object, or the key is absent or not a string.
pub uninterp spec fn json_top_string(text: Seq<char>, key: Seq<char>) -> Option<Seq<char>>;

/// `serde_json::from_str` into a `Value`, then `get(key)` and `as_str`.
#[verifier::external_body]
fn json_string_field(text: &str, key: &str) -> (r: Option<String>)
    ensures
        opt_text(r) == json_top_string(text@, key@),
{
    serde_json::from_str::<serde_json::Value>(text)
        .ok()
        .and_then(|v| v.get(key).and_then(|x| x.as_str()).map(|s| s.to_string()))
}

/// A schema's `$id`.
pub fn schema_id_from_json(schema_json: &str) -> (r: Option<String>)
    ensures
        opt_text(r) == json_top_string(schema_json@, "$id"@),
{
    json_string_field(schema_json, "$id")
}

// ---------------------------------------------------------------------------
// Validating a flow's nodes
// ---------------------------------------------------------------------------

/// A node of a flow document, as the validator reads it.
#[derive(Clone, Debug)]
pub struct FlowNode {
    /// The node is a mapping (only mappings name a component).
    pub is_mapping: bool,
    /// Its `component` field, when that is a string.
    pub component: Option<String>,
    /// Its `type` field, when that is a string.
    pub type_field: Option<String>,
    /// The node as JSON text.
    pub config_json: String,
}

/// The component a node names, when it names one.
pub open spec fn node_component(n: FlowNode) -> Option<Seq<char>> {
    match n.component {
        Some(c) => Some(c@),
        None => opt_text(n.type_field),
    }
}

/// A node that is a mapping and names a component.
pub open spec fn well_shaped(n: FlowNode) -> bool {
    n.is_mapping && node_component(n) is Some
}

/// A node that passed, with the schema and defaults it was checked with.
#[derive(Clone, Debug, PartialEq, Eq)]
pub struct ValidatedNode {
    pub component: String,
    pub config_json: String,
    pub schema_json: Option<String>,
    pub schema_id: Option<String>,
    /// The built-in defaults, as YAML text.
    pub defaults: Option<String>,
}

/// How the nodes of one component are checked.
#[derive(Clone, Debug, PartialEq, Eq)]
pub struct ComponentPlan {
    pub schema_json: Option<String>,
    pub schema_id: Option<String>,
    pub defaults: Option<String>,
}

impl View for ComponentPlan {
    type V = ComponentPlan;

    open spec fn view(&self) -> ComponentPlan {
        *self
    }
}

/// The text of the error `serde_json::from_str` reports for a schema text
/// that is not JSON; `None` for one that is.
pub uninterp spec fn schema_json_error(text: Seq<char>) -> Option<Seq<char>>;

/// The text of the error `jsonschema::validator_for` reports for a JSON
/// schema it cannot compile; `None` for one it compiles.
pub uninterp spec fn schema_compile_error(text: Seq<char>) -> Option<Seq<char>>;

/// The text of the first error `jsonschema::Validator::validate` reports for
/// a node (as JSON text) against a schema that compiles; `None` when the node
/// conforms.
pub uninterp spec fn node_violation(schema: Seq<char>, node: Seq<char>) -> Option<Seq<char>>;

/// Why a schema text cannot be used.
pub enum SchemaFault {
    InvalidJson(String),
    NotCompiled(String),
}

/// `serde_json::from_str` into a `Value`, then `jsonschema::validator_for`.
#[verifier::external_body]
fn compile_schema_text(text: &str) -> (r: Result<(), SchemaFault>)
    ensures
        match r {
            Ok(()) => schema_json_error(text@) is None && schema_compile_error(text@) is None,
            Err(SchemaFault::InvalidJson(e)) => schema_json_error(text@) == Some(e@),
            Err(SchemaFault::NotCompiled(e)) => schema_json_error(text@) is None
                && schema_compile_error(text@) == Some(e@),
        },
{
    match serde_json::from_str::<serde_json::Value>(text) {
        Err(e) => Err(SchemaFault::InvalidJson(e.to_string())),
        Ok(schema) => jsonschema::validator_for(&schema).map(|_| ()).map_err(|e| SchemaFault::NotCompiled(e.to_string())),
    }
}

/// `jsonschema::Validator::validate` of the node against the schema, both
/// read with `serde_json::from_str`; an unreadable node reads as its parse error.
#[verifier::external_body]
fn validate_node_text(schema: &str, node: &str) -> (r: Option<String>)
    requires
        schema_json_error(schema@) is None,
        schema_compile_error(schema@) is None,
    ensures
        opt_text(r) == node_violation(schema@, node@),
{
    let schema: serde_json::Value = serde_json::from_str(schema).ok()?;
    let validator = jsonschema::validator_for(&schema).ok()?;
    match serde_json::from_str::<serde_json::Value>(node) {
        Err(e) => Some(e.to_string()),
        Ok(value) => validator.validate(&value).err().map(|e| e.to_string()),
    }
}

/// The message a schema that cannot be used is reported with.
pub open spec fn schema_fault_message(text: Seq<char>) -> Seq<char> {
    match schema_json_error(text) {
        Some(e) => "invalid schema JSON: "@ + e,
        None => "schema did not compile: "@ + schema_compile_error(text)->0,
    }
}

pub open spec fn schema_usable(text: Seq<char>) -> bool {
    schema_json_error(text) is None && schema_compile_error(text) is None
}

/// The plan for a component: the built-in stub's schema, else the one its
/// describer reported; with a schema, it must compile, and its `$id` is kept.
pub fn plan_component(registry: &DescribeRegistry, component: &str, described: &ComponentSchema) -> (r: Result<
    ComponentPlan,
    String,
>)
    ensures
        ({
            let schema = if registry@.contains_key(component@) {
                Some(registry@[component@].schema@)
            } else {
                opt_text(described.node_schema)
            };
            let defaults = if registry@.contains_key(component@) {
                Some(registry@[component@].defaults@)
            } else {
                None
            };
            match schema {
                None => r matches Ok(p) && p.schema_json is None && p.schema_id is None && opt_text(
                    p.defaults,
                ) == defaults,
                Some(s) => if schema_usable(s) {
                    r matches Ok(p) && opt_text(p.schema_json) == Some(s) && opt_text(p.schema_id)
                        == json_top_string(s, "$id"@) && opt_text(p.defaults) == defaults
                } else {
                    r matches Err(m) && m@ == schema_fault_message(s)
                },
            }
        }),
{
    let schema_json = node_schema_for(registry, component, described);
    let defaults = match registry.get_defaults(component) {
        Some(d) => Some(owned(d)),
        None => None,
    };
    match schema_json {
        None => Ok(ComponentPlan { schema_json: None, schema_id: None, defaults }),
        Some(s) => match compile_schema_text(s.as_str()) {
            Err(SchemaFault::InvalidJson(e)) => Err(concat("invalid schema JSON: ", e.as_str())),
            Err(SchemaFault::NotCompiled(e)) => Err(concat("schema did not compile: ", e.as_str())),
            Ok(()) => {
                let schema_id = schema_id_from_json(s.as_str());
                Ok(ComponentPlan { schema_json: Some(s), schema_id, defaults })
            },
        },
    }
}

/// A plan's schema, when it has one, must be usable.
pub open spec fn plan_ok(p: ComponentPlan) -> bool {
    match p.schema_json {
        Some(s) => schema_usable(s@),
        None => true,
    }
}

/// Checks one node against its component's plan.
pub fn check_node(plan: &ComponentPlan, component: &str, index: usize, node: &FlowNode) -> (r: Result<
    ValidatedNode,
    FlowValidationError,
>)
    requires
        plan_ok(*plan),
    ensures
        match plan.schema_json {
            Some(s) if node_violation(s@, node.config_json@) is Some => r matches Err(
                FlowValidationError::SchemaValidation { component: c, index: i, message },
            ) && c@ == component@ && i == index && message@ == node_violation(
                s@,
                node.config_json@,
            )->0,
            _ => r matches Ok(v) && v.component@ == component@ && v.config_json == node.config_json
                && v.schema_json == plan.schema_json && v.schema_id == plan.schema_id && v.defaults
                == plan.defaults,
        },
{
    if let Some(s) = &plan.schema_json {
        if let Some(message) = validate_node_text(s.as_str(), node.config_json.as_str()) {
            return Err(FlowValidationError::SchemaValidation { component: owned(component), index, message });
        }
    }
    Ok(ValidatedNode {
        component: owned(component),
        config_json: node.config_json.clone(),
        schema_json: plan.schema_json.clone(),
        schema_id: plan.schema_id.clone(),
        defaults: plan.defaults.clone(),
    })
}

/// `s` is the schema that applies to component `k`: the built-in stub's
/// when there is one, else a node schema (or none) the describer reports.
pub open spec fn schema_applies<D: ComponentDescriber + ?Sized>(
    reg: Map<Seq<char>, ComponentStub>,
    describer: &D,
    k: Seq<char>,
    s: Option<Seq<char>>,
) -> bool {
    if reg.contains_key(k) {
        s == Some(reg[k].schema@)
    } else {
        describer.describes(k, Ok(s))
    }
}

/// `p` is a plan the validator may keep for component `k`.
pub open spec fn plan_for<D: ComponentDescriber + ?Sized>(
    reg: Map<Seq<char>, ComponentStub>,
    describer: &D,
    k: Seq<char>,
    p: ComponentPlan,
) -> bool {
    &&& plan_ok(p)
    &&& schema_applies(reg, describer, k, opt_text(p.schema_json))
    &&& opt_text(p.defaults) == (if reg.contains_key(k) {
        Some(reg[k].defaults@)
    } else {
        None
    })
    &&& p.schema_json matches Some(s) ==> opt_text(p.schema_id) == json_top_string(s@, "$id"@)
}

/// `v` is what the validator reports for node `n`: its component and
/// configuration, the component's built-in defaults, the schema that
/// applies, and a schema (when any) that compiles, whose `$id` is kept and
/// which the node conforms to.
pub open spec fn validated_fits<D: ComponentDescriber + ?Sized>(
    reg: Map<Seq<char>, ComponentStub>,
    describer: &D,
    n: FlowNode,
    v: ValidatedNode,
) -> bool {
    let k = node_component(n)->0;
    &&& schema_applies(reg, describer, k, opt_text(v.schema_json))
    &&& v.component@ == k
    &&& v.config_json == n.config_json
    &&& opt_text(v.defaults) == (if reg.contains_key(k) {
        Some(reg[k].defaults@)
    } else {
        None
    })
    &&& v.schema_json matches Some(s) ==> schema_usable(s@) && opt_text(v.schema_id) == json_top_string(
        s@,
        "$id"@,
    ) && node_violation(s@, n.config_json@) is None
}

/// Node `n` passes whatever the describer reports: it is a mapping naming a
/// component, describing that component never fails, and every schema that
/// may apply compiles and accepts the node.
pub open spec fn node_passes<D: ComponentDescriber + ?Sized>(
    reg: Map<Seq<char>, ComponentStub>,
    describer: &D,
    n: FlowNode,
) -> bool {
    let k = node_component(n)->0;
    &&& well_shaped(n)
    &&& forall|found: Result<Option<Seq<char>>, Seq<char>>|
        #[trigger] describer.describes(k, found) ==> found is Ok
    &&& forall|s: Option<Seq<char>>|
        #[trigger] schema_applies(reg, describer, k, s) ==> (s matches Some(t) ==> schema_usable(t)
            && node_violation(t, n.config_json@) is None)
}

/// `message` is why node `n` fails against a schema that applies to its
/// component: the schema cannot be used, or the node violates it.
pub open spec fn schema_rejects<D: ComponentDescriber + ?Sized>(
    reg: Map<Seq<char>, ComponentStub>,
    describer: &D,
    n: FlowNode,
    message: Seq<char>,
) -> bool {
    exists|s: Seq<char>|
        #[trigger] schema_applies(reg, describer, node_component(n)->0, Some(s)) && if schema_usable(s) {
            node_violation(s, n.config_json@) == Some(message)
        } else {
            message == schema_fault_message(s)
        }
}

/// What validating the nodes `ns` gives: every node validated, in order;
/// or the first problem: a node that is not a mapping or names no
/// component, a failed description, or a schema that cannot be used or is
/// violated; and success whenever every node passes whatever is reported.
pub open spec fn validation_outcome<D: ComponentDescriber + ?Sized>(
    reg: Map<Seq<char>, ComponentStub>,
    describer: &D,
    ns: Seq<FlowNode>,
    r: Result<Vec<ValidatedNode>, FlowValidationError>,
) -> bool {
    &&& (forall|i: int| 0 <= i < ns.len() ==> #[trigger] node_passes(reg, describer, ns[i])) ==> r is Ok
    &&& match r {
        Ok(v) => v@.len() == ns.len() && forall|i: int|
            0 <= i < ns.len() ==> well_shaped(#[trigger] ns[i]) && validated_fits(
                reg,
                describer,
                ns[i],
                v@[i],
            ),
        Err(FlowValidationError::NodeNotMapping { index }) => index < ns.len()
            && !ns[index as int].is_mapping && forall|j: int| 0 <= j < index ==> well_shaped(#[trigger] ns[j]),
        Err(FlowValidationError::MissingComponent { index }) => index < ns.len()
            && ns[index as int].is_mapping && node_component(ns[index as int]) is None && forall|j: int|
            0 <= j < index ==> well_shaped(#[trigger] ns[j]),
        Err(FlowValidationError::DescribeFailed { component, error }) => describer.describes(
            component@,
            Err(error@),
        ) && exists|index: int|
            0 <= index < ns.len() && node_component(#[trigger] ns[index]) == Some(component@) && forall|
                j: int,
            | 0 <= j <= index ==> well_shaped(#[trigger] ns[j]),
        Err(FlowValidationError::SchemaValidation { component, index, message }) => index < ns.len()
            && node_component(ns[index as int]) == Some(component@) && schema_rejects(
            reg,
            describer,
            ns[index as int],
            message@,
        ) && forall|j: int| 0 <= j <= index ==> well_shaped(#[trigger] ns[j]),
        Err(_) => false,
    }
}

/// Checks the nodes of a flow against the schemas of their components.
pub struct FlowValidator<D> {
    pub describer: D,
    pub registry: DescribeRegistry,
}

impl<D: ComponentDescriber> FlowValidator<D> {
    pub fn new(describer: D, registry: DescribeRegistry) -> (r: Self)
        ensures
            r.describer == describer,
            r.registry@ == registry@,
    {
        FlowValidator { describer, registry }
    }

    /// Validates the nodes of a flow document (`None` when it has no node
    /// list), in order, stopping at the first problem. Each component is
    /// described once, with its schema compiled on first use; a node passes
    /// when it is a mapping naming a component and conforms to the schema
    /// that applies.
    pub fn validate_document(&self, nodes: Option<&Vec<FlowNode>>) -> (r: Result<Vec<ValidatedNode>, FlowValidationError>)
        ensures
            match nodes {
                None => r == Err::<Vec<ValidatedNode>, FlowValidationError>(FlowValidationError::MissingNodes),
                Some(ns) => validation_outcome(self.registry@, &self.describer, ns@, r),
            },
    {
        self.validate_document_described(nodes).0
    }

    /// `validate_document`, also naming the components the describer was
    /// asked about, in the order they were asked: each at most once, and
    /// each the component of one of the nodes.
    pub fn validate_document_described(&self, nodes: Option<&Vec<FlowNode>>) -> (r: (
        Result<Vec<ValidatedNode>, FlowValidationError>,
        Ghost<Seq<Seq<char>>>,
    ))
        ensures
            match nodes {
                None => r.0 == Err::<Vec<ValidatedNode>, FlowValidationError>(
                    FlowValidationError::MissingNodes,
                ) && r.1@.len() == 0,
                Some(ns) => {
                    &&& validation_outcome(self.registry@, &self.describer, ns@, r.0)
                    &&& r.1@.no_duplicates()
                    &&& forall|k: Seq<char>|
                        #[trigger] r.1@.contains(k) ==> exists|i: int|
                            0 <= i < ns@.len() && node_component(#[trigger] ns@[i]) == Some(k)
                },
            },
    {
        let ns = match nodes {
            None => return (Err(FlowValidationError::MissingNodes), Ghost(Seq::empty())),
            Some(n) => n,
        };
        let ghost reg = self.registry@;
        let ghost mut asked: Seq<Seq<char>> = Seq::empty();
        let mut out: Vec<ValidatedNode> = Vec::new();
        let mut plans: KeyedMap<ComponentPlan> = KeyedMap::new();
        let mut i: usize = 0;
        while i < ns.len()
            invariant
                nodes == Some(ns),
                reg == self.registry@,
                i <= ns@.len(),
                out@.len() == i,
                forall|j: int|
                    0 <= j < i ==> well_shaped(#[trigger] ns@[j]) && validated_fits(
                        reg,
                        &self.describer,
                        ns@[j],
                        out@[j],
                    ),
                forall|k: Seq<char>|
                    #[trigger] plans@.contains_key(k) ==> plan_for(reg, &self.describer, k, plans@[k]),
                asked.no_duplicates(),
                forall|k: Seq<char>| #[trigger] plans@.contains_key(k) <==> asked.contains(k),
                forall|k: Seq<char>|
                    #[trigger] asked.contains(k) ==> exists|j: int|
                        0 <= j < ns@.len() && node_component(#[trigger] ns@[j]) == Some(k),
            decreases ns@.len() - i,
        {
            let node = &ns[i];
            if !node.is_mapping {
                let r = Err(FlowValidationError::NodeNotMapping { index: i });
                proof {
                    assert(!node_passes(reg, &self.describer, ns@[i as int]));
                }
                return (r, Ghost(asked));
            }
            let named = match &node.component {
                Some(c) => Some(c.as_str()),
                None => None,
            };
            let typed = match &node.type_field {
                Some(t) => Some(t.as_str()),
                None => None,
            };
            let component = match component_name(named, typed) {
                None => {
                    let r = Err(FlowValidationError::MissingComponent { index: i });
                    proof {
                        assert(!node_passes(reg, &self.describer, ns@[i as int]));
                    }
                    return (r, Ghost(asked));
                },
                Some(c) => c,
            };
            assert(node_component(ns@[i as int]) == Some(component@));
            if plans.get(component.as_str()).is_none() {
                let described = self.describer.describe(component.as_str());
                proof {
                    assert(!asked.contains(component@));
                    let before = asked;
                    asked = asked.push(component@);
                    assert forall|a: int, b: int| 0 <= a < b < asked.len() implies asked[a] != asked[b] by {
                        if b == asked.len() - 1 {
                            assert(before.contains(asked[a]));
                        } else {
                            assert(before[a] == asked[a] && before[b] == asked[b]);
                        }
                    }
                    assert forall|k: Seq<char>| asked.contains(k) <==> (before.contains(k) || k == component@) by {
                        if asked.contains(k) {
                            let m = choose|m: int| 0 <= m < asked.len() && asked[m] == k;
                            if m < before.len() {
                                assert(before[m] == k);
                            }
                        }
                        if before.contains(k) {
                            let m = choose|m: int| 0 <= m < before.len() && before[m] == k;
                            assert(asked[m] == k);
                        }
                        if k == component@ {
                            assert(asked[asked.len() - 1] == k);
                        }
                    }
                    assert forall|k: Seq<char>| asked.contains(k) implies exists|j: int|
                        0 <= j < ns@.len() && node_component(#[trigger] ns@[j]) == Some(k) by {
                        if k == component@ {
                            assert(node_component(ns@[i as int]) == Some(k));
                        } else {
                            assert(before.contains(k));
                        }
                    }
                }
                let described = match described {
                    Ok(d) => d,
                    Err(error) => {
                        let r = Err(FlowValidationError::DescribeFailed { component, error });
                        proof {
                            let k = node_component(ns@[i as int])->0;
                            assert(k == component@);
                            assert(self.describer.describes(k, Err(error@)));
                            assert(well_shaped(ns@[i as int]));
                            assert(!node_passes(reg, &self.describer, ns@[i as int]));
                        }
                        return (r, Ghost(asked));
                    },
                };
                assert(self.describer.describes(component@, Ok(described@)));
                let plan = match plan_component(&self.registry, component.as_str(), &described) {
                    Ok(p) => p,
                    Err(message) => {
                        let r = Err(FlowValidationError::SchemaValidation { component, index: i, message });
                        proof {
                            let k = node_component(ns@[i as int])->0;
                            assert(k == component@);
                            let s = if reg.contains_key(k) {
                                reg[k].schema@
                            } else {
                                opt_text(described.node_schema)->0
                            };
                            assert(described@ == opt_text(described.node_schema));
                            assert(schema_applies(reg, &self.describer, k, Some(s)));
                            assert(schema_rejects(reg, &self.describer, ns@[i as int], message@));
                            assert(!node_passes(reg, &self.describer, ns@[i as int]));
                        }
                        return (r, Ghost(asked));
                    },
                };
                plans.insert(component.clone(), plan);
            }
            let validated = match plans.get(component.as_str()) {
                Some(plan) => {
                    assert(plan_for(reg, &self.describer, component@, *plan));
                    let checked = check_node(plan, component.as_str(), i, node);
                    proof {
                        if checked is Err {
                            let k = node_component(ns@[i as int])->0;
                            assert(k == component@);
                            let s = plan.schema_json->0@;
                            assert(schema_applies(reg, &self.describer, k, Some(s)));
                            assert(!node_passes(reg, &self.describer, ns@[i as int]));
                        }
                    }
                    checked
                },
                None => {
                    assert(false);
                    return (Err(FlowValidationError::MissingNodes), Ghost(asked));
                },
            };
            match validated {
                Ok(v) => {
                    out.push(v);
                },
                Err(e) => {
                    return (Err(e), Ghost(asked));
                },
            }
            i = i + 1;
        }
        (Ok(out), Ghost(asked))
    }
}

} // verus!
