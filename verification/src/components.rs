//! Components: the schemas a flow's nodes are described by, component
//! coordinates, and the plain kinds the component and pack commands use.
use vstd::prelude::*;

use crate::strmap::KeyedMap;
use crate::text::{owned, rfind_char, last_index_of, slice_chars};

verus! {

/// The node schema a component describes itself with.
#[derive(Clone, Debug, PartialEq, Eq)]
pub struct ComponentSchema {
    pub node_schema: Option<String>,
}

impl View for ComponentSchema {
    type V = Option<Seq<char>>;

    open spec fn view(&self) -> Option<Seq<char>> {
        match self.node_schema {
            Some(s) => Some(s@),
            None => None,
        }
    }
}

impl ComponentSchema {
    /// A schema that names no node schema.
    pub fn empty() -> (r: Self)
        ensures
            r@ is None,
    {
        ComponentSchema { node_schema: None }
    }

    /// An independent copy saying the same.
    pub fn copy(&self) -> (r: Self)
        ensures
            r@ == self@,
    {
        ComponentSchema {
            node_schema: match &self.node_schema {
                Some(s) => Some(s.clone()),
                None => None,
            },
        }
    }
}

/// A description as plain values: the node schema it names (if any), or the
/// failure's message.
pub open spec fn description_text(r: Result<ComponentSchema, String>) -> Result<Option<Seq<char>>, Seq<char>> {
    match r {
        Ok(s) => Ok(s@),
        Err(e) => Err(e@),
    }
}

/// Describes components by name.
pub trait ComponentDescriber {
    /// `found` is what the describer may report for `component`; by default
    /// anything.
    open spec fn describes(&self, component: Seq<char>, found: Result<Option<Seq<char>>, Seq<char>>) -> bool {
        true
    }

    fn describe(&self, component: &str) -> (r: Result<ComponentSchema, String>)
        ensures
            self.describes(component@, description_text(r)),
    ;
}

/// Schemas registered by component name, with one answer for the rest.
#[derive(Debug)]
pub struct StaticComponentDescriber {
    schemas: KeyedMap<ComponentSchema>,
    fallback: ComponentSchema,
}

impl View for StaticComponentDescriber {
    type V = (Map<Seq<char>, Option<Seq<char>>>, Option<Seq<char>>);

    closed spec fn view(&self) -> (Map<Seq<char>, Option<Seq<char>>>, Option<Seq<char>>) {
        (self.schemas@, self.fallback@)
    }
}

impl StaticComponentDescriber {
    /// No schemas; every component is described without a node schema.
    pub fn new() -> (r: Self)
        ensures
            r@.0 == Map::<Seq<char>, Option<Seq<char>>>::empty(),
            r@.1 is None,
    {
        StaticComponentDescriber { schemas: KeyedMap::new(), fallback: ComponentSchema::empty() }
    }

    /// The same describer answering `fallback_schema` for unregistered components.
    pub fn with_fallback(self, fallback_schema: ComponentSchema) -> (r: Self)
        ensures
            r@.0 == self@.0,
            r@.1 == fallback_schema@,
    {
        StaticComponentDescriber { schemas: self.schemas, fallback: fallback_schema }
    }

    /// Registers `schema` for `component`, replacing an earlier one.
    pub fn register_schema(&mut self, component: &str, schema: ComponentSchema) -> (r: &mut Self)
        ensures
            final(self)@ == final(r)@,
            r@.0 == old(self)@.0.insert(component@, schema@),
            r@.1 == old(self)@.1,
    {
        self.schemas.insert(owned(component), schema);
        self
    }
}

impl ComponentDescriber for StaticComponentDescriber {
    open spec fn describes(&self, component: Seq<char>, found: Result<Option<Seq<char>>, Seq<char>>) -> bool {
        found == Ok::<Option<Seq<char>>, Seq<char>>(
            if self@.0.contains_key(component) {
                self@.0[component]
            } else {
                self@.1
            },
        )
    }

    fn describe(&self, component: &str) -> (r: Result<ComponentSchema, String>)
        ensures
            r matches Ok(s) && s@ == (if self@.0.contains_key(component@) {
                self@.0[component@]
            } else {
                self@.1
            }),
    {
        match self.schemas.get(component) {
            Some(schema) => Ok(schema.copy()),
            None => Ok(self.fallback.copy()),
        }
    }
}

/// Why a flow did not validate.
#[derive(Clone, Debug, PartialEq, Eq)]
pub enum FlowValidationError {
    /// The flow file could not be read.
    Io { path: String, error: String },
    YamlParse { error: String },
    /// The document has no node list.
    MissingNodes,
    NodeNotMapping { index: usize },
    MissingComponent { index: usize },
    DescribeFailed { component: String, error: String },
    SchemaValidation { component: String, index: usize, message: String },
}

/// A node whose configuration does not match its component's schema.
#[derive(Clone, Debug)]
pub struct NodeSchemaError {
    pub node_id: String,
    pub component: String,
    pub pointer: String,
    pub message: String,
}

/// How strictly a pack's signature is checked.
#[derive(Clone, Copy, Debug, PartialEq, Eq, Structural)]
pub enum VerifyPolicy {
    Strict,
    DevOk,
}

/// Where a child process's output goes.
#[derive(Clone, Copy, Debug, PartialEq, Eq, Structural)]
pub enum StreamMode {
    Inherit,
    Capture,
}

/// `greentic-dev component` subcommands.
#[derive(Clone, Debug)]
pub enum ComponentCommands {
    New(NewComponentArgs),
    Validate(ValidateArgs),
    Pack(PackArgs),
}

#[derive(Clone, Debug)]
pub struct NewComponentArgs {
    pub name: String,
    pub dir: Option<String>,
}

#[derive(Clone, Debug)]
pub struct ValidateArgs {
    /// `.` unless given.
    pub path: String,
    pub skip_build: bool,
}

#[derive(Clone, Debug)]
pub struct PackArgs {
    /// `.` unless given.
    pub path: String,
    pub out_dir: Option<String>,
    pub skip_build: bool,
}

/// `id@version` split at its last `@`; without one, any version (`*`).
pub open spec fn coordinate_parts(input: Seq<char>) -> (Seq<char>, Seq<char>) {
    match last_index_of(input, '@') {
        Some(i) => (input.take(i), input.skip(i + 1)),
        None => (input, "*"@),
    }
}

pub fn parse_coordinate(input: &str) -> (r: (String, String))
    ensures
        (r.0@, r.1@) == coordinate_parts(input@),
{
    match rfind_char(input, '@') {
        Some(i) => {
            proof {
                crate::text::lemma_last_index_in_range(input@, '@');
            }
            let n = input.unicode_len();
            let id = slice_chars(input, 0, i);
            let ver = slice_chars(input, i + 1, n);
            assert(id@ =~= input@.take(i as int));
            assert(ver@ =~= input@.skip(i + 1));
            (id, ver)
        },
        None => (owned(input), "*".to_string()),
    }
}

/// How a child process's output is collected: both streams captured, or
/// both inherited; mixing them is refused with this message.
pub fn stream_capture(stdout: StreamMode, stderr: StreamMode) -> (r: Result<bool, &'static str>)
    ensures
        stdout == StreamMode::Inherit && stderr == StreamMode::Inherit ==> r == Ok::<bool, &'static str>(false),
        stdout == StreamMode::Capture && stderr == StreamMode::Capture ==> r == Ok::<bool, &'static str>(true),
        stdout != stderr ==> (r matches Err(m) && m@ == "mixed capture/inherit mode is not supported yet"@),
{
    match (stdout, stderr) {
        (StreamMode::Inherit, StreamMode::Inherit) => Ok(false),
        (StreamMode::Capture, StreamMode::Capture) => Ok(true),
        _ => Err("mixed capture/inherit mode is not supported yet"),
    }
}

} // verus!
