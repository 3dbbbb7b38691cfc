//! The tool interface and registry. Tools are **synchronous**: they take JSON in
//! and give their output back. The core loop never branches on a specific tool; it
//! looks one up here and dispatches.

use vstd::prelude::*;

use crate::error::ToolError;
use crate::json::Json;
use crate::text::{
    comes_before, same_text, text_less, text_less_irreflexive, text_less_total,
    text_less_transitive,
};

pub mod arithmetic;
pub mod builtins;
pub mod grammar;
pub mod laws;

verus! {

/// A synchronous capability the agent can invoke, JSON in. What a tool advertises
/// does not change; a tool that proofs are to know more of says what it is.
pub trait Tool: Sized {
    /// What a successful run gives back.
    type Output;

    /// The tool's name.
    open spec fn name_text(&self) -> Seq<char> {
        arbitrary()
    }

    /// The tool's description.
    open spec fn description_text(&self) -> Seq<char> {
        arbitrary()
    }

    /// The text of the JSON Schema for the tool's input.
    open spec fn parameters_text(&self) -> Seq<char> {
        arbitrary()
    }

    /// Unique, stable name the model calls.
    fn name(&self) -> (name: &str)
        ensures
            name@ == self.name_text(),
    ;

    /// One-line description shown to the model.
    fn description(&self) -> (description: &str)
        ensures
            description@ == self.description_text(),
    ;

    /// JSON Schema for this tool's input object (the `parameters` of a native
    /// tool-call function definition).
    fn parameters(&self) -> (parameters: Json)
        ensures
            parameters@ == self.parameters_text(),
    ;

    /// Run the tool. Errors here are **recoverable** at the loop level.
    fn execute(&self, input: &Json) -> Result<Self::Output, ToolError>;
}

/// A tool's advertised contract, handed to the provider so the model knows what it
/// can call.
#[derive(Debug, PartialEq, Eq)]
pub struct ToolSchema {
    pub name: String,
    pub description: String,
    pub parameters: Json,
}

/// What a [`ToolSchema`] says.
pub struct ToolSchemaView {
    pub name: Seq<char>,
    pub description: Seq<char>,
    pub parameters: Seq<char>,
}

impl View for ToolSchema {
    type V = ToolSchemaView;

    open spec fn view(&self) -> ToolSchemaView {
        ToolSchemaView {
            name: self.name@,
            description: self.description@,
            parameters: self.parameters@,
        }
    }
}

impl Clone for ToolSchema {
    fn clone(&self) -> (copy: Self)
        ensures
            copy@ == self@,
    {
        ToolSchema {
            name: self.name.clone(),
            description: self.description.clone(),
            parameters: self.parameters.clone(),
        }
    }
}

/// What a sequence of schemas says.
pub open spec fn schema_views(schemas: Seq<ToolSchema>) -> Seq<ToolSchemaView> {
    schemas.map_values(|schema: ToolSchema| schema@)
}

/// A copy of `schemas`.
pub fn clone_schemas(schemas: &[ToolSchema]) -> (copy: Vec<ToolSchema>)
    ensures
        schema_views(copy@) == schema_views(schemas@),
{
    let mut copy: Vec<ToolSchema> = Vec::new();
    let mut i: usize = 0;
    while i < schemas.len()
        invariant
            i <= schemas@.len(),
            copy@.len() == i,
            forall|k: int| 0 <= k < i ==> (#[trigger] copy@[k])@ == schemas@[k]@,
        decreases schemas@.len() - i,
    {
        copy.push(schemas[i].clone());
        i = i + 1;
    }
    assert(schema_views(copy@) =~= schema_views(schemas@));
    copy
}

/// The schema that a tool advertises.
pub open spec fn schema_of<T: Tool>(tool: T) -> ToolSchemaView {
    ToolSchemaView {
        name: tool.name_text(),
        description: tool.description_text(),
        parameters: tool.parameters_text(),
    }
}

/// Returned when registering two tools with the same name: a construction-time bug,
/// distinct from a recoverable [`ToolError`].
#[derive(Debug, PartialEq, Eq)]
pub struct DuplicateTool(pub String);

impl DuplicateTool {
    /// The error as shown to people.
    pub open spec fn text(name: Seq<char>) -> Seq<char> {
        "a tool named '"@ + name + "' is already registered"@
    }

    /// The error as shown to people.
    pub fn to_string(&self) -> (text: String)
        ensures
            text@ == Self::text(self.0@),
    {
        "a tool named '".to_owned().concat(self.0.as_str()).concat("' is already registered")
    }
}

impl Clone for DuplicateTool {
    fn clone(&self) -> (copy: Self)
        ensures
            copy.0@ == self.0@,
    {
        DuplicateTool(self.0.clone())
    }
}

/// A name-keyed set of tools. The loop's only tool-dispatch surface.
pub struct ToolRegistry<T: Tool> {
    tools: Vec<T>,
}

/// Whether tools stand in the order of their names, each name once.
spec fn in_name_order<T: Tool>(tools: Seq<T>) -> bool {
    forall|i: int, j: int|
        0 <= i < j < tools.len() ==> text_less(
            (#[trigger] tools[i]).name_text(),
            (#[trigger] tools[j]).name_text(),
        )
}

/// Whether one of the tools has this name.
spec fn has_name<T: Tool>(tools: Seq<T>, name: Seq<char>) -> bool {
    exists|i: int| 0 <= i < tools.len() && (#[trigger] tools[i]).name_text() == name
}

/// The tool with this name.
spec fn named<T: Tool>(tools: Seq<T>, name: Seq<char>) -> T {
    tools[choose|i: int| 0 <= i < tools.len() && (#[trigger] tools[i]).name_text() == name]
}

impl<T: Tool> View for ToolRegistry<T> {
    type V = Map<Seq<char>, T>;

    /// The tools by their names.
    closed spec fn view(&self) -> Map<Seq<char>, T> {
        Map::new(
            |name: Seq<char>| has_name(self.tools@, name),
            |name: Seq<char>| named(self.tools@, name),
        )
    }
}

/// Whether `schemas` lists the tools of a registry: in the order of their names,
/// each tool once, and nothing else.
pub open spec fn lists<T: Tool>(schemas: Seq<ToolSchemaView>, tools: Map<Seq<char>, T>) -> bool {
    &&& forall|i: int, j: int|
        0 <= i < j < schemas.len() ==> text_less(
            (#[trigger] schemas[i]).name,
            (#[trigger] schemas[j]).name,
        )
    &&& forall|i: int|
        0 <= i < schemas.len() ==> tools.contains_key((#[trigger] schemas[i]).name) && schemas[i]
            == schema_of(tools[schemas[i].name])
    &&& forall|name: Seq<char>| #[trigger]
        tools.contains_key(name) ==> exists|i: int|
            0 <= i < schemas.len() && (#[trigger] schemas[i]).name == name
}

/// A name belongs to one tool only.
proof fn lemma_names_are_unique<T: Tool>(tools: Seq<T>, i: int)
    requires
        in_name_order(tools),
        0 <= i < tools.len(),
    ensures
        has_name(tools, tools[i].name_text()),
        named(tools, tools[i].name_text()) == tools[i],
{
    let name = tools[i].name_text();
    let k = choose|k: int| 0 <= k < tools.len() && (#[trigger] tools[k]).name_text() == name;
    text_less_irreflexive(name);
    if k < i {
        assert(text_less(tools[k].name_text(), tools[i].name_text()));
    } else if i < k {
        assert(text_less(tools[i].name_text(), tools[k].name_text()));
    }
}

/// What inserting a tool at its place does to a list of tools.
proof fn lemma_inserted<T: Tool>(tools: Seq<T>, pos: int, tool: T)
    requires
        in_name_order(tools),
        0 <= pos <= tools.len(),
        forall|i: int| 0 <= i < pos ==> text_less((#[trigger] tools[i]).name_text(), tool.name_text()),
        pos < tools.len() ==> text_less(tool.name_text(), tools[pos].name_text()),
    ensures
        in_name_order(tools.insert(pos, tool)),
        !has_name(tools, tool.name_text()),
        forall|name: Seq<char>| #[trigger]
            has_name(tools.insert(pos, tool), name) <==> has_name(tools, name) || name
                == tool.name_text(),
        named(tools.insert(pos, tool), tool.name_text()) == tool,
        forall|name: Seq<char>|
            has_name(tools, name) ==> named(tools.insert(pos, tool), name) == #[trigger] named(
                tools,
                name,
            ),
{
    let more = tools.insert(pos, tool);
    assert forall|i: int| pos <= i < tools.len() implies text_less(
        tool.name_text(),
        (#[trigger] tools[i]).name_text(),
    ) by {
        if i > pos {
            text_less_transitive(tool.name_text(), tools[pos].name_text(), tools[i].name_text());
        }
    }
    assert forall|i: int| 0 <= i < tools.len() implies (#[trigger] tools[i]).name_text()
        != tool.name_text() by {
        text_less_irreflexive(tool.name_text());
    }
    assert forall|i: int, j: int| 0 <= i < j < more.len() implies text_less(
        (#[trigger] more[i]).name_text(),
        (#[trigger] more[j]).name_text(),
    ) by {
        if i < pos && j == pos {
            assert(more[i] == tools[i]);
        } else if i < pos && j < pos {
            assert(more[i] == tools[i] && more[j] == tools[j]);
        } else if i < pos {
            assert(more[i] == tools[i] && more[j] == tools[j - 1]);
        } else if i == pos {
            assert(more[j] == tools[j - 1]);
        } else {
            assert(more[i] == tools[i - 1] && more[j] == tools[j - 1]);
        }
    }
    assert forall|name: Seq<char>| #[trigger] has_name(more, name) <==> has_name(tools, name)
        || name == tool.name_text() by {
        if has_name(more, name) {
            let k = choose|k: int| 0 <= k < more.len() && (#[trigger] more[k]).name_text() == name;
            if k < pos {
                assert(tools[k].name_text() == name);
            } else if k > pos {
                assert(tools[k - 1].name_text() == name);
            }
        }
        if has_name(tools, name) {
            let k = choose|k: int|
                0 <= k < tools.len() && (#[trigger] tools[k]).name_text() == name;
            if k < pos {
                assert(more[k].name_text() == name);
            } else {
                assert(more[k + 1].name_text() == name);
            }
        }
        if name == tool.name_text() {
            assert(more[pos].name_text() == name);
        }
    }
    lemma_names_are_unique(more, pos);
    assert forall|name: Seq<char>| has_name(tools, name) implies named(more, name)
        == #[trigger] named(tools, name) by {
        let k = choose|k: int| 0 <= k < tools.len() && (#[trigger] tools[k]).name_text() == name;
        let m = if k < pos {
            k
        } else {
            k + 1
        };
        assert(more[m] == tools[k]);
        lemma_names_are_unique(more, m);
        lemma_names_are_unique(tools, k);
    }
}

impl<T: Tool> ToolRegistry<T> {
    #[verifier::type_invariant]
    spec fn wf(self) -> bool {
        in_name_order(self.tools@)
    }

    /// A registry without tools.
    pub fn new() -> (registry: Self)
        ensures
            registry@ == Map::<Seq<char>, T>::empty(),
    {
        let registry = ToolRegistry { tools: Vec::new() };
        assert(registry@ =~= Map::<Seq<char>, T>::empty());
        registry
    }

    /// Register a tool. Fails if its name is already taken.
    pub fn register(&mut self, tool: T) -> (outcome: Result<(), DuplicateTool>)
        ensures
            match outcome {
                Ok(()) => {
                    &&& !old(self)@.contains_key(tool.name_text())
                    &&& final(self)@ == old(self)@.insert(tool.name_text(), tool)
                },
                Err(DuplicateTool(name)) => {
                    &&& old(self)@.contains_key(tool.name_text())
                    &&& name@ == tool.name_text()
                    &&& final(self)@ == old(self)@
                },
            },
    {
        proof {
            use_type_invariant(&*self);
        }
        let mut pos: usize = 0;
        while pos < self.tools.len() && comes_before(self.tools[pos].name(), tool.name())
            invariant
                pos <= self.tools@.len(),
                forall|i: int|
                    0 <= i < pos ==> text_less(
                        (#[trigger] self.tools@[i]).name_text(),
                        tool.name_text(),
                    ),
            decreases self.tools@.len() - pos,
        {
            pos = pos + 1;
        }
        if pos < self.tools.len() && same_text(self.tools[pos].name(), tool.name()) {
            let name: String = tool.name().to_owned();
            return Err(DuplicateTool(name));
        }
        proof {
            if pos < self.tools@.len() {
                text_less_total(self.tools@[pos as int].name_text(), tool.name_text());
            }
            lemma_inserted(self.tools@, pos as int, tool);
        }
        let mut tools: Vec<T> = Vec::new();
        std::mem::swap(&mut tools, &mut self.tools);
        tools.insert(pos, tool);
        self.tools = tools;
        assert(self@ =~= old(self)@.insert(tool.name_text(), tool));
        Ok(())
    }

    /// Look up a tool by name. The loop uses this to distinguish an unknown tool
    /// from a tool that ran and failed.
    pub fn get(&self, name: &str) -> (found: Option<&T>)
        ensures
            match found {
                Some(tool) => self@.contains_key(name@) && *tool == self@[name@]
                    && tool.name_text() == name@,
                None => !self@.contains_key(name@),
            },
    {
        proof {
            use_type_invariant(self);
        }
        let mut i: usize = 0;
        while i < self.tools.len()
            invariant
                in_name_order(self.tools@),
                i <= self.tools@.len(),
                forall|k: int|
                    0 <= k < i ==> (#[trigger] self.tools@[k]).name_text() != name@,
            decreases self.tools@.len() - i,
        {
            if same_text(self.tools[i].name(), name) {
                proof {
                    lemma_names_are_unique(self.tools@, i as int);
                }
                return Some(&self.tools[i]);
            }
            i = i + 1;
        }
        None
    }

    /// Every tool's schema, sorted by name for deterministic output.
    pub fn schemas(&self) -> (schemas: Vec<ToolSchema>)
        ensures
            lists(schema_views(schemas@), self@),
    {
        proof {
            use_type_invariant(self);
        }
        let mut schemas: Vec<ToolSchema> = Vec::new();
        let mut i: usize = 0;
        while i < self.tools.len()
            invariant
                i <= self.tools@.len(),
                schemas@.len() == i,
                forall|k: int|
                    0 <= k < i ==> (#[trigger] schemas@[k])@ == schema_of(self.tools@[k]),
            decreases self.tools@.len() - i,
        {
            let tool: &T = &self.tools[i];
            schemas.push(
                ToolSchema {
                    name: tool.name().to_owned(),
                    description: tool.description().to_owned(),
                    parameters: tool.parameters(),
                },
            );
            i = i + 1;
        }
        proof {
            let listed = schema_views(schemas@);
            assert forall|k: int, m: int| 0 <= k < m < listed.len() implies text_less(
                (#[trigger] listed[k]).name,
                (#[trigger] listed[m]).name,
            ) by {
                assert(listed[k] == schemas@[k]@ && listed[m] == schemas@[m]@);
                assert(text_less(self.tools@[k].name_text(), self.tools@[m].name_text()));
            }
            assert forall|k: int| 0 <= k < listed.len() implies self@.contains_key(
                (#[trigger] listed[k]).name,
            ) && listed[k] == schema_of(self@[listed[k].name]) by {
                assert(listed[k] == schemas@[k]@);
                lemma_names_are_unique(self.tools@, k);
            }
            assert forall|name: Seq<char>| #[trigger] self@.contains_key(name) implies exists|k: int|
                0 <= k < listed.len() && (#[trigger] listed[k]).name == name by {
                let k = choose|k: int|
                    0 <= k < self.tools@.len() && (#[trigger] self.tools@[k]).name_text() == name;
                assert(listed[k] == schemas@[k]@);
            }
        }
        schemas
    }
}

impl<T: Tool> Default for ToolRegistry<T> {
    fn default() -> (registry: Self)
        ensures
            registry@ == Map::<Seq<char>, T>::empty(),
    {
        ToolRegistry::new()
    }
}

/// A set of tools has one listing only: the output of [`ToolRegistry::schemas`] is
/// determined by which tools are registered.
pub proof fn law_one_listing<T: Tool>(
    first: Seq<ToolSchemaView>,
    second: Seq<ToolSchemaView>,
    tools: Map<Seq<char>, T>,
)
    requires
        lists(first, tools),
        lists(second, tools),
    ensures
        first == second,
{
    lemma_listing_is_prefix(first, second, tools, first.len());
    lemma_listing_is_prefix(second, first, tools, second.len());
    assert(first =~= second);
}

/// The first `count` entries of one listing stand in the other at the same places.
proof fn lemma_listing_is_prefix<T: Tool>(
    first: Seq<ToolSchemaView>,
    second: Seq<ToolSchemaView>,
    tools: Map<Seq<char>, T>,
    count: nat,
)
    requires
        lists(first, tools),
        lists(second, tools),
        count <= first.len(),
    ensures
        count <= second.len(),
        forall|i: int| 0 <= i < count ==> #[trigger] first[i] == second[i],
    decreases count,
{
    if count > 0 {
        let k = count - 1;
        lemma_listing_is_prefix(first, second, tools, k as nat);
        let name = first[k].name;
        text_less_irreflexive(name);
        let j = choose|j: int| 0 <= j < second.len() && (#[trigger] second[j]).name == name;
        if j < k {
            assert(first[j] == second[j]);
            assert(text_less(first[j].name, first[k].name));
        } else if j > k {
            let other = second[k].name;
            assert(text_less(other, name));
            let i = choose|i: int| 0 <= i < first.len() && (#[trigger] first[i]).name == other;
            text_less_irreflexive(other);
            if i < k {
                assert(first[i] == second[i]);
                assert(text_less(second[i].name, second[k].name));
            } else if i > k {
                assert(text_less(first[k].name, first[i].name));
                text_less_transitive(other, name, other);
            }
        }
    }
}

/// In which order two tools were registered makes no difference to the listing.
pub proof fn law_registration_order_is_irrelevant<T: Tool>(
    tools: Map<Seq<char>, T>,
    a: T,
    b: T,
    first: Seq<ToolSchemaView>,
    second: Seq<ToolSchemaView>,
)
    requires
        a.name_text() != b.name_text(),
        lists(first, tools.insert(a.name_text(), a).insert(b.name_text(), b)),
        lists(second, tools.insert(b.name_text(), b).insert(a.name_text(), a)),
    ensures
        first == second,
{
    assert(tools.insert(a.name_text(), a).insert(b.name_text(), b) =~= tools.insert(
        b.name_text(),
        b,
    ).insert(a.name_text(), a));
    law_one_listing(first, second, tools.insert(a.name_text(), a).insert(b.name_text(), b));
}

} // verus!
