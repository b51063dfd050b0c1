//! Tool descriptions and the registry that maps tool names to them.

use vstd::prelude::*;

verus! {

/// A JSON document, held as it is and handed on to the chat service.
#[verifier::external_type_specification]
#[verifier::external_body]
pub struct ExJsonValue(serde_json::Value);

/// The JSON-schema object that describes a tool's parameters.
pub struct JsonSchemaObject {
    pub schema_type: String,
    pub properties: serde_json::Value,
    pub required: Vec<String>,
}

/// The name, purpose and parameters of a tool.
pub struct ToolFunctionDefinition {
    pub name: String,
    pub description: String,
    pub parameters: JsonSchemaObject,
}

/// A tool as it is described to the model.
pub struct ToolDefinition {
    pub tool_type: String,
    pub function: ToolFunctionDefinition,
}

/// The names of a sequence of tool definitions.
pub open spec fn definition_names(defs: Seq<ToolDefinition>) -> Seq<Seq<char>> {
    defs.map_values(|d: ToolDefinition| d.function.name@)
}

/// Why a tool could not be registered.
#[derive(Debug)]
pub enum RegistryError {
    DuplicateTool(String),
}

/// The tools that the model may call, in order of registration.
pub struct ToolRegistry {
    tools: Vec<ToolDefinition>,
}

impl View for ToolRegistry {
    type V = Seq<Seq<char>>;

    /// The names of the registered tools, in order of registration.
    closed spec fn view(&self) -> Seq<Seq<char>> {
        definition_names(self.tools@)
    }
}

impl ToolRegistry {
    /// An empty registry.
    pub fn new() -> (r: ToolRegistry)
        ensures
            r@ == Seq::<Seq<char>>::empty(),
    {
        let r = ToolRegistry { tools: Vec::new() };
        assert(r@ =~= Seq::<Seq<char>>::empty());
        r
    }

    /// The index of the first tool named `name`, if any.
    pub fn lookup(&self, name: &String) -> (r: Option<usize>)
        ensures
            match r {
                Some(i) => i < self@.len() && self@[i as int] == name@ && forall|j: int|
                    0 <= j < i ==> self@[j] != name@,
                None => !self@.contains(name@),
            },
    {
        let mut i: usize = 0;
        while i < self.tools.len()
            invariant
                i <= self.tools@.len(),
                self@ == definition_names(self.tools@),
                forall|j: int| 0 <= j < i ==> self@[j] != name@,
            decreases self.tools@.len() - i,
        {
            if self.tools[i].function.name == *name {
                assert(self@[i as int] == self.tools@[i as int].function.name@);
                return Some(i);
            }
            assert(self@[i as int] == self.tools@[i as int].function.name@);
            i += 1;
        }
        proof {
            if self@.contains(name@) {
                let j = choose|j: int| 0 <= j < self@.len() && self@[j] == name@;
                assert(self@[j] != name@);
            }
        }
        None
    }

    /// Registers a tool; a second tool of the same name is refused.
    pub fn register(&mut self, definition: ToolDefinition) -> (r: Result<(), RegistryError>)
        ensures
            old(self)@.contains(definition.function.name@) ==> final(self)@ == old(self)@ && (
            match r {
                Err(RegistryError::DuplicateTool(n)) => n@ == definition.function.name@,
                Ok(()) => false,
            }),
            !old(self)@.contains(definition.function.name@) ==> r is Ok && final(self)@ == old(
                self,
            )@.push(definition.function.name@),
    {
        match self.lookup(&definition.function.name) {
            Some(_) => Err(RegistryError::DuplicateTool(definition.function.name)),
            None => {
                self.tools.push(definition);
                assert(final(self)@ =~= old(self)@.push(definition.function.name@));
                Ok(())
            },
        }
    }

    /// The descriptions of all registered tools, in order of registration.
    pub fn describe_all(&self) -> (r: &[ToolDefinition])
        ensures
            definition_names(r@) == self@,
    {
        self.tools.as_slice()
    }
}

} // verus!
