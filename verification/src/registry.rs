//! The registry of tools: which tools may be registered, and the module
//! source that is generated for the registered tools.

use crate::tools::{
    tool_source, valid_tool_description, valid_tool_name, validate_tool_description,
    validate_tool_name, Tool, ToolError, ToolResult,
};
use indexmap::IndexMap;
use vstd::prelude::*;
use vstd::string::*;

verus! {

/// The line that opens a generated module.
pub const MODULE_HEADER: &'static str = "from langchain_core.tools import tool\n\n";

/// The argument list of every generated function.
pub const TOOL_ARGS: &'static str = "(arg)";

/// The output type of every generated function.
pub const TOOL_OUTPUT: &'static str = "str";

/// `indexmap::IndexMap`, taken as it is: what it holds is known by
/// `registered` alone.
#[verifier::external_type_specification]
#[verifier::external_body]
#[verifier::reject_recursive_types(K)]
#[verifier::reject_recursive_types(V)]
#[verifier::reject_recursive_types(S)]
pub struct ExIndexMap<K, V, S>(indexmap::IndexMap<K, V, S>);

/// The names and descriptions that a registry holds, in the order of their
/// registration.
pub uninterp spec fn registered(registry: IndexMap<String, String>) -> Seq<(Seq<char>, Seq<char>)>;

/// Whether `name` is the name of one of `entries`.
pub open spec fn has_name(entries: Seq<(Seq<char>, Seq<char>)>, name: Seq<char>) -> bool {
    exists|i: int| 0 <= i < entries.len() && (#[trigger] entries[i]).0 == name
}

/// `IndexMap::new`: a map that holds nothing.
#[verifier::external_body]
fn registry_new() -> (registry: IndexMap<String, String>)
    ensures
        registered(registry) == Seq::<(Seq<char>, Seq<char>)>::empty(),
{
    IndexMap::new()
}

/// `IndexMap::contains_key`: whether the map holds an entry of that key.
#[verifier::external_body]
fn registry_contains(registry: &IndexMap<String, String>, name: &str) -> (found: bool)
    ensures
        found == has_name(registered(*registry), name@),
{
    registry.contains_key(name)
}

/// `IndexMap::insert` with a key that the map does not hold: the new entry
/// is the last in order, and nothing is returned. A key that the map holds
/// is left out by the precondition.
#[verifier::external_body]
fn registry_insert(registry: &mut IndexMap<String, String>, name: String, description: String) -> (
    replaced: Option<String>)
    requires
        !has_name(registered(*old(registry)), name@),
    ensures
        replaced is None,
        registered(*final(registry)) == registered(*old(registry)).push((name@, description@)),
{
    registry.insert(name, description)
}

/// `IndexMap::len`: the number of entries.
#[verifier::external_body]
fn registry_len(registry: &IndexMap<String, String>) -> (len: usize)
    ensures
        len == registered(*registry).len(),
{
    registry.len()
}

/// A tool as the registry holds it.
pub struct Entry<'a> {
    pub name: &'a str,
    pub description: &'a str,
}

/// `IndexMap::get_index` with an index below the length: the entry at that
/// place in the order.
#[verifier::external_body]
fn registry_entry(registry: &IndexMap<String, String>, index: usize) -> (entry: Option<Entry<'_>>)
    requires
        index < registered(*registry).len(),
    ensures
        match entry {
            Some(found) => found.name@ == registered(*registry)[index as int].0
                && found.description@ == registered(*registry)[index as int].1,
            None => false,
        },
{
    registry.get_index(index).map(|(name, description)| Entry { name, description })
}

/// The message of the failure to register a name twice.
pub open spec fn duplicate_message(name: Seq<char>) -> Seq<char> {
    "Tool name `"@ + name + "` already exists, use a unique name."@
}

/// The source of the module generated for `entries`: the header, and the
/// function of every tool in the order of registration.
pub open spec fn module_source(entries: Seq<(Seq<char>, Seq<char>)>) -> Seq<char>
    decreases entries.len(),
{
    if entries.len() == 0 {
        MODULE_HEADER@
    } else {
        module_source(entries.drop_last()) + tool_source(
            entries.last().0,
            TOOL_ARGS@,
            TOOL_OUTPUT@,
            entries.last().1,
        )
    }
}

/// The name of the native function that a generated function hands its
/// arguments to.
pub open spec fn bridged_name(name: Seq<char>) -> Seq<char> {
    "bridged_"@ + name
}

/// A builder for the tool registry.
pub struct ToolRegistryBuilder {
    registry: IndexMap<String, String>,
}

/// A registry of tools with the module that was generated for it.
pub struct ToolRegistry {
    registry: IndexMap<String, String>,
    bridge_module_name: String,
    pydantic_file_name: String,
    code: String,
    bridged_names: Vec<String>,
}

impl ToolRegistry {
    /// Create a new builder.
    pub fn builder() -> (builder: ToolRegistryBuilder)
        ensures
            builder.tools() == Seq::<(Seq<char>, Seq<char>)>::empty(),
    {
        ToolRegistryBuilder { registry: registry_new() }
    }

    /// The names and descriptions of the tools, in the order of their
    /// registration.
    pub closed spec fn tools(&self) -> Seq<(Seq<char>, Seq<char>)> {
        registered(self.registry)
    }

    /// The name of the module that holds the native functions.
    pub closed spec fn bridge_module(&self) -> Seq<char> {
        self.bridge_module_name@
    }

    /// The file name of the generated module.
    pub closed spec fn file_name(&self) -> Seq<char> {
        self.pydantic_file_name@
    }

    /// The source of the generated module.
    pub closed spec fn source(&self) -> Seq<char> {
        self.code@
    }

    /// The names of the native functions, in the order of registration.
    pub closed spec fn bridged(&self) -> Seq<Seq<char>> {
        Seq::new(self.bridged_names@.len(), |i: int| self.bridged_names@[i]@)
    }

    /// The number of tools.
    pub fn len(&self) -> (len: usize)
        ensures
            len == self.tools().len(),
    {
        registry_len(&self.registry)
    }

    /// The name of the module that holds the native functions.
    pub fn bridge_module_name(&self) -> (name: &str)
        ensures
            name@ == self.bridge_module(),
    {
        self.bridge_module_name.as_str()
    }

    /// The file name of the generated module.
    pub fn pydantic_file_name(&self) -> (name: &str)
        ensures
            name@ == self.file_name(),
    {
        self.pydantic_file_name.as_str()
    }

    /// The source of the generated module.
    pub fn code(&self) -> (code: &str)
        ensures
            code@ == self.source(),
    {
        self.code.as_str()
    }

    /// The names of the native functions, in the order of registration.
    pub fn bridged_names(&self) -> (names: &Vec<String>)
        ensures
            names@.len() == self.bridged().len(),
            forall|i: int| 0 <= i < names@.len() ==> (#[trigger] names@[i])@ == self.bridged()[i],
    {
        &self.bridged_names
    }
}

impl ToolRegistryBuilder {
    /// The names and descriptions of the tools registered so far, in the
    /// order of their registration.
    pub closed spec fn tools(&self) -> Seq<(Seq<char>, Seq<char>)> {
        registered(self.registry)
    }

    /// Registers a tool by the specified name.
    ///
    /// The tool is registered, behind those already there, exactly where
    /// its name and its description are valid and no tool of that name is
    /// registered. Otherwise nothing changes, and the failure names the
    /// first of these three that does not hold.
    pub fn register(&mut self, name: &str, description: &str) -> (result: ToolResult<()>)
        ensures
            match result {
                Ok(()) => {
                    &&& valid_tool_name(name@)
                    &&& valid_tool_description(description@)
                    &&& !has_name(old(self).tools(), name@)
                    &&& final(self).tools() == old(self).tools().push((name@, description@))
                },
                Err(error) => {
                    &&& final(self).tools() == old(self).tools()
                    &&& if !valid_tool_name(name@) {
                        error@ == "Tool name must be 3 to 24 lowercase or hyphen characters."@
                    } else if !valid_tool_description(description@) {
                        error@ == "Tool description must be 10 to 64 characters."@
                    } else {
                        has_name(old(self).tools(), name@) && error@ == duplicate_message(name@)
                    }
                },
            },
    {
        match validate_tool_name(name) {
            Ok(()) => {},
            Err(error) => {
                return Err(error);
            },
        }
        match validate_tool_description(description) {
            Ok(()) => {},
            Err(error) => {
                return Err(error);
            },
        }
        if registry_contains(&self.registry, name) {
            let mut message = String::from_str("Tool name `");
            message.append(name);
            message.append("` already exists, use a unique name.");
            Err(ToolError::other(message.as_str()))
        } else {
            registry_insert(
                &mut self.registry,
                String::from_str(name),
                String::from_str(description),
            );
            Ok(())
        }
    }

    /// The source of the module for the tools registered so far.
    pub fn source(&self, module_name: &str) -> (code: String)
        ensures
            code@ == module_source(self.tools()),
    {
        let mut code = String::from_str(MODULE_HEADER);
        let len: usize = registry_len(&self.registry);
        let mut index: usize = 0;
        while index < len
            invariant
                len == self.tools().len(),
                index <= len,
                code@ == module_source(self.tools().take(index as int)),
            decreases len - index,
        {
            let ghost entries = self.tools();
            match registry_entry(&self.registry, index) {
                Some(entry) => {
                    let tool = Tool {
                        module_name,
                        name: entry.name,
                        args: TOOL_ARGS,
                        output: TOOL_OUTPUT,
                        documentation: entry.description,
                    };
                    let text = tool.to_string();
                    code.append(text.as_str());
                    proof {
                        let next = entries.take(index + 1);
                        assert(next.drop_last() =~= entries.take(index as int));
                        assert(next.last() == entries[index as int]);
                    }
                },
                None => {},
            }
            index += 1;
        }
        assert(self.tools().take(len as int) =~= self.tools());
        code
    }

    /// The names of the native functions of the tools registered so far, in
    /// the order of registration.
    pub fn bridged_names(&self) -> (names: Vec<String>)
        ensures
            names@.len() == self.tools().len(),
            forall|i: int|
                0 <= i < names@.len() ==> (#[trigger] names@[i])@ == bridged_name(
                    self.tools()[i].0,
                ),
    {
        let mut names: Vec<String> = Vec::new();
        let len: usize = registry_len(&self.registry);
        let mut index: usize = 0;
        while index < len
            invariant
                len == self.tools().len(),
                index <= len,
                names@.len() == index,
                forall|i: int|
                    0 <= i < index ==> (#[trigger] names@[i])@ == bridged_name(self.tools()[i].0),
            decreases len - index,
        {
            let mut name = String::from_str("bridged_");
            match registry_entry(&self.registry, index) {
                Some(entry) => {
                    name.append(entry.name);
                },
                None => {},
            }
            names.push(name);
            index += 1;
        }
        names
    }

    /// Finishes the registry for the module `module_name`: the module of
    /// the native functions and the file of the generated module are named
    /// after it, and the module source is generated.
    pub fn build(self, module_name: &str) -> (registry: ToolRegistry)
        ensures
            registry.tools() == self.tools(),
            registry.bridge_module() == module_name@ + "_bridge"@,
            registry.file_name() == module_name@ + ".py"@,
            registry.source() == module_source(self.tools()),
            registry.bridged().len() == self.tools().len(),
            forall|i: int|
                0 <= i < registry.bridged().len() ==> (#[trigger] registry.bridged()[i])
                    == bridged_name(self.tools()[i].0),
    {
        let mut bridge_module_name = String::from_str(module_name);
        bridge_module_name.append("_bridge");
        let mut pydantic_file_name = String::from_str(module_name);
        pydantic_file_name.append(".py");
        let code = self.source(module_name);
        let bridged_names = self.bridged_names();
        ToolRegistry {
            registry: self.registry,
            bridge_module_name,
            pydantic_file_name,
            code,
            bridged_names,
        }
    }
}

} // verus!
