//! Tool definitions: the rules that a tool's name and description obey, and
//! the source text of the function that stands for a tool.

use vstd::prelude::*;
use vstd::string::*;

verus! {

/// Smallest number of characters of a tool name.
pub const NAME_MIN: usize = 3;

/// Number of characters that a tool name stays below.
pub const NAME_END: usize = 24;

/// Smallest number of characters of a tool description.
pub const DESCRIPTION_MIN: usize = 10;

/// Number of characters that a tool description stays below.
pub const DESCRIPTION_END: usize = 64;

/// A tool error.
#[derive(Debug)]
pub struct ToolError {
    message: String,
}

/// The result of an operation on tools.
pub type ToolResult<T> = Result<T, ToolError>;

impl View for ToolError {
    type V = Seq<char>;

    closed spec fn view(&self) -> Seq<char> {
        self.message@
    }
}

impl ToolError {
    /// An error that says `message`.
    pub fn other(message: &str) -> (error: Self)
        ensures
            error@ == message@,
    {
        Self::new(String::from_str(message))
    }

    /// An error with the given message.
    fn new(message: String) -> (error: Self)
        ensures
            error@ == message@,
    {
        Self { message }
    }

    /// What the error says.
    pub fn to_string(&self) -> (message: String)
        ensures
            message@ == self@,
    {
        self.message.clone()
    }
}

/// Whether `character` is a lower-case Latin letter or an underscore.
pub open spec fn lowercase_or_hyphen(character: char) -> bool {
    ('a' <= character <= 'z') || character == '_'
}

/// Whether `name` is a tool name: 3 to 23 characters, each a lower-case
/// Latin letter or an underscore.
pub open spec fn valid_tool_name(name: Seq<char>) -> bool {
    &&& NAME_MIN <= name.len() < NAME_END
    &&& forall|i: int| 0 <= i < name.len() ==> lowercase_or_hyphen(#[trigger] name[i])
}

/// Whether `description` is a tool description: 10 to 63 characters.
pub open spec fn valid_tool_description(description: Seq<char>) -> bool {
    DESCRIPTION_MIN <= description.len() < DESCRIPTION_END
}

/// Whether `character` is a lower-case Latin letter or an underscore.
pub fn is_lowercase_or_hyphen(character: char) -> (allowed: bool)
    ensures
        allowed == lowercase_or_hyphen(character),
{
    ('a' <= character && character <= 'z') || character == '_'
}

/// Accepts `name` exactly where it is a tool name.
pub fn validate_tool_name(name: &str) -> (result: ToolResult<()>)
    ensures
        result is Ok <==> valid_tool_name(name@),
        result matches Err(error) ==> error@
            == "Tool name must be 3 to 24 lowercase or hyphen characters."@,
{
    let len: usize = name.unicode_len();
    let mut valid: bool = NAME_MIN <= len && len < NAME_END;
    if valid {
        let mut index: usize = 0;
        while index < len
            invariant
                len == name@.len(),
                index <= len,
                valid <==> forall|i: int| 0 <= i < index ==> lowercase_or_hyphen(#[trigger] name@[i]),
            decreases len - index,
        {
            if !is_lowercase_or_hyphen(name.get_char(index)) {
                valid = false;
            }
            index += 1;
        }
    }
    if valid {
        Ok(())
    } else {
        Err(ToolError::other("Tool name must be 3 to 24 lowercase or hyphen characters."))
    }
}

/// Accepts `description` exactly where it is a tool description.
pub fn validate_tool_description(description: &str) -> (result: ToolResult<()>)
    ensures
        result is Ok <==> valid_tool_description(description@),
        result matches Err(error) ==> error@ == "Tool description must be 10 to 64 characters."@,
{
    let len: usize = description.unicode_len();
    if DESCRIPTION_MIN <= len && len < DESCRIPTION_END {
        Ok(())
    } else {
        Err(ToolError::other("Tool description must be 10 to 64 characters."))
    }
}

/// A tool as the declaration of a decorated function.
#[derive(Clone, Copy, Debug)]
pub struct Tool<'a> {
    pub module_name: &'a str,
    pub name: &'a str,
    pub args: &'a str,
    pub output: &'a str,
    pub documentation: &'a str,
}

/// The source text of the function that stands for a tool: the decorator,
/// the signature, the documentation string, and a body that hands the
/// arguments on to the bridged function of the same name.
pub open spec fn tool_source(
    name: Seq<char>,
    args: Seq<char>,
    output: Seq<char>,
    documentation: Seq<char>,
) -> Seq<char> {
    "@tool\ndef "@ + name + args + " -> "@ + output + ":\n    \"\"\""@ + documentation
        + "\"\"\"\n    return "@ + "bridged_"@ + name + args + "\n\n"@
}

impl<'a> Tool<'a> {
    /// What `to_string` returns.
    pub open spec fn text(&self) -> Seq<char> {
        tool_source(self.name@, self.args@, self.output@, self.documentation@)
    }

    /// The source text of the function that stands for this tool.
    pub fn to_string(&self) -> (source: String)
        ensures
            source@ == self.text(),
    {
        let mut source = String::from_str("@tool\ndef ");
        source.append(self.name);
        source.append(self.args);
        source.append(" -> ");
        source.append(self.output);
        source.append(":\n    \"\"\"");
        source.append(self.documentation);
        source.append("\"\"\"\n    return ");
        source.append("bridged_");
        source.append(self.name);
        source.append(self.args);
        source.append("\n\n");
        source
    }
}

} // verus!
