//! The parts that a message is made of.

use vstd::prelude::*;
use vstd::string::*;

verus! {

/// A part of text.
#[derive(Clone, Debug)]
pub struct TextPart {
    pub text: String,
    pub thought: bool,
}

/// A part of data held in the message itself.
#[derive(Clone, Debug)]
pub struct InlineDataPart {
    pub mime_type: String,
    pub data: String,
}

/// A call of a function, with its arguments as JSON text.
#[derive(Clone, Debug)]
pub struct FunctionCallPart {
    pub name: String,
    pub args: String,
}

/// The response of a function, as JSON text.
#[derive(Clone, Debug)]
pub struct FunctionResponsePart {
    pub name: String,
    pub response: String,
}

/// A part of data held in an uploaded file.
#[derive(Clone, Debug)]
pub struct FileDataPart {
    pub mime_type: String,
    pub file_uri: String,
}

/// The language of executable code.
#[derive(Clone, Copy, Debug, PartialEq, Eq, Structural)]
pub enum ExecutableCodeLanguage {
    LanguageUnspecified,
    Python,
}

/// A part of executable code.
#[derive(Clone, Debug)]
pub struct ExecutableCodePart {
    pub language: ExecutableCodeLanguage,
    pub code: String,
}

/// How the execution of code ended.
#[derive(Clone, Copy, Debug, PartialEq, Eq, Structural, Hash)]
pub enum Outcome {
    OutcomeOk,
    OutcomeDeadlineExceeded,
    OutcomeFailed,
    OutcomeUnspecified,
}

/// The result of the execution of code.
#[derive(Clone, Debug)]
pub struct CodeExecutionResultPart {
    pub outcome: Outcome,
    pub output: String,
}

/// A part of a message.
#[derive(Clone, Debug)]
pub enum Part {
    Text(TextPart),
    InlineData(InlineDataPart),
    FunctionCall(FunctionCallPart),
    FunctionResponse(FunctionResponsePart),
    FileData(FileDataPart),
    ExecutableCode(ExecutableCodePart),
    CodeExecutionResult(CodeExecutionResultPart),
}

impl TextPart {
    /// A part with the given text that is no thought.
    pub fn from_string(text: String) -> (part: Self)
        ensures
            part.text == text,
            !part.thought,
    {
        Self { text, thought: false }
    }

    /// A part with the given text that is no thought.
    pub fn from_str(text: &str) -> (part: Self)
        ensures
            part.text@ == text@,
            !part.thought,
    {
        Self::from_string(String::from_str(text))
    }

    /// The text of the part.
    pub fn to_string(&self) -> (text: String)
        ensures
            text@ == self.text@,
    {
        self.text.clone()
    }
}

impl Part {
    /// A text part with the given text that is no thought.
    pub fn from_string(value: String) -> (part: Self)
        ensures
            part matches Part::Text(text) && text.text == value && !text.thought,
    {
        Part::Text(TextPart::from_string(value))
    }

    /// A text part with the given text that is no thought.
    pub fn from_str(value: &str) -> (part: Self)
        ensures
            part matches Part::Text(text) && text.text@ == value@ && !text.thought,
    {
        Part::Text(TextPart::from_str(value))
    }

    /// The text of a text part.
    pub fn as_text(&self) -> (text: Option<&str>)
        ensures
            match *self {
                Part::Text(part) => text matches Some(t) && t@ == part.text@,
                _ => text is None,
            },
    {
        match self {
            Part::Text(part) => Some(part.text.as_str()),
            _ => None,
        }
    }
}

} // verus!
