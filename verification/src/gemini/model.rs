//! The payloads that go to and come from the content-generation service.

use crate::gemini::content::Part;
use vstd::prelude::*;
use vstd::string::*;

verus! {

/// A category of harm.
#[derive(Clone, Copy, Debug, PartialEq, Eq, Structural)]
#[non_exhaustive]
pub enum SafetyCategory {
    Harassment,
    HateSpeech,
    SexuallyExplicit,
    DangerousContent,
    CivicIntegrity,
}

/// From which probability of harm on content is blocked.
#[derive(Clone, Copy, Debug, PartialEq, Eq, Structural)]
#[non_exhaustive]
pub enum BlockThreshold {
    /// Nothing is blocked.
    BlockNone,
    /// Only a high probability is blocked.
    Few,
    /// A medium probability and above is blocked.
    BlockSome,
    /// A low probability and above is blocked.
    Most,
}

/// The threshold of one category.
#[derive(Clone, Copy, Debug, PartialEq, Eq, Structural)]
pub struct SafetySetting {
    pub category: SafetyCategory,
    pub threshold: BlockThreshold,
}

/// The accepted kinds of response.
#[derive(Clone, Copy, Debug, PartialEq, Eq, Structural)]
pub enum Mime {
    Text,
    Enum,
    Json,
}

/// Generation configuration.
#[derive(Clone, Copy, Debug, PartialEq, Eq, Structural)]
pub struct GenerationConfig {
    mime: Mime,
}

impl GenerationConfig {
    /// The kind of response that is asked for.
    pub closed spec fn mime(&self) -> Mime {
        self.mime
    }

    /// The default configuration, which asks for text.
    pub fn new() -> (config: Self)
        ensures
            config.mime() == Mime::Text,
    {
        Self { mime: Mime::Text }
    }

    /// Asks for JSON where `json` holds, else for text.
    pub fn json(self, json: bool) -> (config: Self)
        ensures
            config.mime() == if json {
                Mime::Json
            } else {
                Mime::Text
            },
    {
        Self { mime: if json { Mime::Json } else { Mime::Text } }
    }

    /// Whether text is asked for.
    pub fn is_text(&self) -> (text: bool)
        ensures
            text == (self.mime() == Mime::Text),
    {
        self.mime == Mime::Text
    }
}

/// The system instructions of a request, which are a single part of text.
#[derive(Clone, Copy, Debug)]
pub struct SystemInstructions<'a> {
    text: &'a str,
}

impl<'a> SystemInstructions<'a> {
    /// The text of the instructions.
    pub closed spec fn text(&self) -> Seq<char> {
        self.text@
    }

    /// No instructions.
    pub fn new() -> (instructions: Self)
        ensures
            instructions.text() == Seq::<char>::empty(),
    {
        proof {
            reveal_strlit("");
        }
        let instructions = Self::from("");
        assert(instructions.text() =~= Seq::<char>::empty());
        instructions
    }

    /// The given instructions.
    pub fn from(system_instructions: &'a str) -> (instructions: Self)
        ensures
            instructions.text() == system_instructions@,
    {
        Self { text: system_instructions }
    }

    /// Whether there are no instructions.
    pub fn is_empty(&self) -> (empty: bool)
        ensures
            empty == (self.text().len() == 0),
    {
        self.text.unicode_len() == 0
    }

    /// The instructions as text.
    pub fn as_str(&self) -> (text: &'a str)
        ensures
            text@ == self.text(),
    {
        self.text
    }
}

/// Who speaks in a message.
#[derive(Clone, Copy, Debug, PartialEq, Eq, Structural, Hash)]
pub enum GeminiRole {
    User,
    Model,
}

/// A message of the conversation.
#[derive(Clone, Debug)]
pub struct GeminiMessage {
    pub role: GeminiRole,
    pub parts: Vec<Part>,
}

impl GeminiMessage {
    /// A message of `role` made of `parts`.
    pub fn new(role: GeminiRole, parts: Vec<Part>) -> (message: Self)
        ensures
            message.role == role,
            message.parts == parts,
    {
        Self { role, parts }
    }
}

/// A candidate answer.
#[derive(Clone, Debug)]
pub struct GeminiCandidate {
    pub content: GeminiMessage,
}

/// How many tokens a request used.
#[derive(Clone, Copy, Debug, PartialEq, Eq, Structural)]
pub struct GeminiUsageMetadata {
    pub prompt_token_count: u32,
    pub candidates_token_count: u32,
    pub total_token_count: u32,
}

/// The answer of the service.
#[derive(Debug)]
pub struct GeminiResponse {
    pub candidates: Vec<GeminiCandidate>,
    pub usage_metadata: GeminiUsageMetadata,
}

/// The payload of a content-generation request.
#[derive(Debug)]
pub struct GenerateContent<'a> {
    pub system_instruction: SystemInstructions<'a>,
    pub contents: Vec<GeminiMessage>,
    pub safety_settings: Vec<SafetySetting>,
    pub generation_config: GenerationConfig,
}

impl<'a> GenerateContent<'a> {
    /// The text of the system instructions.
    pub open spec fn system_text(&self) -> Seq<char> {
        self.system_instruction.text()
    }

    /// The kind of response that is asked for.
    pub open spec fn response_mime(&self) -> Mime {
        self.generation_config.mime()
    }

    /// An empty request: no instructions, no messages, no safety settings,
    /// text as the response.
    pub fn new() -> (request: Self)
        ensures
            request.system_text() == Seq::<char>::empty(),
            request.contents@ == Seq::<GeminiMessage>::empty(),
            request.safety_settings@ == Seq::<SafetySetting>::empty(),
            request.response_mime() == Mime::Text,
    {
        Self {
            system_instruction: SystemInstructions::new(),
            contents: Vec::new(),
            safety_settings: Vec::new(),
            generation_config: GenerationConfig::new(),
        }
    }

    /// Sets the system instructions.
    pub fn system_instructions(self, system_instructions: &'a str) -> (request: Self)
        ensures
            request.system_text() == system_instructions@,
            request.contents == self.contents,
            request.safety_settings == self.safety_settings,
            request.response_mime() == self.response_mime(),
    {
        Self {
            system_instruction: SystemInstructions::from(system_instructions),
            contents: self.contents,
            safety_settings: self.safety_settings,
            generation_config: self.generation_config,
        }
    }

    /// Sets the system instructions.
    pub fn system(self, system: &'a str) -> (request: Self)
        ensures
            request.system_text() == system@,
            request.contents == self.contents,
            request.safety_settings == self.safety_settings,
            request.response_mime() == self.response_mime(),
    {
        self.system_instructions(system)
    }

    /// Asks for JSON where `json` holds, else for text.
    pub fn json(self, json: bool) -> (request: Self)
        ensures
            request.response_mime() == if json {
                Mime::Json
            } else {
                Mime::Text
            },
            request.system_text() == self.system_text(),
            request.contents == self.contents,
            request.safety_settings == self.safety_settings,
    {
        Self {
            system_instruction: self.system_instruction,
            contents: self.contents,
            safety_settings: self.safety_settings,
            generation_config: self.generation_config.json(json),
        }
    }

    /// Whether the system instructions are left out of the payload.
    pub fn omits_system(&self) -> (omitted: bool)
        ensures
            omitted == (self.system_text().len() == 0),
    {
        self.system_instruction.is_empty()
    }

    /// Whether the generation configuration is left out of the payload.
    pub fn omits_config(&self) -> (omitted: bool)
        ensures
            omitted == (self.response_mime() == Mime::Text),
    {
        self.generation_config.is_text()
    }
}

/// The payload that announces the upload of a file.
#[derive(Clone, Copy, Debug)]
pub struct CreateFile<'a> {
    file: FileOptions<'a>,
}

#[derive(Clone, Copy, Debug)]
struct FileOptions<'a> {
    display_name: &'a str,
}

impl<'a> CreateFile<'a> {
    /// The name under which the file is shown.
    pub closed spec fn display_name(&self) -> Seq<char> {
        self.file.display_name@
    }

    /// Announces a file that is shown under `display_name`.
    pub fn new(display_name: &'a str) -> (payload: Self)
        ensures
            payload.display_name() == display_name@,
    {
        Self { file: FileOptions { display_name } }
    }

    /// The name under which the file is shown.
    pub fn name(&self) -> (name: &'a str)
        ensures
            name@ == self.display_name(),
    {
        self.file.display_name
    }
}

/// The state of an uploaded file.
#[derive(Clone, Copy, Debug, PartialEq, Eq, Structural)]
pub enum State {
    Pending,
    Ready,
    Error,
}

/// Why the processing of a file failed; the details are JSON texts.
#[derive(Debug)]
pub struct Status {
    pub code: i32,
    pub message: String,
    pub details: Vec<String>,
}

/// An uploaded file.
#[derive(Debug)]
pub struct File {
    pub name: String,
    pub display_name: String,
    pub mime_type: String,
    pub size_bytes: String,
    pub create_time: String,
    pub update_time: String,
    pub expiration_time: String,
    pub sha256_hash: String,
    pub uri: String,
    pub state: State,
    pub error: Option<Status>,
}

/// The answer to the upload of a file.
#[derive(Debug)]
pub struct CreateFileResponse {
    pub file: File,
}

/// The query parameters that authenticate a request.
#[derive(Clone, Copy, Debug)]
pub struct Authentication<'a> {
    query_params: [Key<'a>; 1],
}

#[derive(Clone, Copy, Debug)]
struct Key<'a> {
    key: &'a str,
}

impl<'a> Authentication<'a> {
    /// The key that authenticates.
    pub closed spec fn key(&self) -> Seq<char> {
        self.query_params[0].key@
    }

    /// Authenticates with `api_key`.
    pub fn new(api_key: &'a str) -> (authentication: Self)
        ensures
            authentication.key() == api_key@,
    {
        Self { query_params: [Key { key: api_key }] }
    }

    /// The key that authenticates.
    pub fn api_key(&self) -> (key: &'a str)
        ensures
            key@ == self.key(),
    {
        self.query_params[0].key
    }
}

/// Whether the upload of a file has to be waited for.
pub fn is_pending(state: State) -> (pending: bool)
    ensures
        pending == (state == State::Pending),
{
    state == State::Pending
}

} // verus!
