//! The settings of a live session and the setup message made of them.

use vstd::prelude::*;
use vstd::string::*;

verus! {

/// The address of the live service, up to the key.
pub const LIVE_URL: &'static str =
    "wss://generativelanguage.googleapis.com/ws/google.ai.generativelanguage.v1alpha.GenerativeService.BidiGenerateContent?key=";

/// The model of a live session.
pub const LIVE_MODEL: &'static str = "models/gemini-2.0-flash-exp";

/// A prebuilt voice.
#[derive(Clone, Copy, Debug, PartialEq, Eq, Structural, Hash)]
pub enum Voice {
    Aoede,
    Charon,
    Fenrir,
    Kore,
    Puck,
}

impl Default for Voice {
    fn default() -> (voice: Self)
        ensures
            voice == Voice::Aoede,
    {
        Voice::Aoede
    }
}

/// In which modalities the service answers.
#[derive(Clone, Copy, Debug, PartialEq, Eq, Structural, Hash)]
pub struct Modality {
    pub audio: bool,
    pub image: bool,
    pub text: bool,
}

impl Default for Modality {
    fn default() -> (modality: Self)
        ensures
            modality == (Modality { audio: false, image: false, text: true }),
    {
        Self { audio: false, image: false, text: true }
    }
}

/// The settings of a live session.
#[derive(Clone, Debug)]
pub struct LiveSettings {
    pub api_key: String,
    pub modality: Modality,
    pub system: String,
    pub voice: Option<Voice>,
}

/// A modality as the service names it.
#[derive(Clone, Copy, Debug, PartialEq, Eq, Structural)]
pub enum ResponseModality {
    Audio,
    Image,
    Text,
}

/// Who speaks in a turn.
#[derive(Clone, Copy, Debug, PartialEq, Eq, Structural)]
pub enum Role {
    Model,
    User,
}

/// A part of a turn.
#[derive(Clone, Debug)]
pub enum Part {
    Text(String),
}

/// A turn of the conversation, or the system instruction where it has no
/// role.
#[derive(Debug)]
pub struct Content {
    pub role: Option<Role>,
    pub parts: Vec<Part>,
}

/// The setup of a live session.
#[derive(Debug)]
pub struct SetupConfig {
    pub model: String,
    pub response_modalities: Vec<ResponseModality>,
    pub voice_name: Option<Voice>,
    pub system_instruction: Content,
}

/// The modalities that `modality` switches on, in the order audio, image,
/// text.
pub open spec fn modalities_of(modality: Modality) -> Seq<ResponseModality> {
    (if modality.audio {
        seq![ResponseModality::Audio]
    } else {
        Seq::empty()
    }) + (if modality.image {
        seq![ResponseModality::Image]
    } else {
        Seq::empty()
    }) + (if modality.text {
        seq![ResponseModality::Text]
    } else {
        Seq::empty()
    })
}

/// Whether every part of `parts` is empty text.
pub open spec fn parts_empty(parts: Seq<Part>) -> bool {
    forall|i: int| 0 <= i < parts.len() ==> (#[trigger] parts[i]).spec_is_empty()
}

impl ResponseModality {
    /// The modalities that `modality` switches on, in the order audio,
    /// image, text.
    pub fn new(modality: Modality) -> (modalities: Vec<Self>)
        ensures
            modalities@ == modalities_of(modality),
    {
        let mut modalities: Vec<Self> = Vec::new();
        if modality.audio {
            modalities.push(ResponseModality::Audio);
        }
        if modality.image {
            modalities.push(ResponseModality::Image);
        }
        if modality.text {
            modalities.push(ResponseModality::Text);
        }
        assert(modalities@ =~= modalities_of(modality));
        modalities
    }
}

impl Part {
    /// Whether the part is empty text.
    pub open spec fn spec_is_empty(&self) -> bool {
        match *self {
            Part::Text(text) => text@.len() == 0,
        }
    }

    /// The text of the part.
    pub fn as_text(&self) -> (text: Option<&str>)
        ensures
            match *self {
                Part::Text(string) => text matches Some(t) && t@ == string@,
            },
    {
        match self {
            Part::Text(string) => Some(string.as_str()),
        }
    }

    /// Whether the part is empty text.
    #[verifier::when_used_as_spec(spec_is_empty)]
    pub fn is_empty(&self) -> (empty: bool)
        ensures
            empty == self.spec_is_empty(),
    {
        match self {
            Part::Text(string) => string.as_str().unicode_len() == 0,
        }
    }

    /// Gives up the text of the part.
    pub fn into_text(self) -> (text: Option<String>)
        ensures
            match self {
                Part::Text(string) => text == Some(string),
            },
    {
        match self {
            Part::Text(string) => Some(string),
        }
    }
}

impl Content {
    /// A turn of the user with the given text.
    pub fn new(string: &str) -> (content: Self)
        ensures
            content.role == Some(Role::User),
            content.parts@.len() == 1,
            content.parts@[0] matches Part::Text(text) && text@ == string@,
    {
        let mut parts: Vec<Part> = Vec::new();
        parts.push(Part::Text(String::from_str(string)));
        Self { role: Some(Role::User), parts }
    }

    /// A system instruction with the given text.
    pub fn new_system(string: &str) -> (content: Self)
        ensures
            content.role == None::<Role>,
            content.parts@.len() == 1,
            content.parts@[0] matches Part::Text(text) && text@ == string@,
    {
        let mut parts: Vec<Part> = Vec::new();
        parts.push(Part::Text(String::from_str(string)));
        Self { role: None, parts }
    }

    /// Whether the content says nothing: it has no part, or only empty ones.
    pub fn is_empty(&self) -> (empty: bool)
        ensures
            empty == parts_empty(self.parts@),
    {
        parts_is_empty(&self.parts)
    }
}

/// Whether `parts` say nothing: there is no part, or only empty ones.
pub fn parts_is_empty(parts: &Vec<Part>) -> (empty: bool)
    ensures
        empty == parts_empty(parts@),
{
    let mut index: usize = 0;
    while index < parts.len()
        invariant
            index <= parts@.len(),
            forall|i: int| 0 <= i < index ==> (#[trigger] parts@[i]).spec_is_empty(),
        decreases parts@.len() - index,
    {
        if !parts[index].is_empty() {
            return false;
        }
        index += 1;
    }
    true
}

impl SetupConfig {
    /// The setup for `config`: the fixed model, the modalities that are
    /// switched on, the first prebuilt voice, and the system text as the
    /// system instruction.
    pub fn new(config: &LiveSettings) -> (setup: Self)
        ensures
            setup.model@ == LIVE_MODEL@,
            setup.response_modalities@ == modalities_of(config.modality),
            setup.voice_name == Some(Voice::Aoede),
            setup.system_instruction.role == None::<Role>,
            setup.system_instruction.parts@.len() == 1,
            setup.system_instruction.parts@[0] matches Part::Text(text) && text@ == config.system@,
    {
        Self {
            model: String::from_str(LIVE_MODEL),
            response_modalities: ResponseModality::new(config.modality),
            voice_name: Some(Voice::Aoede),
            system_instruction: Content::new_system(config.system.as_str()),
        }
    }
}

/// The address to connect to with `settings`, or `None` where the settings
/// hold no key.
pub fn connect_url(settings: &LiveSettings) -> (url: Option<String>)
    ensures
        match url {
            Some(url) => settings.api_key@.len() > 0 && url@ == LIVE_URL@ + settings.api_key@,
            None => settings.api_key@.len() == 0,
        },
{
    if settings.api_key.as_str().unicode_len() == 0 {
        return None;
    }
    let mut url = String::from_str(LIVE_URL);
    url.append(settings.api_key.as_str());
    Some(url)
}

} // verus!
