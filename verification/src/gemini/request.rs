//! A content-generation request under construction.

use crate::gemini::content::Part;
use crate::gemini::model::{
    BlockThreshold, GeminiMessage, GeminiResponse, Mime, SafetyCategory, SafetySetting,
};
use crate::gemini::model;
use vstd::prelude::*;
use vstd::string::*;

verus! {

/// The address of the service.
pub const BASE_URL: &'static str = "https://generativelanguage.googleapis.com";

/// A content-generation request under construction.
#[derive(Clone, Debug)]
pub struct GenerateContent<'a> {
    pub model: &'a str,
    pub system: &'a str,
    pub json: bool,
    pub messages: Vec<GeminiMessage>,
    pub safety: Vec<SafetySetting>,
}

/// The path of the content-generation method of `model`.
pub open spec fn generate_path(model: Seq<char>) -> Seq<char> {
    "v1beta/models/"@ + model + ":generateContent"@
}

/// The address of `path` below `base_url`.
pub open spec fn url_below(base_url: Seq<char>, path: Seq<char>) -> Seq<char> {
    base_url + "/"@ + path
}

/// The address of `path` below `base_url`.
pub fn with_base(base_url: &str, path: &str) -> (url: String)
    ensures
        url@ == url_below(base_url@, path@),
{
    let mut url = String::from_str(base_url);
    url.append("/");
    url.append(path);
    url
}

impl<'a> GenerateContent<'a> {
    /// A request to `model` without instructions, messages or safety
    /// settings, which asks for text.
    pub fn new(model: &'a str) -> (request: Self)
        ensures
            request.model@ == model@,
            request.system@ == Seq::<char>::empty(),
            !request.json,
            request.messages@ == Seq::<GeminiMessage>::empty(),
            request.safety@ == Seq::<SafetySetting>::empty(),
    {
        proof {
            reveal_strlit("");
        }
        let request = Self { model, system: "", json: false, messages: Vec::new(), safety: Vec::new() };
        assert(request.system@ =~= Seq::<char>::empty());
        request
    }

    /// Sets the system instructions.
    pub fn system(self, system: &'a str) -> (request: Self)
        ensures
            request.system@ == system@,
            request.model@ == self.model@,
            request.json == self.json,
            request.messages == self.messages,
            request.safety == self.safety,
    {
        Self { model: self.model, system, json: self.json, messages: self.messages, safety: self.safety }
    }

    /// Asks for JSON where `json` holds, else for text.
    pub fn json(self, json: bool) -> (request: Self)
        ensures
            request.json == json,
            request.model@ == self.model@,
            request.system@ == self.system@,
            request.messages == self.messages,
            request.safety == self.safety,
    {
        Self { model: self.model, system: self.system, json, messages: self.messages, safety: self.safety }
    }

    /// Adds `message` behind the messages.
    pub fn message(self, message: GeminiMessage) -> (request: Self)
        ensures
            request.messages@ == self.messages@.push(message),
            request.model@ == self.model@,
            request.system@ == self.system@,
            request.json == self.json,
            request.safety == self.safety,
    {
        let mut messages = self.messages;
        messages.push(message);
        Self { model: self.model, system: self.system, json: self.json, messages, safety: self.safety }
    }

    /// Removes the messages.
    pub fn clear(self) -> (request: Self)
        ensures
            request.messages@ == Seq::<GeminiMessage>::empty(),
            request.model@ == self.model@,
            request.system@ == self.system@,
            request.json == self.json,
            request.safety == self.safety,
    {
        let mut messages = self.messages;
        messages.clear();
        Self { model: self.model, system: self.system, json: self.json, messages, safety: self.safety }
    }

    /// Adds the threshold of a category behind the safety settings.
    pub fn safety(self, category: SafetyCategory, threshold: BlockThreshold) -> (request: Self)
        ensures
            request.safety@ == self.safety@.push(SafetySetting { category, threshold }),
            request.model@ == self.model@,
            request.system@ == self.system@,
            request.json == self.json,
            request.messages == self.messages,
    {
        let mut safety = self.safety;
        safety.push(SafetySetting { category, threshold });
        Self { model: self.model, system: self.system, json: self.json, messages: self.messages, safety }
    }

    /// The path of the method that the request goes to.
    pub fn path(&self) -> (path: String)
        ensures
            path@ == generate_path(self.model@),
    {
        let mut path = String::from_str("v1beta/models/");
        path.append(self.model);
        path.append(":generateContent");
        path
    }

    /// The payload of the request: the instructions, the kind of response
    /// and the messages; the safety settings are not sent.
    pub fn into_payload(self) -> (payload: model::GenerateContent<'a>)
        ensures
            payload.system_text() == self.system@,
            payload.response_mime() == if self.json {
                Mime::Json
            } else {
                Mime::Text
            },
            payload.contents == self.messages,
            payload.safety_settings@ == Seq::<SafetySetting>::empty(),
    {
        let mut payload = model::GenerateContent::new().system(self.system).json(self.json);
        payload.contents = self.messages;
        payload
    }
}

/// The parts of all candidates of `response`, candidate by candidate.
pub open spec fn all_parts(candidates: Seq<model::GeminiCandidate>) -> Seq<Part>
    decreases candidates.len(),
{
    if candidates.len() == 0 {
        Seq::empty()
    } else {
        all_parts(candidates.drop_last()) + candidates.last().content.parts@
    }
}

/// Gathers the parts of all candidates of `response`, in order.
pub fn collect_parts(response: GeminiResponse) -> (parts: Vec<Part>)
    ensures
        parts@ == all_parts(response.candidates@),
{
    let mut candidates = response.candidates;
    let ghost all = candidates@;
    let mut parts: Vec<Part> = Vec::new();
    // Candidates are taken from the back, so their parts are appended in
    // front of what was gathered before.
    while candidates.len() > 0
        invariant
            candidates@.len() <= all.len(),
            candidates@ == all.take(candidates@.len() as int),
            all_parts(all) == all_parts(candidates@) + parts@,
        decreases candidates@.len(),
    {
        let ghost before = candidates@;
        let candidate = candidates.pop().unwrap();
        let mut front = candidate.content.parts;
        let ghost front_parts = front@;
        front.append(&mut parts);
        parts = front;
        proof {
            assert(candidates@ =~= before.drop_last());
            assert(candidates@ =~= all.take(candidates@.len() as int));
            assert(before.last() == candidate);
            assert(all_parts(before) == all_parts(before.drop_last()) + front_parts);
        }
    }
    assert(all_parts(candidates@) =~= Seq::<Part>::empty());
    assert(all_parts(all) =~= parts@);
    parts
}

} // verus!
