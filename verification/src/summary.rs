//! The text around the two oracles: what is asked of them, and what is made
//! of their answers.

use crate::error::MediaError;
use crate::text::{contains, occurs_in, strip_prefix, strip_suffix, trimmed};
use vstd::prelude::*;
use vstd::string::*;

verus! {

/// The instruction that asks the captioning oracle to describe an image.
pub const DESCRIBE_IMAGE: &'static str =
    "Describe this image in JSON verbatim: {\"description\": string, \"confidence\": f32}: ";

/// `text` without `prefix` in front, where it starts with it.
pub open spec fn without_prefix(text: Seq<char>, prefix: Seq<char>) -> Seq<char> {
    if prefix.is_prefix_of(text) {
        text.skip(prefix.len() as int)
    } else {
        text
    }
}

/// `text` without `suffix` at its end, where it ends with it.
pub open spec fn without_suffix(text: Seq<char>, suffix: Seq<char>) -> Seq<char> {
    if suffix.is_suffix_of(text) {
        text.take(text.len() - suffix.len())
    } else {
        text
    }
}

/// The JSON text inside a fenced answer of the captioning oracle.
pub open spec fn unfenced(answer: Seq<char>) -> Seq<char> {
    without_suffix(without_prefix(answer, "```json"@), "```"@)
}

/// The reply of the chat oracle as it is shown: trimmed, without the
/// speaker's name and a colon in front, and trimmed again.
pub open spec fn cleaned_reply(name: Seq<char>, response: Seq<char>) -> Seq<char> {
    trimmed(without_prefix(trimmed(response), name + ":"@))
}

/// The mark that opens a turn of the assistant.
pub const ASSISTANT_MARK: &'static str = "<|assistant|>";

/// The name of the assistant with a colon, as it opens a line of its own.
pub const ASSISTANT_NAME: &'static str = "Clyde:";

/// Largest number of tokens of a prompt that are looked at.
pub const PROMPT_TOKENS: usize = 4096;

/// Largest number of tokens that are generated behind the first.
pub const GENERATED_TOKENS: usize = 50;

/// Generated text as it is shown: trimmed, without the assistant's name at
/// its end, trimmed, without the assistant's mark at its end, and trimmed.
pub open spec fn cleaned_generation(text: Seq<char>) -> Seq<char> {
    trimmed(
        without_suffix(
            trimmed(without_suffix(trimmed(text), ASSISTANT_NAME@)),
            ASSISTANT_MARK@,
        ),
    )
}

/// What a run shows for its result: the summary, or the message of the
/// failure in its place.
pub open spec fn outcome_text(outcome: Result<String, MediaError>) -> Seq<char> {
    match outcome {
        Ok(summary) => summary@,
        Err(error) => error.message_spec(),
    }
}

/// Takes the fence off an answer of the captioning oracle: the opening
/// fence with its language tag where the answer starts with it, then the
/// closing fence where what is left ends with it.
pub fn strip_json_fence(answer: &str) -> (json: &str)
    ensures
        json@ == unfenced(answer@),
{
    let opened: &str = match strip_prefix(answer, "```json") {
        Some(rest) => {
            assert(rest@ =~= answer@.skip("```json"@.len() as int));
            rest
        },
        None => answer,
    };
    match strip_suffix(opened, "```") {
        Some(front) => {
            assert(front@ =~= opened@.take(opened@.len() - "```"@.len()));
            front
        },
        None => opened,
    }
}

/// The answer of a text oracle as it is used: without the white space
/// around it.
pub fn summary_text(response: &str) -> (summary: String)
    ensures
        summary@ == trimmed(response@),
{
    String::from_str(response.trim())
}

/// Cleans a reply of the chat oracle for the speaker `name`.
pub fn clean_reply(name: &str, response: &str) -> (reply: String)
    ensures
        reply@ == cleaned_reply(name@, response@),
{
    let response: &str = response.trim();
    let mut prefix = String::from_str(name);
    prefix.append(":");
    let rest: &str = match strip_prefix(response, prefix.as_str()) {
        Some(rest) => {
            assert(rest@ =~= response@.skip(prefix@.len() as int));
            rest
        },
        None => response,
    };
    String::from_str(rest.trim())
}

/// Whether generated text is complete: the assistant begins another turn
/// in it.
pub fn generation_is_complete(text: &str) -> (complete: bool)
    ensures
        complete == (occurs_in(ASSISTANT_MARK@, text@) || occurs_in(ASSISTANT_NAME@, text@)),
{
    contains(text, ASSISTANT_MARK) || contains(text, ASSISTANT_NAME)
}

/// Cleans generated text of the beginning of another turn at its end.
pub fn clean_generation(text: &str) -> (cleaned: String)
    ensures
        cleaned@ == cleaned_generation(text@),
{
    let text: &str = text.trim();
    let text: &str = match strip_suffix(text, ASSISTANT_NAME) {
        Some(front) => {
            assert(front@ =~= text@.take(text@.len() - ASSISTANT_NAME@.len()));
            front
        },
        None => text,
    };
    let text: &str = text.trim();
    let text: &str = match strip_suffix(text, ASSISTANT_MARK) {
        Some(front) => {
            assert(front@ =~= text@.take(text@.len() - ASSISTANT_MARK@.len()));
            front
        },
        None => text,
    };
    String::from_str(text.trim())
}

/// What a run shows for its result: the summary, or the message of the
/// failure in its place, so that there is always a text to show.
pub fn render_outcome(outcome: Result<String, MediaError>) -> (shown: String)
    ensures
        shown@ == outcome_text(outcome),
{
    match outcome {
        Ok(summary) => summary,
        Err(error) => error.message(),
    }
}

} // verus!
