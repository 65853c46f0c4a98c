//! Identifiers and failures of the model bindings.

use vstd::prelude::*;
use vstd::string::*;

verus! {

/// The identifier of a message, which is never zero.
#[derive(Clone, Copy, Debug, PartialEq, Eq, Structural)]
pub struct MessageId {
    id: u64,
}

impl MessageId {
    /// The identifier as a number.
    pub closed spec fn spec_get(self) -> u64 {
        self.id
    }

    /// Every identifier is positive.
    pub closed spec fn wf(self) -> bool {
        self.id != 0
    }

    /// The identifier with the number `message_id`, or `None` for zero.
    pub fn new(message_id: u64) -> (id: Option<Self>)
        ensures
            match id {
                Some(id) => message_id != 0 && id.spec_get() == message_id && id.wf(),
                None => message_id == 0,
            },
    {
        if message_id == 0 {
            None
        } else {
            Some(Self { id: message_id })
        }
    }

    /// The identifier as a number.
    #[verifier::when_used_as_spec(spec_get)]
    pub fn get(self) -> (message_id: u64)
        ensures
            message_id == self.spec_get(),
    {
        self.id
    }
}

/// A failure of the language model bindings.
#[derive(Clone, Copy, Debug, PartialEq, Eq, Structural)]
pub enum Error {
    LoadModel,
}

impl Error {
    /// What the failure says.
    pub fn to_string(&self) -> (message: String)
        ensures
            message@ == "load model"@,
    {
        String::from_str("load model")
    }
}

/// What a native answer to the question whether a token is required means:
/// one is yes, zero is no, anything else is unknown.
pub fn int_to_requirement(token: i32) -> (requirement: Option<bool>)
    ensures
        requirement == if token == 1 {
            Some(true)
        } else if token == 0 {
            Some(false)
        } else {
            None
        },
{
    if token == 1 {
        Some(true)
    } else if token == 0 {
        Some(false)
    } else {
        None
    }
}

/// What a native length answer means: a count that is not negative is the
/// number of items written, a negative one the number of items that would
/// have been needed.
pub fn length_answer(len: i32) -> (answer: Result<u32, u32>)
    ensures
        answer == if len > -1 {
            Ok::<u32, u32>(len as u32)
        } else {
            Err::<u32, u32>((-(len as int)) as u32)
        },
{
    if len > -1 {
        Ok(len as u32)
    } else {
        let wide: i64 = len as i64;
        Err((0 - wide) as u32)
    }
}

} // verus!
