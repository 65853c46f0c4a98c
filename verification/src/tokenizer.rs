//! Failures of the tokenizer.

use vstd::prelude::*;
use vstd::string::*;

verus! {

/// A failure of the tokenizer.
#[derive(Clone, Copy, Debug, PartialEq, Eq, Structural)]
pub enum Error {
    Tokenize,
    Detokenize,
}

impl Error {
    /// What `to_string` returns.
    pub open spec fn text(&self) -> Seq<char> {
        match *self {
            Error::Tokenize => "tokenize"@,
            Error::Detokenize => "detokenize"@,
        }
    }

    /// What the failure says.
    pub fn to_string(&self) -> (message: String)
        ensures
            message@ == self.text(),
    {
        match self {
            Error::Tokenize => String::from_str("tokenize"),
            Error::Detokenize => String::from_str("detokenize"),
        }
    }
}

} // verus!
