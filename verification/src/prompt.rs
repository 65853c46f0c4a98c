//! The chat-markup prompt format: channels, authors and messages as text.

use crate::text::trimmed;
use vstd::prelude::*;
use vstd::string::*;

verus! {

/// A channel by its name and topic.
#[derive(Clone, Copy, Debug, PartialEq, Eq)]
pub struct Channel<'a> {
    pub name: &'a str,
    pub topic: Option<&'a str>,
}

/// Who wrote a message.
#[derive(Clone, Copy, Debug, PartialEq, Eq)]
pub enum Author<'a> {
    Assistant,
    System,
    User(&'a str),
}

/// A message of a conversation.
#[derive(Clone, Copy, Debug, PartialEq, Eq)]
pub struct Message<'a> {
    pub author: Author<'a>,
    pub content: &'a str,
}

/// The text of a channel: its name, and behind it, where it has a topic, a
/// colon, a space, the topic and a line break.
pub open spec fn channel_text(name: Seq<char>, topic: Option<Seq<char>>) -> Seq<char> {
    match topic {
        Some(topic) => name + ": "@ + topic + "\n"@,
        None => name,
    }
}

/// The text of the user `username` as an author.
pub open spec fn user_text(username: Seq<char>) -> Seq<char> {
    "user\n"@ + trimmed(username) + ":"@
}

/// The text of a message of the author with the text `author`.
pub open spec fn message_text(author: Seq<char>, content: Seq<char>) -> Seq<char> {
    "<|im_start|>"@ + author + trimmed(content) + "<|im_end|>\n"@
}

impl<'a> Channel<'a> {
    /// What `to_string` returns.
    pub open spec fn text(&self) -> Seq<char> {
        channel_text(
            self.name@,
            match self.topic {
                Some(topic) => Some(topic@),
                None => None,
            },
        )
    }

    /// The channel as text.
    pub fn to_string(&self) -> (text: String)
        ensures
            text@ == self.text(),
    {
        let mut text = String::from_str(self.name);
        match self.topic {
            Some(topic) => {
                text.append(": ");
                text.append(topic);
                text.append("\n");
            },
            None => {},
        }
        text
    }
}

impl<'a> Author<'a> {
    /// What `to_string` returns.
    pub open spec fn text(&self) -> Seq<char> {
        match *self {
            Author::Assistant => "assistant\nClyde:"@,
            Author::System => "system\n"@,
            Author::User(username) => user_text(username@),
        }
    }

    /// The author as text: the role, a line break, and for the assistant
    /// and for a user the name and a colon. A user's name is trimmed.
    pub fn to_string(&self) -> (text: String)
        ensures
            text@ == self.text(),
    {
        match *self {
            Author::Assistant => String::from_str("assistant\nClyde:"),
            Author::System => String::from_str("system\n"),
            Author::User(username) => {
                let mut text = String::from_str("user\n");
                text.append(username.trim());
                text.append(":");
                text
            },
        }
    }
}

impl<'a> Message<'a> {
    /// What `to_string` returns.
    pub open spec fn text(&self) -> Seq<char> {
        message_text(self.author.text(), self.content@)
    }

    /// The message as text: the start mark, the author, the trimmed
    /// content, the end mark and a line break.
    pub fn to_string(&self) -> (text: String)
        ensures
            text@ == self.text(),
    {
        let mut text = String::from_str("<|im_start|>");
        let author = self.author.to_string();
        text.append(author.as_str());
        text.append(self.content.trim());
        text.append("<|im_end|>\n");
        text
    }
}

} // verus!
