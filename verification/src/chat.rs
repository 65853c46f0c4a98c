//! A conversation, and the request to the chat oracle that is made of it.

use vstd::prelude::*;
use vstd::string::*;

verus! {

/// The model that chat requests go to.
pub const CHAT_MODEL: &'static str = "gemma2";

/// The system message that opens every chat request.
pub const CHAT_SYSTEM: &'static str = "You are a Discord user named Clyde.";

/// A message of the conversation.
#[derive(Debug)]
pub enum Message {
    /// What a human of the given name wrote.
    Human(String, String),
    /// What the assistant wrote.
    Angel(String),
}

/// The role of a message in a chat request.
#[derive(Clone, Copy, Debug, PartialEq, Eq, Structural)]
pub enum Role {
    System,
    User,
    Assistant,
}

/// A message of a chat request.
#[derive(Debug)]
pub struct ChatLine {
    pub role: Role,
    pub content: String,
}

/// A request to the chat oracle.
#[derive(Debug)]
pub struct ChatRequest {
    pub model: String,
    pub messages: Vec<ChatLine>,
}

/// A conversation in which the assistant goes by `name`.
#[derive(Debug)]
pub struct Chat {
    pub messages: Vec<Message>,
    pub name: String,
}

/// What a message is in a chat request: its role, and its text with the
/// speaker's name and a colon in front.
pub open spec fn line_of(assistant: Seq<char>, message: Message) -> (Role, Seq<char>) {
    match message {
        Message::Human(name, content) => (Role::User, name@ + ": "@ + content@),
        Message::Angel(content) => (Role::Assistant, assistant + ": "@ + content@),
    }
}

impl Chat {
    /// An empty conversation in which the assistant goes by `name`.
    pub fn with_name(name: &str) -> (chat: Self)
        ensures
            chat.name@ == name@,
            chat.messages@ == Seq::<Message>::empty(),
    {
        Self { messages: Vec::new(), name: String::from_str(name) }
    }

    /// Adds what the human `name` wrote.
    pub fn human(&mut self, name: &str, content: &str)
        ensures
            final(self).name == old(self).name,
            final(self).messages@.len() == old(self).messages@.len() + 1,
            final(self).messages@.drop_last() == old(self).messages@,
            final(self).messages@.last() matches Message::Human(n, c) && n@ == name@ && c@
                == content@,
    {
        let ghost before = self.messages@;
        self.messages.push(Message::Human(String::from_str(name), String::from_str(content)));
        assert(self.messages@.drop_last() =~= before);
    }

    /// Adds what the assistant wrote.
    pub fn angel(&mut self, content: &str)
        ensures
            final(self).name == old(self).name,
            final(self).messages@.len() == old(self).messages@.len() + 1,
            final(self).messages@.drop_last() == old(self).messages@,
            final(self).messages@.last() matches Message::Angel(c) && c@ == content@,
    {
        let ghost before = self.messages@;
        self.messages.push(Message::Angel(String::from_str(content)));
        assert(self.messages@.drop_last() =~= before);
    }

    /// The request for this conversation: the system message first, then
    /// every message in order, each with its speaker's name in front.
    pub fn to_request(&self) -> (request: ChatRequest)
        ensures
            request.model@ == CHAT_MODEL@,
            request.messages@.len() == self.messages@.len() + 1,
            request.messages@[0].role == Role::System,
            request.messages@[0].content@ == CHAT_SYSTEM@,
            forall|i: int|
                0 <= i < self.messages@.len() ==> ((#[trigger] request.messages@[i + 1]).role,
                request.messages@[i + 1].content@) == line_of(self.name@, self.messages@[i]),
    {
        let mut messages: Vec<ChatLine> = Vec::new();
        messages.push(ChatLine { role: Role::System, content: String::from_str(CHAT_SYSTEM) });
        let mut index: usize = 0;
        while index < self.messages.len()
            invariant
                index <= self.messages@.len(),
                messages@.len() == index + 1,
                messages@[0].role == Role::System,
                messages@[0].content@ == CHAT_SYSTEM@,
                forall|i: int|
                    0 <= i < index ==> ((#[trigger] messages@[i + 1]).role, messages@[i
                        + 1].content@) == line_of(self.name@, self.messages@[i]),
            decreases self.messages@.len() - index,
        {
            let line = match &self.messages[index] {
                Message::Human(name, content) => {
                    let mut text = String::from_str(name.as_str());
                    text.append(": ");
                    text.append(content.as_str());
                    ChatLine { role: Role::User, content: text }
                },
                Message::Angel(content) => {
                    let mut text = String::from_str(self.name.as_str());
                    text.append(": ");
                    text.append(content.as_str());
                    ChatLine { role: Role::Assistant, content: text }
                },
            };
            messages.push(line);
            index += 1;
        }
        ChatRequest { model: String::from_str(CHAT_MODEL), messages }
    }
}

} // verus!
