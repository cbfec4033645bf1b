//! The conversation sent to the chat-completion service and the reply that
//! comes back, as plain data.

use crate::model::Model;
use crate::text::same_text;
use vstd::prelude::*;

verus! {

/// Who speaks a message.
#[derive(Clone, Copy, Debug, PartialEq, Eq, Structural)]
pub enum Role {
    System,
    User,
    Assistant,
}

/// The role that a wire name stands for, if it stands for one.
pub open spec fn role_named(name: Seq<char>) -> Option<Role> {
    if name == "system"@ {
        Some(Role::System)
    } else if name == "user"@ {
        Some(Role::User)
    } else if name == "assistant"@ {
        Some(Role::Assistant)
    } else {
        None
    }
}

impl Role {
    /// The name of the role on the wire.
    pub open spec fn name(self) -> Seq<char> {
        match self {
            Role::System => "system"@,
            Role::User => "user"@,
            Role::Assistant => "assistant"@,
        }
    }

    /// Returns the name of the role on the wire.
    pub fn as_str(self) -> (name: &'static str)
        ensures
            name@ == self.name(),
    {
        match self {
            Role::System => "system",
            Role::User => "user",
            Role::Assistant => "assistant",
        }
    }

    /// Reads a wire name; `None` for a name that is no role.
    pub fn from_name(name: &str) -> (role: Option<Role>)
        ensures
            role == role_named(name@),
    {
        if same_text(name, "system") {
            Some(Role::System)
        } else if same_text(name, "user") {
            Some(Role::User)
        } else if same_text(name, "assistant") {
            Some(Role::Assistant)
        } else {
            None
        }
    }
}

/// Reading back the wire name of a role gives that role, so the three names
/// are pairwise distinct.
pub proof fn lemma_role_name_round_trip(role: Role)
    ensures
        role_named(role.name()) == Some(role),
{
    reveal_strlit("system");
    reveal_strlit("user");
    reveal_strlit("assistant");
    assert("system"@.len() == 6 && "user"@.len() == 4 && "assistant"@.len() == 9);
}

/// One message of a conversation.
#[derive(Clone, Debug, PartialEq, Eq)]
pub struct Message {
    pub role: Role,
    pub content: String,
}

/// What a `Message` stands for.
pub struct MessageView {
    pub role: Role,
    pub content: Seq<char>,
}

impl View for Message {
    type V = MessageView;

    open spec fn view(&self) -> MessageView {
        MessageView { role: self.role, content: self.content@ }
    }
}

/// The body of a chat-completion request.
#[derive(Clone, Debug, PartialEq, Eq)]
pub struct ChatRequest {
    pub model: String,
    pub messages: Vec<Message>,
}

/// What a `ChatRequest` stands for.
pub struct ChatRequestView {
    pub model: Seq<char>,
    pub messages: Seq<MessageView>,
}

impl View for ChatRequest {
    type V = ChatRequestView;

    open spec fn view(&self) -> ChatRequestView {
        ChatRequestView {
            model: self.model@,
            messages: Seq::new(self.messages@.len(), |i: int| self.messages@[i]@),
        }
    }
}

/// One alternative of a reply.
#[derive(Clone, Debug, PartialEq, Eq)]
pub struct Choice {
    pub message: Message,
}

/// The decoded body of a chat-completion reply.
#[derive(Clone, Debug, PartialEq, Eq)]
pub struct ChatResponse {
    pub choices: Vec<Choice>,
}

impl View for Choice {
    type V = MessageView;

    /// A choice stands for its message.
    open spec fn view(&self) -> MessageView {
        self.message@
    }
}

/// What a `ChatResponse` stands for: the messages of its choices, in order.
pub struct ChatResponseView {
    pub choices: Seq<MessageView>,
}

impl View for ChatResponse {
    type V = ChatResponseView;

    open spec fn view(&self) -> ChatResponseView {
        ChatResponseView { choices: Seq::new(self.choices@.len(), |i: int| self.choices@[i]@) }
    }
}

/// The reply that a response holds: the content of its first choice, if it
/// has any choice.
pub open spec fn first_content(response: ChatResponseView) -> Option<Seq<char>> {
    if response.choices.len() > 0 {
        Some(response.choices[0].content)
    } else {
        None
    }
}

/// The failure to find a reply in a response without choices.
#[derive(Clone, Copy, Debug, PartialEq, Eq, Structural)]
pub struct EmptyChoices;

/// The text handed to the model as the user's message: the file's name, a
/// line feed, and the file's text.
pub open spec fn user_text(file_name: Seq<char>, file_text: Seq<char>) -> Seq<char> {
    file_name + seq!['\n'] + file_text
}

/// The request for a model, a parent prompt and a user text: the model's
/// identifier with two messages, the prompt as `system` and then the text as
/// `user`.
pub open spec fn request_for(model: Model, prompt: Seq<char>, text: Seq<char>) -> ChatRequestView {
    ChatRequestView {
        model: model.name(),
        messages: seq![
            MessageView { role: Role::System, content: prompt },
            MessageView { role: Role::User, content: text },
        ],
    }
}

/// Joins a file's name and its text into the user's message.
pub fn compose_user_text(file_name: &str, file_text: &str) -> (text: String)
    ensures
        text@ == user_text(file_name@, file_text@),
{
    let mut text = String::from_str(file_name);
    text.append("\n");
    text.append(file_text);
    proof {
        reveal_strlit("\n");
        assert("\n"@ =~= seq!['\n']);
    }
    text
}

/// Builds the two-message request for a model.
pub fn build_request(model: Model, parent_prompt: String, text: String) -> (request: ChatRequest)
    ensures
        request@ == request_for(model, parent_prompt@, text@),
{
    let system = Message { role: Role::System, content: parent_prompt };
    let user = Message { role: Role::User, content: text };
    let mut messages: Vec<Message> = Vec::new();
    messages.push(system);
    messages.push(user);
    let request = ChatRequest { model: String::from_str(model.identifier()), messages };
    proof {
        assert(request@.messages =~= request_for(model, parent_prompt@, text@).messages);
    }
    request
}

/// Takes the reply out of a response: the content of its first choice. The
/// other choices are not looked at. A response without choices has no reply.
pub fn first_reply(response: &ChatResponse) -> (reply: Result<String, EmptyChoices>)
    ensures
        match reply {
            Ok(content) => first_content(response@) == Some(content@),
            Err(_) => first_content(response@).is_none(),
        },
{
    if response.choices.len() == 0 {
        Err(EmptyChoices)
    } else {
        Ok(response.choices[0].message.content.clone())
    }
}

} // verus!
