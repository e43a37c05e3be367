//! The chat-completion request: two role-tagged messages under a fixed model.

use vstd::prelude::*;

verus! {

/// Who a message speaks for.
#[derive(Clone, Copy, Debug, PartialEq, Eq, Structural)]
pub enum Role {
    /// The fixed instruction that steers the model.
    System,
    /// The text the user typed for this request.
    User,
}

impl Role {
    /// The name of the role as the endpoint spells it.
    pub open spec fn label(self) -> Seq<char> {
        match self {
            Role::System => "system"@,
            Role::User => "user"@,
        }
    }

    /// The name of the role as the endpoint spells it.
    pub fn as_str(self) -> (text: &'static str)
        ensures
            text@ == self.label(),
    {
        match self {
            Role::System => "system",
            Role::User => "user",
        }
    }
}

/// One message of a request.
#[derive(Clone, Debug, PartialEq, Eq)]
pub struct Message {
    pub role: Role,
    pub content: String,
}

/// A message as contracts see it.
pub struct MessageView {
    pub role: Role,
    pub content: Seq<char>,
}

impl View for Message {
    type V = MessageView;

    open spec fn view(&self) -> MessageView {
        MessageView { role: self.role, content: self.content@ }
    }
}

impl Message {
    /// The instruction message: `text`, word for word, under the system role.
    pub fn system(text: &str) -> (message: Message)
        ensures
            message@ == (MessageView { role: Role::System, content: text@ }),
    {
        Message { role: Role::System, content: String::from_str(text) }
    }

    /// The user's message: `text`, word for word, under the user role.
    pub fn user(text: &str) -> (message: Message)
        ensures
            message@ == (MessageView { role: Role::User, content: text@ }),
    {
        Message { role: Role::User, content: String::from_str(text) }
    }
}

/// What one call sends: the model's name and the messages in their order.
#[derive(Clone, Debug, PartialEq, Eq)]
pub struct ChatRequest {
    pub model: String,
    pub messages: Vec<Message>,
}

/// A request as contracts see it.
pub struct ChatRequestView {
    pub model: Seq<char>,
    pub messages: Seq<MessageView>,
}

impl View for ChatRequest {
    type V = ChatRequestView;

    open spec fn view(&self) -> ChatRequestView {
        ChatRequestView {
            model: self.model@,
            messages: self.messages@.map_values(|m: Message| m@),
        }
    }
}

/// The name of the model every request asks for.
pub open spec fn model_name() -> Seq<char> {
    "gpt-4"@
}

impl ChatRequestView {
    /// The shape every request of this client has: the fixed model, then
    /// exactly one system message followed by exactly one user message.
    pub open spec fn well_formed(self) -> bool {
        &&& self.model == model_name()
        &&& self.messages.len() == 2
        &&& self.messages[0].role == Role::System
        &&& self.messages[1].role == Role::User
    }
}

/// The request that carries `instructions` and `user_text`.
pub open spec fn request_for(instructions: Seq<char>, user_text: Seq<char>) -> ChatRequestView {
    ChatRequestView {
        model: model_name(),
        messages: seq![
            MessageView { role: Role::System, content: instructions },
            MessageView { role: Role::User, content: user_text },
        ],
    }
}

/// Builds the request for one call. Both texts are taken as they are: nothing
/// is trimmed, cut or escaped here.
pub fn build_request(instructions: &str, user_text: &str) -> (request: ChatRequest)
    ensures
        request@ == request_for(instructions@, user_text@),
        request@.well_formed(),
{
    let mut messages: Vec<Message> = Vec::new();
    messages.push(Message::system(instructions));
    messages.push(Message::user(user_text));
    let request = ChatRequest { model: String::from_str("gpt-4"), messages };
    assert(request@.messages =~= request_for(instructions@, user_text@).messages);
    request
}

/// A request is well formed exactly when it is the one built from the
/// contents of its two messages.
pub proof fn lemma_well_formed_is_built(request: ChatRequestView)
    ensures
        request.well_formed() <==> request == request_for(
            request.messages[0].content,
            request.messages[1].content,
        ),
{
    if request.well_formed() {
        assert(request.messages =~= request_for(
            request.messages[0].content,
            request.messages[1].content,
        ).messages);
    }
}

} // verus!
