//! What came back from the endpoint, and what it means for the caller: the
//! text of the first choice, or one of four failures.

use crate::digits::{decimal_digits, decimal_text};
use vstd::prelude::*;

verus! {

/// The text part of a choice's message.
#[derive(Clone, Debug, PartialEq, Eq)]
pub struct MessageContent {
    pub content: String,
}

/// One candidate reply of the model.
#[derive(Clone, Debug, PartialEq, Eq)]
pub struct Choice {
    pub message: MessageContent,
}

/// The decoded body of a successful response. Only the first choice is used.
#[derive(Clone, Debug, PartialEq, Eq)]
pub struct ChatResponse {
    pub choices: Vec<Choice>,
}

impl View for ChatResponse {
    /// The contents of the choices, in their order.
    type V = Seq<Seq<char>>;

    open spec fn view(&self) -> Seq<Seq<char>> {
        self.choices@.map_values(|c: Choice| c.message.content@)
    }
}

/// Why a call gave no answer.
#[derive(Clone, Debug, PartialEq, Eq)]
pub enum ChatError {
    /// No complete response arrived; the text says what the transport reported.
    Network(String),
    /// The endpoint answered with a status outside 200..=299.
    Status(u16),
    /// The body was not the JSON that was expected; the text says what the
    /// decoder reported.
    MalformedJson(String),
    /// The body decoded, and its list of choices is empty.
    EmptyChoices,
}

/// A failure as contracts see it.
pub enum ChatErrorView {
    Network(Seq<char>),
    Status(u16),
    MalformedJson(Seq<char>),
    EmptyChoices,
}

impl View for ChatError {
    type V = ChatErrorView;

    open spec fn view(&self) -> ChatErrorView {
        match self {
            ChatError::Network(detail) => ChatErrorView::Network(detail@),
            ChatError::Status(code) => ChatErrorView::Status(*code),
            ChatError::MalformedJson(detail) => ChatErrorView::MalformedJson(detail@),
            ChatError::EmptyChoices => ChatErrorView::EmptyChoices,
        }
    }
}

impl ChatErrorView {
    /// Whether two failures are of the same kind, whatever they carry.
    pub open spec fn same_kind(self, other: ChatErrorView) -> bool {
        ||| self is Network && other is Network
        ||| self is Status && other is Status
        ||| self is MalformedJson && other is MalformedJson
        ||| self is EmptyChoices && other is EmptyChoices
    }

    /// The sentence that describes the failure to the user.
    pub open spec fn detail_text(self) -> Seq<char> {
        match self {
            ChatErrorView::Network(detail) => "network failure: "@ + detail,
            ChatErrorView::Status(code) => "HTTP status "@ + decimal_digits(code as nat),
            ChatErrorView::MalformedJson(detail) => "malformed response: "@ + detail,
            ChatErrorView::EmptyChoices => "the response holds no choices"@,
        }
    }
}

impl ChatError {
    /// The sentence that describes the failure to the user.
    pub fn detail(&self) -> (text: String)
        ensures
            text@ == self@.detail_text(),
    {
        match self {
            ChatError::Network(detail) => {
                let mut text = String::from_str("network failure: ");
                text.append(detail.as_str());
                text
            },
            ChatError::Status(code) => {
                let mut text = String::from_str("HTTP status ");
                let digits = decimal_text(*code);
                text.append(digits.as_str());
                text
            },
            ChatError::MalformedJson(detail) => {
                let mut text = String::from_str("malformed response: ");
                text.append(detail.as_str());
                text
            },
            ChatError::EmptyChoices => String::from_str("the response holds no choices"),
        }
    }
}

/// Failures of different kinds never share a detail: a rejected status, for
/// one, cannot be taken for a body that failed to decode.
pub proof fn lemma_detail_tells_kinds_apart(a: ChatErrorView, b: ChatErrorView)
    requires
        !a.same_kind(b),
    ensures
        a.detail_text() != b.detail_text(),
{
    lemma_detail_starts_with_kind_letter(a);
    lemma_detail_starts_with_kind_letter(b);
}

/// The first character of a detail depends on the kind of the failure alone.
proof fn lemma_detail_starts_with_kind_letter(e: ChatErrorView)
    ensures
        e.detail_text().len() > 0,
        e is Network ==> e.detail_text()[0] == 'n',
        e is Status ==> e.detail_text()[0] == 'H',
        e is MalformedJson ==> e.detail_text()[0] == 'm',
        e is EmptyChoices ==> e.detail_text()[0] == 't',
{
    reveal_strlit("network failure: ");
    reveal_strlit("HTTP status ");
    reveal_strlit("malformed response: ");
    reveal_strlit("the response holds no choices");
}

/// What a call returns, as contracts see it.
pub open spec fn result_view(result: Result<String, ChatError>) -> Result<Seq<char>, ChatErrorView> {
    match result {
        Ok(text) => Ok(text@),
        Err(error) => Err(error@),
    }
}

/// The content of the first choice; a failure of its own where there is none.
pub open spec fn first_choice(choices: Seq<Seq<char>>) -> Result<Seq<char>, ChatErrorView> {
    if choices.len() == 0 {
        Err(ChatErrorView::EmptyChoices)
    } else {
        Ok(choices[0])
    }
}

/// Takes the answer out of a decoded response: the content of the first
/// choice, whatever follows it. An empty list of choices is a failure, never
/// a fault.
pub fn first_choice_content(response: &ChatResponse) -> (result: Result<String, ChatError>)
    ensures
        result_view(result) == first_choice(response@),
{
    if response.choices.len() == 0 {
        Err(ChatError::EmptyChoices)
    } else {
        Ok(response.choices[0].message.content.clone())
    }
}

/// How one HTTP exchange ended, as the transport reports it.
#[derive(Clone, Debug, PartialEq, Eq)]
pub enum Reply {
    /// No complete response arrived.
    Unreachable(String),
    /// A response arrived and its body did not decode.
    Undecodable { status: u16, detail: String },
    /// A response arrived and its body decoded.
    Decoded { status: u16, response: ChatResponse },
}

/// An exchange as contracts see it.
pub enum ReplyView {
    Unreachable(Seq<char>),
    Undecodable { status: u16, detail: Seq<char> },
    Decoded { status: u16, choices: Seq<Seq<char>> },
}

impl View for Reply {
    type V = ReplyView;

    open spec fn view(&self) -> ReplyView {
        match self {
            Reply::Unreachable(detail) => ReplyView::Unreachable(detail@),
            Reply::Undecodable { status, detail } => ReplyView::Undecodable {
                status: *status,
                detail: detail@,
            },
            Reply::Decoded { status, response } => ReplyView::Decoded {
                status: *status,
                choices: response@,
            },
        }
    }
}

/// The statuses that count as success.
pub open spec fn status_accepted(status: u16) -> bool {
    200 <= status <= 299
}

/// Whether a status counts as success.
pub fn is_success(status: u16) -> (accepted: bool)
    ensures
        accepted == status_accepted(status),
{
    200 <= status && status <= 299
}

/// What an exchange means. A transport failure comes first; then the status
/// is judged, before anything is asked of the body; then the body.
pub open spec fn outcome(reply: ReplyView) -> Result<Seq<char>, ChatErrorView> {
    match reply {
        ReplyView::Unreachable(detail) => Err(ChatErrorView::Network(detail)),
        ReplyView::Undecodable { status, detail } => if status_accepted(status) {
            Err(ChatErrorView::MalformedJson(detail))
        } else {
            Err(ChatErrorView::Status(status))
        },
        ReplyView::Decoded { status, choices } => if status_accepted(status) {
            first_choice(choices)
        } else {
            Err(ChatErrorView::Status(status))
        },
    }
}

/// Turns the end of an exchange into the result of the call.
pub fn interpret_reply(reply: Reply) -> (result: Result<String, ChatError>)
    ensures
        result_view(result) == outcome(reply@),
{
    match reply {
        Reply::Unreachable(detail) => Err(ChatError::Network(detail)),
        Reply::Undecodable { status, detail } => {
            if is_success(status) {
                Err(ChatError::MalformedJson(detail))
            } else {
                Err(ChatError::Status(status))
            }
        },
        Reply::Decoded { status, response } => {
            if is_success(status) {
                first_choice_content(&response)
            } else {
                Err(ChatError::Status(status))
            }
        },
    }
}

/// A call succeeds exactly when a response arrived with an accepted status
/// and a body that decoded to at least one choice; the answer is then the
/// content of the first choice.
pub proof fn lemma_success_exactly(reply: ReplyView)
    ensures
        outcome(reply) is Ok <==> (reply matches ReplyView::Decoded { status, choices }
            && status_accepted(status) && choices.len() > 0),
        outcome(reply) matches Ok(text) ==> (reply matches ReplyView::Decoded { choices, .. }
            && text == choices[0]),
{
}

} // verus!
