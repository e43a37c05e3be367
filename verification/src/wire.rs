//! The outbound call: where it goes, what headers it carries and the JSON
//! text of its body.

use crate::message::{
    build_request, model_name, request_for, ChatRequest, ChatRequestView, MessageView, Role,
};
use vstd::prelude::*;

verus! {

/// `serde_json::Error`, the error type of `serde_json::to_string`. Nothing is
/// claimed of it: a value of it is only carried.
#[verifier::external_type_specification]
#[verifier::external_body]
pub struct ExJsonError(serde_json::Error);

/// The JSON string literal that `serde_json` writes for a text: the text
/// between double quotes, with the characters JSON reserves escaped.
pub uninterp spec fn json_string_literal(text: Seq<char>) -> Seq<char>;

/// `serde_json::to_string` on a string slice.
///
/// Trusted: the result is the JSON string literal of `text`, and the same
/// text always gives the same literal. It is also trusted never to fail:
/// `to_string` fails only where the value's `Serialize` impl fails or a map
/// has a key that is no string, and a string slice is written straight into a
/// growing byte vector.
#[verifier::external_body]
fn quote_json(text: &str) -> (quoted: Result<String, serde_json::Error>)
    ensures
        quoted is Ok,
        quoted matches Ok(literal) ==> literal@ == json_string_literal(text@),
{
    serde_json::to_string(text)
}

/// The JSON string literal of a text.
pub fn literal_of(text: &str) -> (literal: String)
    ensures
        literal@ == json_string_literal(text@),
{
    match quote_json(text) {
        Ok(literal) => literal,
        Err(_) => unreached(),
    }
}

/// The JSON object of one message, given the string literal of its content.
pub open spec fn message_object(role: Role, content_literal: Seq<char>) -> Seq<char> {
    "{\"role\":\""@ + role.label() + "\",\"content\":"@ + content_literal + "}"@
}

/// The parts in their order, with one comma between neighbours.
pub open spec fn comma_joined(parts: Seq<Seq<char>>) -> Seq<char>
    decreases parts.len(),
{
    if parts.len() == 0 {
        Seq::empty()
    } else if parts.len() == 1 {
        parts[0]
    } else {
        comma_joined(parts.drop_last()) + ","@ + parts.last()
    }
}

/// The JSON object of a whole request, given the string literal of the
/// model's name and the objects of its messages.
pub open spec fn body_frame(model_literal: Seq<char>, objects: Seq<Seq<char>>) -> Seq<char> {
    "{\"model\":"@ + model_literal + ",\"messages\":["@ + comma_joined(objects) + "]}"@
}

/// The JSON text of a request: compact, the model first, then the messages
/// in their order, each with its role before its content.
pub open spec fn body_text(request: ChatRequestView) -> Seq<char> {
    body_frame(
        json_string_literal(request.model),
        request.messages.map_values(
            |m: MessageView| message_object(m.role, json_string_literal(m.content)),
        ),
    )
}

/// Writes the JSON object of one message around the literal of its content.
pub fn frame_message(role: Role, content_literal: &str) -> (object: String)
    ensures
        object@ == message_object(role, content_literal@),
{
    let mut object = String::from_str("{\"role\":\"");
    object.append(role.as_str());
    object.append("\",\"content\":");
    object.append(content_literal);
    object.append("}");
    object
}

/// The texts that a vector of strings holds.
pub open spec fn texts_of(strings: Seq<String>) -> Seq<Seq<char>> {
    strings.map_values(|s: String| s@)
}

/// Writes the JSON object of a request around the literal of the model's
/// name and the objects of the messages.
pub fn frame_body(model_literal: &str, objects: &Vec<String>) -> (body: String)
    ensures
        body@ == body_frame(model_literal@, texts_of(objects@)),
{
    let mut body = String::from_str("{\"model\":");
    body.append(model_literal);
    body.append(",\"messages\":[");
    let ghost head = body@;
    let ghost parts = texts_of(objects@);
    let mut i: usize = 0;
    while i < objects.len()
        invariant
            i <= objects.len(),
            parts == texts_of(objects@),
            head == "{\"model\":"@ + model_literal@ + ",\"messages\":["@,
            body@ == head + comma_joined(parts.take(i as int)),
        decreases objects.len() - i,
    {
        proof {
            let before = parts.take(i as int);
            let after = parts.take(i + 1);
            assert(after.drop_last() =~= before);
            assert(after.last() == objects@[i as int]@);
            if i > 0 {
                assert(body@ + ","@ + objects@[i as int]@ =~= head + comma_joined(after));
            } else {
                assert(comma_joined(before) =~= Seq::<char>::empty());
                assert(body@ + objects@[i as int]@ =~= head + comma_joined(after));
            }
        }
        if i > 0 {
            body.append(",");
        }
        body.append(objects[i].as_str());
        i = i + 1;
    }
    proof {
        assert(parts.take(i as int) =~= parts);
    }
    body.append("]}");
    body
}

/// Serialises a request to the JSON text of the call's body.
pub fn render_body(request: &ChatRequest) -> (body: String)
    ensures
        body@ == body_text(request@),
{
    let model_literal = literal_of(request.model.as_str());
    let mut objects: Vec<String> = Vec::new();
    let mut i: usize = 0;
    while i < request.messages.len()
        invariant
            i <= request.messages.len(),
            objects@.len() == i,
            forall|k: int|
                0 <= k < i ==> (#[trigger] objects@[k])@ == message_object(
                    request.messages@[k].role,
                    json_string_literal(request.messages@[k].content@),
                ),
        decreases request.messages.len() - i,
    {
        let message = &request.messages[i];
        let content_literal = literal_of(message.content.as_str());
        objects.push(frame_message(message.role, content_literal.as_str()));
        i = i + 1;
    }
    proof {
        assert(texts_of(objects@) =~= request@.messages.map_values(
            |m: MessageView| message_object(m.role, json_string_literal(m.content)),
        ));
    }
    frame_body(model_literal.as_str(), &objects)
}

/// The body of the request built from `instructions` and `user_text`, written
/// out: the two texts appear once each, as JSON string literals, the
/// instructions under the system role and before the user's text.
pub proof fn lemma_body_of_built_request(instructions: Seq<char>, user_text: Seq<char>)
    ensures
        body_text(request_for(instructions, user_text)) == "{\"model\":"@ + json_string_literal(
            model_name(),
        ) + ",\"messages\":[{\"role\":\"system\",\"content\":"@ + json_string_literal(instructions)
            + "},{\"role\":\"user\",\"content\":"@ + json_string_literal(user_text) + "}]}"@,
{
    let request = request_for(instructions, user_text);
    let objects = request.messages.map_values(
        |m: MessageView| message_object(m.role, json_string_literal(m.content)),
    );
    let first = message_object(Role::System, json_string_literal(instructions));
    let second = message_object(Role::User, json_string_literal(user_text));
    assert(objects =~= seq![first, second]);
    assert(objects.drop_last() =~= seq![first]);
    assert(comma_joined(objects) == first + ","@ + second) by {
        reveal_with_fuel(comma_joined, 2);
    }
    reveal_strlit("{\"role\":\"");
    reveal_strlit("system");
    reveal_strlit("user");
    reveal_strlit("\",\"content\":");
    reveal_strlit("}");
    reveal_strlit(",");
    reveal_strlit("]}");
    reveal_strlit(",\"messages\":[");
    reveal_strlit(",\"messages\":[{\"role\":\"system\",\"content\":");
    reveal_strlit("},{\"role\":\"user\",\"content\":");
    reveal_strlit("}]}");
    assert(",\"messages\":["@ + "{\"role\":\""@ + "system"@ + "\",\"content\":"@
        =~= ",\"messages\":[{\"role\":\"system\",\"content\":"@);
    assert("}"@ + ","@ + "{\"role\":\""@ + "user"@ + "\",\"content\":"@
        =~= "},{\"role\":\"user\",\"content\":"@);
    assert("}"@ + "]}"@ =~= "}]}"@);
    assert(body_text(request) =~= "{\"model\":"@ + json_string_literal(model_name())
        + (",\"messages\":["@ + "{\"role\":\""@ + "system"@ + "\",\"content\":"@)
        + json_string_literal(instructions)
        + ("}"@ + ","@ + "{\"role\":\""@ + "user"@ + "\",\"content\":"@)
        + json_string_literal(user_text) + ("}"@ + "]}"@));
}

/// One header of the call.
#[derive(Clone, Debug, PartialEq, Eq)]
pub struct Header {
    pub name: String,
    pub value: String,
}

/// A header as contracts see it.
pub struct HeaderView {
    pub name: Seq<char>,
    pub value: Seq<char>,
}

impl View for Header {
    type V = HeaderView;

    open spec fn view(&self) -> HeaderView {
        HeaderView { name: self.name@, value: self.value@ }
    }
}

/// Everything the transport needs to make one HTTP request.
#[derive(Clone, Debug, PartialEq, Eq)]
pub struct OutboundCall {
    pub method: String,
    pub url: String,
    pub headers: Vec<Header>,
    pub body: String,
}

/// A call as contracts see it.
pub struct OutboundCallView {
    pub method: Seq<char>,
    pub url: Seq<char>,
    pub headers: Seq<HeaderView>,
    pub body: Seq<char>,
}

impl View for OutboundCall {
    type V = OutboundCallView;

    open spec fn view(&self) -> OutboundCallView {
        OutboundCallView {
            method: self.method@,
            url: self.url@,
            headers: self.headers@.map_values(|h: Header| h@),
            body: self.body@,
        }
    }
}

/// The address every call is posted to.
pub open spec fn endpoint_url() -> Seq<char> {
    "https://api.openai.com/v1/chat/completions"@
}

/// The value of the authorization header for a key: the bearer scheme, one
/// space, the key.
pub open spec fn bearer_value(api_key: Seq<char>) -> Seq<char> {
    "Bearer "@ + api_key
}

/// The call that asks the endpoint about `user_text` under `instructions`.
pub open spec fn call_for(
    api_key: Seq<char>,
    instructions: Seq<char>,
    user_text: Seq<char>,
) -> OutboundCallView {
    OutboundCallView {
        method: "POST"@,
        url: endpoint_url(),
        headers: seq![
            HeaderView { name: "Authorization"@, value: bearer_value(api_key) },
            HeaderView { name: "Content-Type"@, value: "application/json"@ },
        ],
        body: body_text(request_for(instructions, user_text)),
    }
}

/// The address every call is posted to.
pub fn endpoint() -> (url: &'static str)
    ensures
        url@ == endpoint_url(),
{
    "https://api.openai.com/v1/chat/completions"
}

/// The value of the authorization header that presents `api_key`.
pub fn authorization_value(api_key: &str) -> (value: String)
    ensures
        value@ == bearer_value(api_key@),
{
    let mut value = String::from_str("Bearer ");
    value.append(api_key);
    value
}

/// Puts one call together: a POST to the fixed address, with the bearer
/// token, the JSON content type and the body that carries the two texts.
pub fn prepare_call(api_key: &str, instructions: &str, user_text: &str) -> (call: OutboundCall)
    ensures
        call@ == call_for(api_key@, instructions@, user_text@),
{
    let request = build_request(instructions, user_text);
    let mut headers: Vec<Header> = Vec::new();
    headers.push(
        Header { name: String::from_str("Authorization"), value: authorization_value(api_key) },
    );
    headers.push(
        Header {
            name: String::from_str("Content-Type"),
            value: String::from_str("application/json"),
        },
    );
    let call = OutboundCall {
        method: String::from_str("POST"),
        url: String::from_str(endpoint()),
        headers,
        body: render_body(&request),
    };
    assert(call@.headers =~= call_for(api_key@, instructions@, user_text@).headers);
    call
}

} // verus!
