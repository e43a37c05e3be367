//! One whole call: prepare it, hand it to a transport, read what came back.

use crate::reply::{interpret_reply, outcome, result_view, ChatError, Reply};
use crate::wire::{call_for, prepare_call, OutboundCall};
use vstd::prelude::*;

verus! {

/// Asks the endpoint about `user_text` under `instructions` and returns the
/// content of the first choice.
///
/// The transport is whatever performs the HTTP POST: it is called once, with
/// the call for these three texts and no other, and must come back with how
/// the exchange ended. Every way a call can go wrong comes back as an error
/// value; the function waits for the transport and for nothing else, and
/// does not try again.
pub fn send_chat<T: FnOnce(OutboundCall) -> Reply>(
    api_key: &str,
    instructions: &str,
    user_text: &str,
    transport: T,
) -> (result: Result<String, ChatError>)
    requires
        forall|call: OutboundCall|
            call@ == call_for(api_key@, instructions@, user_text@) ==> #[trigger] call_requires(
                transport,
                (call,),
            ),
    ensures
        exists|call: OutboundCall, reply: Reply|
            call@ == call_for(api_key@, instructions@, user_text@) && #[trigger] call_ensures(
                transport,
                (call,),
                reply,
            ) && result_view(result) == outcome(reply@),
{
    let call = prepare_call(api_key, instructions, user_text);
    let ghost sent = call;
    let reply = transport(call);
    let ghost received = reply;
    let result = interpret_reply(reply);
    assert(call_ensures(transport, (sent,), received));
    result
}

} // verus!
