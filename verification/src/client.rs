use vstd::prelude::*;

use crate::protocol::LanguageRequest;

verus! {

/// What the client decides to do with the caller's input: skip the call
/// entirely, or send a request carrying the text.
pub enum ClientAction {
    /// Empty input: no connection is attempted, no request is built, and the
    /// client completes successfully.
    NoOp,
    /// Non-empty input: this request is to be submitted to the service.
    Send(LanguageRequest),
}

/// The client's local pre-check. Empty caller input is a deliberate no-op —
/// zero network calls, successful completion — while non-empty input becomes
/// a request carrying exactly that text. The check is an optimization to
/// avoid a wasted round trip; the service validates independently.
pub fn plan_detection(input: String) -> (action: ClientAction)
    ensures
        input@.len() == 0 ==> action is NoOp,
        input@.len() > 0 ==> (action matches ClientAction::Send(request)
            && request.text@ == input@),
{
    if input.as_str().is_empty() {
        ClientAction::NoOp
    } else {
        ClientAction::Send(LanguageRequest { text: input })
    }
}

} // verus!
