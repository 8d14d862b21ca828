//! The placeholder response generator: the downstream collaborator the
//! worker forwards a finished transcript to.

use vstd::prelude::*;
use vstd::string::StringExecFns;

verus! {

/// The placeholder reply to a prompt.
pub open spec fn spec_response(prompt: Seq<char>) -> Seq<char> {
    "(AI Placeholder Response) You said: "@ + prompt
}

/// Generates the placeholder response to a prompt.
pub fn generate_response(prompt: &str) -> (r: String)
    ensures
        r@ == spec_response(prompt@),
{
    let mut r = String::from_str("(AI Placeholder Response) You said: ");
    r.append(prompt);
    r
}

/// The echoed hand-off the worker publishes as `llm-response` after a
/// successful transcript.
pub open spec fn spec_echo(text: Seq<char>) -> Seq<char> {
    "Echo: "@ + text
}

/// Builds the echoed hand-off for a finished transcript.
pub fn echo_reply(text: &str) -> (r: String)
    ensures
        r@ == spec_echo(text@),
{
    let mut r = String::from_str("Echo: ");
    r.append(text);
    r
}

} // verus!
