//! Mapping of operation outcomes to HTTP status codes and response bodies.
//!
//! The adapter performs no business logic: a successful operation becomes a
//! success code with the canonical state in a small JSON body, a
//! classification failure becomes an unprocessable-entity code, and an
//! execution error becomes a server-side error code.

use vstd::prelude::*;
use vstd::string::StringExecFns;

use crate::state::PiholeError;
use crate::state::State;

verus! {

/// The HTTP status code for each outcome.
pub open spec fn spec_status_code(r: Result<State, PiholeError>) -> u16 {
    match r {
        Ok(_) => 200,
        Err(PiholeError::ClassificationFailure) => 422,
        Err(PiholeError::ExecutionError) => 500,
    }
}

/// Maps an operation outcome to its HTTP status code.
pub fn status_code_for(r: &Result<State, PiholeError>) -> (c: u16)
    ensures
        c == spec_status_code(*r),
{
    match r {
        Ok(_) => 200,
        Err(PiholeError::ClassificationFailure) => 422,
        Err(PiholeError::ExecutionError) => 500,
    }
}

/// The label under which each state is reported to callers.
pub open spec fn spec_state_label(s: State) -> Seq<char> {
    match s {
        State::Enabled => "Enabled"@,
        State::Disabled => "Disabled"@,
    }
}

/// The JSON body reporting a state to the caller.
pub open spec fn spec_response_body(s: State) -> Seq<char> {
    match s {
        State::Enabled => "{\"pihole_status\":\"Enabled\"}"@,
        State::Disabled => "{\"pihole_status\":\"Disabled\"}"@,
    }
}

/// The label under which a state is reported.
pub fn state_label(s: State) -> (r: &'static str)
    ensures
        r@ == spec_state_label(s),
{
    match s {
        State::Enabled => "Enabled",
        State::Disabled => "Disabled",
    }
}

/// Builds the JSON body reporting a state.
pub fn response_body(s: State) -> (r: String)
    ensures
        r@ == spec_response_body(s),
{
    match s {
        State::Enabled => String::from_str("{\"pihole_status\":\"Enabled\"}"),
        State::Disabled => String::from_str("{\"pihole_status\":\"Disabled\"}"),
    }
}

/// Law: the response body is exactly the state's label wrapped in the fixed
/// JSON frame, for both states.
pub proof fn lemma_body_wraps_label(s: State)
    ensures
        spec_response_body(s) == "{\"pihole_status\":\""@ + spec_state_label(s) + "\"}"@,
{
    reveal_strlit("{\"pihole_status\":\"Enabled\"}");
    reveal_strlit("{\"pihole_status\":\"Disabled\"}");
    reveal_strlit("{\"pihole_status\":\"");
    reveal_strlit("\"}");
    reveal_strlit("Enabled");
    reveal_strlit("Disabled");
    match s {
        State::Enabled => {
            assert(spec_response_body(s) =~= "{\"pihole_status\":\""@ + "Enabled"@ + "\"}"@);
        },
        State::Disabled => {
            assert(spec_response_body(s) =~= "{\"pihole_status\":\""@ + "Disabled"@ + "\"}"@);
        },
    }
}

} // verus!
