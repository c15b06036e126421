//! The three operations the control plane supports.
//!
//! Each operation invokes the external tool exactly once and classifies its
//! output; no state is kept between calls. What the tool prints depends on
//! the host, so each operation promises what holds of every possible
//! capture; the exact text-to-outcome mapping is stated and proved on
//! [`crate::classifier::classify`], which takes the capture as an argument.

use vstd::prelude::*;

use crate::classifier::classify;
use crate::command::disable_args;
use crate::command::enable_args;
use crate::command::execute;
use crate::command::status_args;
use crate::state::Operation;
use crate::state::PiholeError;
use crate::state::State;

verus! {

/// Asks the external tool to disable blocking, indefinitely or for the
/// given number of minutes. Succeeds only with the disabled state; when the
/// captured output lacks the success pattern (typically because blocking is
/// already off) the result is a classification failure, and when the tool
/// cannot be run at all it is an execution error, never a crash.
pub fn disable_pihole(duration: Option<u8>) -> (r: Result<State, PiholeError>)
    ensures
        r matches Ok(s) ==> s == State::Disabled,
{
    let args = disable_args(duration);
    let exec = execute("pihole", &args);
    classify(Operation::Disable, &exec)
}

/// Asks the external tool to enable blocking. Succeeds only with the
/// enabled state; when the captured output lacks the success pattern the
/// result is a classification failure, and when the tool cannot be run at
/// all it is an execution error, never a crash.
pub fn enable_pihole() -> (r: Result<State, PiholeError>)
    ensures
        r matches Ok(s) ==> s == State::Enabled,
{
    let args = enable_args();
    let exec = execute("pihole", &args);
    classify(Operation::Enable, &exec)
}

/// Queries the external tool for the current blocking state. A status query
/// has no classification failure: any captured text reports either the
/// enabled or the disabled state. The only error is an execution error,
/// surfaced as a typed result, never a crash.
pub fn pihole_status() -> (r: Result<State, PiholeError>)
    ensures
        r matches Err(e) ==> e == PiholeError::ExecutionError,
{
    let args = status_args();
    let exec = execute("pihole", &args);
    classify(Operation::Status, &exec)
}

} // verus!
