use vstd::prelude::*;

verus! {

/// The blocking state of the ad-blocking service, always derived fresh from
/// the external tool's output at query time; never persisted locally.
#[derive(Clone, Copy, Debug, PartialEq, Eq, Structural)]
pub enum State {
    Enabled,
    Disabled,
}

/// Why an operation did not produce a canonical state.
#[derive(Clone, Copy, Debug, PartialEq, Eq, Structural)]
pub enum PiholeError {
    /// The external program could not be run to completion.
    ExecutionError,
    /// The captured output did not contain the expected success pattern.
    ClassificationFailure,
}

/// The three operations the service supports.
#[derive(Clone, Copy, Debug, PartialEq, Eq, Structural)]
pub enum Operation {
    Disable,
    Enable,
    Status,
}

/// What one invocation of the external command produced: its captured
/// standard output, or a failure to run it at all.
#[derive(Debug)]
pub enum ExecOutcome {
    Captured(String),
    Failed,
}

impl View for ExecOutcome {
    type V = Option<Seq<char>>;

    open spec fn view(&self) -> Option<Seq<char>> {
        match self {
            ExecOutcome::Captured(text) => Some(text@),
            ExecOutcome::Failed => None,
        }
    }
}

} // verus!
