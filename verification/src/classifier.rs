//! Classification of the external tool's free-text output.
//!
//! The tool has no machine-readable output; the only signal available is
//! whether a fixed, case-sensitive pattern occurs as a contiguous substring
//! of the captured text. Each operation has one expected-success pattern.

use vstd::prelude::*;

use crate::state::{ExecOutcome, Operation, PiholeError, State};

verus! {

/// The pattern occurs in the text starting exactly at position `i`.
pub open spec fn pattern_found_at(text: Seq<char>, pattern: Seq<char>, i: int) -> bool {
    &&& 0 <= i
    &&& i + pattern.len() <= text.len()
    &&& text.subrange(i, i + pattern.len()) == pattern
}

/// The pattern occurs somewhere in the text as a contiguous substring.
pub open spec fn contains_pattern(text: Seq<char>, pattern: Seq<char>) -> bool {
    exists|i: int| pattern_found_at(text, pattern, i)
}

/// Compares the pattern against the text at one candidate position.
fn match_at(text: &str, pattern: &str, i: usize) -> (r: bool)
    requires
        i + pattern@.len() <= text@.len(),
    ensures
        r == pattern_found_at(text@, pattern@, i as int),
{
    let n: usize = text.unicode_len();
    let m: usize = pattern.unicode_len();
    let mut j: usize = 0;
    while j < m
        invariant
            j <= m,
            n == text@.len(),
            m == pattern@.len(),
            i + m <= n,
            forall|k: int| 0 <= k < j ==> text@[i + k] == pattern@[k],
        decreases m - j,
    {
        if text.get_char(i + j) != pattern.get_char(j) {
            proof {
                assert(text@.subrange(i as int, i + m)[j as int] == text@[i + j]);
            }
            return false;
        }
        j += 1;
    }
    proof {
        assert(text@.subrange(i as int, i + m) =~= pattern@);
    }
    true
}

/// Substring containment: returns whether the pattern occurs anywhere in the
/// text. Matching is case-sensitive and exact.
pub fn find_pattern(text: &str, pattern: &str) -> (r: bool)
    ensures
        r == contains_pattern(text@, pattern@),
{
    let n: usize = text.unicode_len();
    let m: usize = pattern.unicode_len();
    if m == 0 {
        proof {
            assert(text@.subrange(0, 0) =~= pattern@);
            assert(pattern_found_at(text@, pattern@, 0));
        }
        return true;
    }
    if m > n {
        proof {
            assert forall|i: int| !pattern_found_at(text@, pattern@, i) by {}
        }
        return false;
    }
    let mut i: usize = 0;
    while i <= n - m
        invariant
            n == text@.len(),
            m == pattern@.len(),
            1 <= m <= n,
            i <= n - m + 1,
            forall|k: int| 0 <= k < i ==> !pattern_found_at(text@, pattern@, k),
        decreases n - m - i + 1,
    {
        if match_at(text, pattern, i) {
            return true;
        }
        i += 1;
    }
    proof {
        assert forall|k: int| !pattern_found_at(text@, pattern@, k) by {
            if 0 <= k < i {
            } else if k >= i {
                assert(k + m > n);
            }
        }
    }
    false
}

/// The success pattern for a disable operation.
pub open spec fn disable_pattern() -> Seq<char> {
    "Pi-hole Disabled"@
}

/// The success pattern for an enable operation.
pub open spec fn enable_pattern() -> Seq<char> {
    "Pi-hole Enabled"@
}

/// The pattern a status query emits while blocking is active.
pub open spec fn status_enabled_pattern() -> Seq<char> {
    "Pi-hole blocking is enabled"@
}

/// What each operation's outcome must be, given what the executor produced
/// (`None`: the command could not be run; `Some(text)`: its captured output).
///
/// Disable and enable succeed exactly when their success pattern occurs in
/// the text, and otherwise fail classification (the tool typically emits no
/// such line when it is already in the requested state). A status query has
/// no classification failure: any text without the enabled pattern reports
/// the disabled state. An execution failure is a typed error for every
/// operation, never a crash.
pub open spec fn spec_outcome(op: Operation, exec: Option<Seq<char>>) -> Result<State, PiholeError> {
    match exec {
        None => Err(PiholeError::ExecutionError),
        Some(text) => match op {
            Operation::Disable => if contains_pattern(text, disable_pattern()) {
                Ok(State::Disabled)
            } else {
                Err(PiholeError::ClassificationFailure)
            },
            Operation::Enable => if contains_pattern(text, enable_pattern()) {
                Ok(State::Enabled)
            } else {
                Err(PiholeError::ClassificationFailure)
            },
            Operation::Status => if contains_pattern(text, status_enabled_pattern()) {
                Ok(State::Enabled)
            } else {
                Ok(State::Disabled)
            },
        },
    }
}

/// Classifies what the executor produced into the operation's outcome.
pub fn classify(op: Operation, exec: &ExecOutcome) -> (r: Result<State, PiholeError>)
    ensures
        r == spec_outcome(op, exec@),
{
    match exec {
        ExecOutcome::Failed => Err(PiholeError::ExecutionError),
        ExecOutcome::Captured(text) => match op {
            Operation::Disable => if find_pattern(text.as_str(), "Pi-hole Disabled") {
                Ok(State::Disabled)
            } else {
                Err(PiholeError::ClassificationFailure)
            },
            Operation::Enable => if find_pattern(text.as_str(), "Pi-hole Enabled") {
                Ok(State::Enabled)
            } else {
                Err(PiholeError::ClassificationFailure)
            },
            Operation::Status => if find_pattern(text.as_str(), "Pi-hole blocking is enabled") {
                Ok(State::Enabled)
            } else {
                Ok(State::Disabled)
            },
        },
    }
}

/// Law: text that contains the disable success pattern classifies a disable
/// operation to the disabled state; any other text is a classification
/// failure.
pub proof fn lemma_disable_classification(text: Seq<char>)
    ensures
        contains_pattern(text, disable_pattern()) ==> spec_outcome(
            Operation::Disable,
            Some(text),
        ) == Ok::<State, PiholeError>(State::Disabled),
        !contains_pattern(text, disable_pattern()) ==> spec_outcome(
            Operation::Disable,
            Some(text),
        ) == Err::<State, PiholeError>(PiholeError::ClassificationFailure),
{
}

/// Law: text that contains the enable success pattern classifies an enable
/// operation to the enabled state; any other text is a classification
/// failure.
pub proof fn lemma_enable_classification(text: Seq<char>)
    ensures
        contains_pattern(text, enable_pattern()) ==> spec_outcome(Operation::Enable, Some(text))
            == Ok::<State, PiholeError>(State::Enabled),
        !contains_pattern(text, enable_pattern()) ==> spec_outcome(Operation::Enable, Some(text))
            == Err::<State, PiholeError>(PiholeError::ClassificationFailure),
{
}

/// Law: a status query never fails classification: text with the enabled
/// pattern reports the enabled state, and any other text the disabled state.
pub proof fn lemma_status_classification(text: Seq<char>)
    ensures
        contains_pattern(text, status_enabled_pattern()) ==> spec_outcome(
            Operation::Status,
            Some(text),
        ) == Ok::<State, PiholeError>(State::Enabled),
        !contains_pattern(text, status_enabled_pattern()) ==> spec_outcome(
            Operation::Status,
            Some(text),
        ) == Ok::<State, PiholeError>(State::Disabled),
{
}

/// Law: a failure to run the external command is surfaced as a typed
/// execution error for every operation; it never becomes a state value.
pub proof fn lemma_execution_failure_is_typed(op: Operation)
    ensures
        spec_outcome(op, None) == Err::<State, PiholeError>(PiholeError::ExecutionError),
{
}

} // verus!
