use std::fmt::Debug;
use vstd::prelude::*;

verus! {

/// The one error of this library: an assertion did not hold of its subject.
///
/// It carries the human-readable message that tells what was expected and what
/// was found instead.
#[derive(Debug, PartialEq, Eq)]
pub struct AssertionFailed {
    pub message: String,
}

impl View for AssertionFailed {
    type V = Seq<char>;

    /// The text of the message.
    open spec fn view(&self) -> Seq<char> {
        self.message@
    }
}

impl AssertionFailed {
    /// The message of this failure.
    pub fn message(&self) -> (text: &str)
        ensures
            text@ == self@,
    {
        self.message.as_str()
    }
}

/// What an assertion came to, as a plain value: `None` when it passed, and the
/// text of the failure's message when it did not.
pub open spec fn outcome_text(outcome: Result<(), AssertionFailed>) -> Option<Seq<char>> {
    match outcome {
        Ok(_) => None,
        Err(failure) => Some(failure@),
    }
}

/// `part` occurs in `text` as a contiguous run of characters.
pub open spec fn embeds(text: Seq<char>, part: Seq<char>) -> bool {
    exists|start: int|
        0 <= start && start + part.len() <= text.len() && #[trigger] text.subrange(
            start,
            start + part.len(),
        ) == part
}

/// Lets a passed assertion return to its caller.
///
/// Verified callers show that `outcome` is a pass, so the failing arm is never
/// reached from verified code. Code outside the verifier is held to nothing: when
/// it hands in a failure, the current test unit is halted with the failure's
/// message.
pub fn conclude(outcome: Result<(), AssertionFailed>)
    requires
        outcome is Ok,
{
    match outcome {
        Ok(_) => {},
        Err(failure) => {
            let absent: Option<()> = None;
            absent.expect(failure.message.as_str())
        },
    }
}

/// Formats `value` with `{:?}`, that is by the `Debug` implementation of its type.
///
/// Nothing is claimed of the text: it is whatever that implementation writes,
/// and the library only places it in its messages.
#[verifier::external_body]
pub(crate) fn debug_text<T: Debug>(value: &T) -> (text: String) {
    format!("{:?}", value)
}

} // verus!
