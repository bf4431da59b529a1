use crate::failure::{conclude, debug_text, outcome_text, AssertionFailed};
use crate::should::Should;
use std::fmt::Debug;
use vstd::prelude::*;
use vstd::string::*;

verus! {

/// What `be_some` comes to on `subject`.
pub open spec fn be_some_outcome<T>(subject: Option<T>) -> Option<Seq<char>> {
    if subject is Some {
        None
    } else {
        Some("Expected Option to be Some, but got None"@)
    }
}

/// The message of a failed `be_none`, given how the value that was found is
/// formatted.
pub open spec fn be_none_failure_text(value_text: Seq<char>) -> Seq<char> {
    "Expected Option to be None, but got "@ + ("Some("@ + value_text + ")"@)
}

/// What `be_none` comes to on `subject`, given how the value that it may hold is
/// formatted.
pub open spec fn be_none_outcome<T>(subject: Option<T>, value_text: Seq<char>) -> Option<
    Seq<char>,
> {
    if subject is None {
        None
    } else {
        Some(be_none_failure_text(value_text))
    }
}

/// The failure of a `be_none` on an option whose value is formatted as
/// `value_text`.
pub fn be_none_failure(value_text: &str) -> (failure: AssertionFailed)
    ensures
        failure@ == be_none_failure_text(value_text@),
{
    let mut found = String::from_str("Some(");
    found.append(value_text);
    found.append(")");
    let mut message = String::from_str("Expected Option to be None, but got ");
    message.append(found.as_str());
    AssertionFailed { message }
}

impl<'a, T> Should<'a, Option<T>> where T: Debug {
    /// Tests that the Option is Some, and returns the failure when it is None.
    pub fn try_be_some(&self) -> (outcome: Result<(), AssertionFailed>)
        ensures
            outcome_text(outcome) == be_some_outcome(self@),
    {
        match self.actual() {
            Some(_) => Ok(()),
            None => Err(
                AssertionFailed {
                    message: String::from_str("Expected Option to be Some, but got None"),
                },
            ),
        }
    }

    /// Tests that the Option is None, and returns the failure when it is Some.
    ///
    /// The failure's message holds the value that was found, as its `Debug`
    /// implementation formats it.
    pub fn try_be_none(&self) -> (outcome: Result<(), AssertionFailed>)
        ensures
            exists|value_text: Seq<char>|
                outcome_text(outcome) == #[trigger] be_none_outcome(self@, value_text),
    {
        match self.actual() {
            Some(value) => {
                let value_text = debug_text(value);
                let failure = be_none_failure(value_text.as_str());
                proof {
                    assert(outcome_text(Err(failure)) == be_none_outcome(self@, value_text@));
                }
                Err(failure)
            },
            None => {
                proof {
                    assert(outcome_text(Ok(())) == be_none_outcome(self@, Seq::<char>::empty()));
                }
                Ok(())
            },
        }
    }

    /// Asserts that the Option is Some.
    ///
    /// Verified callers show that it is. A caller outside the verifier whose
    /// Option is None is halted with the message of `try_be_some`.
    pub fn be_some(&self)
        requires
            self@ is Some,
    {
        conclude(self.try_be_some())
    }

    /// Asserts that the Option is None.
    ///
    /// Verified callers show that it is. A caller outside the verifier whose
    /// Option is Some is halted with the message of `try_be_none`.
    pub fn be_none(&self)
        requires
            self@ is None,
    {
        conclude(self.try_be_none())
    }
}

} // verus!
