use crate::failure::{conclude, outcome_text, AssertionFailed};
use crate::should::Should;
use vstd::prelude::*;
use vstd::string::*;

verus! {

/// What `be_true` comes to on `subject`.
pub open spec fn be_true_outcome(subject: bool) -> Option<Seq<char>> {
    if subject {
        None
    } else {
        Some("Expected false to be true"@)
    }
}

/// What `be_false` comes to on `subject`.
pub open spec fn be_false_outcome(subject: bool) -> Option<Seq<char>> {
    if subject {
        Some("Expected true to be false"@)
    } else {
        None
    }
}

impl<'a> Should<'a, bool> {
    /// Tests that the value is true, and returns the failure when it is not.
    pub fn try_be_true(&self) -> (outcome: Result<(), AssertionFailed>)
        ensures
            outcome_text(outcome) == be_true_outcome(self@),
    {
        if *self.actual() {
            Ok(())
        } else {
            Err(AssertionFailed { message: String::from_str("Expected false to be true") })
        }
    }

    /// Tests that the value is false, and returns the failure when it is not.
    pub fn try_be_false(&self) -> (outcome: Result<(), AssertionFailed>)
        ensures
            outcome_text(outcome) == be_false_outcome(self@),
    {
        if *self.actual() {
            Err(AssertionFailed { message: String::from_str("Expected true to be false") })
        } else {
            Ok(())
        }
    }

    /// Asserts that the value is true.
    ///
    /// Verified callers show that it is. A caller outside the verifier whose value
    /// is false is halted with the message `Expected false to be true`.
    pub fn be_true(&self)
        requires
            self@,
    {
        conclude(self.try_be_true())
    }

    /// Asserts that the value is false.
    ///
    /// Verified callers show that it is. A caller outside the verifier whose value
    /// is true is halted with the message `Expected true to be false`.
    pub fn be_false(&self)
        requires
            !self@,
    {
        conclude(self.try_be_false())
    }
}

} // verus!
