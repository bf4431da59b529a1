use crate::failure::{conclude, debug_text, outcome_text, AssertionFailed};
use crate::should::Should;
use std::fmt::Debug;
use vstd::prelude::*;
use vstd::string::*;

verus! {

/// The message of a failed `be_ok`, given how the error that was found is
/// formatted.
pub open spec fn be_ok_failure_text(error_text: Seq<char>) -> Seq<char> {
    "Expected Result to be Ok, but got "@ + ("Err("@ + error_text + ")"@)
}

/// The message of a failed `be_err`, given how the value that was found is
/// formatted.
pub open spec fn be_err_failure_text(value_text: Seq<char>) -> Seq<char> {
    "Expected Result to be Err, but got "@ + ("Ok("@ + value_text + ")"@)
}

/// What `be_ok` comes to on `subject`, given how the error that it may hold is
/// formatted.
pub open spec fn be_ok_outcome<T, E>(subject: Result<T, E>, error_text: Seq<char>) -> Option<
    Seq<char>,
> {
    if subject is Ok {
        None
    } else {
        Some(be_ok_failure_text(error_text))
    }
}

/// What `be_err` comes to on `subject`, given how the value that it may hold is
/// formatted.
pub open spec fn be_err_outcome<T, E>(subject: Result<T, E>, value_text: Seq<char>) -> Option<
    Seq<char>,
> {
    if subject is Err {
        None
    } else {
        Some(be_err_failure_text(value_text))
    }
}

/// The failure of a `be_ok` on a result whose error is formatted as
/// `error_text`.
pub fn be_ok_failure(error_text: &str) -> (failure: AssertionFailed)
    ensures
        failure@ == be_ok_failure_text(error_text@),
{
    let mut found = String::from_str("Err(");
    found.append(error_text);
    found.append(")");
    let mut message = String::from_str("Expected Result to be Ok, but got ");
    message.append(found.as_str());
    AssertionFailed { message }
}

/// The failure of a `be_err` on a result whose value is formatted as
/// `value_text`.
pub fn be_err_failure(value_text: &str) -> (failure: AssertionFailed)
    ensures
        failure@ == be_err_failure_text(value_text@),
{
    let mut found = String::from_str("Ok(");
    found.append(value_text);
    found.append(")");
    let mut message = String::from_str("Expected Result to be Err, but got ");
    message.append(found.as_str());
    AssertionFailed { message }
}

impl<'a, T, E> Should<'a, Result<T, E>> where T: Debug, E: Debug {
    /// Tests that the Result is Ok, and returns the failure when it is an Err.
    ///
    /// The failure's message holds the error that was found, as its `Debug`
    /// implementation formats it.
    pub fn try_be_ok(&self) -> (outcome: Result<(), AssertionFailed>)
        ensures
            exists|error_text: Seq<char>|
                outcome_text(outcome) == #[trigger] be_ok_outcome(self@, error_text),
    {
        match self.actual() {
            Ok(_) => {
                proof {
                    assert(outcome_text(Ok(())) == be_ok_outcome(self@, Seq::<char>::empty()));
                }
                Ok(())
            },
            Err(error) => {
                let error_text = debug_text(error);
                let failure = be_ok_failure(error_text.as_str());
                proof {
                    assert(outcome_text(Err(failure)) == be_ok_outcome(self@, error_text@));
                }
                Err(failure)
            },
        }
    }

    /// Tests that the Result is Err, and returns the failure when it is Ok.
    ///
    /// The failure's message holds the value that was found, as its `Debug`
    /// implementation formats it.
    pub fn try_be_err(&self) -> (outcome: Result<(), AssertionFailed>)
        ensures
            exists|value_text: Seq<char>|
                outcome_text(outcome) == #[trigger] be_err_outcome(self@, value_text),
    {
        match self.actual() {
            Ok(value) => {
                let value_text = debug_text(value);
                let failure = be_err_failure(value_text.as_str());
                proof {
                    assert(outcome_text(Err(failure)) == be_err_outcome(self@, value_text@));
                }
                Err(failure)
            },
            Err(_) => {
                proof {
                    assert(outcome_text(Ok(())) == be_err_outcome(self@, Seq::<char>::empty()));
                }
                Ok(())
            },
        }
    }

    /// Asserts that the Result is Ok.
    ///
    /// Verified callers show that it is. A caller outside the verifier whose
    /// Result is an Err is halted with the message of `try_be_ok`.
    pub fn be_ok(&self)
        requires
            self@ is Ok,
    {
        conclude(self.try_be_ok())
    }

    /// Asserts that the Result is Err.
    ///
    /// Verified callers show that it is. A caller outside the verifier whose
    /// Result is Ok is halted with the message of `try_be_err`.
    pub fn be_err(&self)
        requires
            self@ is Err,
    {
        conclude(self.try_be_err())
    }
}

} // verus!
