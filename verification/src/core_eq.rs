use crate::failure::{conclude, debug_text, outcome_text, AssertionFailed};
use crate::should::Should;
use std::fmt::Debug;
use vstd::prelude::*;
use vstd::std_specs::cmp::PartialEqSpec;
use vstd::string::*;

verus! {

/// The message of a failed `eq`, given how the actual and the expected value are
/// formatted.
pub open spec fn eq_failure_text(actual_text: Seq<char>, expected_text: Seq<char>) -> Seq<char> {
    "Expected "@ + actual_text + " to equal to "@ + expected_text
}

/// What `eq` comes to on `actual` against `expected`, given how the two are
/// formatted: the type's own equality decides, and the texts only fill the
/// message.
pub open spec fn eq_outcome<T: PartialEq>(
    actual: T,
    expected: T,
    actual_text: Seq<char>,
    expected_text: Seq<char>,
) -> Option<Seq<char>> {
    if actual.eq_spec(&expected) {
        None
    } else {
        Some(eq_failure_text(actual_text, expected_text))
    }
}

/// `text` is the message of a failed `eq` for some pair of formatted values.
pub open spec fn is_eq_failure_text(text: Seq<char>) -> bool {
    exists|actual_text: Seq<char>, expected_text: Seq<char>|
        text == #[trigger] eq_failure_text(actual_text, expected_text)
}

/// The failure of an `eq` whose actual value is formatted as `actual_text` and
/// whose expected value is formatted as `expected_text`.
pub fn eq_failure(actual_text: &str, expected_text: &str) -> (failure: AssertionFailed)
    ensures
        failure@ == eq_failure_text(actual_text@, expected_text@),
{
    let mut message = String::from_str("Expected ");
    message.append(actual_text);
    message.append(" to equal to ");
    message.append(expected_text);
    AssertionFailed { message }
}

impl<'a, T> Should<'a, T> where T: PartialEq + Debug {
    /// Tests that the value is equal to the expected value, and returns the
    /// failure when it is not.
    ///
    /// The test is one call of the type's own `==`, whatever that type is. Where
    /// the type's `==` has a specification, the outcome is `eq_outcome` of the
    /// two values and of the texts that their `Debug` implementation gave.
    pub fn try_eq(&self, expected: &T) -> (outcome: Result<(), AssertionFailed>)
        ensures
            call_ensures(T::eq, (&self@, expected), outcome is Ok),
            T::obeys_eq_spec() ==> exists|actual_text: Seq<char>, expected_text: Seq<char>|
                outcome_text(outcome) == #[trigger] eq_outcome(
                    self@,
                    *expected,
                    actual_text,
                    expected_text,
                ),
            outcome matches Err(failure) ==> is_eq_failure_text(failure@),
    {
        if *self.actual() == *expected {
            proof {
                let nothing = Seq::<char>::empty();
                assert(T::obeys_eq_spec() ==> outcome_text(Ok(())) == eq_outcome(
                    self@,
                    *expected,
                    nothing,
                    nothing,
                ));
            }
            Ok(())
        } else {
            let actual_text = debug_text(self.actual());
            let expected_text = debug_text(expected);
            let failure = eq_failure(actual_text.as_str(), expected_text.as_str());
            proof {
                assert(T::obeys_eq_spec() ==> outcome_text(Err(failure)) == eq_outcome(
                    self@,
                    *expected,
                    actual_text@,
                    expected_text@,
                ));
            }
            Err(failure)
        }
    }

    /// Asserts that the value is equal to the expected value.
    ///
    /// Verified callers show that the type's `==` has a specification and that
    /// it holds of the two values. A caller outside the verifier whose values
    /// differ is halted with the message of `try_eq`.
    pub fn eq(&self, expected: &T)
        requires
            T::obeys_eq_spec(),
            self@.eq_spec(expected),
    {
        conclude(self.try_eq(expected))
    }
}

} // verus!
