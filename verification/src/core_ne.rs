use crate::failure::{conclude, debug_text, outcome_text, AssertionFailed};
use crate::should::Should;
use std::fmt::Debug;
use vstd::prelude::*;
use vstd::std_specs::cmp::PartialEqSpec;
use vstd::string::*;

verus! {

/// The message of a failed `ne`, given how the actual and the expected value are
/// formatted.
pub open spec fn ne_failure_text(actual_text: Seq<char>, expected_text: Seq<char>) -> Seq<char> {
    "Expected "@ + actual_text + " not to eq equal to "@ + expected_text
}

/// What `ne` comes to on `actual` against `expected`, given how the two are
/// formatted: the type's own equality decides, and the texts only fill the
/// message.
pub open spec fn ne_outcome<T: PartialEq>(
    actual: T,
    expected: T,
    actual_text: Seq<char>,
    expected_text: Seq<char>,
) -> Option<Seq<char>> {
    if actual.eq_spec(&expected) {
        Some(ne_failure_text(actual_text, expected_text))
    } else {
        None
    }
}

/// `text` is the message of a failed `ne` for some pair of formatted values.
pub open spec fn is_ne_failure_text(text: Seq<char>) -> bool {
    exists|actual_text: Seq<char>, expected_text: Seq<char>|
        text == #[trigger] ne_failure_text(actual_text, expected_text)
}

/// The failure of an `ne` whose actual value is formatted as `actual_text` and
/// whose expected value is formatted as `expected_text`.
pub fn ne_failure(actual_text: &str, expected_text: &str) -> (failure: AssertionFailed)
    ensures
        failure@ == ne_failure_text(actual_text@, expected_text@),
{
    let mut message = String::from_str("Expected ");
    message.append(actual_text);
    message.append(" not to eq equal to ");
    message.append(expected_text);
    AssertionFailed { message }
}

impl<'a, T> Should<'a, T> where T: PartialEq + Debug {
    /// Tests that the value is not equal to the expected value, and returns
    /// the failure when it is.
    ///
    /// The test is one call of the type's own `==`, whatever that type is. Where
    /// the type's `==` has a specification, the outcome is `ne_outcome` of the
    /// two values and of the texts that their `Debug` implementation gave.
    pub fn try_ne(&self, expected: &T) -> (outcome: Result<(), AssertionFailed>)
        ensures
            call_ensures(T::eq, (&self@, expected), outcome is Err),
            T::obeys_eq_spec() ==> exists|actual_text: Seq<char>, expected_text: Seq<char>|
                outcome_text(outcome) == #[trigger] ne_outcome(
                    self@,
                    *expected,
                    actual_text,
                    expected_text,
                ),
            outcome matches Err(failure) ==> is_ne_failure_text(failure@),
    {
        if *self.actual() == *expected {
            let actual_text = debug_text(self.actual());
            let expected_text = debug_text(expected);
            let failure = ne_failure(actual_text.as_str(), expected_text.as_str());
            proof {
                assert(T::obeys_eq_spec() ==> outcome_text(Err(failure)) == ne_outcome(
                    self@,
                    *expected,
                    actual_text@,
                    expected_text@,
                ));
            }
            Err(failure)
        } else {
            proof {
                let nothing = Seq::<char>::empty();
                assert(T::obeys_eq_spec() ==> outcome_text(Ok(())) == ne_outcome(
                    self@,
                    *expected,
                    nothing,
                    nothing,
                ));
            }
            Ok(())
        }
    }

    /// Asserts that the value is not equal to the expected value.
    ///
    /// Verified callers show that the type's `==` has a specification and that
    /// it does not hold of the two values. A caller outside the verifier whose
    /// values are equal is halted with the message of `try_ne`.
    pub fn ne(&self, expected: &T)
        requires
            T::obeys_eq_spec(),
            !self@.eq_spec(expected),
    {
        conclude(self.try_ne(expected))
    }
}

} // verus!
