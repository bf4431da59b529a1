use crate::core_bool::{be_false_outcome, be_true_outcome};
use crate::core_eq::{eq_failure_text, eq_outcome};
use crate::core_ne::{ne_failure_text, ne_outcome};
use crate::core_option::{be_none_failure_text, be_none_outcome, be_some_outcome};
use crate::core_result::{
    be_err_failure_text,
    be_err_outcome,
    be_ok_failure_text,
    be_ok_outcome,
};
use crate::failure::{embeds, outcome_text, AssertionFailed};
use vstd::laws_eq::obeys_concrete_eq;
use vstd::prelude::*;
use vstd::std_specs::cmp::PartialEqSpec;

verus! {

/// A text that is put together from three parts embeds the middle one.
pub proof fn lemma_embeds_between(before: Seq<char>, part: Seq<char>, after: Seq<char>)
    ensures
        embeds(before + part + after, part),
{
    let text = before + part + after;
    let start = before.len() as int;
    assert(text.subrange(start, start + part.len()) =~= part);
}

/// The message of a failed `eq` embeds both formatted values, the actual one
/// and the expected one.
pub proof fn lemma_eq_failure_text_embeds(actual_text: Seq<char>, expected_text: Seq<char>)
    ensures
        embeds(eq_failure_text(actual_text, expected_text), actual_text),
        embeds(eq_failure_text(actual_text, expected_text), expected_text),
{
    let text = eq_failure_text(actual_text, expected_text);
    let lead = "Expected "@;
    let link = " to equal to "@;
    lemma_embeds_between(lead, actual_text, link + expected_text);
    assert(text =~= lead + actual_text + (link + expected_text));
    lemma_embeds_between(lead + actual_text + link, expected_text, Seq::empty());
    assert(text =~= lead + actual_text + link + expected_text + Seq::empty());
}

/// The message of a failed `ne` embeds both formatted values, the actual one
/// and the expected one.
pub proof fn lemma_ne_failure_text_embeds(actual_text: Seq<char>, expected_text: Seq<char>)
    ensures
        embeds(ne_failure_text(actual_text, expected_text), actual_text),
        embeds(ne_failure_text(actual_text, expected_text), expected_text),
{
    let text = ne_failure_text(actual_text, expected_text);
    let lead = "Expected "@;
    let link = " not to eq equal to "@;
    lemma_embeds_between(lead, actual_text, link + expected_text);
    assert(text =~= lead + actual_text + (link + expected_text));
    lemma_embeds_between(lead + actual_text + link, expected_text, Seq::empty());
    assert(text =~= lead + actual_text + link + expected_text + Seq::empty());
}

/// The message of a failed `be_none` embeds the formatted value that was found,
/// and shows it inside `Some(..)`.
pub proof fn lemma_be_none_failure_text_embeds(value_text: Seq<char>)
    ensures
        embeds(be_none_failure_text(value_text), value_text),
        embeds(be_none_failure_text(value_text), "Some("@ + value_text + ")"@),
{
    let text = be_none_failure_text(value_text);
    let lead = "Expected Option to be None, but got "@;
    lemma_embeds_between(lead + "Some("@, value_text, ")"@);
    assert(text =~= lead + "Some("@ + value_text + ")"@);
    lemma_embeds_between(lead, "Some("@ + value_text + ")"@, Seq::empty());
    assert(text =~= lead + ("Some("@ + value_text + ")"@) + Seq::empty());
}

/// The message of a failed `be_ok` embeds the formatted error that was found,
/// and shows it inside `Err(..)`.
pub proof fn lemma_be_ok_failure_text_embeds(error_text: Seq<char>)
    ensures
        embeds(be_ok_failure_text(error_text), error_text),
        embeds(be_ok_failure_text(error_text), "Err("@ + error_text + ")"@),
{
    let text = be_ok_failure_text(error_text);
    let lead = "Expected Result to be Ok, but got "@;
    lemma_embeds_between(lead + "Err("@, error_text, ")"@);
    assert(text =~= lead + "Err("@ + error_text + ")"@);
    lemma_embeds_between(lead, "Err("@ + error_text + ")"@, Seq::empty());
    assert(text =~= lead + ("Err("@ + error_text + ")"@) + Seq::empty());
}

/// The message of a failed `be_err` embeds the formatted value that was found,
/// and shows it inside `Ok(..)`.
pub proof fn lemma_be_err_failure_text_embeds(value_text: Seq<char>)
    ensures
        embeds(be_err_failure_text(value_text), value_text),
        embeds(be_err_failure_text(value_text), "Ok("@ + value_text + ")"@),
{
    let text = be_err_failure_text(value_text);
    let lead = "Expected Result to be Err, but got "@;
    lemma_embeds_between(lead + "Ok("@, value_text, ")"@);
    assert(text =~= lead + "Ok("@ + value_text + ")"@);
    lemma_embeds_between(lead, "Ok("@ + value_text + ")"@, Seq::empty());
    assert(text =~= lead + ("Ok("@ + value_text + ")"@) + Seq::empty());
}

/// The messages that hold no formatted text of their own still tell what was
/// found: `false` for a failed `be_true`, `true` for a failed `be_false`, and
/// `None` for a failed `be_some`.
pub proof fn lemma_fixed_failure_texts_embed()
    ensures
        be_true_outcome(false) matches Some(text) && embeds(text, "false"@),
        be_false_outcome(true) matches Some(text) && embeds(text, "true"@),
        be_some_outcome(None::<()>) matches Some(text) && embeds(text, "None"@),
{
    let after_lead: int = 9;
    reveal_strlit("Expected false to be true");
    reveal_strlit("false");
    assert("Expected false to be true"@.subrange(after_lead, after_lead + "false"@.len())
        =~= "false"@);
    reveal_strlit("Expected true to be false");
    reveal_strlit("true");
    assert("Expected true to be false"@.subrange(after_lead, after_lead + "true"@.len())
        =~= "true"@);
    let at_end: int = 36;
    reveal_strlit("Expected Option to be Some, but got None");
    reveal_strlit("None");
    assert("Expected Option to be Some, but got None"@.subrange(at_end, at_end + "None"@.len())
        =~= "None"@);
}

/// Reflexivity: a value that its type's equality relates to itself passes `eq`
/// against itself and fails `ne` against itself, however it is formatted.
pub proof fn lemma_same_value<T: PartialEq>(
    value: T,
    actual_text: Seq<char>,
    expected_text: Seq<char>,
)
    requires
        value.eq_spec(&value),
    ensures
        eq_outcome(value, value, actual_text, expected_text) is None,
        ne_outcome(value, value, actual_text, expected_text) == Some(
            ne_failure_text(actual_text, expected_text),
        ),
{
}

/// Reflexivity, for a type whose equality is that of its values: every value
/// passes `eq` against itself and fails `ne` against itself.
pub proof fn lemma_same_value_concrete<T: PartialEq>(
    value: T,
    actual_text: Seq<char>,
    expected_text: Seq<char>,
)
    requires
        obeys_concrete_eq::<T>(),
    ensures
        eq_outcome(value, value, actual_text, expected_text) is None,
        ne_outcome(value, value, actual_text, expected_text) is Some,
{
    reveal(obeys_concrete_eq);
}

/// Two values that their type's equality tells apart fail `eq`, with a message
/// that embeds both formatted values, and pass `ne`.
pub proof fn lemma_different_values<T: PartialEq>(
    actual: T,
    expected: T,
    actual_text: Seq<char>,
    expected_text: Seq<char>,
)
    requires
        !actual.eq_spec(&expected),
    ensures
        eq_outcome(actual, expected, actual_text, expected_text) == Some(
            eq_failure_text(actual_text, expected_text),
        ),
        embeds(eq_failure_text(actual_text, expected_text), actual_text),
        embeds(eq_failure_text(actual_text, expected_text), expected_text),
        ne_outcome(actual, expected, actual_text, expected_text) is None,
{
    lemma_eq_failure_text_embeds(actual_text, expected_text);
}

/// Repeating `be_true`, or `be_false`, on an unchanged subject repeats the
/// outcome: two results of one of them on `subject` pass together, or fail with
/// one message.
pub proof fn lemma_bool_repeats(
    subject: bool,
    first: Result<(), AssertionFailed>,
    second: Result<(), AssertionFailed>,
)
    requires
        ({
            &&& outcome_text(first) == be_true_outcome(subject)
            &&& outcome_text(second) == be_true_outcome(subject)
        }) || ({
            &&& outcome_text(first) == be_false_outcome(subject)
            &&& outcome_text(second) == be_false_outcome(subject)
        }),
    ensures
        outcome_text(first) == outcome_text(second),
{
}

/// Repeating `eq` or `ne` on unchanged values repeats the outcome: whether it
/// passes does not depend on how the values are formatted, and with the same
/// formatted values the message is the same too.
pub proof fn lemma_equality_repeats<T: PartialEq>(
    actual: T,
    expected: T,
    first_texts: (Seq<char>, Seq<char>),
    second_texts: (Seq<char>, Seq<char>),
)
    ensures
        eq_outcome(actual, expected, first_texts.0, first_texts.1) is None <==> eq_outcome(
            actual,
            expected,
            second_texts.0,
            second_texts.1,
        ) is None,
        ne_outcome(actual, expected, first_texts.0, first_texts.1) is None <==> ne_outcome(
            actual,
            expected,
            second_texts.0,
            second_texts.1,
        ) is None,
        first_texts == second_texts ==> eq_outcome(actual, expected, first_texts.0, first_texts.1)
            == eq_outcome(actual, expected, second_texts.0, second_texts.1),
        first_texts == second_texts ==> ne_outcome(actual, expected, first_texts.0, first_texts.1)
            == ne_outcome(actual, expected, second_texts.0, second_texts.1),
{
}

/// Repeating `be_some` on an unchanged subject repeats the outcome: two results
/// of it on `subject` pass together, or fail with one message.
pub proof fn lemma_be_some_repeats<T>(
    subject: Option<T>,
    first: Result<(), AssertionFailed>,
    second: Result<(), AssertionFailed>,
)
    requires
        outcome_text(first) == be_some_outcome(subject),
        outcome_text(second) == be_some_outcome(subject),
    ensures
        outcome_text(first) == outcome_text(second),
{
}

/// Repeating `be_none` on an unchanged subject repeats the outcome: whether it
/// passes does not depend on how the value is formatted, and with the same
/// formatted value the message is the same too.
pub proof fn lemma_be_none_repeats<T>(
    subject: Option<T>,
    first_text: Seq<char>,
    second_text: Seq<char>,
)
    ensures
        be_none_outcome(subject, first_text) is None <==> be_none_outcome(
            subject,
            second_text,
        ) is None,
        first_text == second_text ==> be_none_outcome(subject, first_text) == be_none_outcome(
            subject,
            second_text,
        ),
{
}

/// Repeating `be_ok` or `be_err` on an unchanged subject repeats the outcome:
/// whether it passes does not depend on how the value or the error is
/// formatted, and with the same formatted text the message is the same too.
pub proof fn lemma_result_repeats<T, E>(
    subject: Result<T, E>,
    first_text: Seq<char>,
    second_text: Seq<char>,
)
    ensures
        be_ok_outcome(subject, first_text) is None <==> be_ok_outcome(subject, second_text) is None,
        be_err_outcome(subject, first_text) is None <==> be_err_outcome(
            subject,
            second_text,
        ) is None,
        first_text == second_text ==> be_ok_outcome(subject, first_text) == be_ok_outcome(
            subject,
            second_text,
        ),
        first_text == second_text ==> be_err_outcome(subject, first_text) == be_err_outcome(
            subject,
            second_text,
        ),
{
}

} // verus!
