use vstd::prelude::*;

verus! {

/// A wrapper type that provides fluent-style assertions for a given value.
///
/// Constructed using the [`Shouldable::should`] method. It borrows its subject,
/// holds nothing else, and is never mutated.
pub struct Should<'a, T> {
    actual: &'a T,
}

impl<'a, T> View for Should<'a, T> {
    type V = T;

    /// The subject that the wrapper refers to.
    closed spec fn view(&self) -> T {
        *self.actual
    }
}

impl<'a, T> Should<'a, T> {
    /// Returns a reference to the underlying value.
    ///
    /// This can be useful for writing custom assertions or debugging.
    pub fn actual(&self) -> (subject: &T)
        ensures
            *subject == self@,
    {
        self.actual
    }
}

/// A trait implemented for all types to enable fluent assertions using [`Should<T>`].
///
/// Call `.should()` on any value to access fluent assertion methods.
pub trait Shouldable<T> {
    fn should(&self) -> Should<'_, T>;
}

impl<T> Shouldable<T> for T {
    fn should(&self) -> (wrapper: Should<'_, T>)
        ensures
            wrapper@ == *self,
    {
        Should { actual: self }
    }
}

} // verus!
