//! The wrapper that marks a value as checked.

use vstd::prelude::*;

verus! {

/// A value that validation has accepted.
///
/// The field is private and nothing hands out a mutable path to it, so what
/// was checked is what stays inside. Executable code gets a wrapper only from
/// [`Vet::vet`](crate::capability::Vet::vet) and from
/// [`transpose`](Valid::transpose).
///
/// The view of a wrapper is the value it holds.
#[derive(Clone, Copy, Debug, Eq, Hash, Ord, PartialEq, PartialOrd)]
pub struct Valid<T>(T);

impl<T> View for Valid<T> {
    type V = T;

    closed spec fn view(&self) -> T {
        self.0
    }
}

impl<T> Valid<T> {
    /// The wrapper around `value`, as a ghost value for use in contracts.
    pub closed spec fn wrap(value: T) -> Self {
        Valid(value)
    }

    /// The wrapper around `value` holds `value`.
    pub broadcast proof fn lemma_wrap_view(value: T)
        ensures
            (#[trigger] Self::wrap(value))@ == value,
    {
    }

    /// Puts `value` in a wrapper without checking it. Only for callers inside
    /// this crate that have the check's result in hand.
    pub(crate) fn seal(value: T) -> (sealed: Self)
        ensures
            sealed == Self::wrap(value),
    {
        Valid(value)
    }

    /// Consumes the wrapper and gives back the value it held. The value
    /// leaves without its certificate.
    pub fn into_inner(self) -> (value: T)
        ensures
            value == self@,
    {
        self.0
    }
}

impl<T> core::ops::Deref for Valid<T> {
    type Target = T;

    /// Read-only access to the held value.
    fn deref(&self) -> (value: &T)
        ensures
            *value == self@,
    {
        &self.0
    }
}

} // verus!
