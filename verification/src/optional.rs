//! Optional values of a checkable type.

use crate::capability::{certify, Vet};
use crate::wrapper::Valid;
use vstd::prelude::*;

verus! {

/// An absent value is valid; a present one is exactly as valid as the value
/// it holds, and fails with that value's error.
impl<T: Vet> Vet for Option<T> {
    type Error = T::Error;

    open spec fn verdict(&self) -> Result<(), T::Error> {
        match self {
            Some(inner) => inner.verdict(),
            None => Ok(()),
        }
    }

    fn is_valid(&self) -> (verdict: Result<(), T::Error>)
        ensures
            *self is None ==> verdict is Ok,
            *self matches Some(inner) ==> verdict == inner.verdict(),
    {
        match self {
            Some(inner) => inner.is_valid(),
            None => Ok(()),
        }
    }
}

impl<T: Vet> Valid<Option<T>> {
    /// What `transpose` returns: nothing where nothing is held, else the
    /// wrapper around the held value.
    pub open spec fn spec_transpose(self) -> Option<Valid<T>> {
        match self@ {
            Some(inner) => Some(Valid::wrap(inner)),
            None => None,
        }
    }

    /// Moves the certificate from an optional value to the value inside it.
    /// The inner value is not checked again: a present optional is valid
    /// exactly when its content is. This cannot fail.
    pub fn transpose(self) -> (transposed: Option<Valid<T>>)
        ensures
            transposed == self.spec_transpose(),
            transposed is None <==> self@ is None,
            transposed matches Some(valid) ==> self@ == Some(valid@),
            self.certified() ==> (transposed matches Some(valid) ==> valid.certified()),
    {
        broadcast use Valid::lemma_wrap_view;

        match self.into_inner() {
            Some(inner) => Some(Valid::seal(inner)),
            None => None,
        }
    }
}

/// Certifying an optional value and then transposing the wrapper.
pub open spec fn vet_then_transpose<T: Vet>(optional: Option<T>) -> Result<
    Option<Valid<T>>,
    T::Error,
> {
    match certify(optional, optional.verdict()) {
        Ok(valid) => Ok(valid.spec_transpose()),
        Err(e) => Err(e),
    }
}

/// Looking inside the optional value first and certifying what is there.
pub open spec fn vet_inside<T: Vet>(optional: Option<T>) -> Result<Option<Valid<T>>, T::Error> {
    match optional {
        Some(inner) => match certify(inner, inner.verdict()) {
            Ok(valid) => Ok(Some(valid)),
            Err(e) => Err(e),
        },
        None => Ok(None),
    }
}

/// Transposing commutes with certification: to certify an optional value and
/// transpose the wrapper gives what certifying the value inside gives, the
/// same wrapper or the same error.
pub proof fn lemma_transpose_commutes<T: Vet>(optional: Option<T>)
    ensures
        vet_then_transpose(optional) == vet_inside(optional),
{
    broadcast use Valid::lemma_wrap_view;

}

} // verus!
