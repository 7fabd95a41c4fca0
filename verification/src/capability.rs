//! The capability of being checked, and the step from a checked value to a
//! certified one.

use crate::wrapper::Valid;
use vstd::prelude::*;

verus! {

/// What certification makes of `value` once validation has said `verdict`:
/// the wrapper around `value` on success, the same error on failure.
pub open spec fn certify<T, E>(value: T, verdict: Result<(), E>) -> Result<Valid<T>, E> {
    match verdict {
        Ok(_) => Ok(Valid::wrap(value)),
        Err(e) => Err(e),
    }
}

/// A type whose values can be checked for validity.
pub trait Vet {
    /// What a failed check reports.
    type Error;

    /// What validation says of this value: `Ok(())` where it passes, the
    /// error where it fails. An implementation states its rule here, and
    /// `is_valid` has to compute exactly that. Where an implementation leaves
    /// it out, nothing can be proved of the verdict.
    open spec fn verdict(&self) -> Result<(), Self::Error> {
        arbitrary()
    }

    /// Checks this value. The receiver is only inspected.
    fn is_valid(&self) -> (verdict: Result<(), Self::Error>)
        ensures
            verdict == self.verdict(),
    ;

    /// Checks this value and, where it passes, wraps it. The value is
    /// consumed either way: on failure only the error comes back.
    fn vet(self) -> (outcome: Result<Valid<Self>, Self::Error>) where Self: Sized
        ensures
            outcome == certify(self, self.verdict()),
            outcome is Ok <==> self.verdict() is Ok,
            outcome matches Ok(valid) ==> valid@ == self,
            outcome matches Err(e) ==> self.verdict() == Err::<(), Self::Error>(e),
    {
        broadcast use Valid::lemma_wrap_view;

        match self.is_valid() {
            Ok(()) => Ok(Valid::seal(self)),
            Err(e) => Err(e),
        }
    }
}

impl<T: Vet> Valid<T> {
    /// The certificate that a wrapper stands for: the value it holds passes
    /// validation. `vet` hands out only wrappers of which this holds, and
    /// `transpose` keeps it.
    pub open spec fn certified(&self) -> bool {
        self@.verdict() is Ok
    }
}

/// A wrapper that certification hands out holds a value that passes
/// validation.
pub proof fn lemma_vet_certifies<T: Vet>(value: T, valid: Valid<T>)
    requires
        certify(value, value.verdict()) == Ok::<Valid<T>, T::Error>(valid),
    ensures
        valid.certified(),
{
    broadcast use Valid::lemma_wrap_view;

}

/// Unwrapping undoes certification: what `into_inner` gives back, the view
/// of the wrapper, is the value that was certified.
pub proof fn lemma_unwrap_recovers_value<T: Vet>(value: T, valid: Valid<T>)
    requires
        certify(value, value.verdict()) == Ok::<Valid<T>, T::Error>(valid),
    ensures
        valid@ == value,
{
    broadcast use Valid::lemma_wrap_view;

}

} // verus!
