//! Sequences of checkable values: arrays and vectors.
//!
//! A sequence is checked from the left and the first element that fails
//! decides: its error is the error of the whole sequence, and nothing to its
//! right is looked at. A sequence with no failing element, the empty one
//! among them, is valid.

use crate::capability::Vet;
use vstd::prelude::*;

verus! {

/// Every element of `items` passes validation.
pub open spec fn all_valid<T: Vet>(items: Seq<T>) -> bool {
    forall|i: int| 0 <= i < items.len() ==> (#[trigger] items[i]).verdict() is Ok
}

/// `i` is the place of the leftmost element of `items` that fails validation.
pub open spec fn first_failure_at<T: Vet>(items: Seq<T>, i: int) -> bool {
    &&& 0 <= i < items.len()
    &&& items[i].verdict() is Err
    &&& forall|j: int| 0 <= j < i ==> (#[trigger] items[j]).verdict() is Ok
}

/// The verdict on a whole sequence: success where every element passes, else
/// the verdict on the leftmost element that fails.
pub open spec fn seq_verdict<T: Vet>(items: Seq<T>) -> Result<(), T::Error> {
    if all_valid(items) {
        Ok(())
    } else {
        items[choose|i: int| first_failure_at(items, i)].verdict()
    }
}

/// Where the element at `n` fails, some element at or before `n` is the
/// leftmost one that fails.
proof fn lemma_failure_has_first<T: Vet>(items: Seq<T>, n: int)
    requires
        0 <= n < items.len(),
        items[n].verdict() is Err,
    ensures
        exists|i: int| 0 <= i <= n && first_failure_at(items, i),
    decreases n,
{
    if forall|j: int| 0 <= j < n ==> (#[trigger] items[j]).verdict() is Ok {
        assert(first_failure_at(items, n));
    } else {
        let j = choose|j: int| 0 <= j < n && !((#[trigger] items[j]).verdict() is Ok);
        lemma_failure_has_first(items, j);
    }
}

/// A sequence is valid if and only if each of its elements is valid.
pub proof fn lemma_valid_iff_all_valid<T: Vet>(items: Seq<T>)
    ensures
        seq_verdict(items) is Ok <==> all_valid(items),
{
    if !all_valid(items) {
        let n = choose|n: int| 0 <= n < items.len() && !((#[trigger] items[n]).verdict() is Ok);
        lemma_failure_has_first(items, n);
    }
}

/// The empty sequence is valid, whatever the element type.
pub proof fn lemma_empty_is_valid<T: Vet>()
    ensures
        seq_verdict(Seq::<T>::empty()) == Ok::<(), T::Error>(()),
{
}

/// The leftmost failing element decides: the sequence fails with exactly
/// that element's error, whatever stands to its right.
pub proof fn lemma_first_failure_decides<T: Vet>(items: Seq<T>, i: int)
    requires
        first_failure_at(items, i),
    ensures
        seq_verdict(items) == items[i].verdict(),
        seq_verdict(items) is Err,
{
    let k = choose|k: int| first_failure_at(items, k);
    assert(items[k].verdict() is Err);
    assert(k == i) by {
        if k < i {
            assert(items[k].verdict() is Ok);
        }
        if i < k {
            assert(items[i].verdict() is Ok);
        }
    }
}

/// Checks the elements of `items` in order and stops at the first that fails.
fn check_each<T: Vet>(items: &[T]) -> (verdict: Result<(), T::Error>)
    ensures
        verdict == seq_verdict(items@),
{
    let mut i: usize = 0;
    while i < items.len()
        invariant
            i <= items@.len(),
            forall|j: int| 0 <= j < i ==> (#[trigger] items@[j]).verdict() is Ok,
        decreases items@.len() - i,
    {
        match items[i].is_valid() {
            Ok(()) => {},
            Err(e) => {
                proof {
                    lemma_first_failure_decides(items@, i as int);
                }
                return Err(e);
            },
        }
        i += 1;
    }
    Ok(())
}

/// An array of checkable values is checked element by element, from the
/// left. The array of length zero is valid.
impl<T: Vet, const N: usize> Vet for [T; N] {
    type Error = T::Error;

    open spec fn verdict(&self) -> Result<(), T::Error> {
        seq_verdict(self@)
    }

    fn is_valid(&self) -> (verdict: Result<(), T::Error>)
        ensures
            verdict is Ok <==> all_valid(self@),
            forall|i: int| first_failure_at(self@, i) ==> verdict == self@[i].verdict(),
    {
        proof {
            lemma_valid_iff_all_valid(self@);
            assert forall|i: int| first_failure_at(self@, i) implies seq_verdict(self@)
                == self@[i].verdict() by {
                lemma_first_failure_decides(self@, i);
            }
        }
        check_each(self.as_slice())
    }
}

/// A vector of checkable values is checked element by element, from the
/// left. The empty vector is valid.
impl<T: Vet> Vet for Vec<T> {
    type Error = T::Error;

    open spec fn verdict(&self) -> Result<(), T::Error> {
        seq_verdict(self@)
    }

    fn is_valid(&self) -> (verdict: Result<(), T::Error>)
        ensures
            verdict is Ok <==> all_valid(self@),
            forall|i: int| first_failure_at(self@, i) ==> verdict == self@[i].verdict(),
    {
        proof {
            lemma_valid_iff_all_valid(self@);
            assert forall|i: int| first_failure_at(self@, i) implies seq_verdict(self@)
                == self@[i].verdict() by {
                lemma_first_failure_decides(self@, i);
            }
        }
        check_each(self.as_slice())
    }
}

} // verus!
