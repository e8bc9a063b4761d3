//! The iterator protocol: null means absence.
//!
//! The host runtime answers "get the iterator of this object" and "pull the
//! next element" with a handle, and with the null handle when there is
//! nothing to give: the object is not iterable, the iterator is exhausted, or
//! the call failed. Here that convention is turned into an `Option`, once.
//! Whether a pending error came with the null handle is for the caller to ask
//! the runtime.

use vstd::prelude::*;

use crate::abi::{EntryPoint, ForeignCall};
use crate::handle::ObjectHandle;
use crate::hint::unlikely;

verus! {

/// What an answer of the host runtime stands for: nothing if it is the null
/// handle, else the object that it refers to.
pub open spec fn present(answer: ObjectHandle) -> Option<ObjectHandle> {
    if answer.is_null() {
        None
    } else {
        Some(answer)
    }
}

/// The crossing that pulls the next element from `iter`.
pub fn iter_next_call(iter: ObjectHandle) -> (call: ForeignCall)
    ensures
        call.entry_point() == EntryPoint::PyIterNext,
        call@ == seq![iter],
{
    let mut args: Vec<ObjectHandle> = Vec::new();
    args.push(iter);
    ForeignCall::accepted(EntryPoint::PyIterNext, args)
}

/// Reads the runtime's answer to a pull: the element, or `None` when the
/// answer is the null handle.
#[inline(always)]
pub fn iter_next(elem: ObjectHandle) -> (next: Option<ObjectHandle>)
    ensures
        next == present(elem),
{
    if unlikely(elem.is_null()) {
        None
    } else {
        Some(elem)
    }
}

/// The crossing that asks for the iterator of `obj`.
pub fn get_iter_call(obj: ObjectHandle) -> (call: ForeignCall)
    ensures
        call.entry_point() == EntryPoint::PyObjectGetIter,
        call@ == seq![obj],
{
    let mut args: Vec<ObjectHandle> = Vec::new();
    args.push(obj);
    ForeignCall::accepted(EntryPoint::PyObjectGetIter, args)
}

/// Reads the runtime's answer to a request for an iterator: the iterator, or
/// `None` when the answer is the null handle, as it is for an object that
/// cannot be iterated.
#[inline(always)]
pub fn get_iter(iter: ObjectHandle) -> (iterator: Option<ObjectHandle>)
    ensures
        iterator == present(iter),
{
    if unlikely(iter.is_null()) {
        None
    } else {
        Some(iter)
    }
}

/// The answers of an iterator that yields `n` elements and is exhausted from
/// then on: `n` handles of objects, then null handles only.
pub open spec fn yields_then_exhausted(answers: Seq<ObjectHandle>, n: nat) -> bool {
    &&& n <= answers.len()
    &&& forall|i: int| 0 <= i < n ==> !(#[trigger] answers[i]).is_null()
    &&& forall|i: int| n <= i < answers.len() ==> (#[trigger] answers[i]).is_null()
}

/// Pulling from an iterator that yields `n` elements gives those `n`
/// elements, each present and in the order in which the runtime gave them,
/// then absence, and absence again for every further pull.
pub proof fn lemma_pulls_follow_the_iterator(answers: Seq<ObjectHandle>, n: nat)
    requires
        yields_then_exhausted(answers, n),
    ensures
        forall|i: int| 0 <= i < n ==> present(#[trigger] answers[i]) == Some(answers[i]),
        forall|i: int| n <= i < answers.len() ==> present(#[trigger] answers[i]) is None,
{
}

} // verus!
