//! The crossing point: every call into the host runtime, as a value.
//!
//! A [`ForeignCall`] names an entry point of the runtime and the argument
//! handles to pass to it. The other modules build such values; the embedding
//! code performs them at a single place and hands the raw result handle back.

use vstd::prelude::*;

use crate::handle::ObjectHandle;

verus! {

/// The entry points of the host runtime that this layer goes through.
#[derive(Clone, Copy, Debug, PartialEq, Eq, Structural, Hash)]
pub enum EntryPoint {
    /// `PyObject_GetIter(obj)`: the iterator of an object.
    PyObjectGetIter,
    /// `PyIter_Next(iter)`: the next element of an iterator.
    PyIterNext,
    /// `PyObject_CallMethodNoArgs(obj, name)`.
    PyObjectCallMethodNoArgs,
    /// `PyObject_CallMethodOneArg(obj, name, arg)`.
    PyObjectCallMethodOneArg,
    /// `PyObject_CallMethodObjArgs(obj, name, ..., NULL)`: variadic, the
    /// arguments end at the first null handle.
    PyObjectCallMethodObjArgs,
}

/// The most argument handles that one crossing carries.
pub const MAX_ARGS: usize = 4;

impl EntryPoint {
    /// Whether the entry point may be called with the argument list `args`.
    ///
    /// The fixed entry points take exactly their parameters, and the
    /// one-argument method call rejects a null argument. The variadic entry
    /// point takes the receiver, the method name and a list that is closed by
    /// a null handle, with no more than [`MAX_ARGS`] handles in all.
    pub open spec fn accepts(self, args: Seq<ObjectHandle>) -> bool {
        match self {
            EntryPoint::PyObjectGetIter => args.len() == 1,
            EntryPoint::PyIterNext => args.len() == 1,
            EntryPoint::PyObjectCallMethodNoArgs => args.len() == 2,
            EntryPoint::PyObjectCallMethodOneArg => args.len() == 3 && !args[2].is_null(),
            EntryPoint::PyObjectCallMethodObjArgs => {
                &&& 3 <= args.len() <= MAX_ARGS
                &&& args[args.len() - 1].is_null()
            },
        }
    }

    /// Whatever an entry point accepts is a list of one to [`MAX_ARGS`]
    /// handles.
    pub proof fn lemma_accepted_is_bounded(self, args: Seq<ObjectHandle>)
        requires
            self.accepts(args),
        ensures
            1 <= args.len() <= MAX_ARGS,
    {
    }
}

/// One crossing into the host runtime: an entry point and its arguments.
///
/// A value of this type always holds an argument list that its entry point
/// accepts.
#[derive(Debug, PartialEq, Eq)]
pub struct ForeignCall {
    entry: EntryPoint,
    args: Vec<ObjectHandle>,
}

impl View for ForeignCall {
    type V = Seq<ObjectHandle>;

    /// The argument handles, in the order in which they are passed.
    closed spec fn view(&self) -> Seq<ObjectHandle> {
        self.args@
    }
}

impl ForeignCall {
    #[verifier::type_invariant]
    spec fn well_formed(self) -> bool {
        self.entry.accepts(self.args@)
    }

    /// The entry point that the call goes to.
    pub closed spec fn entry_point(self) -> EntryPoint {
        self.entry
    }

    /// A call of `entry` with `args`, if `entry` accepts them.
    pub fn new(entry: EntryPoint, args: Vec<ObjectHandle>) -> (call: Option<ForeignCall>)
        ensures
            call is Some <==> entry.accepts(args@),
            call matches Some(c) ==> c.entry_point() == entry && c@ == args@,
    {
        let n: usize = args.len();
        let accepted = match entry {
            EntryPoint::PyObjectGetIter => n == 1,
            EntryPoint::PyIterNext => n == 1,
            EntryPoint::PyObjectCallMethodNoArgs => n == 2,
            EntryPoint::PyObjectCallMethodOneArg => n == 3 && !args[2].is_null(),
            EntryPoint::PyObjectCallMethodObjArgs => 3 <= n && n <= MAX_ARGS && args[n - 1].is_null(),
        };
        if accepted {
            Some(ForeignCall::accepted(entry, args))
        } else {
            None
        }
    }

    /// A call of `entry` with `args`, which `entry` is known to accept.
    pub(crate) fn accepted(entry: EntryPoint, args: Vec<ObjectHandle>) -> (call: ForeignCall)
        requires
            entry.accepts(args@),
        ensures
            call.entry_point() == entry,
            call@ == args@,
    {
        ForeignCall { entry, args }
    }

    /// The entry point that the call goes to.
    pub fn entry(&self) -> (entry: EntryPoint)
        ensures
            entry == self.entry_point(),
    {
        self.entry
    }

    /// The argument handles, in the order in which they are passed. Their
    /// entry point accepts them, so there are at most [`MAX_ARGS`].
    pub fn args(&self) -> (args: &Vec<ObjectHandle>)
        ensures
            args@ == self@,
            self.entry_point().accepts(args@),
            1 <= args.len() <= MAX_ARGS,
    {
        proof {
            use_type_invariant(self);
        }
        &self.args
    }
}

} // verus!
