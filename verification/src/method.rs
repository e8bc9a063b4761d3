//! Method invocation, for either generation of the host runtime's ABI.
//!
//! Newer runtimes offer one entry point for a call without arguments and one
//! for a call with a single argument. Older ones offer only the variadic
//! entry point, whose argument list is closed by a null handle. Which of the
//! two is used is settled once, when the embedding code is built; the caller
//! of [`call_method`] asks for the same method call either way.

use vstd::prelude::*;

use crate::abi::{EntryPoint, ForeignCall};
use crate::handle::{NonNullHandle, ObjectHandle};

verus! {

/// The generation of the method-call ABI that the build targets.
#[derive(Clone, Copy, Debug, PartialEq, Eq, Structural, Hash)]
pub enum MethodAbi {
    /// The dedicated entry points for no argument and for one argument.
    FastPath,
    /// The variadic entry point, closed by a null handle.
    Variadic,
}

/// The entry point and the argument list by which `abi` calls the method
/// `name` of `obj`, with `arg` as its only argument if there is one.
pub open spec fn method_crossing(
    abi: MethodAbi,
    obj: ObjectHandle,
    name: ObjectHandle,
    arg: Option<ObjectHandle>,
) -> (EntryPoint, Seq<ObjectHandle>) {
    let null = ObjectHandle::null();
    match (abi, arg) {
        (MethodAbi::FastPath, None) => (EntryPoint::PyObjectCallMethodNoArgs, seq![obj, name]),
        (MethodAbi::FastPath, Some(a)) => (EntryPoint::PyObjectCallMethodOneArg, seq![obj, name, a]),
        (MethodAbi::Variadic, None) => (EntryPoint::PyObjectCallMethodObjArgs, seq![obj, name, null]),
        (MethodAbi::Variadic, Some(a)) => (
            EntryPoint::PyObjectCallMethodObjArgs,
            seq![obj, name, a, null],
        ),
    }
}

/// The handle of an optional non-null handle.
pub open spec fn plain(arg: Option<NonNullHandle>) -> Option<ObjectHandle> {
    match arg {
        Some(a) => Some(a@),
        None => None,
    }
}

/// The crossing that calls the method `name` of `obj`, with `arg` as its only
/// argument if there is one, through the entry points of `abi`.
///
/// The result handle of the crossing is the method's result, or the null
/// handle if the call failed; the runtime then holds the pending error.
pub fn call_method(
    abi: MethodAbi,
    obj: ObjectHandle,
    name: ObjectHandle,
    arg: Option<NonNullHandle>,
) -> (call: ForeignCall)
    ensures
        call.entry_point() == method_crossing(abi, obj, name, plain(arg)).0,
        call@ == method_crossing(abi, obj, name, plain(arg)).1,
{
    let mut args: Vec<ObjectHandle> = Vec::new();
    args.push(obj);
    args.push(name);
    match abi {
        MethodAbi::FastPath => match arg {
            None => ForeignCall::accepted(EntryPoint::PyObjectCallMethodNoArgs, args),
            Some(a) => {
                args.push(a.as_handle());
                ForeignCall::accepted(EntryPoint::PyObjectCallMethodOneArg, args)
            },
        },
        MethodAbi::Variadic => {
            match arg {
                None => {},
                Some(a) => {
                    args.push(a.as_handle());
                },
            }
            args.push(ObjectHandle::null());
            ForeignCall::accepted(EntryPoint::PyObjectCallMethodObjArgs, args)
        },
    }
}

/// What the runtime reads from a list that is closed by a null handle: the
/// handles before the first null one.
pub open spec fn until_null(list: Seq<ObjectHandle>) -> Seq<ObjectHandle>
    decreases list.len(),
{
    if list.len() == 0 || list[0].is_null() {
        Seq::empty()
    } else {
        seq![list[0]] + until_null(list.skip(1))
    }
}

/// A method call as the runtime understands it.
pub struct MethodRequest {
    /// The object whose method is called.
    pub receiver: ObjectHandle,
    /// The name of the method.
    pub name: ObjectHandle,
    /// The arguments of the method.
    pub arguments: Seq<ObjectHandle>,
}

/// The method call that the runtime carries out for a crossing to one of the
/// three method entry points.
pub open spec fn requested(entry: EntryPoint, args: Seq<ObjectHandle>) -> MethodRequest
    recommends
        entry.accepts(args),
        entry != EntryPoint::PyObjectGetIter,
        entry != EntryPoint::PyIterNext,
{
    MethodRequest {
        receiver: args[0],
        name: args[1],
        arguments: if entry == EntryPoint::PyObjectCallMethodObjArgs {
            until_null(args.skip(2))
        } else {
            args.skip(2)
        },
    }
}

/// Both generations of the ABI ask the runtime for the same method call: the
/// same receiver, the same name, the same arguments. The argument, if there
/// is one, is not null.
pub proof fn lemma_abis_request_the_same_call(
    obj: ObjectHandle,
    name: ObjectHandle,
    arg: Option<ObjectHandle>,
)
    requires
        arg matches Some(a) ==> !a.is_null(),
    ensures
        ({
            let fast = method_crossing(MethodAbi::FastPath, obj, name, arg);
            let variadic = method_crossing(MethodAbi::Variadic, obj, name, arg);
            &&& fast.0.accepts(fast.1)
            &&& variadic.0.accepts(variadic.1)
            &&& requested(fast.0, fast.1) == requested(variadic.0, variadic.1)
            &&& requested(fast.0, fast.1) == (MethodRequest {
                receiver: obj,
                name: name,
                arguments: match arg {
                    Some(a) => seq![a],
                    None => Seq::empty(),
                },
            })
        }),
{
    let null = ObjectHandle::null();
    let fast = method_crossing(MethodAbi::FastPath, obj, name, arg);
    let variadic = method_crossing(MethodAbi::Variadic, obj, name, arg);
    match arg {
        None => {
            assert(variadic.1.skip(2) =~= seq![null]);
            assert(until_null(seq![null]) =~= Seq::empty());
            assert(fast.1.skip(2) =~= Seq::empty());
        },
        Some(a) => {
            assert(variadic.1.skip(2) =~= seq![a, null]);
            assert(seq![a, null].skip(1) =~= seq![null]);
            assert(until_null(seq![null]) =~= Seq::empty());
            assert(until_null(seq![a, null]) =~= seq![a]);
            assert(fast.1.skip(2) =~= seq![a]);
        },
    }
}

} // verus!
