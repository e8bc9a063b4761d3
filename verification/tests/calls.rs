use pyobject_util::{call_method, nonnull};
use pyobject_util::{EntryPoint, ForeignCall, MethodAbi, ObjectHandle, MAX_ARGS};

fn receiver() -> ObjectHandle {
    ObjectHandle::from_addr(0x1000)
}

fn name() -> ObjectHandle {
    ObjectHandle::from_addr(0x2000)
}

fn argument() -> ObjectHandle {
    ObjectHandle::from_addr(0x3000)
}

/// The arguments of a method call as the runtime reads them.
fn arguments_read(call: &ForeignCall) -> Vec<ObjectHandle> {
    let rest = &call.args()[2..];
    match call.entry() {
        EntryPoint::PyObjectCallMethodObjArgs => {
            rest.iter().copied().take_while(|h| !h.is_null()).collect()
        }
        _ => rest.to_vec(),
    }
}

#[test]
fn fast_path_without_argument() {
    let call = call_method(MethodAbi::FastPath, receiver(), name(), None);
    assert_eq!(call.entry(), EntryPoint::PyObjectCallMethodNoArgs);
    assert_eq!(call.args(), &vec![receiver(), name()]);
}

#[test]
fn fast_path_with_one_argument() {
    let call = call_method(MethodAbi::FastPath, receiver(), name(), Some(nonnull(argument())));
    assert_eq!(call.entry(), EntryPoint::PyObjectCallMethodOneArg);
    assert_eq!(call.args(), &vec![receiver(), name(), argument()]);
}

#[test]
fn variadic_without_argument_ends_with_null() {
    let call = call_method(MethodAbi::Variadic, receiver(), name(), None);
    assert_eq!(call.entry(), EntryPoint::PyObjectCallMethodObjArgs);
    assert_eq!(call.args(), &vec![receiver(), name(), ObjectHandle::null()]);
}

#[test]
fn variadic_with_one_argument_ends_with_null() {
    let call = call_method(MethodAbi::Variadic, receiver(), name(), Some(nonnull(argument())));
    assert_eq!(call.entry(), EntryPoint::PyObjectCallMethodObjArgs);
    assert_eq!(call.args(), &vec![receiver(), name(), argument(), ObjectHandle::null()]);
}

#[test]
fn both_abis_ask_for_the_same_call() {
    for arg in [None, Some(nonnull(argument()))] {
        let fast = call_method(MethodAbi::FastPath, receiver(), name(), arg);
        let variadic = call_method(MethodAbi::Variadic, receiver(), name(), arg);
        assert_eq!(fast.args()[0], variadic.args()[0]);
        assert_eq!(fast.args()[1], variadic.args()[1]);
        assert_eq!(arguments_read(&fast), arguments_read(&variadic));
        let expected: Vec<ObjectHandle> = arg.iter().map(|a| a.as_handle()).collect();
        assert_eq!(arguments_read(&fast), expected);
    }
}

#[test]
fn every_call_carries_at_most_four_handles() {
    for abi in [MethodAbi::FastPath, MethodAbi::Variadic] {
        for arg in [None, Some(nonnull(argument()))] {
            let call = call_method(abi, receiver(), name(), arg);
            assert!(1 <= call.args().len() && call.args().len() <= MAX_ARGS);
        }
    }
    assert_eq!(MAX_ARGS, 4);
}

#[test]
fn entry_points_accept_their_exact_parameters() {
    let h = ObjectHandle::from_addr(0x10);
    let null = ObjectHandle::null();
    let cases = vec![
        (EntryPoint::PyObjectGetIter, vec![h]),
        (EntryPoint::PyObjectGetIter, vec![null]),
        (EntryPoint::PyIterNext, vec![h]),
        (EntryPoint::PyObjectCallMethodNoArgs, vec![h, h]),
        (EntryPoint::PyObjectCallMethodOneArg, vec![h, h, h]),
        (EntryPoint::PyObjectCallMethodObjArgs, vec![h, h, null]),
        (EntryPoint::PyObjectCallMethodObjArgs, vec![h, h, h, null]),
        (EntryPoint::PyObjectCallMethodObjArgs, vec![h, h, null, null]),
    ];
    for (entry, args) in cases {
        let call = ForeignCall::new(entry, args.clone()).unwrap();
        assert_eq!(call.entry(), entry);
        assert_eq!(call.args(), &args);
    }
}

#[test]
fn entry_points_reject_other_argument_lists() {
    let h = ObjectHandle::from_addr(0x10);
    let null = ObjectHandle::null();
    let cases = vec![
        (EntryPoint::PyObjectGetIter, vec![]),
        (EntryPoint::PyObjectGetIter, vec![h, h]),
        (EntryPoint::PyIterNext, vec![]),
        (EntryPoint::PyIterNext, vec![h, h]),
        (EntryPoint::PyObjectCallMethodNoArgs, vec![h]),
        (EntryPoint::PyObjectCallMethodNoArgs, vec![h, h, h]),
        (EntryPoint::PyObjectCallMethodOneArg, vec![h, h]),
        (EntryPoint::PyObjectCallMethodOneArg, vec![h, h, null]),
        (EntryPoint::PyObjectCallMethodOneArg, vec![h, h, h, h]),
        (EntryPoint::PyObjectCallMethodObjArgs, vec![h, h]),
        (EntryPoint::PyObjectCallMethodObjArgs, vec![h, null]),
        (EntryPoint::PyObjectCallMethodObjArgs, vec![h, h, h]),
        (EntryPoint::PyObjectCallMethodObjArgs, vec![h, h, h, h]),
        (EntryPoint::PyObjectCallMethodObjArgs, vec![h, h, h, h, null]),
    ];
    for (entry, args) in cases {
        assert_eq!(ForeignCall::new(entry, args), None);
    }
}
