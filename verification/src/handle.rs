//! Object handles: identity, nullness, and the non-null wrapper.

use vstd::prelude::*;

verus! {

/// An opaque, non-owning reference to an object of the host runtime.
///
/// A handle is the address that the runtime gave out, and nothing else: it
/// cannot be offset or dereferenced here. Address zero is the null handle,
/// which the runtime uses for "no object". A type descriptor is a handle too:
/// the runtime's types are objects of their own.
#[derive(Clone, Copy, Debug, PartialEq, Eq, Structural, Hash)]
pub struct ObjectHandle {
    /// The address of the object, zero for the null handle.
    pub addr: usize,
}

impl View for ObjectHandle {
    type V = nat;

    /// The address of the object that the handle refers to.
    open spec fn view(&self) -> nat {
        self.addr as nat
    }
}

impl ObjectHandle {
    /// Whether this is the null handle.
    pub open spec fn spec_is_null(self) -> bool {
        self@ == 0
    }

    /// The null handle.
    pub open spec fn spec_null() -> Self {
        ObjectHandle { addr: 0 }
    }

    /// The null handle.
    #[verifier::when_used_as_spec(spec_null)]
    pub fn null() -> (handle: Self)
        ensures
            handle == Self::spec_null(),
    {
        ObjectHandle { addr: 0 }
    }

    /// The handle of the object at `addr`.
    pub fn from_addr(addr: usize) -> (handle: Self)
        ensures
            handle == (ObjectHandle { addr }),
    {
        ObjectHandle { addr }
    }

    /// The address that the handle holds.
    pub fn addr(self) -> (addr: usize)
        ensures
            addr == self.addr,
    {
        self.addr
    }

    /// Whether this is the null handle.
    #[verifier::when_used_as_spec(spec_is_null)]
    pub fn is_null(self) -> (null: bool)
        ensures
            null == self.spec_is_null(),
    {
        self.addr == 0
    }
}

/// Identity test: whether two handles refer to the very same object.
///
/// Only the addresses are compared. What the objects hold plays no part: the
/// function never sees it.
#[inline(always)]
pub fn is_type(obj_ptr: ObjectHandle, type_ptr: ObjectHandle) -> (same: bool)
    ensures
        same == (obj_ptr@ == type_ptr@),
        same == (obj_ptr == type_ptr),
{
    obj_ptr.addr == type_ptr.addr
}

/// A handle that is known not to be null.
#[derive(Clone, Copy, Debug, PartialEq, Eq, Hash)]
pub struct NonNullHandle {
    handle: ObjectHandle,
}

impl View for NonNullHandle {
    type V = ObjectHandle;

    /// The handle that is known not to be null.
    closed spec fn view(&self) -> ObjectHandle {
        self.handle
    }
}

impl NonNullHandle {
    #[verifier::type_invariant]
    spec fn holds_an_object(self) -> bool {
        !self.handle.is_null()
    }

    /// The plain handle again. It is not null.
    pub fn as_handle(self) -> (handle: ObjectHandle)
        ensures
            handle == self@,
            !handle.is_null(),
    {
        proof {
            use_type_invariant(&self);
        }
        self.handle
    }
}

/// Records in the type that `handle` is not null.
///
/// Nothing is tested at run time: the caller has established it by other
/// means, for instance right after an allocation that succeeded.
#[inline(always)]
pub fn nonnull(handle: ObjectHandle) -> (checked: NonNullHandle)
    requires
        !handle.is_null(),
    ensures
        checked@ == handle,
{
    NonNullHandle { handle }
}

} // verus!
