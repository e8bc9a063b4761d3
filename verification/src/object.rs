//! The header of a host object: its reference count and its type.

use vstd::prelude::*;

use crate::handle::ObjectHandle;

verus! {

/// The head that every object of the host runtime starts with, as plain
/// values: the count of references that keep the object alive, and the handle
/// of its type.
#[derive(Clone, Copy, Debug, PartialEq, Eq, Structural, Hash)]
pub struct ObjectHeader {
    /// How many references keep the object alive.
    pub ob_refcnt: isize,
    /// The descriptor of the object's type.
    pub ob_type: ObjectHandle,
}

impl ObjectHeader {
    /// The header of a live, well-formed object: somebody holds a reference
    /// to it, and it has a type.
    pub open spec fn well_formed(self) -> bool {
        &&& self.ob_refcnt >= 1
        &&& !self.ob_type.is_null()
    }

    /// Whether one reference can be given back with another one left.
    pub open spec fn spec_is_shared(self) -> bool {
        self.ob_refcnt >= 2
    }

    /// Whether this is the header of a live, well-formed object.
    #[verifier::when_used_as_spec(well_formed)]
    pub fn is_well_formed(self) -> (ok: bool)
        ensures
            ok == self.well_formed(),
    {
        self.ob_refcnt >= 1 && !self.ob_type.is_null()
    }

    /// Whether one reference can be given back with another one left: the
    /// condition under which [`py_decref_without_destroy`] may be called.
    #[verifier::when_used_as_spec(spec_is_shared)]
    pub fn is_shared(self) -> (shared: bool)
        ensures
            shared == self.spec_is_shared(),
    {
        self.ob_refcnt >= 2
    }
}

/// Type extraction: the descriptor of the type of a live, well-formed object.
#[inline(always)]
pub fn ob_type(obj: &ObjectHeader) -> (descriptor: ObjectHandle)
    requires
        obj.well_formed(),
    ensures
        descriptor == obj.ob_type,
        !descriptor.is_null(),
{
    obj.ob_type
}

/// Gives one reference back without ever destroying the object.
///
/// The caller guarantees that another owner still holds a reference: the
/// count is at least two. It goes down by one and stays positive, so the
/// object lives on and the runtime's destruction path is not entered. The
/// type is left as it was.
#[inline(always)]
pub fn py_decref_without_destroy(op: &mut ObjectHeader)
    requires
        old(op).is_shared(),
    ensures
        final(op).ob_refcnt == old(op).ob_refcnt - 1,
        final(op).ob_refcnt >= 1,
        final(op).ob_type == old(op).ob_type,
        old(op).well_formed() ==> final(op).well_formed(),
{
    op.ob_refcnt = op.ob_refcnt - 1;
}

} // verus!
