//! Branch-prediction hint.

use vstd::prelude::*;

verus! {

/// Marks `exp` as the branch that is rarely taken.
///
/// The value is handed back unchanged: the hint may move where the cold path
/// ends up in the generated code, never which path is taken.
#[inline(always)]
pub fn unlikely(exp: bool) -> (hinted: bool)
    ensures
        hinted == exp,
{
    exp
}

} // verus!
