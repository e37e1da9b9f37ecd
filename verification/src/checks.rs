//! Validity checks on the annotated item.

use vstd::prelude::*;

use crate::decl::FnDecl;

verus! {

/// Whether the declaration carries the suspension sugar marker. Only such
/// declarations may be transformed.
pub fn is_async_fn(d: &FnDecl) -> (r: bool)
    ensures
        r == d@.is_async,
{
    d.is_async
}

} // verus!
