//! Handles to values that several owners share.

use std::rc::Rc;
use vstd::prelude::*;

verus! {

/// Another handle to the same shared value, by `Rc::clone` of the
/// standard library: the new handle equals the old one.
#[verifier::external_body]
pub(crate) fn share<T: ?Sized>(handle: &Rc<T>) -> (shared: Rc<T>)
    ensures
        shared == *handle,
{
    Rc::clone(handle)
}

} // verus!
