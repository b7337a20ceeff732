//! Shared-ownership handles that can be duplicated without cloning what
//! they point at.
use std::rc::Rc;
use std::sync::Arc;

use vstd::prelude::*;

verus! {

/// A handle that more than one owner can hold: `share` hands out another
/// handle to the same value.
pub trait Share: Sized {
    /// Returns a new handle to the same value.
    fn share(&self) -> (r: Self)
        ensures
            r == *self,
    ;
}

impl<T> Share for Rc<T> {
    fn share(&self) -> (r: Self)
        ensures
            r == *self,
    {
        Rc::clone(self)
    }
}

impl<T> Share for Arc<T> {
    fn share(&self) -> (r: Self)
        ensures
            r == *self,
    {
        Arc::clone(self)
    }
}

} // verus!
