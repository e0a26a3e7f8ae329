//! Non-owning wrappers for foreign-owned resources.
//!
//! The swapchain's GPU textures are views over memory that belongs to
//! the graphics driver and the XR runtime. The store must therefore
//! never request deallocation of that memory: dropping its bookkeeping
//! must not run the wrapped value's destructor. [`NonOwned`] makes that
//! a fact of the type by holding the value inside
//! `core::mem::ManuallyDrop`, whose destructor the compiler never runs,
//! so teardown frees the wrapper alone — by construction, not by a
//! leak worked in at drop time.

use vstd::prelude::*;
use core::mem::ManuallyDrop;

verus! {

/// A value held without ownership of its destructor: dropping the
/// wrapper never drops the wrapped value.
pub struct NonOwned<T> {
    raw: ManuallyDrop<T>,
}

impl<T> NonOwned<T> {
    /// The wrapped value.
    pub closed spec fn value(self) -> T {
        self.raw@
    }

    /// Wrap `value`. From here on no destructor will ever run for it.
    pub fn new(value: T) -> (r: NonOwned<T>)
        ensures
            r.value() == value,
    {
        NonOwned { raw: ManuallyDrop::new(value) }
    }

    /// Borrow the wrapped value.
    pub fn get(&self) -> (r: &T)
        ensures
            *r == self.value(),
    {
        &self.raw
    }
}

} // verus!
