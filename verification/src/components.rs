pub mod componentparser;
pub mod componenttypes;
pub mod scriptingcallback;

use vstd::prelude::*;

verus! {

/// A component wrapper that owns one value of its inner type.
pub struct ComponentStorage<T> {
    inner: T,
}

impl<T> ComponentStorage<T> {
    /// The value held by the storage.
    pub closed spec fn inner_value(&self) -> T {
        self.inner
    }

    pub fn new(inner: T) -> (storage: Self)
        ensures
            storage.inner_value() == inner,
    {
        ComponentStorage { inner }
    }
}

} // verus!
