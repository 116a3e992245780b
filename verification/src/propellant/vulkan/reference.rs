//! Non-owning references to Vulkan objects.
use vstd::prelude::*;
use vstd::pervasive::cloned;

verus! {

/// Zero cost wrapper to say that the underlying Vulkan object is not owned
/// here: it must not be destroyed through this value.
#[derive(Debug)]
pub struct VkRef<T>(T);

impl<T> VkRef<T> {
    /// The referenced value.
    pub closed spec fn spec_inner(&self) -> T {
        self.0
    }

    /// The referenced value.
    pub fn get(&self) -> (inner: &T)
        ensures
            *inner == self.spec_inner(),
    {
        &self.0
    }
}

impl<T: Clone> VkRef<T> {
    /// A non-owning copy of the handle `t`.
    pub fn shared(t: &T) -> (r: VkRef<T>)
        ensures
            cloned(*t, r.spec_inner()),
    {
        VkRef(t.clone())
    }
}

} // verus!
