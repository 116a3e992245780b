//! Typed handles to loaded assets.
use vstd::prelude::*;

use crate::propellant::assets::Asset;

verus! {

/// Handle to an asset of type `T`: its index in the collection it was
/// loaded into.
pub struct AssetHandle<T: Asset> {
    _m: std::marker::PhantomData<T>,
    id: usize,
}

impl<T: Asset> AssetHandle<T> {
    /// The index of the asset.
    pub closed spec fn spec_id(&self) -> nat {
        self.id as nat
    }

    pub fn new(id: usize) -> (handle: Self)
        ensures
            handle.spec_id() == id,
    {
        AssetHandle { _m: std::marker::PhantomData, id }
    }

    /// The index of the asset.
    pub fn id(&self) -> (id: usize)
        ensures
            id == self.spec_id(),
    {
        self.id
    }
}

} // verus!
