//! A collection of loaded assets of one kind, looked up by name.
use vstd::prelude::*;

use crate::propellant::assets::{Asset, AssetHandle};

verus! {

/// The assets of one kind, in load order. A name refers to the last asset
/// loaded under it.
pub struct AssetCollection<T: Asset> {
    assets: Vec<T>,
}

/// Index of the last asset named `name`, if any.
pub open spec fn last_named<T: Asset>(assets: Seq<T>, name: Seq<char>) -> Option<nat>
    decreases assets.len(),
{
    if assets.len() == 0 {
        None
    } else if assets.last().spec_name() == name {
        Some((assets.len() - 1) as nat)
    } else {
        last_named(assets.drop_last(), name)
    }
}

impl<T: Asset> AssetCollection<T> {
    /// The assets, in load order.
    pub closed spec fn spec_assets(&self) -> Seq<T> {
        self.assets@
    }

    /// Gathers assets loaded in this order.
    pub fn new(assets: Vec<T>) -> (collection: Self)
        ensures
            collection.spec_assets() == assets@,
    {
        AssetCollection { assets }
    }

    /// The number of loaded assets.
    pub fn count(&self) -> (count: usize)
        ensures
            count == self.spec_assets().len(),
    {
        self.assets.len()
    }

    /// A view of all the assets of the collection.
    pub fn assets(&self) -> (assets: &[T])
        ensures
            assets@ == self.spec_assets(),
    {
        self.assets.as_slice()
    }

    /// A mutable view of all the assets of the collection.
    pub fn assets_mut(&mut self) -> (assets: &mut [T])
        ensures
            assets@ == old(self).spec_assets(),
            final(self).spec_assets() == final(assets)@,
    {
        self.assets.as_mut_slice()
    }

    /// The handle of the last asset loaded under `name`, if any.
    pub fn get_handle_from_name(&self, name: &str) -> (handle: Option<AssetHandle<T>>)
        ensures
            handle is Some <==> last_named(self.spec_assets(), name@) is Some,
            handle matches Some(h) ==> Some(h.spec_id()) == last_named(self.spec_assets(), name@),
    {
        let wanted = name.to_owned();
        let mut i = self.assets.len();
        proof {
            assert(self.assets@.take(i as int) =~= self.assets@);
        }
        while i > 0
            invariant
                i <= self.assets@.len(),
                wanted@ == name@,
                last_named(self.assets@, name@) == last_named(self.assets@.take(i as int), name@),
            decreases i,
        {
            let candidate = self.assets[i - 1].name().to_owned();
            proof {
                assert(self.assets@.take(i as int).drop_last() =~= self.assets@.take(i - 1));
            }
            if candidate == wanted {
                return Some(AssetHandle::new(i - 1));
            }
            i = i - 1;
        }
        None
    }
}

} // verus!
