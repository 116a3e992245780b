//! Game assets: named values loaded once and referred to by handles.
pub mod collection;
pub mod handle;
pub mod manager;
pub mod segment;

use vstd::prelude::*;

pub use handle::AssetHandle;
pub use manager::AssetManager;
pub use segment::Segment;

verus! {

/// A kind of asset: each asset has a name by which it is looked up.
pub trait Asset: Sized {
    /// The name of the asset.
    spec fn spec_name(&self) -> Seq<char>;

    /// The name of the asset.
    fn name(&self) -> (name: &str)
        ensures
            name@ == self.spec_name(),
    ;
}

} // verus!
