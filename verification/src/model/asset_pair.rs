use crate::model::asset::Asset;
use vstd::prelude::*;

verus! {

/// The asset that is traded and the asset in which its price is quoted.
#[derive(Debug, Clone, Copy, Eq, PartialEq)]
pub struct AssetPair<A: Asset> {
    pub base_asset: A,
    pub quote_asset: A,
}

impl<A: Asset> AssetPair<A> {
    pub fn new(base_asset: A, quote_asset: A) -> (r: Self)
        ensures
            r.base_asset == base_asset,
            r.quote_asset == quote_asset,
    {
        Self { base_asset, quote_asset }
    }

    /// Decides whether both assets of `self` are those of `other`.
    pub fn same_as(&self, other: &Self) -> (r: bool)
        ensures
            r == (*self == *other),
    {
        self.base_asset.same_as(&other.base_asset) && self.quote_asset.same_as(&other.quote_asset)
    }
}

} // verus!
