//! What a storage for one asset kind offers, typed and type-erased.

use vstd::prelude::*;
use crate::assets::commons::{AssetHandle, AssetModel, AssetPayload, ErasedAsset};

verus! {

/// The erased layer's error when a value of the wrong type is handed to `save`.
pub const ERASED_SAVE_ERROR: &'static str = "[erased asset server] save failed to downcast data";

/// The erased layer's error when `load` finds nothing under the handle.
pub const ERASED_LOAD_ERROR: &'static str = "[erased asset server] load failed to downcast data";

/// A storage for payloads of one concrete type.
///
/// `save` puts a payload under a handle, replacing what was there, and
/// answers `Ok`: a storage keeps whatever it is handed. `load` takes the
/// payload out again: a handle can be loaded once for each time it was saved.
pub trait AssetStorage {
    type InputData: AssetPayload;

    /// What the storage holds: the payload's value for each handle with data.
    spec fn contents(&self) -> Map<AssetHandle, AssetModel>;

    /// What `save` returns in this state for this handle and value.
    spec fn save_outcome(&self, asset_hdl: AssetHandle, data: AssetModel) -> Result<
        usize,
        &'static str,
    >;

    fn save(&mut self, asset_hdl: AssetHandle, data: Self::InputData) -> (r: Result<
        usize,
        &'static str,
    >)
        ensures
            final(self).contents() == old(self).contents().insert(asset_hdl, data.model()),
            r == old(self).save_outcome(asset_hdl, data.model()),
            r is Ok,
    ;

    fn load(&mut self, asset_hdl: AssetHandle) -> (r: Result<Self::InputData, &'static str>)
        ensures
            match r {
                Ok(d) => {
                    &&& old(self).contents().contains_key(asset_hdl)
                    &&& d.model() == old(self).contents()[asset_hdl]
                    &&& final(self).contents() == old(self).contents().remove(asset_hdl)
                },
                Err(_) => {
                    &&& !old(self).contents().contains_key(asset_hdl)
                    &&& final(self).contents() == old(self).contents()
                },
            },
    ;
}

/// A storage seen without its payload type: values go in and come out as
/// [`ErasedAsset`], and a value of the wrong type is refused.
pub trait ErasedAssetStorage: Send + Sync {
    /// What the storage holds.
    spec fn erased_contents(&self) -> Map<AssetHandle, AssetModel>;

    /// Whether a value is of the type that the storage keeps.
    spec fn accepts(&self, data: AssetModel) -> bool;

    /// What `save` returns in this state for a value that the storage accepts.
    spec fn erased_save_outcome(&self, asset_hdl: AssetHandle, data: AssetModel) -> Result<
        usize,
        &'static str,
    >;

    fn save(&mut self, asset_hdl: AssetHandle, data: ErasedAsset) -> (r: Result<
        usize,
        &'static str,
    >)
        ensures
            old(self).accepts(data.model()) ==> {
                &&& final(self).erased_contents() == old(self).erased_contents().insert(
                    asset_hdl,
                    data.model(),
                )
                &&& r == old(self).erased_save_outcome(asset_hdl, data.model())
                &&& r is Ok
            },
            !old(self).accepts(data.model()) ==> {
                &&& final(self).erased_contents() == old(self).erased_contents()
                &&& r == Err::<usize, &'static str>(ERASED_SAVE_ERROR)
            },
            forall|m: AssetModel| final(self).accepts(m) == old(self).accepts(m),
    ;

    fn load(&mut self, asset_hdl: AssetHandle) -> (r: Result<ErasedAsset, &'static str>)
        ensures
            match r {
                Ok(d) => {
                    &&& old(self).accepts(d.model())
                    &&& old(self).erased_contents().contains_key(asset_hdl)
                    &&& d.model() == old(self).erased_contents()[asset_hdl]
                    &&& final(self).erased_contents() == old(self).erased_contents().remove(
                        asset_hdl,
                    )
                },
                Err(e) => {
                    &&& e == ERASED_LOAD_ERROR
                    &&& !old(self).erased_contents().contains_key(asset_hdl)
                    &&& final(self).erased_contents() == old(self).erased_contents()
                },
            },
            forall|m: AssetModel| final(self).accepts(m) == old(self).accepts(m),
    ;
}

impl<T: AssetStorage + Send + Sync> ErasedAssetStorage for T {
    open spec fn erased_contents(&self) -> Map<AssetHandle, AssetModel> {
        self.contents()
    }

    open spec fn accepts(&self, data: AssetModel) -> bool {
        T::InputData::holds(data)
    }

    open spec fn erased_save_outcome(&self, asset_hdl: AssetHandle, data: AssetModel) -> Result<
        usize,
        &'static str,
    > {
        self.save_outcome(asset_hdl, data)
    }

    fn save(&mut self, asset_hdl: AssetHandle, data: ErasedAsset) -> (r: Result<
        usize,
        &'static str,
    >) {
        match T::InputData::downcast(data) {
            Some(d) => AssetStorage::save(self, asset_hdl, d),
            None => Err(ERASED_SAVE_ERROR),
        }
    }

    fn load(&mut self, asset_hdl: AssetHandle) -> (r: Result<ErasedAsset, &'static str>) {
        match AssetStorage::load(self, asset_hdl) {
            Ok(da) => {
                proof {
                    da.lemma_model_holds();
                }
                Ok(da.erase())
            },
            Err(_) => Err(ERASED_LOAD_ERROR),
        }
    }
}

} // verus!
