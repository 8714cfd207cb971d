//! The built-in asset kinds: raw files and decoded textures.

use vstd::prelude::*;
use crate::assets::commons::{AssetHandle, AssetModel, AssetPayload, TaskResult};
use crate::assets::storage_server::StorageServer;

pub mod decoding;
pub mod files;
pub mod textures;

verus! {

/// The result of a task that handed `data` to the registry: success if the
/// registry has a storage for the handle's kind that takes the value, else
/// failure with the given reason.
pub open spec fn stored_result(
    storage: &StorageServer,
    asset_handle: AssetHandle,
    data: AssetModel,
    failure: &'static str,
) -> TaskResult {
    if storage.accepts(asset_handle.asset_type, data) {
        TaskResult::Success
    } else {
        TaskResult::Failed(failure)
    }
}

/// The data that the registry holds after a task handed it `data`: with the
/// value under the handle if the registry took it, unchanged if not.
pub open spec fn stored_data(
    storage: &StorageServer,
    asset_handle: AssetHandle,
    data: AssetModel,
) -> Map<AssetHandle, AssetModel> {
    if storage.accepts(asset_handle.asset_type, data) {
        storage.data().insert(asset_handle, data)
    } else {
        storage.data()
    }
}

/// The last step of a task: hands the payload to the registry and turns the
/// registry's answer into the task's result.
pub fn store_payload<T: AssetPayload>(
    storage: &mut StorageServer,
    asset_handle: AssetHandle,
    data: T,
    failure: &'static str,
) -> (r: TaskResult)
    ensures
        final(storage).same_but(old(storage), asset_handle.asset_type),
        r == stored_result(old(storage), asset_handle, data.model(), failure),
        final(storage).data() == stored_data(old(storage), asset_handle, data.model()),
{
    match storage.push_data::<T>(asset_handle, data) {
        Ok(_store_index) => TaskResult::Success,
        Err(_) => TaskResult::Failed(failure),
    }
}

} // verus!
