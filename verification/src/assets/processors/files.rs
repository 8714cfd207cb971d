//! Raw files: their storage and the task that commits a file once it was read.

use vstd::prelude::*;
use std::collections::HashMap;
use crate::assets::commons::{
    AssetFile, AssetHandle, AssetModel, AssetPayload, ReaderBox, TaskResult, ThreadTask,
};
use crate::assets::processors::{store_payload, stored_data, stored_result};
use crate::assets::storage::AssetStorage;
use crate::assets::storage_server::StorageServer;

verus! {

broadcast use vstd::std_specs::hash::group_hash_axioms;

/// The file storage's error when `load` finds nothing under the handle.
pub const FILE_MISSING_ERROR: &'static str =
    "[file server] couldn't retrieve the asset handle requested";

/// The task's result when the file could not be read.
pub const FILE_READ_ERROR: &'static str = "failed to read file";

/// The task's result when the registry did not take the file.
pub const FILE_STORE_ERROR: &'static str = "[storage container] failed to store data";

/// Loads one file: reads it through the reader and saves its bytes in the registry.
pub struct FileLoadTask {
    pub file_path: String,
}

/// Keeps every file that was ever saved in an append-only vector, and for
/// each handle that can still be loaded the place of its file in that vector.
pub struct FileStorage {
    storage: Vec<AssetFile>,
    asset_to_index: HashMap<u128, usize>,
}

impl FileStorage {
    #[verifier::type_invariant]
    spec fn indices_in_range(self) -> bool {
        forall|k: u128| #[trigger]
            self.asset_to_index@.contains_key(k) ==> self.asset_to_index@[k] < self.storage@.len()
    }

    /// How many files were saved since the storage was made.
    pub closed spec fn saved_count(&self) -> nat {
        self.storage@.len()
    }

    pub fn new() -> (s: Self)
        ensures
            s.contents() == Map::<AssetHandle, AssetModel>::empty(),
            s.saved_count() == 0,
    {
        let s = FileStorage { storage: Vec::new(), asset_to_index: HashMap::new() };
        assert(s.contents() =~= Map::<AssetHandle, AssetModel>::empty());
        s
    }

    /// An empty storage with room for `capacity` files.
    pub fn with_capacity(capacity: usize) -> (s: Self)
        ensures
            s.contents() == Map::<AssetHandle, AssetModel>::empty(),
            s.saved_count() == 0,
    {
        let s = FileStorage { storage: Vec::with_capacity(capacity), asset_to_index: HashMap::new() };
        assert(s.contents() =~= Map::<AssetHandle, AssetModel>::empty());
        s
    }
}

impl AssetStorage for FileStorage {
    type InputData = AssetFile;

    closed spec fn contents(&self) -> Map<AssetHandle, AssetModel> {
        Map::new(
            |h: AssetHandle| self.asset_to_index@.contains_key(h.key_spec()),
            |h: AssetHandle| self.storage@[self.asset_to_index@[h.key_spec()] as int].as_model(),
        )
    }

    open spec fn save_outcome(&self, asset_hdl: AssetHandle, data: AssetModel) -> Result<
        usize,
        &'static str,
    > {
        Ok(self.saved_count() as usize)
    }

    /// Appends the file and makes the handle point at it. Returns the file's
    /// place in the vector, which is the number of files saved before.
    fn save(&mut self, asset_hdl: AssetHandle, data: AssetFile) -> (r: Result<usize, &'static str>)
        ensures
            final(self).saved_count() == old(self).saved_count() + 1,
    {
        proof {
            use_type_invariant(&*self);
        }
        let ghost model = data.model();
        // The fields are moved out and back: the invariant ties them together,
        // so neither can be lent to a call on its own.
        let mut taken = FileStorage::new();
        core::mem::swap(self, &mut taken);
        let FileStorage { mut storage, mut asset_to_index } = taken;
        storage.push(data);
        let index: usize = storage.len() - 1;
        asset_to_index.insert(asset_hdl.key(), index);
        *self = FileStorage { storage, asset_to_index };
        proof {
            assert forall|h: AssetHandle| h != asset_hdl implies h.key_spec()
                != asset_hdl.key_spec() by {
                AssetHandle::lemma_key_injective(h, asset_hdl);
            }
            assert(self.contents() =~= old(self).contents().insert(asset_hdl, model));
        }
        Ok(index)
    }

    /// Hands out a copy of the handle's file and forgets the handle. The file
    /// itself stays in the vector.
    fn load(&mut self, asset_hdl: AssetHandle) -> (r: Result<AssetFile, &'static str>)
        ensures
            r is Err ==> r == Err::<AssetFile, &'static str>(FILE_MISSING_ERROR),
            final(self).saved_count() == old(self).saved_count(),
    {
        proof {
            use_type_invariant(&*self);
        }
        let key: u128 = asset_hdl.key();
        let mut taken = FileStorage::new();
        core::mem::swap(self, &mut taken);
        let FileStorage { storage, mut asset_to_index } = taken;
        let hash_value = asset_to_index.remove(&key);
        let r = match hash_value {
            Some(idx) => Ok(storage[idx].clone()),
            None => Err(FILE_MISSING_ERROR),
        };
        *self = FileStorage { storage, asset_to_index };
        proof {
            assert forall|h: AssetHandle| h != asset_hdl implies h.key_spec()
                != asset_hdl.key_spec() by {
                AssetHandle::lemma_key_injective(h, asset_hdl);
            }
            if r is Ok {
                assert(self.contents() =~= old(self).contents().remove(asset_hdl));
            } else {
                assert(self.contents() =~= old(self).contents());
            }
        }
        r
    }
}

impl FileLoadTask {
    pub fn new(file_path: &str) -> (task: FileLoadTask)
        ensures
            task.file_path@ == file_path@,
    {
        FileLoadTask { file_path: file_path.to_owned() }
    }

    /// What the task does with the outcome of the read. A file that was read
    /// goes into the registry under the handle, and the task succeeds if the
    /// registry took it. A failed read fails the task and leaves the
    /// registry as it was.
    pub fn commit(
        &self,
        asset_handle: AssetHandle,
        read_result: Result<Vec<u8>, String>,
        storage: &mut StorageServer,
    ) -> (r: TaskResult)
        ensures
            final(storage).same_but(old(storage), asset_handle.asset_type),
            match read_result {
                Ok(buffer) => {
                    let model = AssetModel::File { data: buffer@ };
                    &&& r == stored_result(old(storage), asset_handle, model, FILE_STORE_ERROR)
                    &&& final(storage).data() == stored_data(old(storage), asset_handle, model)
                },
                Err(_) => {
                    &&& r == TaskResult::Failed(FILE_READ_ERROR)
                    &&& final(storage).storages@ == old(storage).storages@
                },
            },
    {
        if let Ok(buffer) = read_result {
            return store_payload::<AssetFile>(
                storage,
                asset_handle,
                AssetFile { data: buffer },
                FILE_STORE_ERROR,
            );
        }
        TaskResult::Failed(FILE_READ_ERROR)
    }
}

impl ThreadTask for FileLoadTask {
    /// Reads the file and commits what the read gave. Whatever the reader
    /// answers, nothing but the storage of the handle's kind is touched, and
    /// the task succeeds or fails for one of the two reasons of `commit`.
    fn invoke(
        &mut self,
        asset_handle: AssetHandle,
        storage: &mut StorageServer,
        reader: &ReaderBox,
    ) -> (r: TaskResult)
        ensures
            final(storage).same_but(old(storage), asset_handle.asset_type),
            r == TaskResult::Success || r == TaskResult::Failed(FILE_READ_ERROR) || r
                == TaskResult::Failed(FILE_STORE_ERROR),
            r == TaskResult::Failed(FILE_READ_ERROR) ==> final(storage).data() == old(
                storage,
            ).data(),
            r == TaskResult::Success ==> final(storage).data().contains_key(asset_handle)
                && final(storage).data()[asset_handle] is File,
            final(self).file_path == old(self).file_path,
    {
        proof {
            reveal_strlit("failed to read file");
            reveal_strlit("[storage container] failed to store data");
            assert(FILE_READ_ERROR@.len() != FILE_STORE_ERROR@.len());
        }
        let read_result = reader.read(self.file_path.as_str());
        self.commit(asset_handle, read_result, storage)
    }
}

} // verus!
