//! The registry: one storage for each asset kind, reached by the kind of a handle.

use vstd::prelude::*;
use std::collections::HashMap;
use crate::assets::commons::{AssetHandle, AssetModel, AssetPayload, ErasedAsset};
use crate::assets::storage::{ErasedAssetStorage, ERASED_LOAD_ERROR, ERASED_SAVE_ERROR};

verus! {

broadcast use vstd::std_specs::hash::group_hash_axioms;

/// `push_data`'s error when no storage is registered for the handle's kind.
pub const PUSH_NO_STORAGE_ERROR: &'static str = "[server container] failed to push data";

/// `pop_data`'s error when no storage is registered for the handle's kind.
pub const POP_NO_STORAGE_ERROR: &'static str = "[server container] failed to get server";

/// `pop_data`'s error when the stored value is not of the type asked for.
pub const POP_DOWNCAST_ERROR: &'static str = "[server container] failed to downcast data";

/// A storage as the registry holds it, its concrete type forgotten.
pub struct StorageEntry {
    storage: Box<dyn ErasedAssetStorage>,
}

impl StorageEntry {
    /// What the storage holds.
    pub closed spec fn contents(&self) -> Map<AssetHandle, AssetModel> {
        self.storage.erased_contents()
    }

    /// Whether a value is of the type that the storage keeps.
    pub closed spec fn accepts(&self, data: AssetModel) -> bool {
        self.storage.accepts(data)
    }

    /// What saving an accepted value under a handle returns in this state.
    pub closed spec fn save_outcome(&self, asset_hdl: AssetHandle, data: AssetModel) -> Result<
        usize,
        &'static str,
    > {
        self.storage.erased_save_outcome(asset_hdl, data)
    }

    pub fn new<S: ErasedAssetStorage + 'static>(storage: S) -> (e: Self)
        ensures
            e.contents() == storage.erased_contents(),
            forall|m: AssetModel| e.accepts(m) == storage.accepts(m),
            forall|h: AssetHandle, m: AssetModel|
                e.save_outcome(h, m) == storage.erased_save_outcome(h, m),
    {
        StorageEntry { storage: Box::new(storage) }
    }

    pub fn save(&mut self, asset_hdl: AssetHandle, data: ErasedAsset) -> (r: Result<
        usize,
        &'static str,
    >)
        ensures
            old(self).accepts(data.model()) ==> {
                &&& final(self).contents() == old(self).contents().insert(asset_hdl, data.model())
                &&& r == old(self).save_outcome(asset_hdl, data.model())
                &&& r is Ok
            },
            !old(self).accepts(data.model()) ==> {
                &&& final(self).contents() == old(self).contents()
                &&& r == Err::<usize, &'static str>(ERASED_SAVE_ERROR)
            },
            forall|m: AssetModel| final(self).accepts(m) == old(self).accepts(m),
    {
        self.storage.save(asset_hdl, data)
    }

    pub fn load(&mut self, asset_hdl: AssetHandle) -> (r: Result<ErasedAsset, &'static str>)
        ensures
            match r {
                Ok(d) => {
                    &&& old(self).accepts(d.model())
                    &&& old(self).contents().contains_key(asset_hdl)
                    &&& d.model() == old(self).contents()[asset_hdl]
                    &&& final(self).contents() == old(self).contents().remove(asset_hdl)
                },
                Err(e) => {
                    &&& e == ERASED_LOAD_ERROR
                    &&& !old(self).contents().contains_key(asset_hdl)
                    &&& final(self).contents() == old(self).contents()
                },
            },
            forall|m: AssetModel| final(self).accepts(m) == old(self).accepts(m),
    {
        self.storage.load(asset_hdl)
    }
}

/// The storages of a pipeline, one for each registered asset kind.
pub struct StorageServer {
    pub storages: HashMap<u64, StorageEntry>,
}

impl Default for StorageServer {
    fn default() -> (s: Self)
        ensures
            s.kinds() == Set::<u64>::empty(),
            s.data() == Map::<AssetHandle, AssetModel>::empty(),
    {
        let s = StorageServer { storages: HashMap::new() };
        assert(s.kinds() =~= Set::<u64>::empty());
        assert(s.data() =~= Map::<AssetHandle, AssetModel>::empty());
        s
    }
}

impl StorageServer {
    /// The asset kinds that have a storage.
    pub open spec fn kinds(&self) -> Set<u64> {
        self.storages@.dom()
    }

    /// What can be popped: for each handle whose kind has a storage that
    /// holds data under the handle, that data.
    pub open spec fn data(&self) -> Map<AssetHandle, AssetModel> {
        Map::new(
            |h: AssetHandle|
                self.storages@.contains_key(h.asset_type)
                    && self.storages@[h.asset_type].contents().contains_key(h),
            |h: AssetHandle| self.storages@[h.asset_type].contents()[h],
        )
    }

    /// Whether the storage of a handle's kind takes a value of this type.
    pub open spec fn accepts(&self, kind: u64, data: AssetModel) -> bool {
        self.storages@.contains_key(kind) && self.storages@[kind].accepts(data)
    }

    /// Two registries have the same kinds, and each kind takes the same types.
    pub open spec fn same_kinds(&self, other: &StorageServer) -> bool {
        &&& self.kinds() == other.kinds()
        &&& forall|k: u64, m: AssetModel| self.accepts(k, m) == other.accepts(k, m)
    }

    /// Nothing but the storage of one kind differs between two registries.
    pub open spec fn same_but(&self, other: &StorageServer, kind: u64) -> bool {
        &&& self.same_kinds(other)
        &&& forall|k: u64|
            k != kind && #[trigger] self.storages@.contains_key(k) ==> self.storages@[k]
                == other.storages@[k]
    }

    /// Nothing but the storages of the given kinds differs between two registries.
    pub open spec fn same_outside(&self, other: &StorageServer, kinds: Set<u64>) -> bool {
        &&& self.same_kinds(other)
        &&& forall|k: u64|
            !kinds.contains(k) && #[trigger] self.storages@.contains_key(k) ==> self.storages@[k]
                == other.storages@[k]
    }

    /// Whether `pop_data` can hand out the data under a handle as a `T`: the
    /// handle's kind has a storage, it holds data under the handle, and that
    /// data is a `T`.
    pub open spec fn can_pop<T: AssetPayload>(&self, asset_handle: AssetHandle) -> bool {
        self.data().contains_key(asset_handle) && T::holds(self.data()[asset_handle])
    }

    /// The error with which `pop_data` fails on a handle that it cannot serve.
    pub open spec fn pop_error(&self, asset_handle: AssetHandle) -> &'static str {
        if !self.kinds().contains(asset_handle.asset_type) {
            POP_NO_STORAGE_ERROR
        } else if !self.data().contains_key(asset_handle) {
            ERASED_LOAD_ERROR
        } else {
            POP_DOWNCAST_ERROR
        }
    }

    /// Makes `storage` the storage of a kind that has none, and says whether
    /// it did. A kind that has a storage keeps it: an association, once
    /// made, is never replaced.
    pub fn register(&mut self, kind: u64, storage: StorageEntry) -> (registered: bool)
        ensures
            registered == !old(self).kinds().contains(kind),
            registered ==> final(self).storages@ == old(self).storages@.insert(kind, storage),
            !registered ==> final(self).storages@ == old(self).storages@,
    {
        if self.storages.contains_key(&kind) {
            return false;
        }
        self.storages.insert(kind, storage);
        true
    }

    pub fn get_storage(&self, type_id: &u64) -> (r: Option<&StorageEntry>)
        ensures
            match r {
                Some(e) => self.kinds().contains(*type_id) && *e == self.storages@[*type_id],
                None => !self.kinds().contains(*type_id),
            },
    {
        self.storages.get(type_id)
    }

    /// Saves `data` under `hdl` in the storage of the handle's kind.
    pub fn push_data<T: AssetPayload>(&mut self, hdl: AssetHandle, data: T) -> (r: Result<
        usize,
        &'static str,
    >)
        ensures
            final(self).same_but(old(self), hdl.asset_type),
            !old(self).kinds().contains(hdl.asset_type) ==> {
                &&& r == Err::<usize, &'static str>(PUSH_NO_STORAGE_ERROR)
                &&& final(self).storages@ == old(self).storages@
            },
            old(self).accepts(hdl.asset_type, data.model()) ==> {
                &&& final(self).data() == old(self).data().insert(hdl, data.model())
                &&& r == old(self).storages@[hdl.asset_type].save_outcome(hdl, data.model())
                &&& r is Ok
            },
            old(self).kinds().contains(hdl.asset_type) && !old(self).accepts(
                hdl.asset_type,
                data.model(),
            ) ==> {
                &&& r == Err::<usize, &'static str>(ERASED_SAVE_ERROR)
                &&& final(self).data() == old(self).data()
            },
    {
        let ghost model = data.model();
        match self.storages.remove(&hdl.asset_type) {
            Some(mut storage) => {
                let save_result = storage.save(hdl, data.erase());
                self.storages.insert(hdl.asset_type, storage);
                proof {
                    if old(self).accepts(hdl.asset_type, model) {
                        assert(self.data() =~= old(self).data().insert(hdl, model));
                    } else {
                        assert(self.data() =~= old(self).data());
                    }
                    assert(self.kinds() =~= old(self).kinds());
                }
                save_result
            },
            None => {
                assert(self.storages@ =~= old(self).storages@);
                Err(PUSH_NO_STORAGE_ERROR)
            },
        }
    }

    /// Takes the data under `asset_handle` out of the storage of the handle's
    /// kind and hands it out as a `T`. The data leaves the storage even when
    /// it turns out not to be a `T`.
    pub fn pop_data<T: AssetPayload>(&mut self, asset_handle: AssetHandle) -> (r: Result<
        T,
        &'static str,
    >)
        ensures
            final(self).same_but(old(self), asset_handle.asset_type),
            final(self).data() == old(self).data().remove(asset_handle),
            match r {
                Ok(d) => old(self).can_pop::<T>(asset_handle) && d.model() == old(self).data()[asset_handle],
                Err(e) => !old(self).can_pop::<T>(asset_handle) && e == old(self).pop_error(
                    asset_handle,
                ),
            },
    {
        match self.storages.remove(&asset_handle.asset_type) {
            Some(mut server) => {
                let loaded = server.load(asset_handle);
                self.storages.insert(asset_handle.asset_type, server);
                proof {
                    assert(self.kinds() =~= old(self).kinds());
                    assert(self.data() =~= old(self).data().remove(asset_handle));
                }
                match loaded {
                    Ok(data) => match T::downcast(data) {
                        Some(d) => Ok(d),
                        None => Err(POP_DOWNCAST_ERROR),
                    },
                    Err(e) => Err(e),
                }
            },
            None => {
                assert(self.storages@ =~= old(self).storages@);
                assert(self.data() =~= old(self).data().remove(asset_handle));
                Err(POP_NO_STORAGE_ERROR)
            },
        }
    }

    pub fn handle(&self, type_id: &u64) -> (r: bool)
        ensures
            r == self.kinds().contains(*type_id),
    {
        if !self.storages.contains_key(type_id) {
            return false;
        }
        true
    }
}

/// A registry differs from itself in nothing.
pub proof fn lemma_same_outside_self(server: StorageServer, kinds: Set<u64>)
    ensures
        server.same_outside(&server, kinds),
{
}

/// A change to the storage of one kind, made after changes to the storages
/// of some kinds, is a change to the storages of those kinds and that one.
pub proof fn lemma_same_outside_step(
    first: StorageServer,
    middle: StorageServer,
    last: StorageServer,
    kinds: Set<u64>,
    kind: u64,
)
    requires
        middle.same_outside(&first, kinds),
        last.same_but(&middle, kind),
        kinds.contains(kind),
    ensures
        last.same_outside(&first, kinds),
{
    assert forall|k: u64| !kinds.contains(k) && #[trigger] last.storages@.contains_key(
        k,
    ) implies last.storages@[k] == first.storages@[k] by {
        assert(middle.storages@.contains_key(k));
    }
}

/// The registry is type safe: data asked for as a type that it is not a
/// value of is never handed out, and the answer is `POP_DOWNCAST_ERROR`;
/// data asked for as its own type is handed out.
pub proof fn lemma_pop_checks_type<T: AssetPayload>(server: StorageServer, handle: AssetHandle)
    requires
        server.data().contains_key(handle),
    ensures
        !T::holds(server.data()[handle]) ==> !server.can_pop::<T>(handle) && server.pop_error(
            handle,
        ) == POP_DOWNCAST_ERROR,
        T::holds(server.data()[handle]) ==> server.can_pop::<T>(handle),
{
}

/// What was popped is gone: in the state that `pop_data` leaves behind, the
/// same handle can be popped as no type at all.
pub proof fn lemma_pop_data_at_most_once<T: AssetPayload>(
    before: StorageServer,
    after: StorageServer,
    handle: AssetHandle,
)
    requires
        after.data() == before.data().remove(handle),
    ensures
        !after.can_pop::<T>(handle),
        after.kinds().contains(handle.asset_type) ==> after.pop_error(handle)
            == ERASED_LOAD_ERROR,
{
}

/// What was pushed can be popped, as the type it was pushed as and as no other.
pub proof fn lemma_push_then_pop<T: AssetPayload, U: AssetPayload>(
    before: StorageServer,
    after: StorageServer,
    handle: AssetHandle,
    data: T,
)
    requires
        before.accepts(handle.asset_type, data.model()),
        after.data() == before.data().insert(handle, data.model()),
    ensures
        after.can_pop::<T>(handle),
        after.can_pop::<U>(handle) == U::holds(data.model()),
{
    data.lemma_model_holds();
}

} // verus!
