//! The facade: the one entry point through which assets are requested and
//! fetched. It owns a scheduler, a registry and the counter for handles.

use vstd::prelude::*;
use vstd::string::StringExecFns;
use crate::assets::commons::{
    AssetFile, AssetHandle, AssetModel, AssetPayload, AssetTexture, NoReader, ReaderBox, Signal,
    State, TaskResult, ThreadTask, ThreadWork, FILE_KIND, TEXTURE_KIND,
};
use crate::assets::executor::{
    failures_kept, kinds_of, recorded, ExecutorModel, MonoThreadFifoExecutor, WorkerAction,
};
use crate::assets::processors::files::FileStorage;
use crate::assets::processors::textures::{TextureStorage, TextureTask};
use crate::assets::storage_server::{lemma_same_outside_self, StorageEntry, StorageServer};
use crate::assets::uuid::{content_id, Uuid};
use crate::engine::utils::file_system::{join_path, joined_path};

verus! {

/// `pop_asset`'s error when no storage is registered for the type asked for.
pub const TYPE_NOT_FOUND_ERROR: &'static str = "handle type not found";

/// `pop_asset`'s answer while the handle's work has not finished. Not a
/// failure: the caller is to ask again later.
pub const NOT_COMPLETED_ERROR: &'static str = "handle not completed";

/// Where the assets of a program lie.
#[derive(Clone, Eq, PartialEq, Debug)]
pub struct AssetServerConfig {
    pub asset_dir: String,
    pub texture_dir: String,
    pub shader_dir: String,
}

/// Requests go in here and assets come out.
pub struct AssetServer {
    pub configuration: AssetServerConfig,
    storage_server: StorageServer,
    executor: MonoThreadFifoExecutor,
    uuid: Uuid<AssetHandle>,
    reader: ReaderBox,
}

impl Default for AssetServer {
    /// A server that has not been started, with no storage, no work and no
    /// reader, its directories under `./assets`.
    fn default() -> (server: Self)
        ensures
            server.executor() == MonoThreadFifoExecutor::new_model(),
            server.works() == Seq::<ThreadWork>::empty(),
            server.failures() == Map::<AssetHandle, &'static str>::empty(),
            server.storage().kinds() == Set::<u64>::empty(),
            server.config().asset_dir@ == "./assets"@,
            server.config().texture_dir@ == "./assets/textures"@,
            server.config().shader_dir@ == "./assets/shaders"@,
    {
        Self::with_reader(ReaderBox::new(Box::new(NoReader)))
    }
}

impl AssetServer {
    /// The scheduler as a mathematical value.
    pub closed spec fn executor(&self) -> ExecutorModel {
        self.executor@
    }

    /// The directories that the server was told to use.
    pub closed spec fn config(&self) -> AssetServerConfig {
        self.configuration
    }

    /// The reasons for which works failed whose handles nobody has
    /// acknowledged since.
    pub closed spec fn failures(&self) -> Map<AssetHandle, &'static str> {
        self.executor.failures()
    }

    /// The registry.
    pub closed spec fn storage(&self) -> StorageServer {
        self.storage_server
    }

    /// A server like the default one that reads files through `reader`.
    pub fn with_reader(reader: ReaderBox) -> (server: Self)
        ensures
            server.executor() == MonoThreadFifoExecutor::new_model(),
            server.works() == Seq::<ThreadWork>::empty(),
            server.failures() == Map::<AssetHandle, &'static str>::empty(),
            server.storage().kinds() == Set::<u64>::empty(),
            server.config().asset_dir@ == "./assets"@,
            server.config().texture_dir@ == "./assets/textures"@,
            server.config().shader_dir@ == "./assets/shaders"@,
    {
        Self {
            storage_server: StorageServer::default(),
            executor: MonoThreadFifoExecutor::new(),
            uuid: Uuid::<AssetHandle>::default(),
            reader,
            configuration: AssetServerConfig {
                asset_dir: String::from_str("./assets"),
                texture_dir: String::from_str("./assets/textures"),
                shader_dir: String::from_str("./assets/shaders"),
            },
        }
    }

    /// The queued works, oldest first.
    pub closed spec fn works(&self) -> Seq<ThreadWork> {
        self.executor.works()
    }

    /// Whether the storage of a kind is one that `init` made and that
    /// nothing was saved in since: empty, and taking the values for which
    /// `is_kind` holds.
    pub open spec fn is_fresh(&self, kind: u64, is_kind: spec_fn(AssetModel) -> bool) -> bool {
        &&& self.storage().kinds().contains(kind)
        &&& self.storage().storages@[kind].contents() == Map::<AssetHandle, AssetModel>::empty()
        &&& forall|m: AssetModel| #[trigger] self.storage().accepts(kind, m) == is_kind(m)
    }

    /// Starts the scheduler unless it was started before, and gives textures
    /// and files each a fresh, empty storage unless they have one. A kind
    /// that has a storage keeps it, with what it holds.
    pub fn init(&mut self)
        ensures
            final(self).executor() == (if old(self).executor().running {
                old(self).executor()
            } else {
                ExecutorModel {
                    running: true,
                    signal: Signal::Nop,
                    worker_alive: true,
                    ..old(self).executor()
                }
            }),
            final(self).storage().kinds() == old(self).storage().kinds().insert(
                TEXTURE_KIND,
            ).insert(FILE_KIND),
            forall|k: u64| #[trigger]
                old(self).storage().storages@.contains_key(k) ==> final(self).storage().storages@[k]
                    == old(self).storage().storages@[k],
            !old(self).storage().kinds().contains(TEXTURE_KIND) ==> final(self).is_fresh(
                TEXTURE_KIND,
                |m: AssetModel| m is Texture,
            ),
            !old(self).storage().kinds().contains(FILE_KIND) ==> final(self).is_fresh(
                FILE_KIND,
                |m: AssetModel| m is File,
            ),
            final(self).config() == old(self).config(),
            final(self).failures() == old(self).failures(),
            final(self).works() == old(self).works(),
    {
        self.executor.try_init();
        // default textures storage
        self.storage_server.register(AssetTexture::kind(), StorageEntry::new(TextureStorage::new()));
        // default files storage
        self.storage_server.register(
            AssetFile::kind(),
            StorageEntry::new(FileStorage::with_capacity(100)),
        );
        proof {
            assert(self.storage().kinds() =~= old(self).storage().kinds().insert(
                TEXTURE_KIND,
            ).insert(FILE_KIND));
        }
    }

    /// Forwards the signal to the scheduler, if the scheduler was started.
    /// `Nop` changes nothing; only a signal that lets queued works run
    /// touches the registry.
    pub fn shutdown(&mut self, signal: Signal)
        ensures
            final(self).executor() == (if old(self).executor().running {
                old(self).executor().after_shutdown(signal)
            } else {
                old(self).executor()
            }),
            signal == Signal::Nop ==> final(self).executor() == old(self).executor(),
            final(self).works() == (if old(self).executor().running {
                old(self).works().skip(old(self).executor().shutdown_span(signal))
            } else {
                old(self).works()
            }),
            failures_kept(old(self).failures(), final(self).failures(), old(self).executor().pending),
            final(self).storage().same_outside(
                &old(self).storage(),
                kinds_of(old(self).executor().pending),
            ),
            signal != Signal::StopWaitAllPendingWorks ==> final(self).storage() == old(
                self,
            ).storage(),
            final(self).config() == old(self).config(),
    {
        proof {
            lemma_same_outside_self(old(self).storage(), kinds_of(old(self).executor().pending));
        }
        if !self.executor.is_running() {
            return;
        }
        self.executor.shutdown(signal, &mut self.storage_server, &self.reader);
    }

    /// Gives the worker a signal without waiting for it, if the scheduler
    /// was started. `Nop` changes nothing.
    pub fn signal(&mut self, signal: Signal)
        ensures
            final(self).executor() == (if old(self).executor().running {
                old(self).executor().after_signal(signal)
            } else {
                old(self).executor()
            }),
            final(self).works() == old(self).works(),
            final(self).failures() == old(self).failures(),
            final(self).storage() == old(self).storage(),
            final(self).config() == old(self).config(),
    {
        if !self.executor.is_running() {
            return;
        }
        self.executor.signal(signal);
    }

    /// The handle that a request for the texture of this name gets.
    pub open spec fn texture_handle(texture_name: Seq<char>) -> AssetHandle {
        AssetHandle { internal_id: content_id(texture_name), asset_type: TEXTURE_KIND }
    }

    /// What a request for the texture of this name consists of: the task
    /// that loads the file of that name in the texture directory, and the
    /// handle that stands for the name.
    pub fn texture_request(&self, texture_name: &str) -> (request: (TextureTask, AssetHandle))
        ensures
            request.0.identifier@ == joined_path(self.config().texture_dir@, texture_name@),
            request.1 == Self::texture_handle(texture_name@),
    {
        let file_path = join_path(self.configuration.texture_dir.as_str(), texture_name);
        let handle = AssetHandle {
            internal_id: self.uuid.new(texture_name),
            asset_type: AssetTexture::kind(),
        };
        (TextureTask::new(file_path), handle)
    }

    /// Requests the texture of this name from the texture directory. Queues
    /// the work of `texture_request` and returns its handle at once; returns
    /// nothing, and queues nothing, if textures have no storage.
    pub fn push_texture_work(&mut self, texture_name: String) -> (r: Option<AssetHandle>)
        ensures
            final(self).storage() == old(self).storage(),
            final(self).config() == old(self).config(),
            final(self).failures() == old(self).failures(),
            old(self).storage().kinds().contains(TEXTURE_KIND) ==> {
                &&& r == Some(Self::texture_handle(texture_name@))
                &&& final(self).executor() == old(self).executor().after_push(
                    Self::texture_handle(texture_name@),
                )
                &&& final(self).works().len() == old(self).works().len() + 1
                &&& final(self).works().drop_last() == old(self).works()
                &&& final(self).works().last().asset_handle == Self::texture_handle(
                    texture_name@,
                )
                &&& final(self).works().last().state == State::Init
            },
            !old(self).storage().kinds().contains(TEXTURE_KIND) ==> {
                &&& r is None
                &&& final(self).executor() == old(self).executor()
                &&& final(self).works() == old(self).works()
            },
    {
        if !self.is_type_handled_by_storage::<AssetTexture>() {
            return None;
        }
        let (texture_work, handle) = self.texture_request(texture_name.as_str());
        let worker = ThreadWork::new(Box::new(texture_work), handle);

        // push to the executor for later processing
        self.executor.push(worker);
        assert(self.works().drop_last() =~= old(self).works());

        // returns a uniq handle for further identification
        Some(handle)
    }

    /// Whether the scheduler was started.
    pub fn is_running(&self) -> (r: bool)
        ensures
            r == self.executor().running,
    {
        self.executor.is_running()
    }

    /// The worker's decision: whether to leave, to run the head of the queue, or to sleep.
    pub fn worker_action(&self) -> (action: WorkerAction)
        ensures
            action == self.executor().worker_action(),
    {
        self.executor.worker_action()
    }

    /// Records that the worker has left its loop.
    pub fn worker_exited(&mut self)
        ensures
            final(self).executor() == (ExecutorModel {
                worker_alive: false,
                ..old(self).executor()
            }),
            final(self).works() == old(self).works(),
            final(self).failures() == old(self).failures(),
            final(self).storage() == old(self).storage(),
            final(self).config() == old(self).config(),
    {
        self.executor.worker_exited();
    }

    /// The handle of the work that the worker has in hand, if it has one.
    pub fn in_flight(&self) -> (handle: Option<AssetHandle>)
        ensures
            handle == self.executor().in_flight,
    {
        self.executor.in_flight()
    }

    /// The worker's first transition: takes the work at the head of the
    /// queue. The worker must have no work in hand.
    pub fn take_work(&mut self) -> (next: Option<ThreadWork>)
        requires
            old(self).executor().in_flight is None,
        ensures
            final(self).executor() == old(self).executor().after_take(),
            next is Some <==> old(self).executor().pending.len() > 0,
            next is Some ==> {
                &&& next->0.asset_handle == old(self).executor().pending[0]
                &&& next->0.task == old(self).works()[0].task
                &&& next->0.state == State::Running
                &&& final(self).works() == old(self).works().skip(1)
            },
            next is None ==> final(self).works() == old(self).works(),
            final(self).failures() == old(self).failures(),
            final(self).storage() == old(self).storage(),
            final(self).config() == old(self).config(),
    {
        self.executor.take_next()
    }

    /// Runs the task of a work on the server's registry with the server's
    /// reader. The task gets at the storage of its handle's kind and at no other.
    pub fn invoke_work(&mut self, work: &mut ThreadWork) -> (r: TaskResult)
        ensures
            final(self).storage().same_but(&old(self).storage(), old(work).asset_handle.asset_type),
            final(work).asset_handle == old(work).asset_handle,
            final(work).state == old(work).state,
            final(work).task_result == old(work).task_result,
            final(self).executor() == old(self).executor(),
            final(self).works() == old(self).works(),
            final(self).failures() == old(self).failures(),
            final(self).config() == old(self).config(),
    {
        work.task.invoke(work.asset_handle, &mut self.storage_server, &self.reader)
    }

    /// The worker's second transition: records the result of the work that
    /// the worker has in hand and makes its handle ready.
    pub fn complete_work(&mut self, work: ThreadWork, task_result: TaskResult) -> (done: ThreadWork)
        requires
            old(self).executor().in_flight == Some(work.asset_handle),
        ensures
            final(self).executor() == old(self).executor().after_complete(work.asset_handle),
            final(self).failures() == recorded(old(self).failures(), work.asset_handle, task_result),
            done.asset_handle == work.asset_handle,
            done.state == State::Completed,
            done.task_result == task_result,
            final(self).works() == old(self).works(),
            final(self).storage() == old(self).storage(),
            final(self).config() == old(self).config(),
    {
        self.executor.complete(work, task_result)
    }

    /// Whether `pop_asset` looks into the registry for a handle: a storage is
    /// registered for the type asked for, and the handle's work has finished.
    pub open spec fn is_ready<T: AssetPayload>(&self, handle: AssetHandle) -> bool {
        self.storage().kinds().contains(T::kind_spec()) && self.executor().ready.contains(handle)
    }

    /// Whether `pop_asset` hands out the asset of a handle as a `T`.
    pub open spec fn can_pop_asset<T: AssetPayload>(&self, handle: AssetHandle) -> bool {
        self.is_ready::<T>(handle) && self.storage().can_pop::<T>(handle)
    }

    /// The error with which `pop_asset` answers for a handle whose asset it
    /// does not hand out: that the type has no storage; that the work has
    /// not finished; the reason that the work gave if it failed; else what
    /// the registry says of the missing or mistyped data.
    pub open spec fn pop_asset_error<T: AssetPayload>(&self, handle: AssetHandle) -> &'static str {
        if !self.storage().kinds().contains(T::kind_spec()) {
            TYPE_NOT_FOUND_ERROR
        } else if !self.executor().ready.contains(handle) {
            NOT_COMPLETED_ERROR
        } else if self.failures().contains_key(handle) {
            self.failures()[handle]
        } else {
            self.storage().pop_error(handle)
        }
    }

    /// How `pop_asset` changes the server: not at all unless the handle is
    /// ready; if it is, the handle leaves the ready set, its data leaves the
    /// registry, and the reason of a failure is forgotten.
    pub open spec fn popped<T: AssetPayload>(
        &self,
        after: &AssetServer,
        handle: AssetHandle,
    ) -> bool {
        &&& after.config() == self.config()
        &&& after.storage().same_but(&self.storage(), handle.asset_type)
        &&& after.storage().data() == (if self.is_ready::<T>(handle) {
            self.storage().data().remove(handle)
        } else {
            self.storage().data()
        })
        &&& after.executor() == (if self.is_ready::<T>(handle) {
            self.executor().after_pop_handle(handle)
        } else {
            self.executor()
        })
        &&& after.failures() == (if self.is_ready::<T>(handle) {
            self.failures().remove(handle)
        } else {
            self.failures()
        })
    }

    /// Fetches the asset that a handle stands for, once. While the work has
    /// not finished the answer is `NOT_COMPLETED_ERROR`; once it has, the
    /// first call takes the asset out and every later one finds the handle
    /// no longer ready. Where the work failed and left no asset, the answer
    /// is the reason that the work gave.
    pub fn pop_asset<T: AssetPayload>(&mut self, handle: AssetHandle) -> (r: Result<
        T,
        &'static str,
    >)
        ensures
            old(self).popped::<T>(final(self), handle),
            match r {
                Ok(d) => old(self).can_pop_asset::<T>(handle) && d.model() == old(self).storage().data()[handle],
                Err(e) => !old(self).can_pop_asset::<T>(handle) && e == old(self).pop_asset_error::<T>(handle),
            },
    {
        if !self.is_type_handled_by_storage::<T>() {
            assert(self.storage().data() =~= old(self).storage().data());
            return Err(TYPE_NOT_FOUND_ERROR);
        }
        // first check if the data is ready

        if !self.executor.is_completed(&handle) {
            return Err(NOT_COMPLETED_ERROR);
        }
        let failure = self.executor.failure_of(&handle);
        self.executor.pop_handle(&handle);

        // pop data from storage server
        match self.storage_server.pop_data::<T>(handle) {
            Ok(data) => Ok(data),
            Err(storage_error) => match failure {
                Some(reason) => Err(reason),
                None => Err(storage_error),
            },
        }
    }

    pub fn pop_texture_asset(&mut self, handle: AssetHandle) -> (r: Result<
        AssetTexture,
        &'static str,
    >)
        ensures
            old(self).popped::<AssetTexture>(final(self), handle),
            match r {
                Ok(d) => old(self).can_pop_asset::<AssetTexture>(handle) && d.model() == old(self).storage().data()[handle],
                Err(e) => !old(self).can_pop_asset::<AssetTexture>(handle) && e == old(self).pop_asset_error::<AssetTexture>(handle),
            },
    {
        self.pop_asset::<AssetTexture>(handle)
    }

    /// Gives the worker one turn: runs the oldest queued work if the worker
    /// is there and has not been told to stop. Says whether a work ran.
    pub fn tick(&mut self) -> (ran: bool)
        ensures
            ran == (old(self).executor().can_run() && old(self).executor().pending.len() > 0),
            final(self).executor() == (if ran {
                old(self).executor().after_run(1)
            } else {
                old(self).executor()
            }),
            failures_kept(old(self).failures(), final(self).failures(), old(self).executor().pending),
            final(self).works() == (if ran {
                old(self).works().skip(1)
            } else {
                old(self).works()
            }),
            ran ==> final(self).storage().same_but(
                &old(self).storage(),
                old(self).executor().pending[0].asset_type,
            ),
            !ran ==> final(self).storage() == old(self).storage(),
            final(self).config() == old(self).config(),
    {
        proof {
            if old(self).executor().pending.len() > 0 {
                assert(old(self).executor().pending.contains(old(self).executor().pending[0]));
            }
        }
        if self.executor.can_run() {
            self.executor.run_next(&mut self.storage_server, &self.reader).is_some()
        } else {
            false
        }
    }

    pub fn is_type_handled_by_storage<T: AssetPayload>(&self) -> (handled: bool)
        ensures
            handled == self.storage().kinds().contains(T::kind_spec()),
    {
        let request_type: u64 = T::kind();
        self.storage_server.handle(&request_type)
    }
}

/// At most once: whenever `pop_asset` has handed out the asset of a handle,
/// the server is left in a state in which the same call is answered with
/// `NOT_COMPLETED_ERROR` and changes nothing. The same holds after any call
/// that found the handle ready, whatever the registry then gave.
pub proof fn lemma_pop_asset_at_most_once<T: AssetPayload>(
    before: AssetServer,
    after: AssetServer,
    handle: AssetHandle,
)
    requires
        before.popped::<T>(&after, handle),
        before.is_ready::<T>(handle),
    ensures
        !after.can_pop_asset::<T>(handle),
        after.pop_asset_error::<T>(handle) == NOT_COMPLETED_ERROR,
        !after.storage().data().contains_key(handle),
        forall|later: AssetServer|
            after.popped::<T>(&later, handle) ==> later.executor() == after.executor()
                && later.storage().data() == after.storage().data() && later.failures()
                == after.failures(),
{
}

/// Not ready is not failed: for a type that has a storage, a handle whose
/// work has not finished is answered with `NOT_COMPLETED_ERROR`, and that
/// answer is none of the errors with which the registry reports missing or
/// mistyped data, nor the one for a type without storage, nor any reason
/// for which a file or texture task fails.
pub proof fn lemma_not_ready_is_distinct<T: AssetPayload>(server: AssetServer, handle: AssetHandle)
    requires
        server.storage().kinds().contains(T::kind_spec()),
        !server.executor().ready.contains(handle),
    ensures
        !server.can_pop_asset::<T>(handle),
        server.pop_asset_error::<T>(handle) == NOT_COMPLETED_ERROR,
        NOT_COMPLETED_ERROR != crate::assets::storage::ERASED_LOAD_ERROR,
        NOT_COMPLETED_ERROR != crate::assets::storage_server::POP_NO_STORAGE_ERROR,
        NOT_COMPLETED_ERROR != crate::assets::storage_server::POP_DOWNCAST_ERROR,
        NOT_COMPLETED_ERROR != TYPE_NOT_FOUND_ERROR,
        NOT_COMPLETED_ERROR != crate::assets::processors::files::FILE_READ_ERROR,
        NOT_COMPLETED_ERROR != crate::assets::processors::files::FILE_STORE_ERROR,
        NOT_COMPLETED_ERROR != crate::assets::processors::textures::TEXTURE_OPEN_ERROR,
        NOT_COMPLETED_ERROR != crate::assets::processors::textures::TEXTURE_DECODE_ERROR,
        NOT_COMPLETED_ERROR != crate::assets::processors::textures::TEXTURE_INSERT_ERROR,
{
    reveal_strlit("failed to read file");
    reveal_strlit("[storage container] failed to store data");
    reveal_strlit("failed to open texture file");
    reveal_strlit("failed to decode texture file");
    reveal_strlit("failed to insert texture in data storage");
    assert(crate::assets::processors::files::FILE_READ_ERROR@.len() != 20);
    assert(crate::assets::processors::files::FILE_STORE_ERROR@.len() != 20);
    assert(crate::assets::processors::textures::TEXTURE_OPEN_ERROR@.len() != 20);
    assert(crate::assets::processors::textures::TEXTURE_DECODE_ERROR@.len() != 20);
    assert(crate::assets::processors::textures::TEXTURE_INSERT_ERROR@.len() != 20);
    reveal_strlit("handle not completed");
    reveal_strlit("handle type not found");
    reveal_strlit("[erased asset server] load failed to downcast data");
    reveal_strlit("[server container] failed to get server");
    reveal_strlit("[server container] failed to downcast data");
    let n = NOT_COMPLETED_ERROR@;
    assert(n.len() == 20);
    assert(crate::assets::storage::ERASED_LOAD_ERROR@.len() != 20);
    assert(crate::assets::storage_server::POP_NO_STORAGE_ERROR@.len() != 20);
    assert(crate::assets::storage_server::POP_DOWNCAST_ERROR@.len() != 20);
    assert(TYPE_NOT_FOUND_ERROR@.len() != 20);
}

/// A request that was just pushed is not ready unless the same handle was
/// ready before: pushing touches neither the ready set nor the registry.
pub proof fn lemma_push_leaves_not_ready(exe: ExecutorModel, handle: AssetHandle)
    ensures
        exe.after_push(handle).ready == exe.ready,
        exe.after_push(handle).completed == exe.completed,
{
}

} // verus!
