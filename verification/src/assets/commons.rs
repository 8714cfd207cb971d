//! Handles, task states and the payload types that travel through the pipeline.

use vstd::prelude::*;
use crate::assets::storage_server::StorageServer;

verus! {

/// Names one load request: the kind of asset and a number within that kind.
/// Handles are ordered by kind first and by number within a kind.
#[derive(Copy, Clone, Eq, PartialEq, Hash, Ord, PartialOrd, Structural)]
pub struct AssetHandle {
    pub asset_type: u64,
    pub internal_id: u64,
}

/// Where a piece of work stands: queued, being run, or finished.
#[derive(Eq, PartialEq, Hash, Clone, Copy, Structural)]
pub enum State {
    Init,
    Running,
    Completed,
}

/// What the owner of a scheduler asks of its worker.
#[derive(Eq, PartialEq, Hash, Clone, Copy, Structural)]
pub enum Signal {
    Nop,
    Stop,
    StopWaitAllPendingWorks,
}

/// How a task ended. `Undefined` until the task has run.
#[derive(Eq, PartialEq, Hash, Clone, Copy)]
pub enum TaskResult {
    Undefined,
    Success,
    Failed(&'static str),
}

/// Decoded pixels with their dimensions.
pub struct AssetTexture {
    pub data: Vec<u8>,
    pub width: u32,
    pub height: u32,
    pub channels: u32,
}

/// The bytes of a file.
pub struct AssetFile {
    pub data: Vec<u8>,
}

/// A byte buffer with a declared length.
pub struct BytesFile {
    pub len: u32,
    pub data: Vec<u8>,
}

/// Where tasks get the bytes of a file from. The pipeline does not read
/// files itself: whoever runs it hands it a reader.
pub trait ContentReader: Send + Sync {
    /// The bytes found under `path`, or why there are none.
    fn read(&self, path: &str) -> Result<Vec<u8>, String>;
}

/// A reader whose concrete type is forgotten.
pub struct ReaderBox {
    pub reader: Box<dyn ContentReader>,
}

impl ReaderBox {
    /// Wraps a reader: the box holds the reader that was given.
    pub fn new(reader: Box<dyn ContentReader>) -> (boxed: ReaderBox)
        ensures
            boxed == (ReaderBox { reader }),
    {
        ReaderBox { reader }
    }

    /// The bytes that the reader finds under `path`, or why there are none.
    pub fn read(&self, path: &str) -> Result<Vec<u8>, String> {
        self.reader.read(path)
    }
}

/// The reader of a pipeline that was given none: it finds nothing.
pub struct NoReader;

/// What `NoReader` answers to every read.
pub const NO_READER_ERROR: &'static str = "no content reader";

impl ContentReader for NoReader {
    fn read(&self, path: &str) -> (r: Result<Vec<u8>, String>)
        ensures
            r is Err,
            r->Err_0@ == NO_READER_ERROR@,
    {
        Err(NO_READER_ERROR.to_owned())
    }
}

/// A unit of work that the scheduler can run: anything that can be invoked
/// with the handle it is to fulfil, the registry it is to write to and the
/// reader that it may read from.
///
/// A task that succeeds has written its result into the registry under the
/// handle before it returns `Success`; the scheduler moves no data for it.
///
/// A task writes to the storage of its handle's kind and to no other, and
/// registers no storage.
pub trait ThreadTask: Send + Sync {
    fn invoke(
        &mut self,
        asset_handle: AssetHandle,
        storage: &mut StorageServer,
        reader: &ReaderBox,
    ) -> (r: TaskResult)
        ensures
            final(storage).same_but(old(storage), asset_handle.asset_type),
    ;
}

/// A task with the handle it fulfils, its state and, once it ran, its result.
pub struct ThreadWork {
    pub task: Box<dyn ThreadTask>,
    pub asset_handle: AssetHandle,
    pub state: State,
    pub task_result: TaskResult,
}

impl ThreadWork {
    pub fn new(task: Box<dyn ThreadTask>, hdl: AssetHandle) -> (w: Self)
        ensures
            w == (ThreadWork {
                task,
                asset_handle: hdl,
                state: State::Init,
                task_result: TaskResult::Undefined,
            }),
            w.asset_handle == hdl,
            w.state == State::Init,
            w.task_result == TaskResult::Undefined,
    {
        ThreadWork { task, asset_handle: hdl, state: State::Init, task_result: TaskResult::Undefined }
    }
}

/// The mathematical value of a payload, tagged with the type it came from.
pub ghost enum AssetModel {
    Texture { data: Seq<u8>, width: u32, height: u32, channels: u32 },
    File { data: Seq<u8> },
    Bytes { len: u32, data: Seq<u8> },
}

/// A payload whose concrete type is only known at run time.
pub enum ErasedAsset {
    Texture(AssetTexture),
    File(AssetFile),
    Bytes(BytesFile),
}

/// The 2^64 that separates the kind from the number in a handle's key.
pub const KEY_RADIX: u128 = 0x1_0000_0000_0000_0000u128;

impl AssetHandle {
    /// The handle as one integer: the kind in the high half, the number in the low half.
    pub open spec fn key_spec(self) -> u128 {
        (self.asset_type as u128 * KEY_RADIX + self.internal_id as u128) as u128
    }

    /// The handle that a key stands for.
    pub open spec fn of_key(k: u128) -> AssetHandle {
        AssetHandle { internal_id: (k % KEY_RADIX) as u64, asset_type: (k / KEY_RADIX) as u64 }
    }

    pub fn key(&self) -> (k: u128)
        ensures
            k == self.key_spec(),
            AssetHandle::of_key(k) == *self,
    {
        (self.asset_type as u128) * KEY_RADIX + (self.internal_id as u128)
    }

    pub fn from_key(k: u128) -> (h: AssetHandle)
        ensures
            h == AssetHandle::of_key(k),
            h.key_spec() == k,
    {
        AssetHandle { internal_id: (k % KEY_RADIX) as u64, asset_type: (k / KEY_RADIX) as u64 }
    }

    /// Keys order handles by kind first and by number within a kind.
    pub proof fn lemma_key_order(a: AssetHandle, b: AssetHandle)
        ensures
            a.key_spec() < b.key_spec() <==> (a.asset_type < b.asset_type || (a.asset_type
                == b.asset_type && a.internal_id < b.internal_id)),
    {
    }

    /// Two handles have the same key exactly when they are the same handle.
    pub proof fn lemma_key_injective(a: AssetHandle, b: AssetHandle)
        ensures
            a.key_spec() == b.key_spec() <==> a == b,
            AssetHandle::of_key(a.key_spec()) == a,
    {
    }
}

impl Clone for AssetFile {
    fn clone(&self) -> (res: Self)
        ensures
            res.as_model() == self.as_model(),
    {
        AssetFile { data: self.data.clone() }
    }
}

impl Clone for AssetTexture {
    fn clone(&self) -> (res: Self)
        ensures
            res.as_model() == self.as_model(),
    {
        AssetTexture {
            data: self.data.clone(),
            width: self.width,
            height: self.height,
            channels: self.channels,
        }
    }
}

impl Clone for BytesFile {
    fn clone(&self) -> (res: Self)
        ensures
            res.as_model() == self.as_model(),
    {
        BytesFile { len: self.len, data: self.data.clone() }
    }
}

impl AssetTexture {
    /// The texture as a mathematical value.
    pub open spec fn as_model(&self) -> AssetModel {
        AssetModel::Texture {
            data: self.data@,
            width: self.width,
            height: self.height,
            channels: self.channels,
        }
    }
}

impl AssetFile {
    /// The file as a mathematical value.
    pub open spec fn as_model(&self) -> AssetModel {
        AssetModel::File { data: self.data@ }
    }
}

impl BytesFile {
    /// The buffer as a mathematical value.
    pub open spec fn as_model(&self) -> AssetModel {
        AssetModel::Bytes { len: self.len, data: self.data@ }
    }
}

/// The kinds under which the built-in payloads are stored.
pub const TEXTURE_KIND: u64 = 1;

pub const FILE_KIND: u64 = 2;

pub const BYTES_KIND: u64 = 3;

/// A type that can pass through the registry: it can be erased into an
/// [`ErasedAsset`] and recovered from one by a checked downcast.
pub trait AssetPayload: Sized {
    /// The kind that stands for this type, as `kind` returns it.
    spec fn kind_spec() -> u64;

    /// The mathematical value of the payload.
    spec fn model(&self) -> AssetModel;

    /// Whether a mathematical value is one of this type.
    spec fn holds(m: AssetModel) -> bool;

    fn kind() -> (k: u64)
        ensures
            k == Self::kind_spec(),
    ;

    fn erase(self) -> (e: ErasedAsset)
        ensures
            e.model() == self.model(),
    ;

    fn downcast(e: ErasedAsset) -> (r: Option<Self>)
        ensures
            match r {
                Some(v) => Self::holds(e.model()) && v.model() == e.model(),
                None => !Self::holds(e.model()),
            },
    ;

    /// Every value of the type is one of the type's mathematical values.
    proof fn lemma_model_holds(&self)
        ensures
            Self::holds(self.model()),
    ;
}

impl AssetPayload for AssetTexture {
    open spec fn kind_spec() -> u64 {
        TEXTURE_KIND
    }

    open spec fn model(&self) -> AssetModel {
        self.as_model()
    }

    open spec fn holds(m: AssetModel) -> bool {
        m is Texture
    }

    fn kind() -> (k: u64) {
        TEXTURE_KIND
    }

    fn erase(self) -> (e: ErasedAsset) {
        ErasedAsset::Texture(self)
    }

    fn downcast(e: ErasedAsset) -> (r: Option<Self>) {
        match e {
            ErasedAsset::Texture(t) => Some(t),
            _ => None,
        }
    }

    proof fn lemma_model_holds(&self) {
    }
}

impl AssetPayload for AssetFile {
    open spec fn kind_spec() -> u64 {
        FILE_KIND
    }

    open spec fn model(&self) -> AssetModel {
        self.as_model()
    }

    open spec fn holds(m: AssetModel) -> bool {
        m is File
    }

    fn kind() -> (k: u64) {
        FILE_KIND
    }

    fn erase(self) -> (e: ErasedAsset) {
        ErasedAsset::File(self)
    }

    fn downcast(e: ErasedAsset) -> (r: Option<Self>) {
        match e {
            ErasedAsset::File(f) => Some(f),
            _ => None,
        }
    }

    proof fn lemma_model_holds(&self) {
    }
}

impl AssetPayload for BytesFile {
    open spec fn kind_spec() -> u64 {
        BYTES_KIND
    }

    open spec fn model(&self) -> AssetModel {
        self.as_model()
    }

    open spec fn holds(m: AssetModel) -> bool {
        m is Bytes
    }

    fn kind() -> (k: u64) {
        BYTES_KIND
    }

    fn erase(self) -> (e: ErasedAsset) {
        ErasedAsset::Bytes(self)
    }

    fn downcast(e: ErasedAsset) -> (r: Option<Self>) {
        match e {
            ErasedAsset::Bytes(b) => Some(b),
            _ => None,
        }
    }

    proof fn lemma_model_holds(&self) {
    }
}

impl ErasedAsset {
    pub open spec fn model(&self) -> AssetModel {
        match self {
            ErasedAsset::Texture(t) => t.as_model(),
            ErasedAsset::File(f) => f.as_model(),
            ErasedAsset::Bytes(b) => b.as_model(),
        }
    }
}

} // verus!
