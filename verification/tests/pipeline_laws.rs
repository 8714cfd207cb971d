use game::assets::asset_server::AssetServer;
use game::assets::commons::{
    AssetFile, AssetHandle, AssetPayload, AssetTexture, BytesFile, ContentReader, ErasedAsset,
    NoReader, ReaderBox, Signal, State, TaskResult, ThreadTask, ThreadWork, BYTES_KIND, FILE_KIND,
    TEXTURE_KIND,
};
use game::assets::executor::{WaitOutcome, WorkerAction};
use game::assets::processors::files::{FileLoadTask, FileStorage};
use game::assets::processors::textures::{TextureStorage, TextureTask};
use game::assets::storage::AssetStorage;
use game::assets::storage_server::{StorageEntry, StorageServer};
use game::assets::uuid::Uuid;
use game::assets::MonoThreadFifoExecutor;
use std::sync::{Arc, Mutex};

const FILES: u64 = 11;
const TEXTURES: u64 = 12;

const NOTE_TXT: &str = "a small fixture file\n";

// 2 by 2, with alpha: red, green / blue, half-transparent white
const ALPHA_PNG: [u8; 76] = [
    137, 80, 78, 71, 13, 10, 26, 10, 0, 0, 0, 13, 73, 72, 68, 82, 0, 0, 0, 2, 0, 0, 0, 2, 8, 6, 0,
    0, 0, 114, 182, 13, 36, 0, 0, 0, 19, 73, 68, 65, 84, 120, 218, 99, 248, 207, 192, 240, 31, 12,
    129, 52, 8, 52, 0, 0, 73, 73, 9, 120, 156, 81, 23, 146, 0, 0, 0, 0, 73, 69, 78, 68, 174, 66,
    96, 130,
];

// 2 by 2, without alpha: (10,20,30), (40,50,60) / (70,80,90), (100,110,120)
const OPAQUE_PNG: [u8; 79] = [
    137, 80, 78, 71, 13, 10, 26, 10, 0, 0, 0, 13, 73, 72, 68, 82, 0, 0, 0, 2, 0, 0, 0, 2, 8, 2, 0,
    0, 0, 253, 212, 154, 115, 0, 0, 0, 22, 73, 68, 65, 84, 120, 218, 99, 224, 18, 145, 211, 48,
    178, 97, 112, 11, 136, 74, 201, 171, 0, 0, 15, 24, 3, 13, 185, 185, 232, 100, 0, 0, 0, 0, 73,
    69, 78, 68, 174, 66, 96, 130,
];

struct Fixtures;

impl ContentReader for Fixtures {
    fn read(&self, path: &str) -> Result<Vec<u8>, String> {
        match path {
            "fixtures/note.txt" => Ok(NOTE_TXT.as_bytes().to_vec()),
            "fixtures/alpha.png" => Ok(ALPHA_PNG.to_vec()),
            "fixtures/opaque.png" => Ok(OPAQUE_PNG.to_vec()),
            "fixtures/broken.png" => Ok(NOTE_TXT.as_bytes().to_vec()),
            "fixtures/alpha.unknown" => Ok(ALPHA_PNG.to_vec()),
            _ => Err(format!("could not open file {}", path)),
        }
    }
}

fn fixtures() -> ReaderBox {
    ReaderBox::new(Box::new(Fixtures))
}

fn registry() -> StorageServer {
    let mut server = StorageServer::default();
    server.register(FILES, StorageEntry::new(FileStorage::new()));
    server.register(TEXTURES, StorageEntry::new(TextureStorage::new()));
    server
}

fn file_handle(id: u64) -> AssetHandle {
    AssetHandle {
        internal_id: id,
        asset_type: FILES,
    }
}

fn texture_handle(id: u64) -> AssetHandle {
    AssetHandle {
        internal_id: id,
        asset_type: TEXTURES,
    }
}

fn file_work(path: &str, handle: AssetHandle) -> ThreadWork {
    ThreadWork::new(Box::new(FileLoadTask::new(path)), handle)
}

/// Writes its number into a shared log when it runs.
struct LogTask {
    number: u64,
    log: Arc<Mutex<Vec<u64>>>,
}

impl ThreadTask for LogTask {
    fn invoke(
        &mut self,
        _asset_handle: AssetHandle,
        _storage: &mut StorageServer,
        _reader: &ReaderBox,
    ) -> TaskResult {
        self.log.lock().unwrap().push(self.number);
        TaskResult::Success
    }
}

#[test]
fn works_finish_in_the_order_of_pushing() {
    let log = Arc::new(Mutex::new(Vec::new()));
    let mut exe = MonoThreadFifoExecutor::new();
    let mut storage = registry();
    let reader = fixtures();
    for number in 0..20u64 {
        let task = LogTask {
            number,
            log: log.clone(),
        };
        exe.push(ThreadWork::new(Box::new(task), file_handle(100 - number)));
    }
    exe.init();
    exe.shutdown(Signal::StopWaitAllPendingWorks, &mut storage, &reader);
    let expected: Vec<u64> = (0..20).collect();
    assert_eq!(*log.lock().unwrap(), expected);
    for number in 0..20u64 {
        assert!(exe.is_completed(&file_handle(100 - number)));
    }
}

#[test]
fn run_next_takes_the_oldest_work() {
    let mut exe = MonoThreadFifoExecutor::new();
    let mut storage = registry();
    let reader = fixtures();
    exe.push(file_work("fixtures/note.txt", file_handle(3)));
    exe.push(file_work("fixtures/missing.txt", file_handle(1)));
    exe.push(file_work("fixtures/note.txt", file_handle(2)));

    let first = exe.run_next(&mut storage, &reader);
    assert!(first == Some((file_handle(3), TaskResult::Success)));
    let second = exe.run_next(&mut storage, &reader);
    assert!(second == Some((file_handle(1), TaskResult::Failed("failed to read file"))));
    let third = exe.run_next(&mut storage, &reader);
    assert!(third == Some((file_handle(2), TaskResult::Success)));
    assert!(exe.run_next(&mut storage, &reader).is_none());
}

#[test]
fn a_completed_handle_is_delivered_once() {
    let mut server = AssetServer::with_reader(fixtures());
    server.configuration.texture_dir = String::from("fixtures");
    server.init();
    let handle = server.push_texture_work(String::from("alpha.png")).unwrap();
    server.shutdown(Signal::StopWaitAllPendingWorks);

    let first = server.pop_asset::<AssetTexture>(handle);
    assert!(first.is_ok());
    assert!(!first.unwrap().data.is_empty());
    for _ in 0..3 {
        let again = server.pop_asset::<AssetTexture>(handle);
        assert_eq!(again.err(), Some("handle not completed"));
    }
}

#[test]
fn a_pushed_handle_is_not_ready_rather_than_failed() {
    let mut server = AssetServer::with_reader(fixtures());
    server.configuration.texture_dir = String::from("fixtures");
    server.init();
    let handle = server.push_texture_work(String::from("alpha.png")).unwrap();
    let polled = server.pop_texture_asset(handle);
    assert_eq!(polled.err(), Some("handle not completed"));
    // the request is still there and still delivers
    assert!(server.tick());
    assert!(server.pop_texture_asset(handle).is_ok());
}

#[test]
fn a_failed_task_is_ready_and_its_data_is_missing() {
    let mut server = AssetServer::with_reader(fixtures());
    server.configuration.texture_dir = String::from("fixtures");
    server.init();
    let missing = server.push_texture_work(String::from("nowhere.png")).unwrap();
    let broken = server.push_texture_work(String::from("broken.png")).unwrap();
    server.shutdown(Signal::StopWaitAllPendingWorks);
    // the poller learns why the work failed
    assert_eq!(
        server.pop_texture_asset(missing).err(),
        Some("failed to open texture file")
    );
    assert_eq!(
        server.pop_texture_asset(broken).err(),
        Some("failed to decode texture file")
    );
    // and only once
    assert_eq!(
        server.pop_texture_asset(missing).err(),
        Some("handle not completed")
    );
}

#[test]
fn the_scheduler_keeps_the_reason_of_a_failure() {
    let mut exe = MonoThreadFifoExecutor::new();
    let mut storage = registry();
    let reader = fixtures();
    exe.init();
    exe.push(file_work("fixtures/missing.txt", file_handle(1)));
    exe.push(file_work("fixtures/note.txt", file_handle(2)));
    exe.run_worker(&mut storage, &reader);
    assert_eq!(exe.failure_of(&file_handle(1)), Some("failed to read file"));
    assert_eq!(exe.failure_of(&file_handle(2)), None);
    assert_eq!(exe.failure_of(&file_handle(3)), None);
    // a later success under the same handle takes the reason away
    exe.push(file_work("fixtures/note.txt", file_handle(1)));
    exe.run_worker(&mut storage, &reader);
    assert_eq!(exe.failure_of(&file_handle(1)), None);
    // and so does acknowledging the handle
    exe.push(file_work("fixtures/missing.txt", file_handle(2)));
    exe.run_worker(&mut storage, &reader);
    assert_eq!(exe.failure_of(&file_handle(2)), Some("failed to read file"));
    exe.pop_handle(&file_handle(2));
    assert_eq!(exe.failure_of(&file_handle(2)), None);
}

#[test]
fn data_left_by_an_earlier_work_is_delivered_after_a_failure() {
    let mut server = AssetServer::with_reader(fixtures());
    server.configuration.texture_dir = String::from("fixtures");
    server.init();
    let handle = server.push_texture_work(String::from("alpha.png")).unwrap();
    assert!(server.tick());
    // the same request again, now from a directory without the file
    server.configuration.texture_dir = String::from("elsewhere");
    let again = server.push_texture_work(String::from("alpha.png")).unwrap();
    assert!(again == handle);
    assert!(server.tick());
    assert!(server.pop_texture_asset(handle).is_ok());
    assert_eq!(
        server.pop_texture_asset(handle).err(),
        Some("handle not completed")
    );
}

#[test]
fn data_asked_for_as_the_wrong_type_is_refused() {
    let mut storage = registry();
    let handle = file_handle(5);
    let pushed = storage.push_data(handle, AssetFile { data: vec![1, 2, 3] });
    assert_eq!(pushed, Ok(0));

    let wrong = storage.pop_data::<AssetTexture>(handle);
    assert_eq!(wrong.err(), Some("[server container] failed to downcast data"));
    // the data left the storage with the failed request
    let late = storage.pop_data::<AssetFile>(handle);
    assert_eq!(
        late.err(),
        Some("[erased asset server] load failed to downcast data")
    );
}

#[test]
fn data_comes_back_as_the_type_it_went_in_as() {
    let mut storage = registry();
    let handle = file_handle(5);
    storage
        .push_data(handle, AssetFile { data: vec![9, 8, 7] })
        .unwrap();
    let back = storage.pop_data::<AssetFile>(handle).unwrap();
    assert_eq!(back.data, vec![9, 8, 7]);
}

#[test]
fn a_storage_refuses_a_value_of_another_type() {
    let mut storage = registry();
    let texture = AssetTexture {
        data: vec![0; 4],
        width: 1,
        height: 1,
        channels: 4,
    };
    let pushed = storage.push_data(file_handle(1), texture);
    assert_eq!(
        pushed,
        Err("[erased asset server] save failed to downcast data")
    );
    assert!(storage.pop_data::<AssetTexture>(file_handle(1)).is_err());
}

#[test]
fn a_kind_without_storage_is_reported() {
    let mut storage = registry();
    let stray = AssetHandle {
        internal_id: 1,
        asset_type: 999,
    };
    assert!(!storage.handle(&999));
    assert!(storage.handle(&FILES));
    assert!(storage.get_storage(&999).is_none());
    assert!(storage.get_storage(&FILES).is_some());
    assert_eq!(
        storage.push_data(stray, AssetFile { data: vec![1] }),
        Err("[server container] failed to push data")
    );
    assert_eq!(
        storage.pop_data::<AssetFile>(stray).err(),
        Some("[server container] failed to get server")
    );
}

#[test]
fn pop_asset_before_init_finds_no_storage_for_the_type() {
    let mut server = AssetServer::default();
    let handle = AssetHandle {
        internal_id: 1,
        asset_type: TEXTURE_KIND,
    };
    assert_eq!(
        server.pop_asset::<AssetTexture>(handle).err(),
        Some("handle type not found")
    );
    assert!(server.push_texture_work(String::from("alpha.png")).is_none());
    assert!(!server.is_type_handled_by_storage::<AssetFile>());
    server.init();
    assert!(server.is_type_handled_by_storage::<AssetFile>());
    assert!(server.is_type_handled_by_storage::<AssetTexture>());
    assert!(!server.is_type_handled_by_storage::<BytesFile>());
}

#[test]
fn a_server_without_reader_fails_its_tasks() {
    let mut server = AssetServer::default();
    server.init();
    let handle = server.push_texture_work(String::from("alpha.png")).unwrap();
    server.shutdown(Signal::StopWaitAllPendingWorks);
    assert!(server.pop_texture_asset(handle).is_err());
    let read = NoReader.read("anything");
    assert_eq!(read, Err(String::from("no content reader")));
}

#[test]
fn the_same_name_gives_the_same_handle() {
    let mut server = AssetServer::with_reader(fixtures());
    server.init();
    let a = server.push_texture_work(String::from("x.png")).unwrap();
    let b = server.push_texture_work(String::from("x.png")).unwrap();
    let c = server.push_texture_work(String::from("y.png")).unwrap();
    assert!(a == b);
    assert!(a != c);
    assert_eq!(a.asset_type, TEXTURE_KIND);

    let uuid: Uuid<AssetHandle> = Uuid::default();
    assert_eq!(uuid.new("x.png"), a.internal_id);
    assert_eq!(uuid.new("x.png"), uuid.new("x.png"));
    assert_ne!(uuid.new("x.png"), uuid.new("x.pnh"));
    assert_ne!(uuid.new(""), uuid.new("x.png"));
}

#[test]
fn counting_gives_a_new_number_each_time() {
    let mut uuid: Uuid<AssetHandle> = Uuid::default();
    assert_eq!(uuid.get_next(), 0);
    assert_eq!(uuid.get_next(), 1);
    assert_eq!(uuid.get_next(), 2);
    assert_eq!(uuid.try_get_next(), Some(3));
    assert_eq!(uuid.try_get_next(), Some(4));
}

#[test]
fn fifty_file_loads_are_all_retrievable_after_a_draining_shutdown() {
    let mut exe = MonoThreadFifoExecutor::new();
    let mut storage = registry();
    let reader = fixtures();
    exe.init();
    for id in 0..50 {
        exe.push(file_work("fixtures/note.txt", file_handle(id)));
    }
    exe.shutdown(Signal::StopWaitAllPendingWorks, &mut storage, &reader);
    for id in 0..50 {
        assert!(exe.is_completed(&file_handle(id)));
        let file = storage.pop_data::<AssetFile>(file_handle(id)).unwrap();
        assert_eq!(file.data, NOTE_TXT.as_bytes());
    }
}

#[test]
fn a_stop_leaves_queued_work_unrun() {
    let mut exe = MonoThreadFifoExecutor::new();
    let mut storage = registry();
    let reader = fixtures();
    exe.init();
    exe.push(file_work("fixtures/note.txt", file_handle(1)));
    exe.shutdown(Signal::Stop, &mut storage, &reader);
    assert!(!exe.is_completed(&file_handle(1)));
    assert_eq!(exe.worker_action(), WorkerAction::Exit);
    assert_eq!(exe.run_worker(&mut storage, &reader), 0);
    assert_eq!(
        exe.wait(file_handle(1), &mut storage, &reader),
        WaitOutcome::Stalled
    );
    assert!(!exe.is_completed(&file_handle(1)));
    assert!(exe.is_pending(&file_handle(1)));
    assert!(storage.pop_data::<AssetFile>(file_handle(1)).is_err());
}

#[test]
fn a_texture_of_two_by_two_pixels_with_alpha() {
    let mut exe = MonoThreadFifoExecutor::new();
    let mut storage = registry();
    let reader = fixtures();
    let task = TextureTask::new(String::from("fixtures/alpha.png"));
    exe.push(ThreadWork::new(Box::new(task), texture_handle(1)));
    exe.init();
    assert_eq!(
        exe.wait(texture_handle(1), &mut storage, &reader),
        WaitOutcome::Completed
    );
    let texture = storage.pop_data::<AssetTexture>(texture_handle(1)).unwrap();
    assert_eq!(texture.width, 2);
    assert_eq!(texture.height, 2);
    assert_eq!(texture.channels, 4);
    assert_eq!(
        texture.data.len(),
        (texture.width * texture.height * texture.channels) as usize
    );
    // the rows come out bottom first
    assert_eq!(
        texture.data,
        vec![0, 0, 255, 255, 255, 255, 255, 128, 255, 0, 0, 255, 0, 255, 0, 255]
    );
}

#[test]
fn a_texture_of_two_by_two_pixels_without_alpha() {
    let task = TextureTask::new(String::from("fixtures/opaque.png"));
    let texture = task.decode(&OPAQUE_PNG).unwrap();
    assert_eq!(texture.width, 2);
    assert_eq!(texture.height, 2);
    assert_eq!(texture.channels, 3);
    assert_eq!(
        texture.data.len(),
        (texture.width * texture.height * texture.channels) as usize
    );
    assert_eq!(
        texture.data,
        vec![70, 80, 90, 100, 110, 120, 10, 20, 30, 40, 50, 60]
    );
}

#[test]
fn texture_parts_make_a_texture() {
    let with_alpha = TextureTask::texture_from_parts(vec![1, 2, 3, 4], 1, 1, true);
    assert_eq!(with_alpha.channels, 4);
    assert_eq!(with_alpha.width, 1);
    assert_eq!(with_alpha.height, 1);
    assert_eq!(with_alpha.data, vec![1, 2, 3, 4]);
    let without = TextureTask::texture_from_parts(vec![1, 2, 3], 1, 1, false);
    assert_eq!(without.channels, 3);
}

#[test]
fn a_texture_task_reports_why_it_failed() {
    let mut storage = registry();
    let handle = texture_handle(1);

    let unread = TextureTask::new(String::from("fixtures/alpha.png"));
    let result = unread.commit(handle, Err(String::from("gone")), &mut storage);
    assert!(result == TaskResult::Failed("failed to open texture file"));

    let broken = TextureTask::new(String::from("fixtures/broken.png"));
    let result = broken.commit(handle, Ok(NOTE_TXT.as_bytes().to_vec()), &mut storage);
    assert!(result == TaskResult::Failed("failed to decode texture file"));

    let unknown = TextureTask::new(String::from("fixtures/alpha.unknown"));
    let result = unknown.commit(handle, Ok(ALPHA_PNG.to_vec()), &mut storage);
    assert!(result == TaskResult::Failed("failed to decode texture file"));
    assert!(unknown.decode(&ALPHA_PNG).is_none());

    let stray = AssetHandle {
        internal_id: 1,
        asset_type: 999,
    };
    let unstored = TextureTask::new(String::from("fixtures/alpha.png"));
    let result = unstored.commit(stray, Ok(ALPHA_PNG.to_vec()), &mut storage);
    assert!(result == TaskResult::Failed("failed to insert texture in data storage"));

    assert!(TextureTask::store(handle, None, &mut storage)
        == TaskResult::Failed("failed to decode texture file"));
    assert!(storage.pop_data::<AssetTexture>(handle).is_err());

    let fine = TextureTask::new(String::from("fixtures/alpha.png"));
    let result = fine.commit(handle, Ok(ALPHA_PNG.to_vec()), &mut storage);
    assert!(result == TaskResult::Success);
    assert!(storage.pop_data::<AssetTexture>(handle).is_ok());
}

#[test]
fn a_file_task_reports_why_it_failed() {
    let mut storage = registry();
    let task = FileLoadTask::new("fixtures/note.txt");
    assert_eq!(task.file_path, "fixtures/note.txt");

    let result = task.commit(file_handle(1), Err(String::from("gone")), &mut storage);
    assert!(result == TaskResult::Failed("failed to read file"));
    assert!(storage.pop_data::<AssetFile>(file_handle(1)).is_err());

    let stray = AssetHandle {
        internal_id: 1,
        asset_type: 999,
    };
    let result = task.commit(stray, Ok(vec![1, 2]), &mut storage);
    assert!(result == TaskResult::Failed("[storage container] failed to store data"));

    // a file handed to the texture storage is refused
    let result = task.commit(texture_handle(1), Ok(vec![1, 2]), &mut storage);
    assert!(result == TaskResult::Failed("[storage container] failed to store data"));

    let result = task.commit(file_handle(1), Ok(vec![1, 2]), &mut storage);
    assert!(result == TaskResult::Success);
    assert_eq!(
        storage.pop_data::<AssetFile>(file_handle(1)).unwrap().data,
        vec![1, 2]
    );
}

#[test]
fn the_file_storage_counts_its_files() {
    let mut files = FileStorage::with_capacity(4);
    assert_eq!(files.save(file_handle(1), AssetFile { data: vec![1] }), Ok(0));
    assert_eq!(files.save(file_handle(2), AssetFile { data: vec![2] }), Ok(1));
    // saving under a handle again makes the handle point at the new file
    assert_eq!(files.save(file_handle(1), AssetFile { data: vec![3] }), Ok(2));
    assert_eq!(files.load(file_handle(1)).unwrap().data, vec![3]);
    assert_eq!(
        files.load(file_handle(1)).err(),
        Some("[file server] couldn't retrieve the asset handle requested")
    );
    assert_eq!(files.load(file_handle(2)).unwrap().data, vec![2]);
    // handles of different kinds with the same number do not collide
    assert_eq!(files.save(file_handle(7), AssetFile { data: vec![7] }), Ok(3));
    assert!(files.load(texture_handle(7)).is_err());
    assert!(files.load(file_handle(7)).is_ok());
}

#[test]
fn the_texture_storage_reports_what_it_replaced() {
    let mut textures = TextureStorage::new();
    let texture = |bytes: usize| AssetTexture {
        data: vec![0; bytes],
        width: 1,
        height: 1,
        channels: 4,
    };
    assert_eq!(textures.save(texture_handle(1), texture(4)), Ok(0));
    assert_eq!(textures.save(texture_handle(1), texture(8)), Ok(4));
    assert_eq!(textures.load(texture_handle(1)).unwrap().data.len(), 8);
    assert_eq!(
        textures.load(texture_handle(1)).err(),
        Some("couldn't find data for asset handle")
    );
}

#[test]
fn payloads_are_erased_and_recovered() {
    let file = AssetFile { data: vec![1, 2] };
    let erased = file.clone().erase();
    assert!(matches!(erased, ErasedAsset::File(_)));
    assert!(AssetTexture::downcast(erased).is_none());
    let back = AssetFile::downcast(file.erase()).unwrap();
    assert_eq!(back.data, vec![1, 2]);

    let bytes = BytesFile {
        len: 2,
        data: vec![1, 2],
    };
    assert!(AssetFile::downcast(bytes.clone().erase()).is_none());
    let back = BytesFile::downcast(bytes.erase()).unwrap();
    assert_eq!(back.len, 2);

    assert_eq!(AssetTexture::kind(), TEXTURE_KIND);
    assert_eq!(AssetFile::kind(), FILE_KIND);
    assert_eq!(BytesFile::kind(), BYTES_KIND);
}

#[test]
fn a_handle_is_its_key() {
    let handle = AssetHandle {
        internal_id: 5,
        asset_type: 2,
    };
    assert_eq!(handle.key(), 2 * 18446744073709551616u128 + 5);
    assert!(AssetHandle::from_key(handle.key()) == handle);
    let largest = AssetHandle {
        internal_id: u64::MAX,
        asset_type: u64::MAX,
    };
    assert_eq!(largest.key(), u128::MAX);
    assert!(AssetHandle::from_key(u128::MAX) == largest);
    let swapped = AssetHandle {
        internal_id: 2,
        asset_type: 5,
    };
    assert_ne!(handle.key(), swapped.key());
}

#[test]
fn handles_are_ordered_by_kind_then_number() {
    let handle = |asset_type: u64, internal_id: u64| AssetHandle {
        internal_id,
        asset_type,
    };
    assert!(handle(1, 9) < handle(2, 0));
    assert!(handle(2, 0) < handle(2, 1));
    assert!(handle(2, 1) > handle(1, u64::MAX));
    let samples = [handle(0, 0), handle(0, 5), handle(1, 0), handle(1, 5), handle(7, 3)];
    for a in samples.iter() {
        for b in samples.iter() {
            assert_eq!(a < b, a.key() < b.key());
            assert_eq!(a == b, a.key() == b.key());
        }
    }
}

#[test]
fn a_signal_alone_runs_nothing() {
    let mut exe = MonoThreadFifoExecutor::new();
    exe.init();
    exe.push(file_work("fixtures/note.txt", file_handle(1)));
    exe.signal(Signal::StopWaitAllPendingWorks);
    assert!(exe.shutdown == Signal::StopWaitAllPendingWorks);
    assert!(!exe.is_completed(&file_handle(1)));
    assert_eq!(exe.worker_action(), WorkerAction::Run);
}

#[test]
fn a_new_work_has_not_run() {
    let work = file_work("fixtures/note.txt", file_handle(4));
    assert!(work.asset_handle == file_handle(4));
    assert!(work.state == State::Init);
    assert!(work.task_result == TaskResult::Undefined);
}

#[test]
fn the_worker_decides_by_signal_and_queue() {
    let mut exe = MonoThreadFifoExecutor::new();
    let mut storage = registry();
    let reader = fixtures();
    // no worker yet
    assert_eq!(exe.worker_action(), WorkerAction::Exit);
    assert!(!exe.can_run());
    assert!(!exe.is_running());
    assert!(exe.try_init());
    assert!(!exe.try_init());
    assert!(exe.is_running());
    assert!(exe.running);
    assert_eq!(exe.worker_action(), WorkerAction::Park);
    exe.push(file_work("fixtures/note.txt", file_handle(1)));
    assert_eq!(exe.worker_action(), WorkerAction::Run);
    exe.shutdown(Signal::Stop, &mut storage, &reader);
    assert!(exe.shutdown == Signal::Stop);
    assert_eq!(exe.worker_action(), WorkerAction::Exit);
    // `Nop` is no signal: the stop stands
    exe.shutdown(Signal::Nop, &mut storage, &reader);
    assert!(exe.shutdown == Signal::Stop);
    assert_eq!(exe.worker_action(), WorkerAction::Exit);
    exe.signal(Signal::Nop);
    assert!(exe.shutdown == Signal::Stop);
    assert_eq!(exe.run_worker(&mut storage, &reader), 0);
    assert!(!exe.is_completed(&file_handle(1)));
    assert!(exe.is_pending(&file_handle(1)));

    let mut exe = MonoThreadFifoExecutor::new();
    exe.init();
    exe.push(file_work("fixtures/note.txt", file_handle(1)));
    // before any other signal `Nop` changes nothing either
    exe.shutdown(Signal::Nop, &mut storage, &reader);
    assert!(exe.shutdown == Signal::Nop);
    assert!(!exe.is_completed(&file_handle(1)));
    assert_eq!(exe.worker_action(), WorkerAction::Run);
    assert_eq!(exe.run_worker(&mut storage, &reader), 1);
    assert_eq!(exe.worker_action(), WorkerAction::Park);
    exe.shutdown(Signal::StopWaitAllPendingWorks, &mut storage, &reader);
    assert_eq!(exe.worker_action(), WorkerAction::Exit);
    // the worker is gone: work pushed now stays
    exe.push(file_work("fixtures/note.txt", file_handle(2)));
    exe.shutdown(Signal::Nop, &mut storage, &reader);
    assert!(exe.shutdown == Signal::StopWaitAllPendingWorks);
    assert_eq!(exe.worker_action(), WorkerAction::Exit);
    assert_eq!(exe.run_worker(&mut storage, &reader), 0);
    assert!(!exe.is_completed(&file_handle(2)));
}

#[test]
fn wait_runs_the_queue_up_to_the_handle() {
    let mut exe = MonoThreadFifoExecutor::new();
    let mut storage = registry();
    let reader = fixtures();
    for id in 0..5 {
        exe.push(file_work("fixtures/note.txt", file_handle(id)));
    }
    // before the worker is started nothing can finish
    assert_eq!(
        exe.wait(file_handle(2), &mut storage, &reader),
        WaitOutcome::Stalled
    );
    exe.init();
    assert_eq!(
        exe.wait(file_handle(9), &mut storage, &reader),
        WaitOutcome::NotFound
    );
    assert_eq!(
        exe.wait(file_handle(2), &mut storage, &reader),
        WaitOutcome::Completed
    );
    for id in 0..3 {
        assert!(exe.is_completed(&file_handle(id)));
        assert!(!exe.is_pending(&file_handle(id)));
    }
    for id in 3..5 {
        assert!(!exe.is_completed(&file_handle(id)));
        assert!(exe.is_pending(&file_handle(id)));
    }
    assert_eq!(
        exe.wait(file_handle(2), &mut storage, &reader),
        WaitOutcome::NotFound
    );
}

#[test]
fn the_worker_takes_and_completes() {
    let mut exe = MonoThreadFifoExecutor::new();
    exe.init();
    assert!(exe.take_next().is_none());
    exe.push(file_work("fixtures/note.txt", file_handle(1)));
    exe.push(file_work("fixtures/note.txt", file_handle(2)));
    let taken = exe.take_next().unwrap();
    assert!(taken.asset_handle == file_handle(1));
    assert!(taken.state == State::Running);
    assert!(exe.is_pending(&file_handle(1)));
    assert!(!exe.can_run());
    assert!(!exe.is_completed(&file_handle(1)));
    let done = exe.complete(taken, TaskResult::Failed("no luck"));
    assert!(done.state == State::Completed);
    assert!(done.task_result == TaskResult::Failed("no luck"));
    assert!(exe.is_completed(&file_handle(1)));
    assert!(!exe.is_pending(&file_handle(1)));
    assert!(exe.can_run());
    exe.worker_exited();
    assert!(!exe.can_run());
}

#[test]
fn popping_a_handle_twice_is_harmless() {
    let mut exe = MonoThreadFifoExecutor::new();
    let mut storage = registry();
    let reader = fixtures();
    exe.init();
    exe.push(file_work("fixtures/note.txt", file_handle(1)));
    exe.push(file_work("fixtures/note.txt", file_handle(2)));
    exe.run_worker(&mut storage, &reader);
    exe.pop_handle(&file_handle(1));
    assert!(!exe.is_completed(&file_handle(1)));
    exe.pop_handle(&file_handle(1));
    assert!(!exe.is_completed(&file_handle(1)));
    assert!(exe.is_completed(&file_handle(2)));
    exe.pop_handle(&file_handle(3));
    assert!(exe.is_completed(&file_handle(2)));
}

#[test]
fn a_second_init_keeps_what_is_stored() {
    let mut server = AssetServer::with_reader(fixtures());
    server.configuration.texture_dir = String::from("fixtures/");
    assert_eq!(server.configuration.asset_dir, "./assets");
    assert_eq!(server.configuration.shader_dir, "./assets/shaders");
    server.init();
    let handle = server.push_texture_work(String::from("alpha.png")).unwrap();
    assert!(server.tick());
    assert!(!server.tick());
    // a second init keeps the worker and the storages with what they hold
    server.init();
    let texture = server.pop_texture_asset(handle).unwrap();
    assert_eq!(texture.width, 2);
    assert_eq!(texture.data.len(), 16);
    // a shutdown before init does nothing
    let mut idle = AssetServer::with_reader(fixtures());
    idle.shutdown(Signal::StopWaitAllPendingWorks);
    assert!(!idle.tick());
}

#[test]
fn a_kind_keeps_its_first_storage() {
    let mut storage = StorageServer::default();
    assert!(storage.register(FILES, StorageEntry::new(FileStorage::new())));
    storage
        .push_data(file_handle(1), AssetFile { data: vec![4, 5] })
        .unwrap();
    // neither another file storage nor a storage of another type takes its place
    assert!(!storage.register(FILES, StorageEntry::new(FileStorage::new())));
    assert!(!storage.register(FILES, StorageEntry::new(TextureStorage::new())));
    assert_eq!(
        storage.pop_data::<AssetFile>(file_handle(1)).unwrap().data,
        vec![4, 5]
    );
    assert!(storage.register(TEXTURES, StorageEntry::new(TextureStorage::new())));
}

#[test]
fn after_a_stop_a_poll_says_not_ready() {
    let mut server = AssetServer::with_reader(fixtures());
    server.configuration.texture_dir = String::from("fixtures");
    server.init();
    let handle = server.push_texture_work(String::from("alpha.png")).unwrap();
    server.shutdown(Signal::Stop);
    for _ in 0..3 {
        assert_eq!(
            server.pop_texture_asset(handle).err(),
            Some("handle not completed")
        );
        assert!(!server.tick());
    }
    // `Nop` does not take the stop back
    server.shutdown(Signal::Nop);
    server.signal(Signal::Nop);
    assert!(!server.tick());
    assert_eq!(server.worker_action(), WorkerAction::Exit);
    assert!(server.is_type_handled_by_storage::<AssetTexture>());
}

#[test]
fn a_request_is_a_task_and_a_handle() {
    let mut server = AssetServer::with_reader(fixtures());
    server.configuration.texture_dir = String::from("fixtures");
    let (task, handle) = server.texture_request("alpha.png");
    assert_eq!(task.identifier, "fixtures/alpha.png");
    assert_eq!(handle.asset_type, TEXTURE_KIND);
    let uuid: Uuid<AssetHandle> = Uuid::default();
    assert_eq!(handle.internal_id, uuid.new("alpha.png"));
    server.init();
    assert!(server.push_texture_work(String::from("alpha.png")) == Some(handle));
    server.configuration.texture_dir = String::from("/root/textures/");
    let (task, again) = server.texture_request("beta.png");
    assert_eq!(task.identifier, "/root/textures/beta.png");
    assert!(again != handle);
}

#[test]
fn the_worker_of_a_server_takes_runs_and_completes() {
    let mut server = AssetServer::with_reader(fixtures());
    server.configuration.texture_dir = String::from("fixtures");
    server.init();
    assert_eq!(server.worker_action(), WorkerAction::Park);
    assert!(server.take_work().is_none());
    let handle = server.push_texture_work(String::from("alpha.png")).unwrap();
    assert_eq!(server.worker_action(), WorkerAction::Run);
    assert!(server.in_flight().is_none());
    let mut work = server.take_work().unwrap();
    assert!(work.asset_handle == handle);
    assert!(server.in_flight() == Some(handle));
    // with a work in hand nothing else runs
    assert!(!server.tick());
    let result = server.invoke_work(&mut work);
    assert!(result == TaskResult::Success);
    assert_eq!(
        server.pop_texture_asset(handle).err(),
        Some("handle not completed")
    );
    let done = server.complete_work(work, result);
    assert!(done.state == State::Completed);
    assert!(server.in_flight().is_none());
    assert!(server.pop_texture_asset(handle).is_ok());
    server.worker_exited();
    assert_eq!(server.worker_action(), WorkerAction::Exit);
}

#[test]
fn a_worker_with_a_work_in_hand_starts_no_other() {
    let mut exe = MonoThreadFifoExecutor::new();
    let mut storage = registry();
    let reader = fixtures();
    exe.init();
    exe.push(file_work("fixtures/note.txt", file_handle(1)));
    exe.push(file_work("fixtures/note.txt", file_handle(2)));
    let taken = exe.take_next().unwrap();
    assert!(exe.in_flight() == Some(file_handle(1)));
    assert!(exe.run_next(&mut storage, &reader).is_none());
    assert_eq!(exe.run_worker(&mut storage, &reader), 0);
    exe.shutdown(Signal::StopWaitAllPendingWorks, &mut storage, &reader);
    assert!(exe.is_pending(&file_handle(2)));
    assert!(!exe.is_completed(&file_handle(2)));
    exe.complete(taken, TaskResult::Success);
    assert!(exe.in_flight().is_none());
    assert_eq!(exe.run_worker(&mut storage, &reader), 1);
    assert!(exe.is_completed(&file_handle(2)));
}
