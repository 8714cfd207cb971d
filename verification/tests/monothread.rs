use game::assets::asset_server::AssetServer;
use game::assets::commons::{
    AssetFile, AssetHandle, AssetTexture, ContentReader, ReaderBox, Signal, ThreadWork,
    TEXTURE_KIND,
};
use game::assets::processors::files::{FileLoadTask, FileStorage};
use game::assets::processors::textures::{TextureStorage, TextureTask};
use game::assets::storage_server::{StorageEntry, StorageServer};
use game::assets::uuid::Uuid;
use game::assets::MonoThreadFifoExecutor;

// the kinds used to filter the server requests and associate storages
const TEST_ASSET_PNG_KIND: u64 = 1001;
const TEST_ASSET_TEXTURE_KIND: u64 = 1002;

const FIXTURES_ABSTRACT_JSON: &str = "{\n  \"name\": \"fixtures\",\n  \"abstract\": true\n}\n";

// a 2 by 2 image with an alpha channel
const TEXTURE_11_PNG: [u8; 76] = [
    137, 80, 78, 71, 13, 10, 26, 10, 0, 0, 0, 13, 73, 72, 68, 82, 0, 0, 0, 2, 0, 0, 0, 2, 8, 6, 0,
    0, 0, 114, 182, 13, 36, 0, 0, 0, 19, 73, 68, 65, 84, 120, 218, 99, 248, 207, 192, 240, 31, 12,
    129, 52, 8, 52, 0, 0, 73, 73, 9, 120, 156, 81, 23, 146, 0, 0, 0, 0, 73, 69, 78, 68, 174, 66,
    96, 130,
];

/// Serves the fixture files from memory.
struct Fixtures;

impl ContentReader for Fixtures {
    fn read(&self, path: &str) -> Result<Vec<u8>, String> {
        match path {
            "./tests/fixtures/fixtures_abstract.json" => {
                Ok(FIXTURES_ABSTRACT_JSON.as_bytes().to_vec())
            }
            "./tests/fixtures/texture_11.png" => Ok(TEXTURE_11_PNG.to_vec()),
            _ => Err(format!("could not open file {}", path)),
        }
    }
}

fn fixtures() -> ReaderBox {
    ReaderBox::new(Box::new(Fixtures))
}

fn init_executor() -> (MonoThreadFifoExecutor, StorageServer) {
    let exe = MonoThreadFifoExecutor::new();
    let mut server = StorageServer::default();
    server.register(TEST_ASSET_PNG_KIND, StorageEntry::new(FileStorage::new()));
    server.register(
        TEST_ASSET_TEXTURE_KIND,
        StorageEntry::new(TextureStorage::new()),
    );

    (exe, server)
}

#[test]
fn mono_thread_should_complete_work_with_one_request_test() {
    let (mut exe, mut storage_server) = init_executor();
    let reader = fixtures();
    let task = FileLoadTask::new("./tests/fixtures/fixtures_abstract.json");

    let asset_hdl = AssetHandle {
        internal_id: 1,
        asset_type: TEST_ASSET_PNG_KIND,
    };

    exe.push(ThreadWork::new(Box::new(task), asset_hdl));
    exe.init();
    exe.wait(asset_hdl, &mut storage_server, &reader); // runs the work

    let data: Result<AssetFile, &str> = storage_server.pop_data::<AssetFile>(asset_hdl);

    exe.shutdown(Signal::StopWaitAllPendingWorks, &mut storage_server, &reader);

    assert!(data.is_ok());
    assert!(!data.unwrap().data.is_empty());
}

#[test]
fn mono_thread_should_complete_work_with_multiple_request_test() {
    let (mut exe, mut storage_server) = init_executor();
    let reader = fixtures();

    // start the executor's worker
    exe.init();

    let mut handles: Vec<AssetHandle> = Vec::new();
    for i in 0..50 {
        let handle = AssetHandle {
            internal_id: i,
            asset_type: TEST_ASSET_PNG_KIND,
        };
        handles.push(handle);
        let task = FileLoadTask::new("./tests/fixtures/fixtures_abstract.json");
        exe.push(ThreadWork::new(Box::new(task), handle));
    }

    // shutdown the executor's worker, return once all works are completed
    exe.shutdown(Signal::StopWaitAllPendingWorks, &mut storage_server, &reader);

    for handle in handles {
        let data: Result<AssetFile, &str> = storage_server.pop_data::<AssetFile>(handle);
        assert!(data.is_ok());

        let string_data = String::from_utf8(data.unwrap().data);
        assert!(string_data.is_ok());
        assert!(string_data.iter().len() > 0);
    }
}

#[test]
fn mono_thread_should_load_single_texture() {
    let file_to_load = String::from("./tests/fixtures/texture_11.png");
    let (mut exe, mut storage_server) = init_executor();
    let reader = fixtures();
    let thread_task = TextureTask {
        identifier: file_to_load,
    };
    let handle: AssetHandle = AssetHandle {
        internal_id: 1,
        asset_type: TEST_ASSET_TEXTURE_KIND,
    };
    let worker = ThreadWork::new(Box::new(thread_task), handle);

    exe.push(worker);
    exe.init();
    exe.shutdown(Signal::StopWaitAllPendingWorks, &mut storage_server, &reader);

    let data = storage_server.pop_data::<AssetTexture>(handle);

    if let Err(err) = data {
        println!("error: {}", err);
    }

    assert!(data.is_ok());

    let texture: AssetTexture = data.unwrap();
    assert!(texture.width > 0);
    assert!(texture.height > 0);
    assert!(!texture.data.is_empty());
}

#[test]
fn should_process_texture_loading_when_asset_server_got_request() {
    let mut asset_server = AssetServer::with_reader(fixtures());
    asset_server.configuration.texture_dir = String::from("./tests/fixtures/");

    let texture_name = String::from("texture_11.png");
    asset_server.init();

    let handle: Option<AssetHandle> = asset_server.push_texture_work(texture_name);
    assert!(handle.is_some());

    asset_server.shutdown(Signal::StopWaitAllPendingWorks);

    let result_data = asset_server.pop_texture_asset(handle.unwrap());
    assert!(result_data.is_ok());

    let texture = result_data.unwrap();
    assert!(!texture.data.is_empty());
}

#[test]
fn should_process_textures_loading_when_asset_server_got_requests() {
    let mut asset_server = AssetServer::with_reader(fixtures());
    asset_server.configuration.texture_dir = String::from("./tests/fixtures/");

    let texture_name = String::from("texture_11.png");
    asset_server.init();

    let mut handles: [AssetHandle; 50] = [AssetHandle {
        internal_id: 0,
        asset_type: TEXTURE_KIND,
    }; 50];

    for handle in handles.iter_mut() {
        let result = asset_server.push_texture_work(texture_name.clone());
        assert!(result.is_some());

        let r_handle = result.unwrap();
        *handle = r_handle;
    }

    asset_server.shutdown(Signal::StopWaitAllPendingWorks);

    // the fifty requests name the same texture, so they share one handle:
    // the texture is delivered once
    let mut delivered = 0;
    for handle in handles.iter() {
        assert!(*handle == handles[0]);
        let data = asset_server.pop_asset::<AssetTexture>(*handle);
        if delivered == 0 {
            assert!(data.is_ok());
            assert!(!data.unwrap().data.is_empty());
            delivered += 1;
        } else {
            assert_eq!(data.err(), Some("handle not completed"));
        }
    }
    assert_eq!(delivered, 1);
}

#[test]
fn should_not_pop_asset_with_same_handle() {
    let mut asset_server = AssetServer::with_reader(fixtures());
    asset_server.configuration.texture_dir = String::from("./tests/fixtures/");

    let texture_name = String::from("texture_11.png");
    asset_server.init();

    let handle = asset_server.push_texture_work(texture_name);
    assert!(handle.is_some());

    let maybe_data = asset_server.pop_texture_asset(handle.unwrap());
    assert!(maybe_data.is_err());

    let data: Option<AssetTexture>;

    loop {
        match asset_server.pop_texture_asset(handle.unwrap()) {
            Ok(texture) => {
                data = Option::from(texture);
                break;
            }
            Err(err) => println!("error: {}", err),
        }
        // nothing runs behind the caller's back: give the worker its turn
        asset_server.tick();
    }

    assert!(data.is_some());
    assert!(!data.unwrap().data.is_empty());

    let result = asset_server.pop_texture_asset(handle.unwrap());
    assert!(result.is_err());
}

#[test]
fn should_create_same_hash_handle_when_same_string_is_used() {
    let uuid: Uuid<usize> = Uuid::default();
    let identifier: String = String::from("abcdefgh.txt");

    let handle_a = AssetHandle {
        internal_id: uuid.new(&identifier),
        asset_type: TEXTURE_KIND,
    };
    let handle_b = AssetHandle {
        internal_id: uuid.new(&identifier),
        asset_type: TEXTURE_KIND,
    };

    assert!(handle_a == handle_b);
}
