//! Textures: their storage and the task that decodes and commits an image.

use vstd::prelude::*;
use std::collections::HashMap;
use crate::assets::commons::{
    AssetHandle, AssetModel, AssetPayload, AssetTexture, ReaderBox, TaskResult, ThreadTask,
};
use crate::assets::processors::decoding::{
    bytes_of, decoded_image, flipped, format_from_path, format_of_path, has_alpha_of, height_of,
    image_flipv, image_has_alpha, image_height, image_into_bytes, image_width, load_with_format,
    width_of,
};
use crate::assets::processors::{store_payload, stored_data, stored_result};
use crate::assets::storage::AssetStorage;
use crate::assets::storage_server::StorageServer;

verus! {

broadcast use vstd::std_specs::hash::group_hash_axioms;

/// The task's result when the registry did not take the texture.
pub const TEXTURE_INSERT_ERROR: &'static str = "failed to insert texture in data storage";

/// The task's result when the file could not be read.
pub const TEXTURE_OPEN_ERROR: &'static str = "failed to open texture file";

/// The task's result when the file's bytes are no image that can be decoded.
pub const TEXTURE_DECODE_ERROR: &'static str = "failed to decode texture file";

/// Loads one texture: reads the file through the reader, decodes it and
/// saves the pixels in the registry.
pub struct TextureTask {
    pub identifier: String,
}

/// The texture storage's error when `load` finds nothing under the handle.
pub const TEXTURE_MISSING_ERROR: &'static str = "couldn't find data for asset handle";

/// Keeps one texture for each handle that can be loaded.
pub struct TextureStorage {
    data_by_handle: HashMap<u128, AssetTexture>,
}

impl TextureStorage {
    pub fn new() -> (s: Self)
        ensures
            s.contents() == Map::<AssetHandle, AssetModel>::empty(),
    {
        let s = TextureStorage { data_by_handle: HashMap::new() };
        assert(s.contents() =~= Map::<AssetHandle, AssetModel>::empty());
        s
    }
}

impl AssetStorage for TextureStorage {
    type InputData = AssetTexture;

    closed spec fn contents(&self) -> Map<AssetHandle, AssetModel> {
        Map::new(
            |h: AssetHandle| self.data_by_handle@.contains_key(h.key_spec()),
            |h: AssetHandle| self.data_by_handle@[h.key_spec()].as_model(),
        )
    }

    /// A save is answered with the byte count of the texture that it
    /// replaced, 0 if the handle had none.
    open spec fn save_outcome(&self, asset_hdl: AssetHandle, data: AssetModel) -> Result<
        usize,
        &'static str,
    > {
        if self.contents().contains_key(asset_hdl) {
            match self.contents()[asset_hdl] {
                AssetModel::Texture { data, .. } => Ok(data.len() as usize),
                _ => Ok(0),
            }
        } else {
            Ok(0)
        }
    }

    fn save(&mut self, hdl: AssetHandle, data: AssetTexture) -> (r: Result<usize, &'static str>) {
        let ghost model = data.model();
        let inserted = self.data_by_handle.insert(hdl.key(), data);
        proof {
            assert forall|h: AssetHandle| h != hdl implies h.key_spec() != hdl.key_spec() by {
                AssetHandle::lemma_key_injective(h, hdl);
            }
            assert(self.contents() =~= old(self).contents().insert(hdl, model));
        }
        match inserted {
            Some(texture) => Ok(texture.data.len()),
            None => Ok(0),
        }
    }

    fn load(&mut self, hdl: AssetHandle) -> (r: Result<AssetTexture, &'static str>)
        ensures
            r is Err ==> r == Err::<AssetTexture, &'static str>(TEXTURE_MISSING_ERROR),
    {
        let key: u128 = hdl.key();
        let data = self.data_by_handle.remove(&key);
        proof {
            assert forall|h: AssetHandle| h != hdl implies h.key_spec() != hdl.key_spec() by {
                AssetHandle::lemma_key_injective(h, hdl);
            }
        }
        match data {
            Some(data) => {
                assert(self.contents() =~= old(self).contents().remove(hdl));
                Ok(data)
            },
            None => {
                assert(self.contents() =~= old(self).contents());
                Err(TEXTURE_MISSING_ERROR)
            },
        }
    }
}

impl TextureTask {
    pub fn new(identifier: String) -> (task: Self)
        ensures
            task.identifier == identifier,
    {
        Self { identifier }
    }

    /// The number of channels that a texture is given: 4 for an image whose
    /// pixel type has an alpha channel, 3 for any other.
    pub open spec fn channel_count(has_alpha: bool) -> u32 {
        if has_alpha {
            4
        } else {
            3
        }
    }

    /// The texture that a file's bytes decode to, if they do: the size of the
    /// image as decoded, the channel count that goes with its pixel type,
    /// and the bytes of the image turned upside down. No format is known for
    /// the path, or the bytes are no image of that format: no texture.
    pub open spec fn decoded(path: Seq<char>, bytes: Seq<u8>) -> Option<AssetModel> {
        match format_of_path(path) {
            None => None,
            Some(format) => match decoded_image(bytes, format) {
                None => None,
                Some(img) => Some(
                    AssetModel::Texture {
                        data: bytes_of(flipped(img)),
                        width: width_of(img),
                        height: height_of(img),
                        channels: Self::channel_count(has_alpha_of(img)),
                    },
                ),
            },
        }
    }

    /// A texture from what decoding gave.
    pub fn texture_from_parts(data: Vec<u8>, width: u32, height: u32, has_alpha: bool) -> (texture:
        AssetTexture)
        ensures
            texture.data == data,
            texture.width == width,
            texture.height == height,
            texture.channels == Self::channel_count(has_alpha),
    {
        let channels: u32 = if has_alpha {
            4
        } else {
            3
        };
        AssetTexture { data, width, height, channels }
    }

    /// Decodes the bytes of the task's file, whose format the file's name gives.
    pub fn decode(&self, bytes: &[u8]) -> (texture: Option<AssetTexture>)
        ensures
            match texture {
                Some(t) => Self::decoded(self.identifier@, bytes@) == Some(t.model()),
                None => Self::decoded(self.identifier@, bytes@) is None,
            },
    {
        let format = match format_from_path(self.identifier.as_str()) {
            Some(format) => format,
            None => {
                return None;
            },
        };
        match load_with_format(bytes, format) {
            Some(img) => {
                let width: u32 = image_width(&img);
                let height: u32 = image_height(&img);
                let has_alpha: bool = image_has_alpha(&img);
                let img = image_flipv(&img);
                let data: Vec<u8> = image_into_bytes(img);
                Some(Self::texture_from_parts(data, width, height, has_alpha))
            },
            None => None,
        }
    }

    /// What the task does once decoding is over: a texture goes into the
    /// registry under the handle, and the task succeeds if the registry took
    /// it. No texture fails the task and leaves the registry as it was.
    pub fn store(
        asset_handle: AssetHandle,
        texture: Option<AssetTexture>,
        storage: &mut StorageServer,
    ) -> (r: TaskResult)
        ensures
            final(storage).same_but(old(storage), asset_handle.asset_type),
            match texture {
                Some(t) => {
                    &&& r == stored_result(
                        old(storage),
                        asset_handle,
                        t.model(),
                        TEXTURE_INSERT_ERROR,
                    )
                    &&& final(storage).data() == stored_data(old(storage), asset_handle, t.model())
                },
                None => {
                    &&& r == TaskResult::Failed(TEXTURE_DECODE_ERROR)
                    &&& final(storage).storages@ == old(storage).storages@
                },
            },
    {
        match texture {
            Some(texture_file) => store_payload::<AssetTexture>(
                storage,
                asset_handle,
                texture_file,
                TEXTURE_INSERT_ERROR,
            ),
            None => TaskResult::Failed(TEXTURE_DECODE_ERROR),
        }
    }

    /// What the task does with the outcome of the read: decodes the bytes
    /// and stores the texture. A failed read fails the task and leaves the
    /// registry as it was.
    pub fn commit(
        &self,
        asset_handle: AssetHandle,
        read_result: Result<Vec<u8>, String>,
        storage: &mut StorageServer,
    ) -> (r: TaskResult)
        ensures
            final(storage).same_but(old(storage), asset_handle.asset_type),
            match read_result {
                Ok(bytes) => match Self::decoded(self.identifier@, bytes@) {
                    Some(model) => {
                        &&& r == stored_result(
                            old(storage),
                            asset_handle,
                            model,
                            TEXTURE_INSERT_ERROR,
                        )
                        &&& final(storage).data() == stored_data(old(storage), asset_handle, model)
                    },
                    None => {
                        &&& r == TaskResult::Failed(TEXTURE_DECODE_ERROR)
                        &&& final(storage).storages@ == old(storage).storages@
                    },
                },
                Err(_) => {
                    &&& r == TaskResult::Failed(TEXTURE_OPEN_ERROR)
                    &&& final(storage).storages@ == old(storage).storages@
                },
            },
    {
        match read_result {
            Ok(bytes) => {
                let texture = self.decode(bytes.as_slice());
                Self::store(asset_handle, texture, storage)
            },
            Err(_) => TaskResult::Failed(TEXTURE_OPEN_ERROR),
        }
    }
}

impl ThreadTask for TextureTask {
    /// Reads the file and commits what the read gave. Whatever the reader
    /// answers, nothing but the storage of the handle's kind is touched, and
    /// the task succeeds or fails for one of the three reasons of `commit`.
    fn invoke(
        &mut self,
        asset_handle: AssetHandle,
        storage: &mut StorageServer,
        reader: &ReaderBox,
    ) -> (r: TaskResult)
        ensures
            final(storage).same_but(old(storage), asset_handle.asset_type),
            r == TaskResult::Success || r == TaskResult::Failed(TEXTURE_OPEN_ERROR) || r
                == TaskResult::Failed(TEXTURE_DECODE_ERROR) || r == TaskResult::Failed(
                TEXTURE_INSERT_ERROR,
            ),
            r == TaskResult::Failed(TEXTURE_OPEN_ERROR) || r == TaskResult::Failed(
                TEXTURE_DECODE_ERROR,
            ) ==> final(storage).data() == old(storage).data(),
            r == TaskResult::Success ==> final(storage).data().contains_key(asset_handle)
                && final(storage).data()[asset_handle] is Texture,
            final(self).identifier == old(self).identifier,
    {
        proof {
            reveal_strlit("failed to open texture file");
            reveal_strlit("failed to decode texture file");
            reveal_strlit("failed to insert texture in data storage");
            assert(TEXTURE_OPEN_ERROR@.len() != TEXTURE_INSERT_ERROR@.len());
            assert(TEXTURE_DECODE_ERROR@.len() != TEXTURE_INSERT_ERROR@.len());
        }
        let read_result = reader.read(self.identifier.as_str());
        self.commit(asset_handle, read_result, storage)
    }
}

} // verus!
