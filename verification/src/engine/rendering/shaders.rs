//! Shaders by name, and textures as the renderer takes them.

use vstd::prelude::*;
use vstd::string::StringExecFns;
use crate::assets::commons::AssetTexture;

verus! {

/// When a shader is loaded: ahead of time, or when it is first needed.
#[derive(Debug, Copy, Clone, PartialEq, Eq, Structural)]
pub enum ShaderLoadType {
    AOT,
    OnDemand,
}

/// The stage that a shader is written for.
#[derive(Copy, Clone, Debug, PartialEq, Eq, Structural)]
pub enum ShaderType {
    Vertex,
    Fragment,
}

/// A shader by the name of its file.
#[derive(Debug)]
pub struct ShaderInfo {
    pub file_name: String,
    pub load_type: ShaderLoadType,
    pub shader_type: ShaderType,
}

/// The two shaders of a material, either of which may be left to the default.
#[derive(Debug)]
pub struct ShaderPack {
    pub vertex: Option<ShaderInfo>,
    pub fragment: Option<ShaderInfo>,
}

/// Decoded pixels as the graphics device takes them.
#[derive(Debug)]
pub struct Texture {
    pub data: Vec<u8>,
    pub width: u32,
    pub height: u32,
    pub channels: u32,
}

/// How the pixels of a texture are laid out for the graphics device.
#[derive(Debug, Copy, Clone, PartialEq, Eq, Structural)]
pub enum PixelFormat {
    Rgb,
    Rgba,
}

/// The file name that stands for "the engine's own shader of this stage".
pub const DEFAULT_SHADER_NAME: &'static str = "[[default]]";

impl Clone for ShaderInfo {
    fn clone(&self) -> (info: Self)
        ensures
            info.file_name@ == self.file_name@,
            info.load_type == self.load_type,
            info.shader_type == self.shader_type,
    {
        ShaderInfo {
            file_name: self.file_name.clone(),
            load_type: self.load_type,
            shader_type: self.shader_type,
        }
    }
}

impl Clone for ShaderPack {
    fn clone(&self) -> (pack: Self)
        ensures
            pack.vertex is Some == self.vertex is Some,
            pack.fragment is Some == self.fragment is Some,
            pack.vertex is Some ==> pack.vertex->0.file_name@ == self.vertex->0.file_name@
                && pack.vertex->0.load_type == self.vertex->0.load_type
                && pack.vertex->0.shader_type == self.vertex->0.shader_type,
            pack.fragment is Some ==> pack.fragment->0.file_name@ == self.fragment->0.file_name@
                && pack.fragment->0.load_type == self.fragment->0.load_type
                && pack.fragment->0.shader_type == self.fragment->0.shader_type,
    {
        let vertex = match &self.vertex {
            Some(info) => Some(info.clone()),
            None => None,
        };
        let fragment = match &self.fragment {
            Some(info) => Some(info.clone()),
            None => None,
        };
        ShaderPack { vertex, fragment }
    }
}

impl Clone for Texture {
    fn clone(&self) -> (texture: Self)
        ensures
            texture.data@ == self.data@,
            texture.width == self.width,
            texture.height == self.height,
            texture.channels == self.channels,
    {
        Texture {
            data: self.data.clone(),
            width: self.width,
            height: self.height,
            channels: self.channels,
        }
    }
}

impl Texture {
    /// The texture that the renderer makes of a texture asset: the same
    /// pixels with the same dimensions.
    pub fn from_asset(asset: AssetTexture) -> (texture: Texture)
        ensures
            texture.data == asset.data,
            texture.width == asset.width,
            texture.height == asset.height,
            texture.channels == asset.channels,
    {
        Texture {
            data: asset.data,
            width: asset.width,
            height: asset.height,
            channels: asset.channels,
        }
    }

    /// Three channels are red, green and blue; any other count is read as
    /// red, green, blue and alpha.
    pub fn get_format(&self) -> (format: PixelFormat)
        ensures
            format == (if self.channels == 3 {
                PixelFormat::Rgb
            } else {
                PixelFormat::Rgba
            }),
    {
        if self.channels == 3 {
            PixelFormat::Rgb
        } else {
            PixelFormat::Rgba
        }
    }
}

impl ShaderInfo {
    /// The engine's own shader of a stage, loaded when first needed.
    pub fn default(shader_type: ShaderType) -> (info: ShaderInfo)
        ensures
            info.file_name@ == DEFAULT_SHADER_NAME@,
            info.load_type == ShaderLoadType::OnDemand,
            info.shader_type == shader_type,
    {
        ShaderInfo {
            file_name: String::from_str(DEFAULT_SHADER_NAME),
            load_type: ShaderLoadType::OnDemand,
            shader_type,
        }
    }

    /// The shader in the file of this name, loaded ahead of time.
    pub fn with_name(file_name: String, shader_type: ShaderType) -> (info: Self)
        ensures
            info.file_name == file_name,
            info.load_type == ShaderLoadType::AOT,
            info.shader_type == shader_type,
    {
        ShaderInfo { file_name, shader_type, load_type: ShaderLoadType::AOT }
    }
}

} // verus!
