//! Where the files of each kind lie under the assets directory.

use vstd::prelude::*;
use vstd::string::{StrSliceExecFns, StringExecFns};

verus! {

pub const ASSETS_PATH: &'static str = "assets/";

pub const SHADER_PATH: &'static str = "shaders/";

pub const TEXTURE_PATH: &'static str = "textures/";

pub const MESH_PATH: &'static str = "meshes/";

pub const MATERIAL_PATH: &'static str = "materials/";

#[derive(Debug, Clone, Copy, PartialEq, Eq, Structural)]
pub enum FileType {
    Shader,
    Texture,
    Mesh,
    Material,
}

pub struct FileSystem;

/// The path of `name` under `dir`: `name` alone if it starts at the root,
/// else `dir` and `name` with one `/` between them unless `dir` is empty or
/// brings its own.
pub open spec fn joined_path(dir: Seq<char>, name: Seq<char>) -> Seq<char> {
    if name.len() > 0 && name[0] == '/' {
        name
    } else if dir.len() == 0 || dir.last() == '/' {
        dir + name
    } else {
        dir + seq!['/'] + name
    }
}

pub fn join_path(dir: &str, name: &str) -> (path: String)
    ensures
        path@ == joined_path(dir@, name@),
{
    proof {
        reveal_strlit("/");
    }
    let name_len: usize = name.unicode_len();
    if name_len > 0 && name.get_char(0) == '/' {
        return String::from_str(name);
    }
    let dir_len: usize = dir.unicode_len();
    let mut path = String::from_str(dir);
    if dir_len > 0 && dir.get_char(dir_len - 1) != '/' {
        path.append("/");
        assert("/"@ =~= seq!['/']);
    }
    path.append(name);
    path
}

impl FileSystem {
    /// The directory of a kind of file, under the assets directory.
    pub open spec fn type_path_spec(f_type: FileType) -> Seq<char> {
        match f_type {
            FileType::Material => MATERIAL_PATH@,
            FileType::Shader => SHADER_PATH@,
            FileType::Texture => TEXTURE_PATH@,
            FileType::Mesh => MESH_PATH@,
        }
    }

    pub fn type_path(f_type: FileType) -> (path: &'static str)
        ensures
            path@ == Self::type_path_spec(f_type),
    {
        match f_type {
            FileType::Material => MATERIAL_PATH,
            FileType::Shader => SHADER_PATH,
            FileType::Texture => TEXTURE_PATH,
            FileType::Mesh => MESH_PATH,
        }
    }

    /// The path of a file of a kind: under the working directory, in the
    /// assets directory, in the directory of its kind.
    pub open spec fn path_spec(
        current_dir: Seq<char>,
        file_path: Seq<char>,
        f_type: FileType,
    ) -> Seq<char> {
        joined_path(
            joined_path(joined_path(current_dir, ASSETS_PATH@), Self::type_path_spec(f_type)),
            file_path,
        )
    }

    pub fn get_path(current_dir: &str, file_path: &str, f_type: FileType) -> (path: String)
        ensures
            path@ == Self::path_spec(current_dir@, file_path@, f_type),
    {
        let type_path: &str = Self::type_path(f_type);
        let assets = join_path(current_dir, ASSETS_PATH);
        let typed = join_path(assets.as_str(), type_path);
        join_path(typed.as_str(), file_path)
    }
}

} // verus!
