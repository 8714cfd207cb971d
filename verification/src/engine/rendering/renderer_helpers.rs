//! Decisions of the renderer that need no graphics device.

use vstd::prelude::*;
use crate::engine::rendering::renderer_storage::{HandleCountPair, RendererStorage};
use crate::engine::rendering::shaders::{
    ShaderInfo, ShaderLoadType, ShaderPack, ShaderType, DEFAULT_SHADER_NAME,
};

verus! {

pub type MaterialUpdateMask = u8;

/// The bit of an update mask that says the texture changed.
pub const TEXTURE_MASK: u8 = 1;

/// The bit of an update mask that says the colour changed.
pub const COLOR_MASK: u8 = 2;

/// The bit of an update mask that says the transform changed.
pub const TRANSFORM_MASK: u8 = 4;

/// Asks for the texture of a render command to be replaced.
#[derive(Debug)]
pub struct TextureUpdateReq {
    pub handle: usize,
    pub input_texture_handle: Option<(String, u32)>,
}

/// What a render command has to do with textures: the handles that its
/// shader draws with, and the name of its material's texture.
#[derive(Debug)]
pub struct TextureBinding {
    pub texture_handles: Vec<u32>,
    pub main_texture: Option<String>,
}

/// What the renderer does about the texture of a new command.
#[derive(Debug, Copy, Clone, PartialEq, Eq, Structural)]
pub enum TexturePlan {
    /// The texture is on the graphics device: draw with this handle.
    Reuse(u32),
    /// The texture is not there: decode it and put it there.
    Load,
}

/// The shaders to build for a material: its own where it has them, the
/// engine's where it does not; the vertex shader first.
pub fn get_shader_info_or_default(shaders: &ShaderPack) -> (infos: [ShaderInfo; 2])
    ensures
        match shaders.vertex {
            Some(info) => infos[0].file_name@ == info.file_name@ && infos[0].load_type
                == info.load_type && infos[0].shader_type == info.shader_type,
            None => infos[0].file_name@ == DEFAULT_SHADER_NAME@ && infos[0].load_type
                == ShaderLoadType::OnDemand && infos[0].shader_type == ShaderType::Vertex,
        },
        match shaders.fragment {
            Some(info) => infos[1].file_name@ == info.file_name@ && infos[1].load_type
                == info.load_type && infos[1].shader_type == info.shader_type,
            None => infos[1].file_name@ == DEFAULT_SHADER_NAME@ && infos[1].load_type
                == ShaderLoadType::OnDemand && infos[1].shader_type == ShaderType::Fragment,
        },
{
    let vert_info = match &shaders.vertex {
        Some(info) => info.clone(),
        None => ShaderInfo::default(ShaderType::Vertex),
    };
    let frag_info = match &shaders.fragment {
        Some(info) => info.clone(),
        None => ShaderInfo::default(ShaderType::Fragment),
    };
    [vert_info, frag_info]
}

/// Whether two names of textures differ: one is there and the other is not,
/// or both are there and read differently.
pub open spec fn names_differ(a: Option<String>, b: Option<String>) -> bool {
    match (a, b) {
        (Some(x), Some(y)) => x@ != y@,
        (None, None) => false,
        _ => true,
    }
}

/// The update mask of a change of material.
pub open spec fn material_changes_spec(
    rendering_texture: Option<String>,
    updating_texture: Option<String>,
    color_changed: bool,
) -> u8 {
    let texture_bit: u8 = if updating_texture is Some && names_differ(
        updating_texture,
        rendering_texture,
    ) {
        TEXTURE_MASK
    } else {
        0
    };
    let color_bit: u8 = if color_changed {
        COLOR_MASK
    } else {
        0
    };
    (texture_bit + color_bit) as u8
}

/// What of a material has to be sent to the graphics device: the texture
/// if the new material names one that the command does not draw with, the
/// colour if it changed.
pub fn get_material_changes(
    rendering_texture: &Option<String>,
    updating_texture: &Option<String>,
    color_changed: bool,
) -> (update_mask: MaterialUpdateMask)
    ensures
        update_mask == material_changes_spec(*rendering_texture, *updating_texture, color_changed),
{
    let mut update_mask: u8 = 0;
    assert(0u8 | 1u8 == 1u8) by (bit_vector);
    assert(0u8 | 2u8 == 2u8) by (bit_vector);
    assert(1u8 | 2u8 == 3u8) by (bit_vector);
    let texture_changed: bool = match updating_texture {
        Some(updating) => match rendering_texture {
            Some(rendering) => !(*updating == *rendering),
            None => true,
        },
        None => false,
    };
    if texture_changed {
        update_mask |= TEXTURE_MASK;
    }
    if color_changed {
        update_mask |= COLOR_MASK;
    }
    update_mask
}

/// Adds the transform to an update mask if there is a new transform.
pub fn with_transform(update_mask: MaterialUpdateMask, has_transform: bool) -> (mask: u8)
    ensures
        mask == (if has_transform {
            update_mask | TRANSFORM_MASK
        } else {
            update_mask
        }),
{
    if has_transform {
        update_mask | TRANSFORM_MASK
    } else {
        update_mask
    }
}

/// Whether an update mask asks for what a bit stands for.
pub fn asks_for(update_mask: MaterialUpdateMask, bit: u8) -> (r: bool)
    ensures
        r == (update_mask & bit != 0),
{
    (update_mask & bit) != 0
}

/// What to do about the texture of a command: draw with the handle that
/// the texture has on the graphics device, or load it if it has none.
pub fn texture_plan<C: Clone>(store: &RendererStorage<C>, texture_name: &str) -> (plan:
    TexturePlan)
    ensures
        plan == (if store.gpu_textures().contains_key(texture_name@) {
            TexturePlan::Reuse(store.gpu_textures()[texture_name@].handle)
        } else {
            TexturePlan::Load
        }),
{
    if store.has_gpu_texture_refs(texture_name) {
        TexturePlan::Reuse(store.get_gpu_texture_handle(texture_name))
    } else {
        TexturePlan::Load
    }
}

/// The textures on the graphics device after a command gave up its
/// texture, if it had one, and took the one of a request, if it brings one.
pub open spec fn after_texture_update<C: Clone>(
    textures: Map<Seq<char>, HandleCountPair<u32>>,
    previous: Option<String>,
    input: Option<(String, u32)>,
) -> Map<Seq<char>, HandleCountPair<u32>> {
    let released = match previous {
        Some(name) => RendererStorage::<C>::after_decrement(textures, name@),
        None => textures,
    };
    match input {
        Some((name, handle)) => RendererStorage::<C>::after_increment(released, name@, handle),
        None => released,
    }
}

/// Replaces the texture of a command: counts one use fewer of the texture
/// it had, one more of the texture it gets, and makes the command draw
/// with the new texture alone. A request without a texture leaves the
/// command without handles and its material as it was.
pub fn shader_texture_update<C: Clone>(
    store: &mut RendererStorage<C>,
    binding: &mut TextureBinding,
    request: TextureUpdateReq,
)
    requires
        match request.input_texture_handle {
            Some((name, _)) => {
                let released = after_texture_update::<C>(
                    old(store).gpu_textures(),
                    old(binding).main_texture,
                    None,
                );
                released.contains_key(name@) ==> released[name@].count < u32::MAX
            },
            None => true,
        },
    ensures
        final(store).gpu_textures() == after_texture_update::<C>(
            old(store).gpu_textures(),
            old(binding).main_texture,
            request.input_texture_handle,
        ),
        final(store).commands() == old(store).commands(),
        final(store).queue() == old(store).queue(),
        final(store).culled() == old(store).culled(),
        final(store).dangling() == old(store).dangling(),
        match request.input_texture_handle {
            Some((name, handle)) => {
                &&& final(binding).texture_handles@ == seq![handle]
                &&& final(binding).main_texture is Some
                &&& final(binding).main_texture->0@ == name@
            },
            None => {
                &&& final(binding).texture_handles@ == Seq::<u32>::empty()
                &&& final(binding).main_texture == old(binding).main_texture
            },
        },
{
    // If there was a previous texture reduce ref count from the store
    match &binding.main_texture {
        Some(previous_texture) => {
            store.decrement_texture_handle(previous_texture.as_str());
        },
        None => {},
    }
    // Adds the input texture to store (either increments or adds to the ref count)
    match &request.input_texture_handle {
        Some((tex_name, handle)) => {
            store.increment_texture_handle(tex_name.as_str(), *handle);
        },
        None => {},
    }
    // Clear all previous texture handles and adds the input texture to the render command
    // This is done that way because multi texturing is not yet implemented
    binding.texture_handles.clear();
    match &request.input_texture_handle {
        Some((tex_name, handle)) => {
            binding.texture_handles.push(*handle);
            binding.main_texture = Some(tex_name.clone());
            assert(binding.texture_handles@ =~= seq![*handle]);
        },
        None => {},
    }
}

} // verus!
