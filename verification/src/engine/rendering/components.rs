//! Plain data that the renderer passes around.

use vstd::prelude::*;

verus! {

/// How the vertices of a buffer are laid out.
#[derive(Debug)]
pub struct BufferSettings {
    pub keep_vertices: bool,
    pub vertex_size: i32,
    pub uvs_size: i32,
}

/// A frame buffer on the graphics device and the texture it draws into.
#[derive(Debug)]
pub struct FrameBuffer {
    pub self_handle: u32,
    pub texture_attachment: u32,
    pub width: i32,
    pub height: i32,
}

/// What of the camera changed since the last frame.
#[derive(Debug, Clone, Copy)]
pub struct RenderingUpdateState {
    pub camera_settings: bool,
    pub camera_transform: bool,
}

/// Whether a frame is being drawn.
#[derive(Clone, Copy, PartialEq, Eq, Structural)]
pub enum RenderState {
    Opened,
    Closed,
}

/// A rectangle given by a point and its extent.
#[derive(Clone, Copy, Debug)]
pub struct Rect<T> {
    pub x: T,
    pub y: T,
    pub width: T,
    pub height: T,
}

/// A colour with 8 bits for each of red, green, blue and alpha.
#[derive(Clone, Copy, Debug)]
pub struct ARGB8Color {
    pub r: u8,
    pub g: u8,
    pub b: u8,
    pub a: u8,
}

impl BufferSettings {
    /// The layout of a quad: three coordinates and two texture coordinates
    /// for each vertex, the vertices not kept.
    pub fn quad_default() -> (settings: BufferSettings)
        ensures
            !settings.keep_vertices,
            settings.vertex_size == 3,
            settings.uvs_size == 2,
    {
        BufferSettings { keep_vertices: false, vertex_size: 3, uvs_size: 2 }
    }
}

/// The number of bytes of one coordinate of a vertex.
pub const FLOAT_BYTES: usize = 4;

impl BufferSettings {
    /// The number of bytes from one vertex to the next: a vertex is its
    /// coordinates and then its texture coordinates.
    pub fn vertex_stride(&self) -> (stride: usize)
        requires
            0 <= self.vertex_size,
            0 <= self.uvs_size,
            self.vertex_size + self.uvs_size <= i32::MAX,
            FLOAT_BYTES * (self.vertex_size + self.uvs_size) <= usize::MAX,
        ensures
            stride == FLOAT_BYTES * (self.vertex_size + self.uvs_size),
    {
        let count: i32 = self.vertex_size + self.uvs_size;
        FLOAT_BYTES * (count as usize)
    }

    /// The number of bytes from the start of a vertex to its texture coordinates.
    pub fn uvs_offset(&self) -> (offset: usize)
        requires
            0 <= self.vertex_size,
            self.vertex_size * FLOAT_BYTES <= usize::MAX,
        ensures
            offset == self.vertex_size * FLOAT_BYTES,
    {
        (self.vertex_size as usize) * FLOAT_BYTES
    }

    /// The number of bytes of a buffer of `count` coordinates, if the
    /// machine can count that far.
    pub fn buffer_bytes(count: usize) -> (bytes: Option<usize>)
        ensures
            match bytes {
                Some(b) => b == FLOAT_BYTES * count,
                None => FLOAT_BYTES * count > usize::MAX,
            },
    {
        count.checked_mul(FLOAT_BYTES)
    }
}

impl ARGB8Color {
    /// Opaque black.
    pub fn black() -> (color: ARGB8Color)
        ensures
            color == (ARGB8Color { r: 0, g: 0, b: 0, a: 255 }),
    {
        ARGB8Color { r: 0, g: 0, b: 0, a: 255 }
    }

    /// The colour that the engine calls white: 1 in each of red, green and
    /// blue, fully opaque.
    pub fn white() -> (color: ARGB8Color)
        ensures
            color == (ARGB8Color { r: 1, g: 1, b: 1, a: 255 }),
    {
        ARGB8Color { r: 1u8, g: 1u8, b: 1u8, a: 255 }
    }
}

impl RenderingUpdateState {
    /// Forgets every change.
    pub fn reset(&mut self)
        ensures
            !final(self).camera_settings,
            !final(self).camera_transform,
    {
        self.camera_settings = false;
        self.camera_transform = false;
    }
}

} // verus!
