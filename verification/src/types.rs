//! Plain values that describe targets, formats and vertex layouts.
//!
//! Numbers that the graphics API takes as floating point are held as their
//! IEEE-754 bit patterns: the crate stores and compares them and never
//! computes with them.

use vstd::prelude::*;

verus! {

/// The size of a texture or of a frame target, in texels.
#[derive(Clone, Copy, Debug, PartialEq, Eq)]
pub struct Extent3d {
    pub width: u32,
    pub height: u32,
    pub depth_or_array_layers: u32,
}

/// An RGBA color. Each channel is the bit pattern of a 64-bit float.
#[derive(Clone, Copy, Debug, PartialEq, Eq)]
pub struct Color {
    pub r: u64,
    pub g: u64,
    pub b: u64,
    pub a: u64,
}

/// Bit pattern of the 64-bit float `0.2`.
pub const F64_ONE_FIFTH: u64 = 0x3FC9_9999_9999_999A;

/// Bit pattern of the 64-bit float `1.0`.
pub const F64_ONE: u64 = 0x3FF0_0000_0000_0000;

/// The background that every frame is cleared to: `(0.2, 0.2, 0.2, 1.0)`.
pub open spec fn background_color() -> Color {
    Color { r: F64_ONE_FIFTH, g: F64_ONE_FIFTH, b: F64_ONE_FIFTH, a: F64_ONE }
}

/// The background that every frame is cleared to.
pub fn background() -> (color: Color)
    ensures
        color == background_color(),
{
    Color { r: F64_ONE_FIFTH, g: F64_ONE_FIFTH, b: F64_ONE_FIFTH, a: F64_ONE }
}

/// Texel formats of the targets and textures that the renderer uses.
#[derive(Clone, Copy, Debug, PartialEq, Eq)]
pub enum TextureFormat {
    Bgra8Unorm,
    Bgra8UnormSrgb,
    Rgba8Unorm,
    Rgba8UnormSrgb,
    Depth32Float,
}

impl TextureFormat {
    /// Bytes that one texel takes.
    pub open spec fn texel_size(self) -> nat {
        4
    }
}

/// What a render pass does to its attachment before it draws.
#[derive(Clone, Copy, Debug, PartialEq, Eq)]
pub enum LoadOp {
    /// Overwrite every texel with the color.
    Clear(Color),
    /// Keep what the attachment holds.
    Load,
}

/// Load and store behaviour of an attachment in a render pass.
#[derive(Clone, Copy, Debug, PartialEq, Eq)]
pub struct Operations {
    pub load: LoadOp,
    /// Whether the pass writes its result back to the attachment.
    pub store: bool,
}

/// Width of the indices in an index buffer.
#[derive(Clone, Copy, Debug, PartialEq, Eq)]
pub enum IndexFormat {
    Uint16,
    Uint32,
}

impl IndexFormat {
    /// Bytes that one index takes.
    pub open spec fn size(self) -> nat {
        match self {
            IndexFormat::Uint16 => 2,
            IndexFormat::Uint32 => 4,
        }
    }
}

/// How the vertices of a draw call are assembled into primitives.
#[derive(Clone, Copy, Debug, PartialEq, Eq)]
pub enum PrimitiveTopology {
    PointList,
    LineList,
    LineStrip,
    TriangleList,
    TriangleStrip,
}

/// The shader stage that can see a binding.
#[derive(Clone, Copy, Debug, PartialEq, Eq)]
pub enum ShaderStage {
    Vertex,
    Fragment,
}

/// Format of one vertex attribute.
#[derive(Clone, Copy, Debug, PartialEq, Eq)]
pub enum VertexFormat {
    Float32x2,
    Float32x3,
}

impl VertexFormat {
    /// Bytes that an attribute of this format takes.
    pub open spec fn spec_size(self) -> u64 {
        match self {
            VertexFormat::Float32x2 => 8,
            VertexFormat::Float32x3 => 12,
        }
    }

    /// Bytes that an attribute of this format takes.
    #[verifier::when_used_as_spec(spec_size)]
    pub fn size(self) -> (bytes: u64)
        ensures
            bytes == self.spec_size(),
    {
        match self {
            VertexFormat::Float32x2 => 8,
            VertexFormat::Float32x3 => 12,
        }
    }
}

/// Whether a vertex buffer advances per vertex or per instance.
#[derive(Clone, Copy, Debug, PartialEq, Eq)]
pub enum InputStepMode {
    Vertex,
    Instance,
}

/// One attribute of a vertex: where it lies in the vertex and which shader
/// input it feeds.
#[derive(Clone, Copy, Debug, PartialEq, Eq)]
pub struct VertexAttribute {
    pub offset: u64,
    pub shader_location: u32,
    pub format: VertexFormat,
}

/// The layout of the vertices in a vertex buffer.
#[derive(Debug, PartialEq, Eq)]
pub struct VertexBufferLayout {
    /// Bytes from one vertex to the next.
    pub array_stride: u64,
    pub step_mode: InputStepMode,
    pub attributes: Vec<VertexAttribute>,
}

impl VertexBufferLayout {
    /// Every attribute lies inside one vertex, and no two attributes feed the
    /// same shader input or share a byte.
    pub open spec fn well_formed(&self) -> bool {
        &&& forall|i: int|
            0 <= i < self.attributes@.len() ==> (#[trigger] self.attributes@[i]).offset
                + self.attributes@[i].format.spec_size() <= self.array_stride
        &&& forall|i: int, j: int|
            0 <= i < j < self.attributes@.len() ==> {
                let a = #[trigger] self.attributes@[i];
                let b = #[trigger] self.attributes@[j];
                &&& a.shader_location != b.shader_location
                &&& (a.offset + a.format.spec_size() <= b.offset || b.offset
                    + b.format.spec_size() <= a.offset)
            }
    }
}

/// What a buffer may be used for.
#[derive(Clone, Copy, Debug, PartialEq, Eq)]
pub struct BufferUsage {
    pub vertex: bool,
    pub index: bool,
    pub uniform: bool,
    pub copy_dst: bool,
}

/// How a sampler treats texture coordinates outside `[0, 1]`.
#[derive(Clone, Copy, Debug, PartialEq, Eq)]
pub enum AddressMode {
    ClampToEdge,
    /// The texture repeats: coordinate `c` samples at the fractional part of `c`.
    Repeat,
    MirrorRepeat,
}

/// How a sampler blends between texels.
#[derive(Clone, Copy, Debug, PartialEq, Eq)]
pub enum FilterMode {
    Nearest,
    Linear,
}

/// The shader program of a pipeline. A program has a vertex stage and a
/// fragment stage under fixed entry-point names.
#[derive(Clone, Copy, Debug, PartialEq, Eq)]
pub enum Shader {
    /// The program of the placeholder triangle, which makes its vertices
    /// from the vertex index.
    Main,
    /// The program of the textured terrain.
    Terrain,
}

impl Shader {
    /// The file that holds the program's source.
    pub fn path(self) -> (path: &'static str)
        ensures
            path@ == (match self {
                Shader::Main => "res/shader/main.wgsl"@,
                Shader::Terrain => "res/shader/terrain.wgsl"@,
            }),
    {
        match self {
            Shader::Main => "res/shader/main.wgsl",
            Shader::Terrain => "res/shader/terrain.wgsl",
        }
    }

    /// The name of the vertex stage, the same in every program.
    pub fn vertex_entry_point(self) -> (name: &'static str)
        ensures
            name@ == "vs_main"@,
    {
        "vs_main"
    }

    /// The name of the fragment stage, the same in every program.
    pub fn fragment_entry_point(self) -> (name: &'static str)
        ensures
            name@ == "fs_main"@,
    {
        "fs_main"
    }
}

} // verus!
