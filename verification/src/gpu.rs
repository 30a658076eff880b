//! Plain descriptions of the GPU objects that the assembly asks for.
//!
//! Nothing here touches a device. Each type says what is to be created; the
//! layer that owns the device turns a description into the object itself.

use crate::data::Vertex;
use crate::vector::Mat4;
use vstd::bytes::spec_u32_to_le_bytes;
use vstd::prelude::*;

verus! {

/// The bytes of `words` in memory, one word after the other: each word's
/// least significant byte first where `little`, its most significant byte
/// first where not.
pub open spec fn encoded(words: Seq<u32>, little: bool) -> Seq<u8> {
    Seq::new(
        4 * words.len(),
        |i: int|
            if little {
                spec_u32_to_le_bytes(words[i / 4])[i % 4]
            } else {
                spec_u32_to_le_bytes(words[i / 4])[3 - i % 4]
            },
    )
}

/// Calls `bytemuck::cast_slice` from 32-bit words to bytes, which hands out
/// the memory of the words as it lies: four bytes a word, in the byte order
/// of the machine. The cast cannot fail in this direction.
#[verifier::external_body]
fn cast_words(words: &[u32]) -> (bytes: Vec<u8>)
    ensures
        bytes@ == encoded(words@, true) || bytes@ == encoded(words@, false),
{
    bytemuck::cast_slice::<u32, u8>(words).to_vec()
}

/// The shader stages that may read a binding.
#[derive(Copy, Clone, Debug, PartialEq, Eq)]
pub struct ShaderStages {
    pub vertex: bool,
    pub fragment: bool,
    pub compute: bool,
}

impl ShaderStages {
    /// Visible to the vertex stage and to no other.
    pub open spec fn spec_vertex_only() -> ShaderStages {
        ShaderStages { vertex: true, fragment: false, compute: false }
    }

    /// Visible to the fragment stage and to no other.
    pub open spec fn spec_fragment_only() -> ShaderStages {
        ShaderStages { vertex: false, fragment: true, compute: false }
    }

    #[verifier::when_used_as_spec(spec_vertex_only)]
    pub fn vertex_only() -> (stages: ShaderStages)
        ensures
            stages == Self::spec_vertex_only(),
    {
        ShaderStages { vertex: true, fragment: false, compute: false }
    }

    #[verifier::when_used_as_spec(spec_fragment_only)]
    pub fn fragment_only() -> (stages: ShaderStages)
        ensures
            stages == Self::spec_fragment_only(),
    {
        ShaderStages { vertex: false, fragment: true, compute: false }
    }
}

/// How a buffer binding is read.
#[derive(Copy, Clone, Debug, PartialEq, Eq)]
pub enum BufferBindingType {
    Uniform,
    Storage { read_only: bool },
}

/// How a sampler binding samples.
#[derive(Copy, Clone, Debug, PartialEq, Eq)]
pub enum SamplerBindingType {
    Filtering,
    NonFiltering,
    Comparison,
}

/// What a texture binding yields when sampled.
#[derive(Copy, Clone, Debug, PartialEq, Eq)]
pub enum TextureSampleType {
    Float { filterable: bool },
    Depth,
    Sint,
    Uint,
}

/// The shape under which a texture is viewed.
#[derive(Copy, Clone, Debug, PartialEq, Eq)]
pub enum TextureViewDimension {
    D1,
    D2,
    D2Array,
    Cube,
    CubeArray,
    D3,
}

/// The kind of resource behind one binding.
#[derive(Copy, Clone, Debug, PartialEq, Eq)]
pub enum BindingType {
    Buffer { ty: BufferBindingType, has_dynamic_offset: bool, min_binding_size: Option<u64> },
    Sampler(SamplerBindingType),
    Texture {
        sample_type: TextureSampleType,
        view_dimension: TextureViewDimension,
        multisampled: bool,
    },
}

/// One slot of a bind-group layout.
#[derive(Copy, Clone, Debug, PartialEq, Eq)]
pub struct BindGroupLayoutEntry {
    pub binding: u32,
    pub visibility: ShaderStages,
    pub ty: BindingType,
    pub count: Option<u32>,
}

impl BindGroupLayoutEntry {
    /// A whole buffer of the given kind at `binding`, read by the vertex stage,
    /// without dynamic offset, minimum size or array count.
    pub open spec fn spec_vertex_buffer(
        binding: u32,
        ty: BufferBindingType,
    ) -> BindGroupLayoutEntry {
        BindGroupLayoutEntry {
            binding,
            visibility: ShaderStages::spec_vertex_only(),
            ty: BindingType::Buffer { ty, has_dynamic_offset: false, min_binding_size: None },
            count: None,
        }
    }

    #[verifier::when_used_as_spec(spec_vertex_buffer)]
    pub fn vertex_buffer(binding: u32, ty: BufferBindingType) -> (entry: BindGroupLayoutEntry)
        ensures
            entry == Self::spec_vertex_buffer(binding, ty),
    {
        BindGroupLayoutEntry {
            binding,
            visibility: ShaderStages::vertex_only(),
            ty: BindingType::Buffer { ty, has_dynamic_offset: false, min_binding_size: None },
            count: None,
        }
    }
}

/// A bind-group layout to create: a label and its slots in order.
#[derive(Clone, Debug, PartialEq, Eq)]
pub struct BindGroupLayoutDescriptor {
    pub label: String,
    pub entries: Vec<BindGroupLayoutEntry>,
}

impl BindGroupLayoutDescriptor {
    /// The descriptor carries exactly this label and these slots.
    pub open spec fn describes(
        &self,
        label: Seq<char>,
        entries: Seq<BindGroupLayoutEntry>,
    ) -> bool {
        self.label@ == label && self.entries@ == entries
    }
}

/// Which of its owner's resources a bind-group slot refers to.
#[derive(Copy, Clone, Debug, PartialEq, Eq)]
pub enum BindingResource {
    /// The owner's buffer, whole.
    EntireBuffer,
    /// The default view of the owner's texture.
    TextureView,
    /// The owner's sampler.
    Sampler,
}

/// One slot of a bind group.
#[derive(Copy, Clone, Debug, PartialEq, Eq)]
pub struct BindGroupEntry {
    pub binding: u32,
    pub resource: BindingResource,
}

/// A bind group to create against its owner's layout.
#[derive(Clone, Debug, PartialEq, Eq)]
pub struct BindGroupDescriptor {
    pub label: String,
    pub entries: Vec<BindGroupEntry>,
}

impl BindGroupDescriptor {
    /// The descriptor carries exactly this label and these slots.
    pub open spec fn describes(&self, label: Seq<char>, entries: Seq<BindGroupEntry>) -> bool {
        self.label@ == label && self.entries@ == entries
    }
}

/// What a buffer may be used for.
#[derive(Copy, Clone, Debug, PartialEq, Eq)]
pub struct BufferUsages {
    pub copy_src: bool,
    pub copy_dst: bool,
    pub index: bool,
    pub vertex: bool,
    pub uniform: bool,
    pub storage: bool,
}

impl BufferUsages {
    /// Vertex input and nothing else.
    pub open spec fn spec_vertex() -> BufferUsages {
        BufferUsages {
            copy_src: false,
            copy_dst: false,
            index: false,
            vertex: true,
            uniform: false,
            storage: false,
        }
    }

    /// A uniform that later writes may overwrite.
    pub open spec fn spec_writable_uniform() -> BufferUsages {
        BufferUsages {
            copy_src: false,
            copy_dst: true,
            index: false,
            vertex: false,
            uniform: true,
            storage: false,
        }
    }

    #[verifier::when_used_as_spec(spec_vertex)]
    pub fn vertex() -> (usage: BufferUsages)
        ensures
            usage == Self::spec_vertex(),
    {
        BufferUsages {
            copy_src: false,
            copy_dst: false,
            index: false,
            vertex: true,
            uniform: false,
            storage: false,
        }
    }

    #[verifier::when_used_as_spec(spec_writable_uniform)]
    pub fn writable_uniform() -> (usage: BufferUsages)
        ensures
            usage == Self::spec_writable_uniform(),
    {
        BufferUsages {
            copy_src: false,
            copy_dst: true,
            index: false,
            vertex: false,
            uniform: true,
            storage: false,
        }
    }
}

/// The data a buffer starts with.
#[derive(Clone, Debug, PartialEq, Eq)]
pub enum BufferContents {
    /// Vertices, one after the other.
    Vertices(Vec<Vertex>),
    /// 32-bit words, one after the other.
    Words(Vec<u32>),
    /// A 4x4 matrix of single-precision bit patterns, column by column.
    Matrix(Mat4<u32>),
}

impl BufferContents {
    /// The contents as 32-bit words, in the order they lie in the buffer: the
    /// three coordinates of each vertex, the words themselves, or the matrix
    /// column by column.
    pub open spec fn spec_words(&self) -> Seq<u32> {
        match self {
            BufferContents::Vertices(vertices) => Seq::new(
                3 * vertices@.len(),
                |i: int| vertices@[i / 3].position@[i % 3],
            ),
            BufferContents::Words(words) => words@,
            BufferContents::Matrix(m) => seq![
                m.x.x,
                m.x.y,
                m.x.z,
                m.x.w,
                m.y.x,
                m.y.y,
                m.y.z,
                m.y.w,
                m.z.x,
                m.z.y,
                m.z.z,
                m.z.w,
                m.w.x,
                m.w.y,
                m.w.z,
                m.w.w,
            ],
        }
    }

    /// The contents as 32-bit words, in the order they lie in the buffer.
    pub fn words(&self) -> (words: Vec<u32>)
        ensures
            words@ == self.spec_words(),
    {
        let mut out: Vec<u32> = Vec::new();
        match self {
            BufferContents::Vertices(vertices) => {
                let mut i: usize = 0;
                while i < vertices.len()
                    invariant
                        0 <= i <= vertices.len(),
                        out@.len() == 3 * i,
                        forall|k: int|
                            0 <= k < 3 * i ==> out@[k] == vertices@[k / 3].position@[k % 3],
                    decreases vertices.len() - i,
                {
                    let vertex = &vertices[i];
                    out.push(vertex.x());
                    out.push(vertex.y());
                    out.push(vertex.z());
                    i += 1;
                }
            },
            BufferContents::Words(words) => {
                let mut i: usize = 0;
                while i < words.len()
                    invariant
                        0 <= i <= words.len(),
                        out@ == words@.take(i as int),
                    decreases words.len() - i,
                {
                    out.push(words[i]);
                    i += 1;
                }
            },
            BufferContents::Matrix(m) => {
                out.push(m.x.x);
                out.push(m.x.y);
                out.push(m.x.z);
                out.push(m.x.w);
                out.push(m.y.x);
                out.push(m.y.y);
                out.push(m.y.z);
                out.push(m.y.w);
                out.push(m.z.x);
                out.push(m.z.y);
                out.push(m.z.z);
                out.push(m.z.w);
                out.push(m.w.x);
                out.push(m.w.y);
                out.push(m.w.z);
                out.push(m.w.w);
            },
        }
        assert(out@ =~= self.spec_words());
        out
    }

    /// The contents as the bytes that fill the buffer, in the byte order of
    /// the machine.
    pub fn bytes(&self) -> (bytes: Vec<u8>)
        ensures
            bytes@ == encoded(self.spec_words(), true) || bytes@ == encoded(
                self.spec_words(),
                false,
            ),
            bytes@.len() == 4 * self.spec_words().len(),
    {
        let words = self.words();
        cast_words(words.as_slice())
    }
}

/// A buffer to create and fill.
#[derive(Clone, Debug, PartialEq, Eq)]
pub struct BufferDescriptor {
    pub label: String,
    pub contents: BufferContents,
    pub usage: BufferUsages,
}

/// Width, height and depth (or layer count) of a texture.
#[derive(Copy, Clone, Debug, PartialEq, Eq)]
pub struct Extent3d {
    pub width: u32,
    pub height: u32,
    pub depth_or_array_layers: u32,
}

/// Number of dimensions of a texture.
#[derive(Copy, Clone, Debug, PartialEq, Eq)]
pub enum TextureDimension {
    D1,
    D2,
    D3,
}

/// The texel formats that the assembly reads or writes itself.
#[derive(Copy, Clone, Debug, PartialEq, Eq)]
pub enum TexelFormat {
    /// One 8-bit channel.
    R8Unorm,
    /// Four 8-bit channels: red, green, blue, alpha.
    Rgba8Unorm,
}

impl TexelFormat {
    /// Bytes that one texel takes.
    pub open spec fn spec_bytes_per_texel(self) -> u32 {
        match self {
            TexelFormat::R8Unorm => 1,
            TexelFormat::Rgba8Unorm => 4,
        }
    }

    #[verifier::when_used_as_spec(spec_bytes_per_texel)]
    pub fn bytes_per_texel(self) -> (n: u32)
        ensures
            n == self.spec_bytes_per_texel(),
    {
        match self {
            TexelFormat::R8Unorm => 1,
            TexelFormat::Rgba8Unorm => 4,
        }
    }
}

/// What a texture may be used for.
#[derive(Copy, Clone, Debug, PartialEq, Eq)]
pub struct TextureUsages {
    pub copy_src: bool,
    pub copy_dst: bool,
    pub texture_binding: bool,
    pub storage_binding: bool,
    pub render_attachment: bool,
}

impl TextureUsages {
    /// Sampled by shaders and filled by uploads.
    pub open spec fn spec_sampled_upload() -> TextureUsages {
        TextureUsages {
            copy_src: false,
            copy_dst: true,
            texture_binding: true,
            storage_binding: false,
            render_attachment: false,
        }
    }

    /// Rendered into and nothing else.
    pub open spec fn spec_render_attachment() -> TextureUsages {
        TextureUsages {
            copy_src: false,
            copy_dst: false,
            texture_binding: false,
            storage_binding: false,
            render_attachment: true,
        }
    }

    #[verifier::when_used_as_spec(spec_sampled_upload)]
    pub fn sampled_upload() -> (usage: TextureUsages)
        ensures
            usage == Self::spec_sampled_upload(),
    {
        TextureUsages {
            copy_src: false,
            copy_dst: true,
            texture_binding: true,
            storage_binding: false,
            render_attachment: false,
        }
    }

    #[verifier::when_used_as_spec(spec_render_attachment)]
    pub fn render_attachment() -> (usage: TextureUsages)
        ensures
            usage == Self::spec_render_attachment(),
    {
        TextureUsages {
            copy_src: false,
            copy_dst: false,
            texture_binding: false,
            storage_binding: false,
            render_attachment: true,
        }
    }
}

/// A texture to create. It has no extra view formats.
#[derive(Clone, Debug, PartialEq, Eq)]
pub struct TextureDescriptor {
    pub label: String,
    pub size: Extent3d,
    pub mip_level_count: u32,
    pub sample_count: u32,
    pub dimension: TextureDimension,
    pub format: TexelFormat,
    pub usage: TextureUsages,
}

/// How uploaded bytes are laid out in rows and images.
#[derive(Copy, Clone, Debug, PartialEq, Eq)]
pub struct ImageDataLayout {
    pub offset: u64,
    pub bytes_per_row: Option<u32>,
    pub rows_per_image: Option<u32>,
}

/// What sampling does outside the texture.
#[derive(Copy, Clone, Debug, PartialEq, Eq)]
pub enum AddressMode {
    ClampToEdge,
    Repeat,
    MirrorRepeat,
    ClampToBorder,
}

/// How sampling picks between texels.
#[derive(Copy, Clone, Debug, PartialEq, Eq)]
pub enum FilterMode {
    Nearest,
    Linear,
}

/// A sampler to create; what is not listed keeps the device's default.
#[derive(Copy, Clone, Debug, PartialEq, Eq)]
pub struct SamplerDescriptor {
    pub address_mode_u: AddressMode,
    pub address_mode_v: AddressMode,
    pub address_mode_w: AddressMode,
    pub mag_filter: FilterMode,
    pub min_filter: FilterMode,
    pub mipmap_filter: FilterMode,
}

} // verus!
