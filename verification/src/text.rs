//! The text module: a unit quad, its bindings, and the glyph atlas.

use crate::app::AppSkeleton;
use crate::data::{ScreenSize, Vertex, ONE, ZERO};
use crate::gpu::{
    AddressMode, BindGroupDescriptor, BindGroupEntry, BindGroupLayoutDescriptor,
    BindGroupLayoutEntry, BindingResource, BindingType, BufferBindingType, BufferContents,
    BufferDescriptor, BufferUsages, Extent3d, FilterMode, ImageDataLayout, SamplerBindingType,
    SamplerDescriptor, ShaderStages, TexelFormat, TextureDescriptor, TextureDimension,
    TextureSampleType, TextureUsages, TextureViewDimension,
};
use vstd::prelude::*;
use vstd::string::StringExecFns;

verus! {

/// Width of the glyph atlas in texels.
pub const ATLAS_WIDTH: u32 = 160;

/// Height of the glyph atlas in texels.
pub const ATLAS_HEIGHT: u32 = 144;

/// Bytes in one row of the atlas texture: four channels a texel.
pub const ATLAS_ROW_BYTES: u32 = 640;

/// A coverage byte made fully transparent or fully opaque: 0 stays 0, all else becomes 255.
pub open spec fn threshold(coverage: u8) -> u8 {
    if coverage == 0 {
        0
    } else {
        255
    }
}

/// The texel bytes uploaded for a coverage map: each coverage byte, thresholded,
/// fills the four channels of its texel.
pub open spec fn atlas_texels(coverage: Seq<u8>) -> Seq<u8> {
    Seq::new(4 * coverage.len(), |i: int| threshold(coverage[i / 4]))
}

/// The six corners of the two triangles that span the unit square.
pub open spec fn unit_quad() -> Seq<Vertex> {
    seq![
        Vertex::spec_at(ZERO, ZERO, ZERO),
        Vertex::spec_at(ONE, ONE, ZERO),
        Vertex::spec_at(ZERO, ONE, ZERO),
        Vertex::spec_at(ONE, ZERO, ZERO),
        Vertex::spec_at(ONE, ONE, ZERO),
        Vertex::spec_at(ZERO, ZERO, ZERO),
    ]
}

/// The slots of the text bind-group layout, all read by the vertex stage:
/// screen metadata, text metadata, and a read-only storage buffer.
pub open spec fn text_layout_entries() -> Seq<BindGroupLayoutEntry> {
    seq![
        BindGroupLayoutEntry::spec_vertex_buffer(0, BufferBindingType::Uniform),
        BindGroupLayoutEntry::spec_vertex_buffer(1, BufferBindingType::Uniform),
        BindGroupLayoutEntry::spec_vertex_buffer(2, BufferBindingType::Storage { read_only: true }),
    ]
}

/// The slots of the glyph-atlas bind-group layout, both read by the fragment
/// stage: the atlas texture, then its sampler.
pub open spec fn atlas_layout_entries() -> Seq<BindGroupLayoutEntry> {
    seq![
        BindGroupLayoutEntry {
            binding: 0,
            visibility: ShaderStages::spec_fragment_only(),
            ty: BindingType::Texture {
                sample_type: TextureSampleType::Float { filterable: true },
                view_dimension: TextureViewDimension::D2,
                multisampled: false,
            },
            count: None,
        },
        BindGroupLayoutEntry {
            binding: 1,
            visibility: ShaderStages::spec_fragment_only(),
            ty: BindingType::Sampler(SamplerBindingType::Filtering),
            count: None,
        },
    ]
}

/// The slots of the glyph-atlas bind group: the texture's view, then the sampler.
pub open spec fn atlas_group_entries() -> Seq<BindGroupEntry> {
    seq![
        BindGroupEntry { binding: 0, resource: BindingResource::TextureView },
        BindGroupEntry { binding: 1, resource: BindingResource::Sampler },
    ]
}

/// The atlas sampler: clamped at every edge, nearest texel at every level.
pub open spec fn atlas_sampler() -> SamplerDescriptor {
    SamplerDescriptor {
        address_mode_u: AddressMode::ClampToEdge,
        address_mode_v: AddressMode::ClampToEdge,
        address_mode_w: AddressMode::ClampToEdge,
        mag_filter: FilterMode::Nearest,
        min_filter: FilterMode::Nearest,
        mipmap_filter: FilterMode::Nearest,
    }
}

/// Every byte maps to 0 or to 255, 0 alone maps to 0, and mapping twice changes nothing.
pub proof fn lemma_threshold_total_idempotent(coverage: u8)
    ensures
        threshold(coverage) == 0 || threshold(coverage) == 255,
        threshold(coverage) == 0 <==> coverage == 0,
        threshold(threshold(coverage)) == threshold(coverage),
{
}

/// Thresholding what was already expanded gives it back unchanged.
pub proof fn lemma_atlas_texels_are_thresholded(coverage: Seq<u8>, i: int)
    requires
        0 <= i < 4 * coverage.len(),
    ensures
        atlas_texels(coverage).len() == 4 * coverage.len(),
        atlas_texels(coverage)[i] == threshold(coverage[i / 4]),
        threshold(atlas_texels(coverage)[i]) == atlas_texels(coverage)[i],
{
}

/// Makes one coverage byte fully transparent or fully opaque.
pub fn threshold_byte(coverage: u8) -> (texel: u8)
    ensures
        texel == threshold(coverage),
        texel == 0 || texel == 255,
        texel == 0 <==> coverage == 0,
{
    if coverage == 0 {
        0
    } else {
        255
    }
}

/// Thresholds a coverage map and widens it to four channels a texel.
pub fn expand_atlas(coverage: &[u8]) -> (texels: Vec<u8>)
    ensures
        texels@ == atlas_texels(coverage@),
{
    let mut texels: Vec<u8> = Vec::new();
    let mut i: usize = 0;
    while i < coverage.len()
        invariant
            0 <= i <= coverage.len(),
            texels@.len() == 4 * i,
            forall|k: int| 0 <= k < 4 * i ==> texels@[k] == threshold(coverage@[k / 4]),
        decreases coverage.len() - i,
    {
        let texel = threshold_byte(coverage[i]);
        texels.push(texel);
        texels.push(texel);
        texels.push(texel);
        texels.push(texel);
        i += 1;
    }
    assert(texels@ =~= atlas_texels(coverage@));
    texels
}

/// What it takes to put a glyph atlas on the GPU: the texture, the bytes that
/// fill it, its sampler, and the bind group that exposes both.
#[derive(Clone, Debug, PartialEq, Eq)]
pub struct GlyphAtlas {
    pub texture: TextureDescriptor,
    pub texels: Vec<u8>,
    pub data_layout: ImageDataLayout,
    pub sampler: SamplerDescriptor,
    pub glyph_bind_group_layout: BindGroupLayoutDescriptor,
    pub glyph_bind_group: BindGroupDescriptor,
}

impl GlyphAtlas {
    /// This is the atlas built from the coverage map read at `path`.
    pub open spec fn is_atlas_of(&self, path: Seq<char>, coverage: Seq<u8>) -> bool {
        &&& self.texture.label@ == "Glyph Atlas - "@ + path
        &&& self.texture.size == Extent3d {
            width: ATLAS_WIDTH,
            height: ATLAS_HEIGHT,
            depth_or_array_layers: 1,
        }
        &&& self.texture.mip_level_count == 1
        &&& self.texture.sample_count == 1
        &&& self.texture.dimension == TextureDimension::D2
        &&& self.texture.format == TexelFormat::Rgba8Unorm
        &&& self.texture.usage == TextureUsages::spec_sampled_upload()
        &&& self.texels@ == atlas_texels(coverage)
        &&& self.data_layout == ImageDataLayout {
            offset: 0,
            bytes_per_row: Some(ATLAS_ROW_BYTES),
            rows_per_image: Some(ATLAS_HEIGHT),
        }
        &&& self.sampler == atlas_sampler()
        &&& self.glyph_bind_group_layout.describes(
            "Glyph Atlas Bind Group Layout"@,
            atlas_layout_entries(),
        )
        &&& self.glyph_bind_group.describes("Glyph Atlas Bind Group"@, atlas_group_entries())
    }
}

impl AppSkeleton {
    /// Describes the glyph atlas for the coverage map that was read from
    /// `path`: one byte for each of the 160 by 144 texels, row by row.
    pub fn create_glyph_atlas(&self, path: &str, coverage: &[u8]) -> (atlas: GlyphAtlas)
        requires
            coverage@.len() == ATLAS_WIDTH * ATLAS_HEIGHT,
        ensures
            atlas.is_atlas_of(path@, coverage@),
            atlas.texels@.len() == ATLAS_ROW_BYTES * ATLAS_HEIGHT,
    {
        let format = TexelFormat::Rgba8Unorm;
        let texture = TextureDescriptor {
            label: "Glyph Atlas - ".to_owned().concat(path),
            size: Extent3d { width: ATLAS_WIDTH, height: ATLAS_HEIGHT, depth_or_array_layers: 1 },
            mip_level_count: 1,
            sample_count: 1,
            dimension: TextureDimension::D2,
            format,
            usage: TextureUsages::sampled_upload(),
        };
        let data_layout = ImageDataLayout {
            offset: 0,
            bytes_per_row: Some(ATLAS_WIDTH * format.bytes_per_texel()),
            rows_per_image: Some(ATLAS_HEIGHT),
        };
        let sampler = SamplerDescriptor {
            address_mode_u: AddressMode::ClampToEdge,
            address_mode_v: AddressMode::ClampToEdge,
            address_mode_w: AddressMode::ClampToEdge,
            mag_filter: FilterMode::Nearest,
            min_filter: FilterMode::Nearest,
            mipmap_filter: FilterMode::Nearest,
        };
        let mut layout_entries: Vec<BindGroupLayoutEntry> = Vec::new();
        layout_entries.push(
            BindGroupLayoutEntry {
                binding: 0,
                visibility: ShaderStages::fragment_only(),
                ty: BindingType::Texture {
                    sample_type: TextureSampleType::Float { filterable: true },
                    view_dimension: TextureViewDimension::D2,
                    multisampled: false,
                },
                count: None,
            },
        );
        layout_entries.push(
            BindGroupLayoutEntry {
                binding: 1,
                visibility: ShaderStages::fragment_only(),
                ty: BindingType::Sampler(SamplerBindingType::Filtering),
                count: None,
            },
        );
        let mut group_entries: Vec<BindGroupEntry> = Vec::new();
        group_entries.push(BindGroupEntry { binding: 0, resource: BindingResource::TextureView });
        group_entries.push(BindGroupEntry { binding: 1, resource: BindingResource::Sampler });
        let atlas = GlyphAtlas {
            texture,
            texels: expand_atlas(coverage),
            data_layout,
            sampler,
            glyph_bind_group_layout: BindGroupLayoutDescriptor {
                label: "Glyph Atlas Bind Group Layout".to_owned(),
                entries: layout_entries,
            },
            glyph_bind_group: BindGroupDescriptor {
                label: "Glyph Atlas Bind Group".to_owned(),
                entries: group_entries,
            },
        };
        assert(atlas.glyph_bind_group_layout.entries@ =~= atlas_layout_entries());
        assert(atlas.glyph_bind_group.entries@ =~= atlas_group_entries());
        atlas
    }
}

/// What the text module owns: the quad's vertex buffer, the layout of the
/// per-frame text bindings, the glyph atlas, and the screen-metadata uniform.
#[derive(Clone, Debug, PartialEq, Eq)]
pub struct Text2D {
    pub vertex_buffer: BufferDescriptor,
    pub bind_group_layout: BindGroupLayoutDescriptor,
    pub glyph_atlas: GlyphAtlas,
    pub screen_uniform_buffer: BufferDescriptor,
}

impl Text2D {
    /// This is the text module built around `glyph_atlas` for a screen of `screen_size`.
    pub open spec fn is_text_for(&self, glyph_atlas: GlyphAtlas, screen_size: ScreenSize) -> bool {
        &&& self.vertex_buffer.label@ == "Text Vertex Buffer"@
        &&& self.vertex_buffer.contents matches BufferContents::Vertices(vertices)
        &&& vertices@ == unit_quad()
        &&& self.vertex_buffer.usage == BufferUsages::spec_vertex()
        &&& self.bind_group_layout.describes("text_bind_group_layout"@, text_layout_entries())
        &&& self.glyph_atlas == glyph_atlas
        &&& self.screen_uniform_buffer.label@ == "Screen Metadata Buffer"@
        &&& self.screen_uniform_buffer.contents matches BufferContents::Words(words)
        &&& words@ == seq![screen_size.spec_width(), screen_size.spec_height()]
        &&& self.screen_uniform_buffer.usage == BufferUsages::spec_writable_uniform()
    }

    /// Describes the text module around a glyph atlas, for a screen of the given size.
    pub fn new(glyph_atlas: GlyphAtlas, screen_size: &ScreenSize) -> (text: Text2D)
        ensures
            text.is_text_for(glyph_atlas, *screen_size),
    {
        let mut vertices: Vec<Vertex> = Vec::new();
        vertices.push(Vertex::at(ZERO, ZERO, ZERO));
        vertices.push(Vertex::at(ONE, ONE, ZERO));
        vertices.push(Vertex::at(ZERO, ONE, ZERO));
        vertices.push(Vertex::at(ONE, ZERO, ZERO));
        vertices.push(Vertex::at(ONE, ONE, ZERO));
        vertices.push(Vertex::at(ZERO, ZERO, ZERO));
        assert(vertices@ =~= unit_quad());
        let mut entries: Vec<BindGroupLayoutEntry> = Vec::new();
        entries.push(BindGroupLayoutEntry::vertex_buffer(0, BufferBindingType::Uniform));
        entries.push(BindGroupLayoutEntry::vertex_buffer(1, BufferBindingType::Uniform));
        entries.push(
            BindGroupLayoutEntry::vertex_buffer(2, BufferBindingType::Storage { read_only: true }),
        );
        assert(entries@ =~= text_layout_entries());
        let mut words: Vec<u32> = Vec::new();
        words.push(screen_size.width());
        words.push(screen_size.height());
        assert(words@ =~= seq![screen_size.spec_width(), screen_size.spec_height()]);
        Text2D {
            vertex_buffer: BufferDescriptor {
                label: "Text Vertex Buffer".to_owned(),
                contents: BufferContents::Vertices(vertices),
                usage: BufferUsages::vertex(),
            },
            bind_group_layout: BindGroupLayoutDescriptor {
                label: "text_bind_group_layout".to_owned(),
                entries,
            },
            glyph_atlas,
            screen_uniform_buffer: BufferDescriptor {
                label: "Screen Metadata Buffer".to_owned(),
                contents: BufferContents::Words(words),
                usage: BufferUsages::writable_uniform(),
            },
        }
    }
}

} // verus!
