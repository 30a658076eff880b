//! Named render pipelines and the builder that describes one.

use crate::app::{AppBuilder, AssemblyError};
use crate::data::{Vertex, VertexBufferLayout};
use crate::gpu::BindGroupLayoutDescriptor;
use vstd::prelude::*;
use vstd::string::StringExecFns;

verus! {

/// How vertices are assembled into primitives.
#[derive(Copy, Clone, Debug, PartialEq, Eq)]
pub enum PrimitiveTopology {
    PointList,
    LineList,
    LineStrip,
    TriangleList,
    TriangleStrip,
}

/// The winding that marks the front of a triangle.
#[derive(Copy, Clone, Debug, PartialEq, Eq)]
pub enum FrontFace {
    Ccw,
    Cw,
}

/// A side of a triangle.
#[derive(Copy, Clone, Debug, PartialEq, Eq)]
pub enum Face {
    Front,
    Back,
}

/// How polygons are rasterized.
#[derive(Copy, Clone, Debug, PartialEq, Eq)]
pub enum PolygonMode {
    Fill,
    Line,
    Point,
}

/// The width of the indices of a strip.
#[derive(Copy, Clone, Debug, PartialEq, Eq)]
pub enum IndexFormat {
    Uint16,
    Uint32,
}

/// How a fragment's colour is combined with what the target holds.
#[derive(Copy, Clone, Debug, PartialEq, Eq)]
pub enum BlendState {
    /// The fragment replaces what was there.
    Replace,
    AlphaBlending,
    PremultipliedAlphaBlending,
}

/// The colour channels that are written.
#[derive(Copy, Clone, Debug, PartialEq, Eq)]
pub struct ColorWrites {
    pub red: bool,
    pub green: bool,
    pub blue: bool,
    pub alpha: bool,
}

impl ColorWrites {
    /// Every channel.
    pub open spec fn all() -> ColorWrites {
        ColorWrites { red: true, green: true, blue: true, alpha: true }
    }
}

/// One colour target of a pipeline.
#[derive(Debug, PartialEq, Eq)]
pub struct ColorTargetState {
    pub format: wgpu::TextureFormat,
    pub blend: Option<BlendState>,
    pub write_mask: ColorWrites,
}

/// How primitives are assembled and rasterized.
#[derive(Copy, Clone, Debug, PartialEq, Eq)]
pub struct PrimitiveState {
    pub topology: PrimitiveTopology,
    pub strip_index_format: Option<IndexFormat>,
    pub front_face: FrontFace,
    pub cull_mode: Option<Face>,
    pub polygon_mode: PolygonMode,
    pub unclipped_depth: bool,
    pub conservative: bool,
}

/// How a pipeline multisamples.
#[derive(Copy, Clone, Debug, PartialEq, Eq)]
pub struct MultisampleState {
    pub count: u32,
    pub mask: u64,
    pub alpha_to_coverage_enabled: bool,
}

impl MultisampleState {
    /// One sample a pixel, every sample enabled, no alpha-to-coverage.
    pub open spec fn single_sample() -> MultisampleState {
        MultisampleState { count: 1, mask: u64::MAX, alpha_to_coverage_enabled: false }
    }
}

/// A shader module to compile from source text.
#[derive(Clone, Debug, PartialEq, Eq)]
pub struct ShaderModuleDescriptor {
    pub label: String,
    pub source: String,
}

/// Where a bind-group layout of a pipeline layout comes from.
#[derive(Clone, Debug, PartialEq, Eq)]
pub enum BindGroupLayoutSource {
    /// The layout of the camera module.
    Camera3D,
    /// The layout of the text module.
    Text2D,
    /// The layout of the text module's glyph atlas.
    GlyphAtlas,
    /// A layout that the caller describes.
    Custom(BindGroupLayoutDescriptor),
}

impl BindGroupLayoutSource {
    /// The module that owns the layout is present.
    pub open spec fn resolves(self, camera3d: bool, text2d: bool) -> bool {
        match self {
            BindGroupLayoutSource::Camera3D => camera3d,
            BindGroupLayoutSource::Text2D => text2d,
            BindGroupLayoutSource::GlyphAtlas => text2d,
            BindGroupLayoutSource::Custom(_) => true,
        }
    }
}

/// A pipeline layout to create: its bind-group layouts in order. It has no
/// push-constant ranges.
#[derive(Clone, Debug, PartialEq, Eq)]
pub struct PipelineLayoutDescriptor {
    pub label: String,
    pub bind_group_layouts: Vec<BindGroupLayoutSource>,
}

impl PipelineLayoutDescriptor {
    /// Every bind-group layout comes from a module that is present, or from the caller.
    pub open spec fn resolves(self, camera3d: bool, text2d: bool) -> bool {
        forall|i: int|
            0 <= i < self.bind_group_layouts@.len() ==> (#[trigger] self.bind_group_layouts@[i]).resolves(
                camera3d,
                text2d,
            )
    }
}

/// The vertex stage of a pipeline.
#[derive(Clone, Debug, PartialEq, Eq)]
pub struct VertexState {
    pub entry_point: &'static str,
    pub buffers: Vec<VertexBufferLayout>,
}

/// The fragment stage of a pipeline.
#[derive(Debug, PartialEq, Eq)]
pub struct FragmentState {
    pub entry_point: &'static str,
    pub targets: Vec<Option<ColorTargetState>>,
}

/// A render pipeline to create. Both stages come from the one shader module.
/// There is no depth or stencil attachment and no multiview.
#[derive(Debug, PartialEq, Eq)]
pub struct RenderPipelineDescriptor {
    pub label: String,
    /// `None` leaves the layout to be derived from the shader.
    pub layout: Option<PipelineLayoutDescriptor>,
    pub shader: ShaderModuleDescriptor,
    pub vertex: VertexState,
    pub fragment: Option<FragmentState>,
    pub primitive: PrimitiveState,
    pub multisample: MultisampleState,
}

/// A render pipeline under its display name.
#[derive(Debug, PartialEq, Eq)]
pub struct NamedPipeline<'a> {
    pub name: &'a str,
    pub pipeline: RenderPipelineDescriptor,
}

/// The three ways to give a pipeline its layout.
#[derive(Copy, Clone, Debug, PartialEq, Eq)]
pub enum LayoutChoice {
    /// The camera's layout alone.
    Camera3D,
    /// The text layout, then the glyph atlas layout.
    Text2D,
    /// Layouts that the caller lists.
    Custom,
}

/// A pipeline under construction, holding the application builder until it is built.
#[derive(Debug, PartialEq, Eq)]
pub struct PipelineBuilder<'a, S, C, K> {
    pub app: AppBuilder<'a, S, C, K>,
    pub name: &'a str,
    pub shader: Option<ShaderModuleDescriptor>,
    pub pipeline_layout: Option<PipelineLayoutDescriptor>,
    pub vertex_buffer_layout: Option<VertexBufferLayout>,
    pub primitive_topology: PrimitiveTopology,
    pub front_face_format: FrontFace,
    pub cull_mode: Option<Face>,
    pub polygon_mode: PolygonMode,
}

impl<'a> NamedPipeline<'a> {
    /// The pipeline's layout refers only to modules that are present.
    pub open spec fn resolves(self, camera3d: bool, text2d: bool) -> bool {
        self.pipeline.layout matches Some(layout) ==> layout.resolves(camera3d, text2d)
    }

    /// Starts a pipeline of the given name with the defaults: triangle lists,
    /// counter-clockwise fronts, back faces culled, filled polygons, the
    /// vertex layout of `Vertex`, and neither shader nor pipeline layout.
    pub fn named_for<S, C, K>(name: &'a str, app: AppBuilder<'a, S, C, K>) -> (builder:
        PipelineBuilder<'a, S, C, K>)
        ensures
            builder.is_fresh(name, app),
    {
        PipelineBuilder {
            app,
            name,
            shader: None,
            pipeline_layout: None,
            vertex_buffer_layout: Some(Vertex::desc()),
            primitive_topology: PrimitiveTopology::TriangleList,
            front_face_format: FrontFace::Ccw,
            cull_mode: Some(Face::Back),
            polygon_mode: PolygonMode::Fill,
        }
    }
}

impl<'a, S, C, K> PipelineBuilder<'a, S, C, K> {
    /// This is the builder that `named_for` starts for `name` on `app`.
    pub open spec fn is_fresh(self, name: &'a str, app: AppBuilder<'a, S, C, K>) -> bool {
        &&& self.app == app
        &&& self.name == name
        &&& self.shader is None
        &&& self.pipeline_layout is None
        &&& self.vertex_buffer_layout matches Some(layout)
        &&& Vertex::is_desc(layout)
        &&& self.primitive_topology == PrimitiveTopology::TriangleList
        &&& self.front_face_format == FrontFace::Ccw
        &&& self.cull_mode == Some(Face::Back)
        &&& self.polygon_mode == PolygonMode::Fill
    }

    /// The bind-group layouts that a choice puts into the pipeline layout;
    /// `custom` is what the caller lists.
    pub open spec fn chosen_sources(
        choice: LayoutChoice,
        custom: Seq<BindGroupLayoutSource>,
    ) -> Seq<BindGroupLayoutSource> {
        match choice {
            LayoutChoice::Camera3D => seq![BindGroupLayoutSource::Camera3D],
            LayoutChoice::Text2D => seq![
                BindGroupLayoutSource::Text2D,
                BindGroupLayoutSource::GlyphAtlas,
            ],
            LayoutChoice::Custom => custom,
        }
    }

    /// Why `choice` cannot be taken on this builder, if it cannot: the module
    /// it needs is missing, or a layout is chosen already.
    pub open spec fn spec_layout_error(&self, choice: LayoutChoice) -> Option<AssemblyError> {
        if choice == LayoutChoice::Camera3D && self.app.camera3d is None {
            Some(AssemblyError::NoCamera3D)
        } else if choice == LayoutChoice::Text2D && self.app.text2d is None {
            Some(AssemblyError::NoText2D)
        } else if self.pipeline_layout is Some {
            Some(AssemblyError::LayoutAlreadyDefined)
        } else {
            None
        }
    }

    /// What stands in the way of building, if anything: the missing shader
    /// first, then the missing vertex buffer layout.
    pub open spec fn spec_build_error(&self) -> Option<AssemblyError> {
        if self.shader is None {
            Some(AssemblyError::NoShader)
        } else if self.vertex_buffer_layout is None {
            Some(AssemblyError::NoVertexBufferLayout)
        } else {
            None
        }
    }

    /// `after` is this builder with the layout of `choice` selected, and
    /// nothing else changed.
    pub open spec fn layout_selected(
        self,
        after: Self,
        choice: LayoutChoice,
        custom: Seq<BindGroupLayoutSource>,
    ) -> bool {
        &&& after.pipeline_layout matches Some(layout)
        &&& layout.label@ == self.name@ + " render pipeline layout"@
        &&& layout.bind_group_layouts@ == Self::chosen_sources(choice, custom)
        &&& after == (PipelineBuilder { pipeline_layout: after.pipeline_layout, ..self })
    }

    /// `after` is this builder with a shader of the given source, and nothing
    /// else changed.
    pub open spec fn shader_set(self, after: Self, source: String) -> bool {
        &&& after.shader matches Some(shader)
        &&& shader.label@ == self.name@ + " shader"@
        &&& shader.source == source
        &&& after == (PipelineBuilder { shader: after.shader, ..self })
    }

    /// `pipeline` is what this builder describes: the pipeline of its name,
    /// with its shader for both stages, its vertex buffer layout as the only
    /// vertex buffer, one colour target in the format of the configured
    /// surface that replaces what it overwrites in every channel, its
    /// primitive settings, and one sample a pixel.
    pub open spec fn describes(self, pipeline: NamedPipeline<'a>) -> bool {
        &&& pipeline.name == self.name
        &&& pipeline.pipeline.label@ == self.name@ + " render pipeline"@
        &&& pipeline.pipeline.layout == self.pipeline_layout
        &&& Some(pipeline.pipeline.shader) == self.shader
        &&& pipeline.pipeline.vertex.entry_point@ == "vs_main"@
        &&& self.vertex_buffer_layout matches Some(vertex_buffer_layout)
        &&& pipeline.pipeline.vertex.buffers@ == seq![vertex_buffer_layout]
        &&& pipeline.pipeline.fragment matches Some(fragment)
        &&& fragment.entry_point@ == "fs_main"@
        &&& fragment.targets@ == seq![
            Some(
                ColorTargetState {
                    format: self.app.skeleton.config.format,
                    blend: Some(BlendState::Replace),
                    write_mask: ColorWrites::all(),
                },
            ),
        ]
        &&& pipeline.pipeline.primitive == PrimitiveState {
            topology: self.primitive_topology,
            strip_index_format: None,
            front_face: self.front_face_format,
            cull_mode: self.cull_mode,
            polygon_mode: self.polygon_mode,
            unclipped_depth: false,
            conservative: false,
        }
        &&& pipeline.pipeline.multisample == MultisampleState::single_sample()
    }

    /// The layout chosen so far, if any, refers only to modules that the
    /// application builder carries.
    pub open spec fn coherent(&self) -> bool {
        self.pipeline_layout matches Some(layout) ==> layout.resolves(
            self.app.camera3d is Some,
            self.app.text2d is Some,
        )
    }

    /// Why `choice` cannot be taken on this builder, if it cannot.
    pub fn layout_error(&self, choice: LayoutChoice) -> (error: Option<AssemblyError>)
        ensures
            error == self.spec_layout_error(choice),
    {
        match choice {
            LayoutChoice::Camera3D => {
                if self.app.camera3d.is_none() {
                    return Some(AssemblyError::NoCamera3D);
                }
            },
            LayoutChoice::Text2D => {
                if self.app.text2d.is_none() {
                    return Some(AssemblyError::NoText2D);
                }
            },
            LayoutChoice::Custom => {},
        }
        if self.pipeline_layout.is_some() {
            Some(AssemblyError::LayoutAlreadyDefined)
        } else {
            None
        }
    }

    /// What stands in the way of building, if anything.
    pub fn build_error(&self) -> (error: Option<AssemblyError>)
        ensures
            error == self.spec_build_error(),
    {
        if self.shader.is_none() {
            Some(AssemblyError::NoShader)
        } else if self.vertex_buffer_layout.is_none() {
            Some(AssemblyError::NoVertexBufferLayout)
        } else {
            None
        }
    }

    /// Sets the shader: a module of the given source, labelled with the pipeline's name.
    pub fn with_shader(self, source: String) -> (builder: Self)
        ensures
            self.shader_set(builder, source),
    {
        let mut builder = self;
        builder.shader = Some(
            ShaderModuleDescriptor { label: builder.name.to_owned().concat(" shader"), source },
        );
        builder
    }

    /// Replaces the vertex buffer layout.
    pub fn with_vertex_buffer_layout(self, vertex_buffer_layout: VertexBufferLayout) -> (builder:
        Self)
        ensures
            builder == (PipelineBuilder {
                vertex_buffer_layout: Some(vertex_buffer_layout),
                ..self
            }),
    {
        let mut builder = self;
        builder.vertex_buffer_layout = Some(vertex_buffer_layout);
        builder
    }

    /// Replaces the primitive topology.
    pub fn with_primitive_topology(self, primitive_topology: PrimitiveTopology) -> (builder: Self)
        ensures
            builder == (PipelineBuilder { primitive_topology, ..self }),
    {
        let mut builder = self;
        builder.primitive_topology = primitive_topology;
        builder
    }

    /// Replaces the winding of front faces.
    pub fn with_front_face_format(self, front_face_format: FrontFace) -> (builder: Self)
        ensures
            builder == (PipelineBuilder { front_face_format, ..self }),
    {
        let mut builder = self;
        builder.front_face_format = front_face_format;
        builder
    }

    /// Replaces the culled side; `None` culls nothing.
    pub fn with_cull_mode(self, cull_mode: Option<Face>) -> (builder: Self)
        ensures
            builder == (PipelineBuilder { cull_mode, ..self }),
    {
        let mut builder = self;
        builder.cull_mode = cull_mode;
        builder
    }

    /// Replaces the polygon mode.
    pub fn with_polygon_mode(self, polygon_mode: PolygonMode) -> (builder: Self)
        ensures
            builder == (PipelineBuilder { polygon_mode, ..self }),
    {
        let mut builder = self;
        builder.polygon_mode = polygon_mode;
        builder
    }

    /// Chooses the camera's bind-group layout as the whole pipeline layout.
    pub fn layout_for_camera3d(self) -> (builder: Self)
        requires
            self.spec_layout_error(LayoutChoice::Camera3D) is None,
        ensures
            self.layout_selected(builder, LayoutChoice::Camera3D, Seq::empty()),
            builder.coherent(),
    {
        let mut sources: Vec<BindGroupLayoutSource> = Vec::new();
        sources.push(BindGroupLayoutSource::Camera3D);
        assert(sources@ =~= Self::chosen_sources(LayoutChoice::Camera3D, Seq::empty()));
        let mut builder = self;
        builder.pipeline_layout = Some(
            PipelineLayoutDescriptor {
                label: builder.name.to_owned().concat(" render pipeline layout"),
                bind_group_layouts: sources,
            },
        );
        builder
    }

    /// Chooses the text bind-group layout, then that of its glyph atlas, as the
    /// pipeline layout.
    pub fn layout_for_text2d(self) -> (builder: Self)
        requires
            self.spec_layout_error(LayoutChoice::Text2D) is None,
        ensures
            self.layout_selected(builder, LayoutChoice::Text2D, Seq::empty()),
            builder.coherent(),
    {
        let mut sources: Vec<BindGroupLayoutSource> = Vec::new();
        sources.push(BindGroupLayoutSource::Text2D);
        sources.push(BindGroupLayoutSource::GlyphAtlas);
        assert(sources@ =~= Self::chosen_sources(LayoutChoice::Text2D, Seq::empty()));
        let mut builder = self;
        builder.pipeline_layout = Some(
            PipelineLayoutDescriptor {
                label: builder.name.to_owned().concat(" render pipeline layout"),
                bind_group_layouts: sources,
            },
        );
        builder
    }

    /// Chooses the listed bind-group layouts, in their order, as the pipeline layout.
    pub fn use_custom_bind_group_layouts(self, layouts: Vec<BindGroupLayoutSource>) -> (builder:
        Self)
        requires
            self.spec_layout_error(LayoutChoice::Custom) is None,
        ensures
            self.layout_selected(builder, LayoutChoice::Custom, layouts@),
            (forall|i: int|
                0 <= i < layouts@.len() ==> (#[trigger] layouts@[i]).resolves(
                    self.app.camera3d is Some,
                    self.app.text2d is Some,
                )) ==> builder.coherent(),
    {
        let mut builder = self;
        builder.pipeline_layout = Some(
            PipelineLayoutDescriptor {
                label: builder.name.to_owned().concat(" render pipeline layout"),
                bind_group_layouts: layouts,
            },
        );
        builder
    }

    /// Describes the pipeline and hands the application builder back unchanged.
    pub fn build(self) -> (built: (AppBuilder<'a, S, C, K>, NamedPipeline<'a>))
        requires
            self.spec_build_error() is None,
        ensures
            built.0 == self.app,
            self.describes(built.1),
            self.coherent() ==> built.1.resolves(
                self.app.camera3d is Some,
                self.app.text2d is Some,
            ),
    {
        let PipelineBuilder {
            app,
            name,
            shader,
            pipeline_layout,
            vertex_buffer_layout,
            primitive_topology,
            front_face_format,
            cull_mode,
            polygon_mode,
        } = self;
        let shader = match shader {
            Some(shader) => shader,
            None => { vstd::pervasive::unreached() },
        };
        let vertex_buffer_layout = match vertex_buffer_layout {
            Some(vertex_buffer_layout) => vertex_buffer_layout,
            None => { vstd::pervasive::unreached() },
        };
        let mut buffers: Vec<VertexBufferLayout> = Vec::new();
        buffers.push(vertex_buffer_layout);
        let mut targets: Vec<Option<ColorTargetState>> = Vec::new();
        targets.push(
            Some(
                ColorTargetState {
                    format: app.skeleton.config.format,
                    blend: Some(BlendState::Replace),
                    write_mask: ColorWrites { red: true, green: true, blue: true, alpha: true },
                },
            ),
        );
        let pipeline = RenderPipelineDescriptor {
            label: name.to_owned().concat(" render pipeline"),
            layout: pipeline_layout,
            shader,
            vertex: VertexState { entry_point: "vs_main", buffers },
            fragment: Some(FragmentState { entry_point: "fs_main", targets }),
            primitive: PrimitiveState {
                topology: primitive_topology,
                strip_index_format: None,
                front_face: front_face_format,
                cull_mode,
                polygon_mode,
                unclipped_depth: false,
                conservative: false,
            },
            multisample: MultisampleState {
                count: 1,
                mask: u64::MAX,
                alpha_to_coverage_enabled: false,
            },
        };
        (app, NamedPipeline { name, pipeline })
    }
}

/// Once a layout is chosen on a builder, no second choice can be taken on it,
/// whichever the first and the second are.
pub proof fn lemma_layout_chosen_once<'a, S, C, K>(
    before: PipelineBuilder<'a, S, C, K>,
    after: PipelineBuilder<'a, S, C, K>,
    first: LayoutChoice,
    custom: Seq<BindGroupLayoutSource>,
    second: LayoutChoice,
)
    requires
        before.layout_selected(after, first, custom),
    ensures
        after.spec_layout_error(second) is Some,
        before.spec_layout_error(first) is None && before.spec_layout_error(second) is None
            ==> after.spec_layout_error(second) == Some(AssemblyError::LayoutAlreadyDefined),
{
}

/// The layout of a module cannot be chosen on a builder whose application
/// builder does not carry the module.
pub proof fn lemma_layout_needs_module<'a, S, C, K>(builder: PipelineBuilder<'a, S, C, K>)
    ensures
        builder.app.camera3d is None ==> builder.spec_layout_error(LayoutChoice::Camera3D) == Some(
            AssemblyError::NoCamera3D,
        ),
        builder.app.text2d is None ==> builder.spec_layout_error(LayoutChoice::Text2D) == Some(
            AssemblyError::NoText2D,
        ),
{
}

/// On an application builder that carries the module, a pipeline that is
/// started, given a shader and then the module's layout can be built, and
/// what is built refers only to modules that are there.
pub proof fn lemma_module_then_pipeline<'a, S, C, K>(
    app: AppBuilder<'a, S, C, K>,
    name: &'a str,
    fresh: PipelineBuilder<'a, S, C, K>,
    source: String,
    with_shader: PipelineBuilder<'a, S, C, K>,
    choice: LayoutChoice,
    with_layout: PipelineBuilder<'a, S, C, K>,
)
    requires
        choice == LayoutChoice::Camera3D ==> app.camera3d is Some,
        choice == LayoutChoice::Text2D ==> app.text2d is Some,
        choice != LayoutChoice::Custom,
        fresh.is_fresh(name, app),
        fresh.shader_set(with_shader, source),
        with_shader.layout_selected(with_layout, choice, Seq::empty()),
    ensures
        with_shader.spec_layout_error(choice) is None,
        with_layout.spec_build_error() is None,
        with_layout.app == app,
        with_layout.coherent(),
{
    let layout = with_layout.pipeline_layout->0;
    assert(layout.bind_group_layouts@ == PipelineBuilder::<'a, S, C, K>::chosen_sources(
        choice,
        Seq::empty(),
    ));
    assert forall|i: int| 0 <= i < layout.bind_group_layouts@.len() implies (
    #[trigger] layout.bind_group_layouts@[i]).resolves(app.camera3d is Some, app.text2d is Some) by {
        if choice == LayoutChoice::Camera3D {
            assert(i == 0);
        } else {
            assert(i == 0 || i == 1);
        }
    }
}

} // verus!
