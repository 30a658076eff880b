//! The skeleton an application is built on, and the staged builder.

use crate::camera::{AspectPolicy, Camera, Camera3D};
use crate::data::ScreenSize;
use crate::pipeline::NamedPipeline;
use crate::surface::{create_surface_configuration, SurfaceCapabilities, SurfaceConfiguration};
use crate::text::{GlyphAtlas, Text2D};
use vstd::prelude::*;

verus! {

/// Why a step of the assembly cannot be taken.
#[derive(Copy, Clone, Debug, PartialEq, Eq)]
pub enum AssemblyError {
    /// The application is finalized without user state.
    NoState,
    /// A pipeline is built without a shader.
    NoShader,
    /// A pipeline is built without a vertex buffer layout.
    NoVertexBufferLayout,
    /// A pipeline asks for the camera's layout and the builder carries no camera.
    NoCamera3D,
    /// A pipeline asks for the text layout and the builder carries no text module.
    NoText2D,
    /// A pipeline layout is chosen where one was chosen before.
    LayoutAlreadyDefined,
}

/// What the assembly knows of the window and its surface: how the surface is
/// configured, and the size the window had when the skeleton was made.
#[derive(Debug, PartialEq, Eq)]
pub struct AppSkeleton {
    pub config: SurfaceConfiguration,
    pub screen_size: ScreenSize,
}

impl AppSkeleton {
    /// The skeleton for a window of `width` by `height` pixels whose surface
    /// offers `capabilities`.
    pub fn new(capabilities: &SurfaceCapabilities, width: u32, height: u32) -> (skeleton:
        AppSkeleton)
        requires
            capabilities.formats.len() > 0,
            capabilities.alpha_modes.len() > 0,
        ensures
            skeleton.config.is_configured_from(*capabilities, width, height),
            skeleton.screen_size == ScreenSize::spec_new(width, height),
    {
        AppSkeleton {
            config: create_surface_configuration(capabilities, width, height),
            screen_size: ScreenSize::new(width, height),
        }
    }
}

/// An application under assembly: the skeleton, and what was attached so far.
#[derive(Debug, PartialEq, Eq)]
pub struct AppBuilder<'a, S, C, K> {
    pub skeleton: AppSkeleton,
    pub state: Option<S>,
    pub camera3d: Option<Camera3D<C, K>>,
    pub text2d: Option<Text2D>,
    pub named_pipelines: Vec<NamedPipeline<'a>>,
}

/// An assembled application. Its pipelines are drawn in the order they stand in.
#[derive(Debug, PartialEq, Eq)]
pub struct App<'a, S, C, K> {
    pub state: S,
    pub camera3d: Option<Camera3D<C, K>>,
    pub text2d: Option<Text2D>,
    pub named_pipelines: Vec<NamedPipeline<'a>>,
}

impl<'a, S, C, K> App<'a, S, C, K> {
    /// Starts the assembly on a skeleton, with nothing attached.
    pub fn for_skeleton(skeleton: AppSkeleton) -> (builder: AppBuilder<'a, S, C, K>)
        ensures
            builder.skeleton == skeleton,
            builder.state is None,
            builder.camera3d is None,
            builder.text2d is None,
            builder.named_pipelines@ == Seq::<NamedPipeline<'a>>::empty(),
    {
        AppBuilder {
            skeleton,
            state: None,
            camera3d: None,
            text2d: None,
            named_pipelines: Vec::new(),
        }
    }

    /// Every pipeline refers only to modules that the application carries.
    pub open spec fn coherent(&self) -> bool {
        forall|i: int|
            0 <= i < self.named_pipelines@.len() ==> (#[trigger] self.named_pipelines@[i]).resolves(
                self.camera3d is Some,
                self.text2d is Some,
            )
    }
}

impl<'a, S, C, K> AppBuilder<'a, S, C, K> {
    /// Every pipeline added so far refers only to modules that the builder carries.
    pub open spec fn coherent(&self) -> bool {
        forall|i: int|
            0 <= i < self.named_pipelines@.len() ==> (#[trigger] self.named_pipelines@[i]).resolves(
                self.camera3d is Some,
                self.text2d is Some,
            )
    }

    /// What stands in the way of finalizing, if anything: the missing user state.
    pub open spec fn spec_build_error(&self) -> Option<AssemblyError> {
        if self.state is None {
            Some(AssemblyError::NoState)
        } else {
            None
        }
    }

    /// `after` is this builder with the text module attached around `glyph_atlas`.
    pub open spec fn text_attached(self, after: Self, glyph_atlas: GlyphAtlas) -> bool {
        &&& after.skeleton == self.skeleton
        &&& after.state == self.state
        &&& after.camera3d == self.camera3d
        &&& after.text2d matches Some(text)
        &&& text.is_text_for(glyph_atlas, self.skeleton.screen_size)
        &&& after.named_pipelines == self.named_pipelines
    }

    /// Attaches the user state, in place of any attached before.
    pub fn state(self, state: S) -> (builder: Self)
        ensures
            builder == (AppBuilder { state: Some(state), ..self }),
    {
        let mut builder = self;
        builder.state = Some(state);
        builder
    }

    /// Appends a pipeline behind those added before.
    pub fn add_pipeline(self, pipeline: NamedPipeline<'a>) -> (builder: Self)
        ensures
            builder.named_pipelines@ == self.named_pipelines@.push(pipeline),
            builder.skeleton == self.skeleton,
            builder.state == self.state,
            builder.camera3d == self.camera3d,
            builder.text2d == self.text2d,
            self.coherent() && pipeline.resolves(self.camera3d is Some, self.text2d is Some)
                ==> builder.coherent(),
    {
        let mut builder = self;
        builder.named_pipelines.push(pipeline);
        builder
    }

    /// Attaches an already described camera module, in place of any attached before.
    pub fn with_camera3d(self, module: Camera3D<C, K>) -> (builder: Self)
        ensures
            builder == (AppBuilder { camera3d: Some(module), ..self }),
            self.coherent() ==> builder.coherent(),
    {
        let mut builder = self;
        builder.camera3d = Some(module);
        builder
    }

    /// Attaches the text module around a glyph atlas, in place of any attached
    /// before. Its screen-metadata uniform starts as the skeleton's screen size.
    pub fn add_text2d(self, glyph_atlas: GlyphAtlas) -> (builder: Self)
        ensures
            self.text_attached(builder, glyph_atlas),
            self.coherent() ==> builder.coherent(),
    {
        let mut builder = self;
        builder.text2d = Some(Text2D::new(glyph_atlas, &builder.skeleton.screen_size));
        builder
    }

    /// What stands in the way of finalizing, if anything.
    pub fn build_error(&self) -> (error: Option<AssemblyError>)
        ensures
            error == self.spec_build_error(),
    {
        if self.state.is_none() {
            Some(AssemblyError::NoState)
        } else {
            None
        }
    }

    /// Finalizes the assembly: hands back the skeleton, and the application
    /// with the user state, the modules and the pipelines in the order added.
    pub fn build(self) -> (done: (AppSkeleton, App<'a, S, C, K>))
        requires
            self.spec_build_error() is None,
        ensures
            done.0 == self.skeleton,
            Some(done.1.state) == self.state,
            done.1.camera3d == self.camera3d,
            done.1.text2d == self.text2d,
            done.1.named_pipelines == self.named_pipelines,
            self.coherent() ==> done.1.coherent(),
    {
        let AppBuilder { skeleton, state, camera3d, text2d, named_pipelines } = self;
        let state = match state {
            Some(state) => state,
            None => { vstd::pervasive::unreached() },
        };
        (skeleton, App { state, camera3d, text2d, named_pipelines })
    }
}

impl<'a, S, C: Camera, K> AppBuilder<'a, S, C, K> {
    /// `after` is this builder with a camera module attached around `camera`
    /// and `controller`, in place of any attached before: the camera has taken
    /// the aspect ratio of the configured surface, width to height, and the
    /// uniform starts as the transform of the camera so adjusted.
    pub open spec fn camera_attached(
        self,
        after: Self,
        camera: C,
        controller: K,
        aspect_policy: AspectPolicy,
    ) -> bool {
        &&& after.skeleton == self.skeleton
        &&& after.state == self.state
        &&& after.camera3d matches Some(module)
        &&& Camera3D::<C, K>::derived(
            camera,
            self.skeleton.config.width,
            self.skeleton.config.height,
            module.camera,
            module.uniform,
        )
        &&& module.is_module_of(module.camera, module.uniform, controller, aspect_policy)
        &&& after.text2d == self.text2d
        &&& after.named_pipelines == self.named_pipelines
    }

    /// Attaches a camera, in place of any attached before. The camera keeps
    /// the aspect ratio it is given here whatever becomes of the surface.
    pub fn add_camera3d(self, camera: C, controller: K) -> (builder: Self)
        ensures
            self.camera_attached(builder, camera, controller, AspectPolicy::Fixed),
            self.coherent() ==> builder.coherent(),
    {
        self.add_camera3d_with_policy(camera, controller, AspectPolicy::Fixed)
    }

    /// Attaches a camera, in place of any attached before, and says what
    /// becomes of its aspect ratio when the surface is resized.
    pub fn add_camera3d_with_policy(
        self,
        camera: C,
        controller: K,
        aspect_policy: AspectPolicy,
    ) -> (builder: Self)
        ensures
            self.camera_attached(builder, camera, controller, aspect_policy),
            self.coherent() ==> builder.coherent(),
    {
        let module = Camera3D::for_surface(
            camera,
            controller,
            aspect_policy,
            self.skeleton.config.width,
            self.skeleton.config.height,
        );
        self.with_camera3d(module)
    }
}

} // verus!
