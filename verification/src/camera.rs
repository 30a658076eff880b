//! The camera module: a camera, the uniform that mirrors its transform, and
//! the bindings that expose the uniform.

use crate::frame_loop::resize_possible;
use crate::gpu::{
    BindGroupDescriptor, BindGroupEntry, BindGroupLayoutDescriptor, BindGroupLayoutEntry,
    BindingResource, BufferBindingType, BufferContents, BufferDescriptor, BufferUsages,
};
use crate::vector::Mat4;
use vstd::prelude::*;

verus! {

/// Anything that yields a view-projection transform from its current state.
///
/// Single-precision numbers cross this interface as their IEEE-754 bit
/// patterns. The trait promises nothing of either method: what a camera
/// computes is its own business, and the contracts of this module speak of
/// it as "what the method returns".
pub trait Camera: Sized {
    /// The same camera with its aspect ratio replaced by `width / height`.
    fn with_aspect(self, width: u32, height: u32) -> Self;

    /// The projection applied after the view, column by column.
    fn build_view_projection_matrix(&self) -> Mat4<u32>;
}

/// What becomes of the camera's aspect ratio when the surface is resized.
#[derive(Copy, Clone, Debug, PartialEq, Eq)]
pub enum AspectPolicy {
    /// The camera keeps the ratio that the surface had when the camera was attached.
    Fixed,
    /// The camera takes the ratio of the surface anew at each resize.
    FollowSurface,
}

/// The slots of the camera bind-group layout: the uniform, read by the vertex stage.
pub open spec fn camera_layout_entries() -> Seq<BindGroupLayoutEntry> {
    seq![BindGroupLayoutEntry::spec_vertex_buffer(0, BufferBindingType::Uniform)]
}

/// The slots of the camera bind group: the whole uniform buffer.
pub open spec fn camera_group_entries() -> Seq<BindGroupEntry> {
    seq![BindGroupEntry { binding: 0, resource: BindingResource::EntireBuffer }]
}

/// What the camera module owns.
#[derive(Clone, Debug, PartialEq, Eq)]
pub struct Camera3D<C, K> {
    pub camera: C,
    /// The transform as last derived from the camera.
    pub uniform: Mat4<u32>,
    pub buffer: BufferDescriptor,
    pub bind_group_layout: BindGroupLayoutDescriptor,
    pub bind_group: BindGroupDescriptor,
    pub controller: K,
    pub aspect_policy: AspectPolicy,
}

impl<C, K> Camera3D<C, K> {
    /// This is the camera module around `camera` and `controller` whose
    /// uniform, and the buffer behind it, start as `uniform`.
    pub open spec fn is_module_of(
        &self,
        camera: C,
        uniform: Mat4<u32>,
        controller: K,
        aspect_policy: AspectPolicy,
    ) -> bool {
        &&& self.camera == camera
        &&& self.uniform == uniform
        &&& self.buffer.label@ == "Camera Buffer"@
        &&& self.buffer.contents == BufferContents::Matrix(uniform)
        &&& self.buffer.usage == BufferUsages::spec_writable_uniform()
        &&& self.bind_group_layout.describes("camera_bind_group_layout"@, camera_layout_entries())
        &&& self.bind_group.describes("camera_bind_group"@, camera_group_entries())
        &&& self.controller == controller
        &&& self.aspect_policy == aspect_policy
    }

    /// Describes the camera module around a camera whose transform is `uniform`.
    pub fn new(
        camera: C,
        uniform: Mat4<u32>,
        controller: K,
        aspect_policy: AspectPolicy,
    ) -> (module: Camera3D<C, K>)
        ensures
            module.is_module_of(camera, uniform, controller, aspect_policy),
    {
        let mut layout_entries: Vec<BindGroupLayoutEntry> = Vec::new();
        layout_entries.push(BindGroupLayoutEntry::vertex_buffer(0, BufferBindingType::Uniform));
        assert(layout_entries@ =~= camera_layout_entries());
        let mut group_entries: Vec<BindGroupEntry> = Vec::new();
        group_entries.push(BindGroupEntry { binding: 0, resource: BindingResource::EntireBuffer });
        assert(group_entries@ =~= camera_group_entries());
        Camera3D {
            camera,
            uniform,
            buffer: BufferDescriptor {
                label: "Camera Buffer".to_owned(),
                contents: BufferContents::Matrix(uniform),
                usage: BufferUsages::writable_uniform(),
            },
            bind_group_layout: BindGroupLayoutDescriptor {
                label: "camera_bind_group_layout".to_owned(),
                entries: layout_entries,
            },
            bind_group: BindGroupDescriptor {
                label: "camera_bind_group".to_owned(),
                entries: group_entries,
            },
            controller,
            aspect_policy,
        }
    }
}

impl<C: Camera, K> Camera3D<C, K> {
    /// `adjusted` is what `camera` became under the aspect ratio `width / height`,
    /// and `uniform` is the transform of `adjusted`: each is what the camera's
    /// own method returned.
    pub open spec fn derived(
        camera: C,
        width: u32,
        height: u32,
        adjusted: C,
        uniform: Mat4<u32>,
    ) -> bool {
        &&& call_ensures(C::with_aspect, (camera, width, height), adjusted)
        &&& call_ensures(C::build_view_projection_matrix, (&adjusted,), uniform)
    }

    /// Describes the camera module around `camera` for a surface of `width` by
    /// `height` pixels: the camera takes the surface's aspect ratio, and the
    /// uniform starts as the transform of the camera so adjusted.
    pub fn for_surface(
        camera: C,
        controller: K,
        aspect_policy: AspectPolicy,
        width: u32,
        height: u32,
    ) -> (module: Camera3D<C, K>)
        ensures
            Self::derived(camera, width, height, module.camera, module.uniform),
            module.is_module_of(module.camera, module.uniform, controller, aspect_policy),
    {
        let camera = camera.with_aspect(width, height);
        let uniform = camera.build_view_projection_matrix();
        Camera3D::new(camera, uniform, controller, aspect_policy)
    }

    /// Derives the transform anew from the camera as it stands, whether or not
    /// the camera has moved, and returns it for upload. Nothing but the
    /// uniform changes.
    pub fn update_view_proj(&mut self) -> (uniform: Mat4<u32>)
        ensures
            call_ensures(C::build_view_projection_matrix, (&old(self).camera,), uniform),
            *final(self) == (Camera3D { uniform, ..*old(self) }),
    {
        let uniform = self.camera.build_view_projection_matrix();
        self.uniform = uniform;
        uniform
    }

    /// Whether a resize of the surface to `width` by `height` pixels reaches
    /// the camera: the policy has to say so, and neither side may be zero.
    pub open spec fn follows(&self, width: u32, height: u32) -> bool {
        self.aspect_policy == AspectPolicy::FollowSurface && resize_possible(width, height)
    }

    /// Tells the module that the surface now has `width` by `height` pixels.
    /// Under `AspectPolicy::Fixed`, or for a size with a zero side, nothing
    /// changes. Under `AspectPolicy::FollowSurface` the camera takes the new
    /// aspect ratio and the uniform is derived anew; all else stays.
    pub fn surface_resized(self, width: u32, height: u32) -> (module: Self)
        ensures
            !self.follows(width, height) ==> module == self,
            self.follows(width, height) ==> Self::derived(
                self.camera,
                width,
                height,
                module.camera,
                module.uniform,
            ) && module == (Camera3D { camera: module.camera, uniform: module.uniform, ..self }),
    {
        let follow = match self.aspect_policy {
            AspectPolicy::FollowSurface => resize_possible(width, height),
            AspectPolicy::Fixed => false,
        };
        if follow {
            let Camera3D {
                camera,
                uniform: _,
                buffer,
                bind_group_layout,
                bind_group,
                controller,
                aspect_policy,
            } = self;
            let camera = camera.with_aspect(width, height);
            let uniform = camera.build_view_projection_matrix();
            Camera3D {
                camera,
                uniform,
                buffer,
                bind_group_layout,
                bind_group,
                controller,
                aspect_policy,
            }
        } else {
            self
        }
    }
}

} // verus!
