use render_assembly::app::{App, AppBuilder, AppSkeleton};
use render_assembly::camera::{AspectPolicy, Camera, Camera3D};
use render_assembly::gpu::{
    BindGroupEntry, BindGroupLayoutEntry, BindingResource, BindingType, BufferBindingType,
    BufferContents, BufferUsages, ShaderStages,
};
use render_assembly::surface::{CompositeAlphaMode, PresentMode, SurfaceCapabilities};
use render_assembly::vector::{Mat4, Vector4};

#[derive(Debug, PartialEq, Clone, Copy)]
struct FlatCamera {
    aspect: f32,
    scale: f32,
}

impl Camera for FlatCamera {
    fn with_aspect(self, width: u32, height: u32) -> Self {
        FlatCamera { aspect: width as f32 / height as f32, ..self }
    }

    fn build_view_projection_matrix(&self) -> Mat4<u32> {
        let zero = 0.0f32.to_bits();
        Mat4 {
            x: Vector4 { x: (self.scale / self.aspect).to_bits(), y: zero, z: zero, w: zero },
            y: Vector4 { x: zero, y: self.scale.to_bits(), z: zero, w: zero },
            z: Vector4 { x: zero, y: zero, z: 1.0f32.to_bits(), w: zero },
            w: Vector4 { x: zero, y: zero, z: zero, w: 1.0f32.to_bits() },
        }
    }
}

fn skeleton(width: u32, height: u32) -> AppSkeleton {
    let capabilities = SurfaceCapabilities {
        formats: vec![wgpu::TextureFormat::Bgra8Unorm, wgpu::TextureFormat::Bgra8UnormSrgb],
        present_modes: vec![PresentMode::Fifo],
        alpha_modes: vec![CompositeAlphaMode::Opaque],
    };
    AppSkeleton::new(&capabilities, width, height)
}

fn builder(width: u32, height: u32) -> AppBuilder<'static, (), FlatCamera, u8> {
    App::for_skeleton(skeleton(width, height))
}

#[test]
fn camera_takes_the_surface_aspect() {
    let builder = builder(800, 600).add_camera3d(FlatCamera { aspect: 1.0, scale: 2.0 }, 0);
    let module = builder.camera3d.unwrap();
    assert_eq!(module.camera.aspect, 800.0 / 600.0);
    assert_eq!(module.camera.scale, 2.0);
    assert_eq!(f32::from_bits(module.uniform.y.y), 2.0);
    assert_eq!(f32::from_bits(module.uniform.x.x), 2.0 / (800.0 / 600.0));
}

#[test]
fn camera_uniform_starts_as_the_transform_of_the_adjusted_camera() {
    let builder = builder(300, 100).add_camera3d(FlatCamera { aspect: 9.0, scale: 6.0 }, 0);
    let module = builder.camera3d.unwrap();
    let expected = FlatCamera { aspect: 3.0, scale: 6.0 }.build_view_projection_matrix();
    assert_eq!(module.uniform, expected);
    assert_eq!(module.buffer.contents, BufferContents::Matrix(expected));
    assert_eq!(f32::from_bits(expected.x.x), 2.0);
}

#[test]
fn camera_module_is_described_in_full() {
    let builder = builder(800, 600).add_camera3d(FlatCamera { aspect: 1.0, scale: 1.0 }, 42);
    let module = builder.camera3d.unwrap();
    assert_eq!(module.controller, 42);
    assert_eq!(module.buffer.label, "Camera Buffer");
    assert_eq!(
        module.buffer.usage,
        BufferUsages {
            copy_src: false,
            copy_dst: true,
            index: false,
            vertex: false,
            uniform: true,
            storage: false,
        }
    );
    assert_eq!(module.bind_group_layout.label, "camera_bind_group_layout");
    assert_eq!(
        module.bind_group_layout.entries,
        vec![BindGroupLayoutEntry {
            binding: 0,
            visibility: ShaderStages { vertex: true, fragment: false, compute: false },
            ty: BindingType::Buffer {
                ty: BufferBindingType::Uniform,
                has_dynamic_offset: false,
                min_binding_size: None,
            },
            count: None,
        }]
    );
    assert_eq!(module.bind_group.label, "camera_bind_group");
    assert_eq!(
        module.bind_group.entries,
        vec![BindGroupEntry { binding: 0, resource: BindingResource::EntireBuffer }]
    );
}

#[test]
fn second_camera_replaces_the_first() {
    let builder = builder(800, 600)
        .add_camera3d(FlatCamera { aspect: 1.0, scale: 1.0 }, 1)
        .add_camera3d(FlatCamera { aspect: 1.0, scale: 5.0 }, 2);
    let module = builder.camera3d.unwrap();
    assert_eq!(module.camera.scale, 5.0);
    assert_eq!(module.controller, 2);
}

#[test]
fn camera_leaves_the_rest_of_the_builder_alone() {
    let before = builder(800, 600).state(());
    let after = builder(800, 600).state(()).add_camera3d(FlatCamera { aspect: 1.0, scale: 1.0 }, 1);
    assert_eq!(after.skeleton, before.skeleton);
    assert_eq!(after.state, before.state);
    assert_eq!(after.text2d, before.text2d);
    assert_eq!(after.named_pipelines, before.named_pipelines);
}

#[test]
fn update_derives_the_transform_anew_every_time() {
    let camera = FlatCamera { aspect: 2.0, scale: 4.0 };
    let start = camera.build_view_projection_matrix();
    let mut module = Camera3D::new(camera, start, (), AspectPolicy::Fixed);
    let untouched = module.clone();
    let first = module.update_view_proj();
    let second = module.update_view_proj();
    assert_eq!(first, second);
    assert_eq!(module, untouched);
    module.camera.scale = 8.0;
    let moved = module.update_view_proj();
    assert_ne!(moved, first);
    assert_eq!(f32::from_bits(moved.y.y), 8.0);
    assert_eq!(module.uniform, moved);
    assert_eq!(module.buffer, untouched.buffer);
    assert_eq!(module.bind_group_layout, untouched.bind_group_layout);
    assert_eq!(module.bind_group, untouched.bind_group);
}

#[test]
fn attached_camera_keeps_its_aspect_by_default() {
    let builder = builder(800, 600).add_camera3d(FlatCamera { aspect: 1.0, scale: 2.0 }, 0);
    let module = builder.camera3d.unwrap();
    assert_eq!(module.aspect_policy, AspectPolicy::Fixed);
    let before = module.clone();
    assert_eq!(module.surface_resized(400, 100), before);
}

#[test]
fn following_camera_takes_the_new_aspect() {
    let builder = builder(800, 600).add_camera3d_with_policy(
        FlatCamera { aspect: 1.0, scale: 2.0 },
        7,
        AspectPolicy::FollowSurface,
    );
    let module = builder.camera3d.unwrap();
    assert_eq!(module.aspect_policy, AspectPolicy::FollowSurface);
    assert_eq!(module.camera.aspect, 800.0 / 600.0);
    let before = module.clone();
    let after = module.surface_resized(400, 100);
    assert_eq!(after.camera, FlatCamera { aspect: 4.0, scale: 2.0 });
    assert_eq!(after.uniform, after.camera.build_view_projection_matrix());
    assert_eq!(f32::from_bits(after.uniform.x.x), 0.5);
    assert_eq!(after.controller, 7);
    assert_eq!(after.buffer, before.buffer);
    assert_eq!(after.bind_group_layout, before.bind_group_layout);
    assert_eq!(after.bind_group, before.bind_group);
    assert_eq!(after.aspect_policy, AspectPolicy::FollowSurface);
}

#[test]
fn following_camera_ignores_sizes_with_a_zero_side() {
    let module = Camera3D::for_surface(
        FlatCamera { aspect: 1.0, scale: 2.0 },
        (),
        AspectPolicy::FollowSurface,
        800,
        600,
    );
    let before = module.clone();
    let module = module.surface_resized(0, 600);
    let module = module.surface_resized(800, 0);
    let module = module.surface_resized(0, 0);
    assert_eq!(module, before);
}

#[derive(Debug, PartialEq, Clone, Copy)]
struct LookAt {
    eye: glam::Vec3,
    target: glam::Vec3,
    up: glam::Vec3,
    aspect: f32,
    fovy: f32,
    znear: f32,
    zfar: f32,
}

impl Camera for LookAt {
    fn with_aspect(self, width: u32, height: u32) -> Self {
        LookAt { aspect: width as f32 / height as f32, ..self }
    }

    fn build_view_projection_matrix(&self) -> Mat4<u32> {
        let view = glam::Mat4::look_at_rh(self.eye, self.target, self.up);
        let proj = glam::Mat4::perspective_rh(self.fovy, self.aspect, self.znear, self.zfar);
        let m = (proj * view).to_cols_array().map(f32::to_bits);
        Mat4 {
            x: Vector4 { x: m[0], y: m[1], z: m[2], w: m[3] },
            y: Vector4 { x: m[4], y: m[5], z: m[6], w: m[7] },
            z: Vector4 { x: m[8], y: m[9], z: m[10], w: m[11] },
            w: Vector4 { x: m[12], y: m[13], z: m[14], w: m[15] },
        }
    }
}

#[test]
fn perspective_transform_is_the_same_bits_for_the_same_state() {
    let camera = LookAt {
        eye: glam::Vec3::new(0.0, 1.0, 2.0),
        target: glam::Vec3::ZERO,
        up: glam::Vec3::Y,
        aspect: 1.0,
        fovy: 0.785,
        znear: 0.1,
        zfar: 100.0,
    };
    let mut module = Camera3D::for_surface(camera, (), AspectPolicy::Fixed, 800, 600);
    let at_start = module.uniform;
    let first = module.update_view_proj();
    let second = module.update_view_proj();
    assert_eq!(first, second);
    assert_eq!(first, at_start);
    assert_eq!(module.camera.aspect, 800.0 / 600.0);
    assert_eq!(f32::from_bits(first.w.w), 5.0f32.sqrt());
}
