use render_assembly::app::{App, AppSkeleton};
use render_assembly::camera::Camera;
use render_assembly::frame_loop::{
    resize_possible, FrameLoop, LoopAction, LoopEvent, LoopState, RenderOutcome, WindowInput,
};
use render_assembly::pipeline::NamedPipeline;
use render_assembly::surface::{CompositeAlphaMode, PresentMode, SurfaceCapabilities};
use render_assembly::vector::{Mat4, Vector4};

#[derive(Debug, PartialEq, Clone, Copy)]
struct Perspective {
    aspect: f32,
}

impl Camera for Perspective {
    fn with_aspect(self, width: u32, height: u32) -> Self {
        Perspective { aspect: width as f32 / height as f32 }
    }

    fn build_view_projection_matrix(&self) -> Mat4<u32> {
        let zero = Vector4 { x: 0, y: 0, z: 0, w: 0 };
        Mat4 { x: Vector4 { x: (1.0 / self.aspect).to_bits(), ..zero }, y: zero, z: zero, w: zero }
    }
}

fn skeleton(width: u32, height: u32) -> AppSkeleton {
    let capabilities = SurfaceCapabilities {
        formats: vec![wgpu::TextureFormat::Bgra8UnormSrgb],
        present_modes: vec![PresentMode::Mailbox, PresentMode::Fifo],
        alpha_modes: vec![CompositeAlphaMode::Opaque],
    };
    AppSkeleton::new(&capabilities, width, height)
}

fn running() -> FrameLoop {
    FrameLoop::new(skeleton(800, 600))
}

fn own(input: WindowInput) -> LoopEvent {
    LoopEvent::Window { own_window: true, input, consumed: false }
}

fn every_event() -> Vec<LoopEvent> {
    let inputs = [
        WindowInput::CloseRequested,
        WindowInput::EscapePressed,
        WindowInput::Resized { width: 400, height: 300 },
        WindowInput::Resized { width: 0, height: 0 },
        WindowInput::ScaleFactorChanged { width: 1600, height: 1200 },
        WindowInput::ScaleFactorChanged { width: 5, height: 0 },
        WindowInput::Other,
    ];
    let mut events = vec![
        LoopEvent::RedrawRequested { own_window: true },
        LoopEvent::RedrawRequested { own_window: false },
        LoopEvent::Rendered(RenderOutcome::Presented),
        LoopEvent::Rendered(RenderOutcome::Timeout),
        LoopEvent::Rendered(RenderOutcome::Outdated),
        LoopEvent::Rendered(RenderOutcome::Lost),
        LoopEvent::Rendered(RenderOutcome::OutOfMemory),
        LoopEvent::RedrawEventsCleared,
        LoopEvent::Other,
    ];
    for input in inputs {
        for own_window in [true, false] {
            for consumed in [true, false] {
                events.push(LoopEvent::Window { own_window, input, consumed });
            }
        }
    }
    events
}

#[test]
fn loop_is_entered_running_with_the_skeleton() {
    let frame_loop = running();
    assert_eq!(frame_loop.state, LoopState::Running);
    assert!(!frame_loop.is_exiting());
    assert_eq!(frame_loop.skeleton, skeleton(800, 600));
}

#[test]
fn sizes_with_a_zero_side_are_impossible() {
    assert!(resize_possible(1, 1));
    assert!(resize_possible(u32::MAX, 1));
    assert!(!resize_possible(0, 1));
    assert!(!resize_possible(1, 0));
    assert!(!resize_possible(0, 0));
}

#[test]
fn one_frame_is_rendered_without_error() {
    let app = App::<&str, Perspective, ()>::for_skeleton(skeleton(800, 600))
        .state("state")
        .add_camera3d(Perspective { aspect: 1.0 }, ());
    assert_eq!(app.camera3d.as_ref().unwrap().camera.aspect, 800.0 / 600.0);
    let builder = NamedPipeline::named_for("main", app)
        .with_shader("@vertex fn vs_main() {} @fragment fn fs_main() {}".to_string())
        .layout_for_camera3d();
    let (app, named) = builder.build();
    let (skeleton, app) = app.add_pipeline(named).build();
    assert_eq!(app.named_pipelines.len(), 1);
    assert_eq!(skeleton.config.width, 800);
    assert_eq!(skeleton.config.height, 600);

    let mut frame_loop = FrameLoop::new(skeleton);
    assert_eq!(
        frame_loop.step(LoopEvent::RedrawRequested { own_window: true }),
        LoopAction::UpdateThenRender
    );
    assert_eq!(frame_loop.step(LoopEvent::Rendered(RenderOutcome::Presented)), LoopAction::Idle);
    assert_eq!(frame_loop.state, LoopState::Running);
}

#[test]
fn resize_to_nothing_is_ignored_and_a_real_resize_is_applied() {
    let mut frame_loop = running();
    assert_eq!(
        frame_loop.step(own(WindowInput::Resized { width: 0, height: 0 })),
        LoopAction::Idle
    );
    assert_eq!(frame_loop, running());

    assert_eq!(
        frame_loop.step(own(WindowInput::Resized { width: 400, height: 300 })),
        LoopAction::ConfigureSurface
    );
    assert_eq!(frame_loop.skeleton.config.width, 400);
    assert_eq!(frame_loop.skeleton.config.height, 300);
    assert_eq!(frame_loop.skeleton.config, skeleton(400, 300).config);
    assert_eq!(frame_loop.skeleton.screen_size, skeleton(800, 600).screen_size);
    assert_eq!(
        frame_loop.step(LoopEvent::RedrawRequested { own_window: true }),
        LoopAction::UpdateThenRender
    );
    assert_eq!(frame_loop.step(LoopEvent::Rendered(RenderOutcome::Presented)), LoopAction::Idle);
    assert_eq!(frame_loop.state, LoopState::Running);
}

#[test]
fn resize_with_one_zero_side_is_ignored() {
    for (width, height) in [(0, 300), (400, 0)] {
        let mut frame_loop = running();
        assert_eq!(frame_loop.step(own(WindowInput::Resized { width, height })), LoopAction::Idle);
        assert_eq!(
            frame_loop.step(own(WindowInput::ScaleFactorChanged { width, height })),
            LoopAction::Idle
        );
        assert_eq!(frame_loop, running());
    }
}

#[test]
fn scale_factor_change_resizes_too() {
    let mut frame_loop = running();
    assert_eq!(
        frame_loop.step(own(WindowInput::ScaleFactorChanged { width: 1600, height: 1200 })),
        LoopAction::ConfigureSurface
    );
    assert_eq!(frame_loop.skeleton.config, skeleton(1600, 1200).config);
}

#[test]
fn close_request_ends_the_loop_and_nothing_is_dispatched_after() {
    let mut frame_loop = running();
    assert_eq!(frame_loop.step(own(WindowInput::CloseRequested)), LoopAction::Exit);
    assert_eq!(frame_loop.state, LoopState::Exiting);
    assert!(frame_loop.is_exiting());
    for event in every_event() {
        assert_eq!(frame_loop.step(event), LoopAction::Idle, "{:?}", event);
        assert_eq!(frame_loop.state, LoopState::Exiting);
        assert_eq!(frame_loop.skeleton, skeleton(800, 600));
    }
}

#[test]
fn escape_ends_the_loop() {
    let mut frame_loop = running();
    assert_eq!(frame_loop.step(own(WindowInput::EscapePressed)), LoopAction::Exit);
    assert_eq!(frame_loop.state, LoopState::Exiting);
}

#[test]
fn consumed_events_have_no_further_handling() {
    for input in [
        WindowInput::CloseRequested,
        WindowInput::EscapePressed,
        WindowInput::Resized { width: 400, height: 300 },
        WindowInput::ScaleFactorChanged { width: 400, height: 300 },
        WindowInput::Other,
    ] {
        let mut frame_loop = running();
        let event = LoopEvent::Window { own_window: true, input, consumed: true };
        assert_eq!(frame_loop.step(event), LoopAction::Idle);
        assert_eq!(frame_loop, running());
    }
}

#[test]
fn events_of_other_windows_are_ignored() {
    for consumed in [true, false] {
        let mut frame_loop = running();
        let close =
            LoopEvent::Window { own_window: false, input: WindowInput::CloseRequested, consumed };
        assert_eq!(frame_loop.step(close), LoopAction::Idle);
        let resize = LoopEvent::Window {
            own_window: false,
            input: WindowInput::Resized { width: 1, height: 1 },
            consumed,
        };
        assert_eq!(frame_loop.step(resize), LoopAction::Idle);
        assert_eq!(
            frame_loop.step(LoopEvent::RedrawRequested { own_window: false }),
            LoopAction::Idle
        );
        assert_eq!(frame_loop, running());
    }
}

#[test]
fn input_is_offered_for_the_owned_window_while_running() {
    let mut frame_loop = running();
    assert!(frame_loop.offers_input(true));
    assert!(!frame_loop.offers_input(false));
    frame_loop.step(own(WindowInput::CloseRequested));
    assert!(!frame_loop.offers_input(true));
    assert!(!frame_loop.offers_input(false));
}

#[test]
fn lost_surface_is_configured_again() {
    let mut frame_loop = running();
    assert_eq!(
        frame_loop.step(LoopEvent::Rendered(RenderOutcome::Lost)),
        LoopAction::ConfigureSurface
    );
    assert_eq!(frame_loop, running());
}

#[test]
fn out_of_memory_ends_the_loop() {
    let mut frame_loop = running();
    assert_eq!(frame_loop.step(LoopEvent::Rendered(RenderOutcome::OutOfMemory)), LoopAction::Exit);
    assert_eq!(frame_loop.state, LoopState::Exiting);
    assert_eq!(
        frame_loop.step(LoopEvent::RedrawRequested { own_window: true }),
        LoopAction::Idle
    );
}

#[test]
fn other_presentation_errors_are_reported_and_the_loop_goes_on() {
    for outcome in [RenderOutcome::Timeout, RenderOutcome::Outdated] {
        let mut frame_loop = running();
        assert_eq!(frame_loop.step(LoopEvent::Rendered(outcome)), LoopAction::ReportError);
        assert_eq!(frame_loop, running());
        assert_eq!(
            frame_loop.step(LoopEvent::RedrawRequested { own_window: true }),
            LoopAction::UpdateThenRender
        );
    }
}

#[test]
fn cleared_redraw_events_ask_for_another_redraw() {
    let mut frame_loop = running();
    assert_eq!(frame_loop.step(LoopEvent::RedrawEventsCleared), LoopAction::RequestRedraw);
    assert_eq!(frame_loop.step(LoopEvent::RedrawEventsCleared), LoopAction::RequestRedraw);
    assert_eq!(frame_loop, running());
}

#[test]
fn other_events_do_nothing() {
    let mut frame_loop = running();
    assert_eq!(frame_loop.step(LoopEvent::Other), LoopAction::Idle);
    assert_eq!(frame_loop.step(own(WindowInput::Other)), LoopAction::Idle);
    assert_eq!(frame_loop, running());
}
