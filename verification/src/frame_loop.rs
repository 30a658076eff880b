//! The frame loop as a state machine: what to do about each event.
//!
//! The loop itself runs where the window lives. For each event it asks
//! `FrameLoop::step` what to do, does it, and hands back what came of it.

use crate::app::AppSkeleton;
use crate::surface::SurfaceConfiguration;
use vstd::prelude::*;

verus! {

/// Whether the loop goes on.
#[derive(Copy, Clone, Debug, PartialEq, Eq)]
pub enum LoopState {
    Running,
    /// The loop is over; nothing is dispatched any more.
    Exiting,
}

/// What the loop tells apart in an event of a window.
#[derive(Copy, Clone, Debug, PartialEq, Eq)]
pub enum WindowInput {
    CloseRequested,
    /// The escape key went down.
    EscapePressed,
    /// The window has a new size in pixels.
    Resized { width: u32, height: u32 },
    /// The scale factor changed, and with it the size in pixels.
    ScaleFactorChanged { width: u32, height: u32 },
    /// Any other window event.
    Other,
}

/// How an attempt to render a frame ended.
#[derive(Copy, Clone, Debug, PartialEq, Eq)]
pub enum RenderOutcome {
    Presented,
    /// No frame could be had in time.
    Timeout,
    /// The surface changed under the frame.
    Outdated,
    /// The surface is lost and has to be configured again.
    Lost,
    OutOfMemory,
}

/// What reaches the loop.
#[derive(Copy, Clone, Debug, PartialEq, Eq)]
pub enum LoopEvent {
    /// An event of a window. For the owned window the application's input
    /// handler has seen it first, and `consumed` is its answer.
    Window { own_window: bool, input: WindowInput, consumed: bool },
    /// A window is to be redrawn.
    RedrawRequested { own_window: bool },
    /// The frame asked for by `LoopAction::UpdateThenRender` has ended.
    Rendered(RenderOutcome),
    /// One pass over the pending events is over.
    RedrawEventsCleared,
    /// Anything else.
    Other,
}

/// What the loop is to do next.
#[derive(Copy, Clone, Debug, PartialEq, Eq)]
pub enum LoopAction {
    /// Nothing.
    Idle,
    /// Leave the loop.
    Exit,
    /// Configure the surface with the skeleton's configuration as it now stands.
    ConfigureSurface,
    /// Call the application's update, then its render, and hand back
    /// `LoopEvent::Rendered` with the outcome.
    UpdateThenRender,
    /// Ask the window for another redraw.
    RequestRedraw,
    /// Report the failed frame and go on.
    ReportError,
}

/// A surface can take this size: neither side is zero.
pub open spec fn spec_resize_possible(width: u32, height: u32) -> bool {
    width > 0 && height > 0
}

/// Whether a surface can take this size.
#[verifier::when_used_as_spec(spec_resize_possible)]
pub fn resize_possible(width: u32, height: u32) -> (possible: bool)
    ensures
        possible == spec_resize_possible(width, height),
{
    width > 0 && height > 0
}

/// The frame loop: its state, and the skeleton it owns while it runs.
#[derive(Debug, PartialEq, Eq)]
pub struct FrameLoop {
    pub state: LoopState,
    pub skeleton: AppSkeleton,
}

impl FrameLoop {
    /// This loop with the surface configured to `width` by `height` pixels.
    pub open spec fn resized(self, width: u32, height: u32) -> FrameLoop {
        FrameLoop {
            skeleton: AppSkeleton {
                config: SurfaceConfiguration { width, height, ..self.skeleton.config },
                ..self.skeleton
            },
            ..self
        }
    }

    /// This loop, over.
    pub open spec fn exited(self) -> FrameLoop {
        FrameLoop { state: LoopState::Exiting, ..self }
    }

    /// What a window event that the application left alone does to a running loop.
    pub open spec fn on_input(self, input: WindowInput) -> (FrameLoop, LoopAction) {
        match input {
            WindowInput::CloseRequested | WindowInput::EscapePressed => (
                self.exited(),
                LoopAction::Exit,
            ),
            WindowInput::Resized { width, height }
            | WindowInput::ScaleFactorChanged { width, height } => {
                if spec_resize_possible(width, height) {
                    (self.resized(width, height), LoopAction::ConfigureSurface)
                } else {
                    (self, LoopAction::Idle)
                }
            },
            WindowInput::Other => (self, LoopAction::Idle),
        }
    }

    /// What the end of a frame does to a running loop.
    pub open spec fn on_rendered(self, outcome: RenderOutcome) -> (FrameLoop, LoopAction) {
        match outcome {
            RenderOutcome::Presented => (self, LoopAction::Idle),
            RenderOutcome::Lost => (self, LoopAction::ConfigureSurface),
            RenderOutcome::OutOfMemory => (self.exited(), LoopAction::Exit),
            RenderOutcome::Timeout | RenderOutcome::Outdated => (self, LoopAction::ReportError),
        }
    }

    /// The loop after `event`, and what is to be done about it.
    pub open spec fn next(self, event: LoopEvent) -> (FrameLoop, LoopAction) {
        if self.state == LoopState::Exiting {
            (self, LoopAction::Idle)
        } else {
            match event {
                LoopEvent::Window { own_window, input, consumed } => {
                    if own_window && !consumed {
                        self.on_input(input)
                    } else {
                        (self, LoopAction::Idle)
                    }
                },
                LoopEvent::RedrawRequested { own_window } => {
                    if own_window {
                        (self, LoopAction::UpdateThenRender)
                    } else {
                        (self, LoopAction::Idle)
                    }
                },
                LoopEvent::Rendered(outcome) => self.on_rendered(outcome),
                LoopEvent::RedrawEventsCleared => (self, LoopAction::RequestRedraw),
                LoopEvent::Other => (self, LoopAction::Idle),
            }
        }
    }

    /// The loop as it is entered: running, and owning the skeleton.
    pub fn new(skeleton: AppSkeleton) -> (frame_loop: FrameLoop)
        ensures
            frame_loop.state == LoopState::Running,
            frame_loop.skeleton == skeleton,
    {
        FrameLoop { state: LoopState::Running, skeleton }
    }

    /// Whether the loop is over.
    pub fn is_exiting(&self) -> (exiting: bool)
        ensures
            exiting == (self.state == LoopState::Exiting),
    {
        match self.state {
            LoopState::Exiting => true,
            LoopState::Running => false,
        }
    }

    /// Whether a window event goes to the application's input handler before
    /// the loop looks at it: where the loop runs and the window is the owned one.
    pub fn offers_input(&self, own_window: bool) -> (offered: bool)
        ensures
            offered == (self.state == LoopState::Running && own_window),
    {
        !self.is_exiting() && own_window
    }

    /// Takes one event: moves the loop on and says what is to be done.
    pub fn step(&mut self, event: LoopEvent) -> (action: LoopAction)
        ensures
            (*final(self), action) == old(self).next(event),
    {
        if self.is_exiting() {
            return LoopAction::Idle;
        }
        match event {
            LoopEvent::Window { own_window, input, consumed } => {
                if !own_window || consumed {
                    return LoopAction::Idle;
                }
                match input {
                    WindowInput::CloseRequested | WindowInput::EscapePressed => {
                        self.state = LoopState::Exiting;
                        LoopAction::Exit
                    },
                    WindowInput::Resized { width, height }
                    | WindowInput::ScaleFactorChanged { width, height } => {
                        if resize_possible(width, height) {
                            self.skeleton.config.width = width;
                            self.skeleton.config.height = height;
                            LoopAction::ConfigureSurface
                        } else {
                            LoopAction::Idle
                        }
                    },
                    WindowInput::Other => LoopAction::Idle,
                }
            },
            LoopEvent::RedrawRequested { own_window } => {
                if own_window {
                    LoopAction::UpdateThenRender
                } else {
                    LoopAction::Idle
                }
            },
            LoopEvent::Rendered(outcome) => {
                match outcome {
                    RenderOutcome::Presented => LoopAction::Idle,
                    RenderOutcome::Lost => LoopAction::ConfigureSurface,
                    RenderOutcome::OutOfMemory => {
                        self.state = LoopState::Exiting;
                        LoopAction::Exit
                    },
                    RenderOutcome::Timeout | RenderOutcome::Outdated => LoopAction::ReportError,
                }
            },
            LoopEvent::RedrawEventsCleared => LoopAction::RequestRedraw,
            LoopEvent::Other => LoopAction::Idle,
        }
    }
}

/// A resize of the owned window that the application left alone takes effect
/// exactly when neither side is zero: then the configuration has the event's
/// width and height, all else in it is as before, the surface is to be
/// configured, and the next redraw request is dispatched. With a zero side
/// nothing changes and nothing is done.
pub proof fn lemma_resize(frame_loop: FrameLoop, width: u32, height: u32, by_scale: bool)
    requires
        frame_loop.state == LoopState::Running,
    ensures
        ({
            let input = if by_scale {
                WindowInput::ScaleFactorChanged { width, height }
            } else {
                WindowInput::Resized { width, height }
            };
            let (after, action) = frame_loop.next(
                LoopEvent::Window { own_window: true, input, consumed: false },
            );
            if width > 0 && height > 0 {
                &&& after.skeleton.config.width == width
                &&& after.skeleton.config.height == height
                &&& after == frame_loop.resized(width, height)
                &&& action == LoopAction::ConfigureSurface
                &&& after.state == LoopState::Running
                &&& after.next(LoopEvent::RedrawRequested { own_window: true }) == (
                    after,
                    LoopAction::UpdateThenRender,
                )
            } else {
                after == frame_loop && action == LoopAction::Idle
            }
        }),
{
}

/// A close request or an escape press on the owned window that the
/// application left alone ends the loop.
pub proof fn lemma_close_exits(frame_loop: FrameLoop, by_escape: bool)
    requires
        frame_loop.state == LoopState::Running,
    ensures
        ({
            let input = if by_escape {
                WindowInput::EscapePressed
            } else {
                WindowInput::CloseRequested
            };
            let (after, action) = frame_loop.next(
                LoopEvent::Window { own_window: true, input, consumed: false },
            );
            after.state == LoopState::Exiting && action == LoopAction::Exit
                && after.skeleton == frame_loop.skeleton
        }),
{
}

/// A running loop ends on three events and on no other: a close request or an
/// escape press on the owned window that the application left alone, and a
/// frame that ran out of memory.
pub proof fn lemma_exit_causes(frame_loop: FrameLoop, event: LoopEvent)
    requires
        frame_loop.state == LoopState::Running,
    ensures
        frame_loop.next(event).0.state == LoopState::Exiting <==> (event == LoopEvent::Window {
            own_window: true,
            input: WindowInput::CloseRequested,
            consumed: false,
        } || event == LoopEvent::Window {
            own_window: true,
            input: WindowInput::EscapePressed,
            consumed: false,
        } || event == LoopEvent::Rendered(RenderOutcome::OutOfMemory)),
        frame_loop.next(event).0.state == LoopState::Exiting <==> frame_loop.next(event).1
            == LoopAction::Exit,
{
}

/// Once the loop is over it stays over, and no event has anything dispatched.
pub proof fn lemma_exiting_is_final(frame_loop: FrameLoop, event: LoopEvent)
    requires
        frame_loop.state == LoopState::Exiting,
    ensures
        frame_loop.next(event) == (frame_loop, LoopAction::Idle),
{
}

/// No event changes anything of the skeleton but the configured width and
/// height, and those only to a size without a zero side.
pub proof fn lemma_step_keeps_configuration(frame_loop: FrameLoop, event: LoopEvent)
    ensures
        ({
            let after = frame_loop.next(event).0;
            &&& after.skeleton.screen_size == frame_loop.skeleton.screen_size
            &&& after.skeleton.config == (SurfaceConfiguration {
                width: after.skeleton.config.width,
                height: after.skeleton.config.height,
                ..frame_loop.skeleton.config
            })
            &&& after.skeleton.config != frame_loop.skeleton.config ==> after.skeleton.config.width
                > 0 && after.skeleton.config.height > 0
        }),
{
}

} // verus!
