//! Staged assembly of a single-window, single-device rendering application.
//!
//! The crate decides; it does not touch a window or a device. It says how the
//! surface is configured, whether an adapter will do, which GPU objects each
//! module needs, how a render pipeline is put together, and what the frame
//! loop does about each event. The layer that owns the window and the device
//! carries the decisions out.
//!
//! - `surface`: the surface configuration chosen from what a surface offers.
//! - `adapter`: an adapter held to the application's requirements.
//! - `gpu`: plain descriptions of buffers, textures, samplers and bind groups.
//! - `data`, `vector`: vertices, the screen size, and small generic carriers.
//! - `camera`, `text`: the two optional modules and what they own.
//! - `app`, `pipeline`: the staged builders and their ordering rules.
//! - `frame_loop`: the frame loop as a state machine.

pub mod adapter;
pub mod app;
pub mod camera;
pub mod data;
pub mod frame_loop;
pub mod gpu;
pub mod pipeline;
pub mod surface;
pub mod text;
pub mod vector;
