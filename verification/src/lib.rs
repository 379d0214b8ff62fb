//! Decisions of a renderer that draws one fixed triangle to a window surface.
//!
//! The graphics driver and the window system are reached by the program
//! around this library. The library holds what that program decides on: which
//! instance layers, physical device and queue family to use, how the swapchain
//! is laid out, which commands a frame records, and how the frame loop moves
//! between its states as the driver reports stale surfaces and failures.

pub mod commands;
pub mod device;
pub mod fault;
pub mod frame;
pub mod guarantees;
pub mod layers;
pub mod shaders;
pub mod swapchain;

pub use frame::{new, recreate, redraw, Other, Renderer, Runtime};
pub use shaders::build_shaders;
