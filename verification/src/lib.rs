//! Surface lifecycle and render pipeline construction on top of `wgpu`.
//!
//! The crate holds the decisions of a small rendering layer: which device
//! features and limits to request, which presentation format to configure,
//! how a display reacts to resizes and to failed frame acquisitions, and how
//! a render pipeline description is accumulated and checked before it is
//! handed to the device. Talking to the device itself is left to the caller.

pub mod display;
pub mod gpu;
pub mod negotiate;
pub mod pipeline;
pub mod single_shader;
pub mod state;
pub mod surface;
