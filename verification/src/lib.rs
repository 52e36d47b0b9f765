//! The decisions of a small 2D rendering demo, apart from the window and
//! the GPU that carry them out.
//!
//! - [`component`] turns a corner, a width and a height in pixels into the
//!   four vertices of a rectangle in normalized device space, and
//!   [`buffer`] says how vertices and indices are laid out.
//! - [`upload`] collects the buffers that geometry asks for, [`pass`] the
//!   commands that draw from them, and [`frame`] plans a whole frame from a
//!   list of rectangles.
//! - [`renderer`] holds the state between events: the configuration of the
//!   surface, the active one of the two pipelines of [`pipeline`], and
//!   where the frame stands. It answers each event of [`event`] and each
//!   step of a frame with the action to take.
//!
//! Coordinates and colours are exact fractions; no floating point occurs.
//! Two functions are trusted rather than proved, each a single call into
//! another crate: the byte size of a vertex format comes from `wgpu`, and
//! the bytes of the index data from `bytemuck`.

pub mod buffer;
pub mod component;
pub mod event;
pub mod frame;
pub mod pass;
pub mod pipeline;
pub mod render_util;
pub mod renderer;
pub mod scene;
pub mod surface;
pub mod upload;
