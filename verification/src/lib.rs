//! Rendering-resource abstraction and scene-graph core of a real-time 3D
//! engine: frame buffers with attachments, resource bindings and draw
//! dispatch, a polymorphic scene node hierarchy, and a terrain subsystem with
//! lazily regenerated chunk geometry.
//!
//! All geometry lives in a 64-bit integer coordinate model: positions and
//! heights are fixed-point samples, and transform composition saturates at
//! the representable range instead of overflowing. The GPU itself is outside
//! the library; render targets are modelled as pixel grids so that clearing,
//! blitting and draw validation have exact contracts.

pub mod error;
pub mod framebuffer;
pub mod gpu;
pub mod math;
pub mod node;
pub mod optimizer;
pub mod spot;
pub mod terrain;
