//! Verified core of a small GUI toolkit: time-driven value interpolation,
//! dirty-tracking of GPU-mirrored data, and the glyph-atlas growth protocol.

pub mod animation;
pub mod application;
pub mod asset;
pub mod button;
pub mod color;
pub mod dirty;
pub mod error;
pub mod event;
pub mod geometry;
pub mod pipeline;
pub mod renderer;
pub mod shader;
pub mod sprite;
pub mod text;
pub mod texture;
pub mod time;
pub mod vertex;
