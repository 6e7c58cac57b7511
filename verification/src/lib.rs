//! Recolours animated GIF images by mapping every colour to the nearest one of a target palette.

pub mod codec;
pub mod color;
pub mod error;
pub mod frame;
pub mod loader;
pub mod mapper;
pub mod pipeline;
