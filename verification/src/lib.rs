//! The decisions and bookkeeping of a small GPU image viewer: decoding the
//! pixels that a window shows, sizing the drawing surface, routing window
//! events, tracking drags and planning each frame.

pub mod image_data;
pub mod renderer_state;
pub mod events;
