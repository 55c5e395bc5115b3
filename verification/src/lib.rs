//! Core of an embeddable 2D canvas: the rendering context that tracks drawing
//! attributes across save/restore boundaries, the surface model it draws
//! against, and the image ingestion pipeline that turns encoded or raw pixel
//! buffers into normalized, resampled image assets.
//!
//! Host bindings (JNI, a JS bridge) live outside this crate; they convert raw
//! arguments to the plain values these modules take and hand plain values back.

pub mod asset;
pub mod color;
pub mod context;
pub mod device;
pub mod grid;
pub mod handle;
pub mod pipeline;
pub mod pixels;
pub mod state;
pub mod surface;
