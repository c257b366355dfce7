//! Buffers and helpers behind a C interface for a game engine: byte buffers
//! whose memory crosses the boundary, the bookkeeping of animation blending
//! layers, and AVIF encoding of RGBA images.

pub mod avif;
pub mod blending;
pub mod bytebuffer;
