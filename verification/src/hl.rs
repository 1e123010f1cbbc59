//! Domain types over the replay substrate: format-aware textures, typed
//! buffers, acceleration-structure geometry and pipeline stages, decoded on
//! demand with the raw bytes always available.

pub mod accel;
pub mod buffer;
pub mod bytes;
pub mod capture;
pub mod describe;
pub mod error;
pub mod format;
pub mod image;
pub mod pipeline;
