//! The substrate layer: fetch requests, reply decoding, the harvester block
//! format, errors, and the decisions a replay session makes.

pub mod archive;
pub mod config;
pub mod descriptor;
pub mod error;
pub mod fetch;
pub mod harvester;
pub mod reply;
pub mod request;
pub mod session;
pub mod util;
