//! What the private replay framework itself dictates: its plain request
//! types, its opaque handle types, the unlock variable it depends on, and an
//! inventory of its exported surface.

pub mod client;
pub mod env;
pub mod inventory;
pub mod replay;
