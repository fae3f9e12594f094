//! Content-addressed integrity checking for byte streams, with the small
//! value types and helpers that surround it.

pub mod codec;
pub mod hash;
pub mod stream;
pub mod progress;
pub mod canonical_path;
pub mod host;
pub mod messages;
pub mod text;
pub mod cfg_path;
pub mod anon_home;
pub mod build_helper;
pub mod com;
pub mod imapi;
pub mod lights_effects;
