//! Verified core of `rust_on_rails`: layout size requests, canvas item
//! descriptions, colour parsing, the hex codec used by the key-value caches,
//! the in-memory state store, camera frame pixel conversion, the control
//! protocol of the background task threads, input event tracking, the
//! platform driver fallbacks, the planning step of the component derive and
//! the decoding of image assets.

pub mod sizing;
pub mod hex_codec;
pub mod state;
pub mod cache;
pub mod frames;
pub mod tasks;
pub mod assets;
pub mod canvas;
pub mod drawable;
pub mod drivers;
pub mod input;
pub mod derive_plan;
