//! Native backend logic for a screenshot capture-and-beautification app.
//!
//! The verified core covers the overlay-capture handshake (a single-slot
//! snapshot store coordinated with a reusable overlay window), region
//! clamping and cropping, payload size ceilings for clipboard and file
//! export, path-traversal screening, and monitor/window list construction.
//! Platform capture, clipboard, windowing and filesystem calls are made by
//! the surrounding application, which hands plain values to this library.

use vstd::prelude::*;

pub mod clipboard;
pub mod file_ops;
pub mod overlay;
pub mod permissions;
pub mod region;
pub mod screenshot;
pub mod shortcuts;
pub mod store;

verus! {

/// Maximum accepted decoded image or export payload size in bytes (50 MiB).
pub const MAX_PAYLOAD_SIZE: usize = 50 * 1024 * 1024;

} // verus!
