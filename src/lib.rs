//! Decoding of iNES / NES 2.0 cartridge image headers.
//!
//! `header` holds the bit-level rules of the 16-byte header, each as a spec
//! function with an executable counterpart; `memory` assembles them into the
//! decoded cartridge descriptor; `rom` is the slimmer descriptor that keeps
//! only the image's byte regions.
pub mod header;
pub mod memory;
pub mod rom;
