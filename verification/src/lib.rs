//! A verified model of a minimal firmware boot stub for UEFI-style
//! platforms: it binds to the firmware's service tables at fixed byte
//! offsets, locates the graphics output capability, fills the framebuffer
//! with a solid color, and halts.
//!
//! The firmware calls themselves (the capability lookup through a raw
//! function pointer, the write into video memory, the halt instruction)
//! cannot be made here; what is verified is everything the stub decides
//! and computes: the byte offsets of the table fields, the lookup
//! decision, and the exact bytes a fill leaves in the framebuffer.

pub mod abi;
pub mod display;
pub mod framebuffer;
pub mod locate;
pub mod boot;
