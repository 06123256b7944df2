//! Verified core of an interactive texture viewer.
//!
//! The crate models colors and texture coordinates as exact fixed-point
//! rationals, so that nearest and bilinear sampling, framebuffer writes and
//! the pointer/scroll view controller are all ordinary integer arithmetic
//! with proved contracts.  Decoding image files and talking to the window
//! system are left to unverified callers, which hand this crate plain bytes
//! and fixed-point input deltas.

pub mod color;
pub mod framebuffer;
pub mod texture;
pub mod view;

