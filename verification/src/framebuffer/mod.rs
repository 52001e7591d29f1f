//! The framebuffer text console.
pub mod writer;
