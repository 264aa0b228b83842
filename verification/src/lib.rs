//! Bridges a Vulkan device owned by a GPU framework and a 2D renderer that draws with it.
//!
//! The crate holds the decisions of that bridge on plain values: which native handles the
//! renderer's backend context is made of, which entry points its resolver answers itself,
//! how a drawable surface is asked for, and how the image behind it is adopted by the
//! framework without ever being owned by it.

pub mod context;
pub mod device;
pub mod format;
pub mod image;
pub mod surface;
pub mod vulkan;
