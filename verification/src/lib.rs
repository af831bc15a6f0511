//! The kernel-loading core of a firmware-stage boot loader.
//!
//! Given the bytes of a kernel image, the library reads its headers, works
//! out where each loadable segment has to lie in physical memory, fills the
//! pages set aside for it, describes the display and the memory map to the
//! kernel, and decides, step by step, what the firmware has to be asked for
//! until control passes to the kernel's entry point.
//!
//! - [`image`] reads the headers of the image.
//! - [`segment`] places a segment in memory and loads it into its pages.
//! - [`display`] records the display surface.
//! - [`memory_map`] sizes the buffer for the firmware's memory map.
//! - [`handoff`] holds the course of a boot attempt.
//! - [`error`] names the ways in which an attempt ends early.
//!
//! The library asks nothing of the firmware itself. Whoever runs a boot
//! attempt does what [`handoff::Action`] says and reports back with a
//! [`handoff::Event`].

mod aligned;
pub mod display;
pub mod error;
pub mod handoff;
pub mod image;
pub mod memory_map;
pub mod segment;
