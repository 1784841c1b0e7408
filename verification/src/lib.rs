//! Loader and dispatch table for the OpenGL entry points.
//!
//! A [`Registry`] owns one slot per [`EntryPoint`]. A resolver, which maps a
//! symbol such as `glClear` to the address of the native function, fills the
//! registry through [`load_with`]. Each slot then holds the address that the
//! resolver gave for the entry point's symbol, or a stand-in that names the
//! entry point, so that a call through an empty slot fails by name.
//!
//! The library decides what to call. The call itself, which crosses into the
//! native driver, is left to the caller.

pub mod entry;
pub mod laws;
pub mod names;
pub mod registry;
pub mod slot;
pub mod sorted;

pub use entry::{EntryPoint, ENTRY_POINTS, ENTRY_POINT_COUNT};
pub use names::{NAMES, SYMBOLS};
pub use registry::{load_with, NotLoaded, Registry};
pub use slot::{Callable, FnPtr};
