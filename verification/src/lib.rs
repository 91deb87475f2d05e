//! An append-only arena whose elements are addressed by typed handles.
//!
//! An [`Arena`] owns its elements and hands out a [`Handle`] for each one
//! that it stores. A handle is a position tagged with the element type: it
//! is small, freely copied, and finds its element again for as long as the
//! arena lives, because the arena never moves or removes anything.

pub mod arena;
pub mod handle;
pub mod laws;

pub use arena::Arena;
pub use handle::Handle;
