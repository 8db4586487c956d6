//! An immutable, persistent singly linked list of `u32` values.
//!
//! The list is a chain of `Cons` nodes ending in `Nil`. It grows only at the
//! front: `prepend` consumes the old list and returns a new one. `len` counts
//! the elements and `stringify` renders them in decimal, front to back,
//! ending in the marker `Nil`.

pub mod list;
pub mod render;
