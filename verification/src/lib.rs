//! Wide references taken apart and put together again.
//!
//! A reference to a value whose size is not known at compile time needs more
//! than an address: a sequence needs its length, an interface value its
//! dispatch table. This crate models such a reference as an address together
//! with a metadata value whose type its [`Referent`] shape fixes, and offers,
//! for every shape alike, the two inverse operations that split a reference
//! into these parts and build it from them.
//!
//! Pointers are plain data here: an address is a `usize`, and nothing is ever
//! read or written through it.

pub mod borrow;
pub mod interface;
pub mod layout;
pub mod pointer;
pub mod ptr_ext;
pub mod shape;

pub use interface::{Interface, Meta, TraitObject};
pub use layout::Layout;
pub use pointer::{ConstPtr, MutPtr, NoMeta};
pub use ptr_ext::PtrExt;
pub use shape::{Plain, Referent, Sequence, Text};
