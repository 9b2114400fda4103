//! Verified core of a Noesis GUI binding: the value types, ordinal codecs,
//! bit sets and registration bookkeeping that the FFI layer speaks in.

pub mod imaging;
pub mod bitset;
pub mod input;
pub mod raw;
pub mod animation;
pub mod brushes;
pub mod drawing;
pub mod element_tree;
pub mod geometry;
pub mod events;
pub mod diagnostics;
pub mod ffi;
pub mod classes;
pub mod font_provider;
pub mod formatted_text;
