//! Planning layer of a binding generator for a C memory-allocator header.
//!
//! The generator reads declarations (integer enums, structs and functions)
//! described as plain values, classifies every field and parameter into a
//! semantic shape, and produces plans from which wrapper code is emitted:
//! newtype flag sets, structs with builders, and safe high-level functions.
//! The flag newtypes of the bound library live in [`flags`].

pub mod text;
pub mod naming;
pub mod shape;
pub mod structs;
pub mod functions;
pub mod enums;
pub mod flags;
