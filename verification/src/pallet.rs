//! Parse for pallet macro.
//!
//! A pallet is written as a module whose items are marked with attributes
//! under `pallet`. The module is parsed into a [`def::Def`] through
//! [`def::Def::try_from`]: [`grammar`] reads the attributes, [`section`] reads
//! a marked item as its section, [`assemble`] collects the sections, and
//! [`def`] checks what needs all of them. [`laws`] states what holds of every
//! module.

pub mod assemble;
pub mod attr;
pub mod def;
pub mod error;
pub mod generics;
pub mod grammar;
pub mod item;
pub mod laws;
pub mod section;
pub mod span;
pub mod text;
