//! Places in the source of a module.

use vstd::prelude::*;

verus! {

/// A place in the source of the module that is compiled: enough to tell a
/// reader where an attribute, a name or a generic parameter list stands.
/// Whoever hands a module over numbers its places, and gets the same numbers
/// back with every failure.
#[derive(Clone, Copy, PartialEq, Eq, Structural, Debug)]
pub struct Location {
    /// The item in which the place lies, by its place in the module.
    pub item: usize,
    /// The place within the item.
    pub offset: usize,
}

} // verus!
