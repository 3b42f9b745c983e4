//! Symbol shapes for point-like marks.

use vstd::prelude::*;

verus! {

/// A small set of symbol shapes.
#[derive(Clone, Copy, Debug, PartialEq, Eq, Structural, Hash)]
pub enum Symbol {
    /// A square (axis-aligned).
    Square,
    /// A circle.
    Circle,
}

} // verus!
