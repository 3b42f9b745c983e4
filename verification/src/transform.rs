//! The vocabulary of table transforms: stack offsets, aggregate operations,
//! sort orders and row predicates.

use vstd::prelude::*;
use crate::fixed::Fixed;

verus! {

/// Identifies a column of a table.
#[derive(Clone, Copy, Debug, PartialEq, Eq, Structural, Hash)]
pub struct ColId(pub u32);

/// Identifies a table.
#[derive(Clone, Copy, Debug, PartialEq, Eq, Structural, Hash)]
pub struct TableId(pub u32);

/// Stack baseline offset mode.
#[derive(Debug, Clone, Copy, PartialEq, Eq, Structural)]
pub enum StackOffset {
    /// Stack positive and negative values around zero.
    Zero,
    /// Center each stack relative to the largest stack.
    Center,
    /// Streamgraph-style baseline that minimizes changes in slope.
    Wiggle,
    /// Scale each stack to a total height of one.
    Normalize,
}

/// Aggregation operation.
#[derive(Debug, Clone, Copy, PartialEq, Eq, Structural)]
pub enum AggregateOp {
    /// Count rows.
    Count,
    /// Sum values.
    Sum,
    /// Minimum value.
    Min,
    /// Maximum value.
    Max,
    /// Mean value.
    Mean,
}

/// A single aggregated output field.
#[derive(Debug, Clone, Copy, PartialEq, Eq, Structural)]
pub struct AggregateField {
    /// Operation to apply.
    pub op: AggregateOp,
    /// Input column.
    pub input: ColId,
    /// Output column.
    pub output: ColId,
}

/// Sorting order.
#[derive(Debug, Clone, Copy, PartialEq, Eq, Structural)]
pub enum SortOrder {
    /// Ascending order.
    Asc,
    /// Descending order.
    Desc,
}

/// Comparison operators for numeric predicates.
#[derive(Debug, Clone, Copy, PartialEq, Eq, Structural)]
pub enum CompareOp {
    /// `<`
    Lt,
    /// `<=`
    Le,
    /// `>`
    Gt,
    /// `>=`
    Ge,
    /// `==`
    Eq,
    /// `!=`
    Ne,
}

impl CompareOp {
    /// Whether `left op right` holds.
    pub open spec fn holds(&self, left: int, right: int) -> bool {
        match self {
            CompareOp::Lt => left < right,
            CompareOp::Le => left <= right,
            CompareOp::Gt => left > right,
            CompareOp::Ge => left >= right,
            CompareOp::Eq => left == right,
            CompareOp::Ne => left != right,
        }
    }
}

/// A row predicate: a single comparison of a column with a constant.
#[derive(Debug, Clone, Copy, PartialEq, Eq, Structural)]
pub struct Predicate {
    /// Column to read.
    pub col: ColId,
    /// Comparison operator.
    pub op: CompareOp,
    /// Right-hand constant.
    pub value: Fixed,
}

impl Predicate {
    /// Evaluates the predicate for a value of its column.
    pub fn eval(&self, v: Fixed) -> (r: bool)
        ensures
            r == self.op.holds(v as int, self.value as int),
    {
        match self.op {
            CompareOp::Lt => v < self.value,
            CompareOp::Le => v <= self.value,
            CompareOp::Gt => v > self.value,
            CompareOp::Ge => v >= self.value,
            CompareOp::Eq => v == self.value,
            CompareOp::Ne => v != self.value,
        }
    }
}

} // verus!
