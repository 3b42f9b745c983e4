//! An owned numeric table: stable row keys and a fixed set of columns.

use vstd::prelude::*;
use crate::fixed::Fixed;
use crate::transform::ColId;

verus! {

/// Errors returned when building a [`TableFrame`].
#[derive(Debug, Clone, Copy, PartialEq, Eq, Structural)]
pub enum TableFrameError {
    /// The requested column list is empty.
    EmptyColumns,
    /// The input table does not have a data accessor.
    MissingData,
}

/// An owned numeric table.
///
/// `data` is columnar and aligned to `columns`; a missing value is `None`.
#[derive(Debug, Clone)]
pub struct TableFrame {
    /// Stable keys for each row.
    pub row_keys: Vec<u64>,
    /// Column ids carried by this frame.
    pub columns: Vec<ColId>,
    /// Columnar numeric data, aligned to `columns`.
    pub data: Vec<Vec<Option<Fixed>>>,
}

/// The first position of `col` in `columns`, if it occurs.
pub open spec fn first_position(columns: Seq<ColId>, col: ColId) -> Option<int> {
    if exists|i: int| 0 <= i < columns.len() && columns[i] == col {
        Some(choose|i: int| is_first_position(columns, col, i))
    } else {
        None
    }
}

/// Whether `i` is the first position at which `col` occurs in `columns`.
pub open spec fn is_first_position(columns: Seq<ColId>, col: ColId, i: int) -> bool {
    &&& 0 <= i < columns.len()
    &&& columns[i] == col
    &&& forall|j: int| 0 <= j < i ==> columns[j] != col
}

impl TableFrame {
    /// The value stored for `row` in column `col`: `None` when the column or
    /// the row does not exist or the value is missing.
    pub open spec fn value_at(&self, row: int, col: ColId) -> Option<Fixed> {
        match first_position(self.columns@, col) {
            Some(ci) => if ci < self.data@.len() && 0 <= row < self.data@[ci]@.len() {
                self.data@[ci]@[row]
            } else {
                None
            },
            None => None,
        }
    }

    /// Creates an empty frame with the given columns.
    ///
    /// Fails with `EmptyColumns` exactly when `columns` is empty.
    pub fn new(columns: Vec<ColId>) -> (r: Result<TableFrame, TableFrameError>)
        ensures
            columns@.len() == 0 <==> r == Err::<TableFrame, TableFrameError>(
                TableFrameError::EmptyColumns,
            ),
            columns@.len() > 0 ==> r is Ok && r->Ok_0.columns@ == columns@
                && r->Ok_0.row_keys@.len() == 0 && r->Ok_0.data@.len() == 0,
    {
        if columns.len() == 0 {
            return Err(TableFrameError::EmptyColumns);
        }
        Ok(TableFrame { row_keys: Vec::new(), columns, data: Vec::new() })
    }

    /// Returns the number of rows.
    pub fn row_count(&self) -> (n: usize)
        ensures
            n == self.row_keys@.len(),
    {
        self.row_keys.len()
    }

    /// Returns the index of the first column with id `col`, if present.
    pub fn column_index(&self, col: ColId) -> (r: Option<usize>)
        ensures
            match r {
                Some(i) => is_first_position(self.columns@, col, i as int) && first_position(
                    self.columns@,
                    col,
                ) == Some(i as int),
                None => first_position(self.columns@, col) is None,
            },
    {
        let mut i: usize = 0;
        while i < self.columns.len()
            invariant
                0 <= i <= self.columns@.len(),
                forall|j: int| 0 <= j < i ==> self.columns@[j] != col,
            decreases self.columns@.len() - i,
        {
            if self.columns[i] == col {
                proof {
                    lemma_first_position(self.columns@, col, i as int);
                }
                return Some(i);
            }
            i = i + 1;
        }
        None
    }

    /// Gets the value for a row and column if both exist and the value is
    /// present.
    pub fn value(&self, row: usize, col: ColId) -> (r: Option<Fixed>)
        ensures
            r == self.value_at(row as int, col),
    {
        match self.column_index(col) {
            Some(ci) => {
                if ci < self.data.len() && row < self.data[ci].len() {
                    self.data[ci][row]
                } else {
                    None
                }
            },
            None => None,
        }
    }
}

/// The first position of a column is unique.
pub proof fn lemma_first_position(columns: Seq<ColId>, col: ColId, i: int)
    requires
        is_first_position(columns, col, i),
    ensures
        first_position(columns, col) == Some(i),
{
    let chosen = choose|k: int| is_first_position(columns, col, k);
    assert(is_first_position(columns, col, chosen));
    if chosen < i {
        assert(columns[chosen] != col);
    } else if i < chosen {
        assert(columns[i] != col);
    }
}

/// Whether `v` is a value of the column at column index `ci`.
pub open spec fn is_value_of(frame: &TableFrame, ci: int, v: Fixed) -> bool {
    exists|row: int| 0 <= row < frame.data@[ci]@.len() && frame.data@[ci]@[row] == Some(v)
}

/// Whether `d` is the domain of the column at column index `ci`: its least
/// and its greatest value.
pub open spec fn is_domain_of(frame: &TableFrame, ci: int, d: (Fixed, Fixed)) -> bool {
    &&& is_value_of(frame, ci, d.0)
    &&& is_value_of(frame, ci, d.1)
    &&& forall|row: int|
        0 <= row < frame.data@[ci]@.len() ==> (#[trigger] frame.data@[ci]@[row] matches Some(v)
            ==> d.0 <= v <= d.1)
}

/// Whether the column at column index `ci` holds no value.
pub open spec fn is_empty_column(frame: &TableFrame, ci: int) -> bool {
    forall|row: int| 0 <= row < frame.data@[ci]@.len() ==> #[trigger] frame.data@[ci]@[row] is None
}

/// Infers the `(min, max)` domain of a numeric column.
///
/// Missing values are passed over. Returns `None` if the frame has no such
/// column, no data for it, or no value in it.
pub fn infer_domain_f64(frame: &TableFrame, col: ColId) -> (domain: Option<(Fixed, Fixed)>)
    ensures
        match first_position(frame.columns@, col) {
            Some(ci) => if ci < frame.data@.len() {
                match domain {
                    Some(d) => is_domain_of(frame, ci, d),
                    None => is_empty_column(frame, ci),
                }
            } else {
                domain is None
            },
            None => domain is None,
        },
{
    let ci: usize = match frame.column_index(col) {
        Some(ci) => ci,
        None => {
            return None;
        },
    };
    if ci >= frame.data.len() {
        return None;
    }
    let column = &frame.data[ci];
    let mut domain: Option<(Fixed, Fixed)> = None;
    let mut row: usize = 0;
    while row < column.len()
        invariant
            0 <= row <= column@.len(),
            ci < frame.data@.len(),
            column@ == frame.data@[ci as int]@,
            match domain {
                Some(d) => {
                    &&& exists|r: int| 0 <= r < row && column@[r] == Some(d.0)
                    &&& exists|r: int| 0 <= r < row && column@[r] == Some(d.1)
                    &&& forall|r: int|
                        0 <= r < row ==> (#[trigger] column@[r] matches Some(v) ==> d.0 <= v <= d.1)
                },
                None => forall|r: int| 0 <= r < row ==> #[trigger] column@[r] is None,
            },
        decreases column@.len() - row,
    {
        match column[row] {
            Some(v) => {
                let ghost before = domain;
                domain = match domain {
                    Some((lo, hi)) => Some(
                        (
                            if v < lo {
                                v
                            } else {
                                lo
                            },
                            if v > hi {
                                v
                            } else {
                                hi
                            },
                        ),
                    ),
                    None => Some((v, v)),
                };
                proof {
                    let d = domain->0;
                    match before {
                        Some(b) => {
                            let r0 = choose|r: int| 0 <= r < row && column@[r] == Some(b.0);
                            let r1 = choose|r: int| 0 <= r < row && column@[r] == Some(b.1);
                            if d.0 == b.0 {
                                assert(0 <= r0 < row + 1 && column@[r0] == Some(d.0));
                            } else {
                                assert(0 <= row < row + 1 && column@[row as int] == Some(d.0));
                            }
                            if d.1 == b.1 {
                                assert(0 <= r1 < row + 1 && column@[r1] == Some(d.1));
                            } else {
                                assert(0 <= row < row + 1 && column@[row as int] == Some(d.1));
                            }
                        },
                        None => {
                            assert(0 <= row < row + 1 && column@[row as int] == Some(d.0));
                        },
                    }
                }
            },
            None => {
                proof {
                    match domain {
                        Some(d) => {
                            let r0 = choose|r: int| 0 <= r < row && column@[r] == Some(d.0);
                            let r1 = choose|r: int| 0 <= r < row && column@[r] == Some(d.1);
                            assert(0 <= r0 < row + 1 && column@[r0] == Some(d.0));
                            assert(0 <= r1 < row + 1 && column@[r1] == Some(d.1));
                        },
                        None => {},
                    }
                }
            },
        }
        row = row + 1;
    }
    domain
}

} // verus!
