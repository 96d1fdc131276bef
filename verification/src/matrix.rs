//! The 4x4 matrix that `transform` consumes.
use vstd::prelude::*;
use crate::scalar::{ONE, ZERO};

verus! {

/// A 4x4 grid of binary32 encodings, row-major: `rows[row][col]`.
/// Rows 0 to 2 hold the basis vectors, row 3 the translation.
#[derive(Clone, Copy, Debug)]
pub struct Matrix {
    pub rows: [[u32; 4]; 4],
}

impl Matrix {
    /// The entry at `row`, `col`.
    pub open spec fn entry(&self, row: int, col: int) -> u32 {
        self.rows[row][col]
    }

    /// A matrix with the given rows.
    pub fn new(rows: [[u32; 4]; 4]) -> (m: Matrix)
        ensures
            m.rows == rows,
    {
        Matrix { rows }
    }

    /// The matrix whose 16 entries are given column by column, the
    /// layout of dense matrix storage: entry `(row, col)` is
    /// `values[4 * col + row]`. `None` unless there are exactly 16 values.
    pub fn from_column_major(values: &Vec<u32>) -> (m: Option<Matrix>)
        ensures
            m is Some <==> values@.len() == 16,
            m matches Some(m) ==> forall|r: int, c: int|
                0 <= r < 4 && 0 <= c < 4 ==> #[trigger] m.entry(r, c) == values@[4 * c + r],
    {
        if values.len() != 16 {
            return None;
        }
        let m = Matrix {
            rows: [
                [values[0], values[4], values[8], values[12]],
                [values[1], values[5], values[9], values[13]],
                [values[2], values[6], values[10], values[14]],
                [values[3], values[7], values[11], values[15]],
            ],
        };
        Some(m)
    }

    /// Ones on the diagonal, `+0.0` elsewhere.
    pub fn identity() -> (m: Matrix)
        ensures
            forall|r: int, c: int|
                0 <= r < 4 && 0 <= c < 4 ==> #[trigger] m.entry(r, c) == (if r == c {
                    ONE
                } else {
                    ZERO
                }),
    {
        Matrix {
            rows: [
                [ONE, ZERO, ZERO, ZERO],
                [ZERO, ONE, ZERO, ZERO],
                [ZERO, ZERO, ONE, ZERO],
                [ZERO, ZERO, ZERO, ONE],
            ],
        }
    }

    /// Reads the entry at `row`, `col`.
    pub fn at(&self, row: usize, col: usize) -> (r: u32)
        requires
            row < 4,
            col < 4,
        ensures
            r == self.entry(row as int, col as int),
    {
        self.rows[row][col]
    }
}

} // verus!
