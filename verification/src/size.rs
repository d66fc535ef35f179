//! The computed side of the terminal-size query. The query itself is one
//! device call at the process boundary: it fills a window-size report with
//! a row and a column count. What is decided here is the request number for
//! that call and how the report reads as a (width, height) pair.

use vstd::prelude::*;

verus! {

/// The request number that asks a terminal device for its window size.
pub fn tiocgwinsz() -> (r: u64)
    ensures
        r == 0x5413,
{
    0x5413
}

/// The (width, height) pair read from a window-size report of `row` rows
/// and `col` columns: the column count is the width and comes first.
pub fn size_of_report(row: u16, col: u16) -> (r: (u16, u16))
    ensures
        r.0 == col,
        r.1 == row,
{
    (col, row)
}

} // verus!
