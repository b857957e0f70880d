//! Edit records: the unit of change that clients exchange.

use vstd::prelude::*;

verus! {

/// A position in a document: a row and a column, both counted from zero.
#[derive(Debug, Clone, Copy, PartialEq, Eq, Structural)]
pub struct Point {
    pub row: usize,
    pub column: usize,
}

/// One incremental edit: the range it covers, what was done there, the lines
/// involved and the moment the client made it.
///
/// The broker never interprets a delta. It keeps the order in which deltas
/// arrive and hands them on unchanged, so the record holds the client's
/// timestamp as the bit pattern of the 64-bit IEEE 754 number that travels on
/// the wire: that keeps the record comparable and loses nothing.
#[derive(Debug, Clone, PartialEq, Eq)]
pub struct Delta {
    pub start: Point,
    pub end: Point,
    pub action: String,
    pub lines: Vec<String>,
    pub timestamp: u64,
}

impl Point {
    /// The position at `row` and `column`.
    pub fn new(row: usize, column: usize) -> (point: Point)
        ensures
            point.row == row,
            point.column == column,
    {
        Point { row, column }
    }
}

impl Delta {
    /// The edit `action` on the range from `start` to `end`, with its `lines`
    /// and the bits of its timestamp.
    pub fn new(start: Point, end: Point, action: String, lines: Vec<String>, timestamp: u64) -> (delta:
        Delta)
        ensures
            delta.start == start,
            delta.end == end,
            delta.action == action,
            delta.lines == lines,
            delta.timestamp == timestamp,
    {
        Delta { start, end, action, lines, timestamp }
    }
}

} // verus!
