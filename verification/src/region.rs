use vstd::prelude::*;

verus! {

/// A contiguous byte range `[start, start + len)` in guest linear memory.
///
/// A `Region` only describes a range of guest addresses; whether the range
/// actually lies inside a particular buffer is checked separately, against
/// that buffer's live length, by `BorrowChecker::validate_contains`.
#[derive(Debug, Copy, Clone, PartialEq, Eq, Hash, Structural)]
pub struct Region {
    pub start: u32,
    pub len: u32,
}

impl Region {
    /// The first byte index past the region, as a mathematical integer
    /// (so the sum never wraps).
    pub open spec fn end(self) -> int {
        self.start + self.len
    }
}

} // verus!
