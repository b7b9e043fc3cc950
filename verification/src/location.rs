use vstd::prelude::*;

verus! {

/// Identifies the file a piece of syntax was read from.
pub type FileId = usize;

/// A half-open range of bytes within a file.
#[derive(Clone, Copy, Debug, PartialEq, Eq, Structural)]
pub struct Span(pub usize, pub usize);

/// Where a piece of syntax stands: the file and the bytes within it.
#[derive(Clone, Copy, Debug, PartialEq, Eq, Structural)]
pub struct Location(pub FileId, pub Span);

impl Span {
    /// The first byte of the range.
    pub fn start(&self) -> (at: usize)
        ensures
            at == self.0,
    {
        self.0
    }

    /// The byte after the last one of the range.
    pub fn end(&self) -> (at: usize)
        ensures
            at == self.1,
    {
        self.1
    }
}

impl Default for Span {
    fn default() -> (span: Span)
        ensures
            span == Span(0, 0),
    {
        Span(0, 0)
    }
}

impl Default for Location {
    fn default() -> (location: Location)
        ensures
            location == Location(0, Span(0, 0)),
    {
        Location(0, Span(0, 0))
    }
}

} // verus!
