use vstd::prelude::*;

pub mod command;
pub mod convert;
pub mod laws;
pub mod parse;
pub mod sjson;
pub mod tree;
pub mod value;

verus! {

/// A source-location tag attached to every produced value: the byte range in
/// the original input that the whole conversion call covers.
#[derive(Clone, Copy, PartialEq, Eq, Structural, Debug)]
pub struct Span {
    pub start: usize,
    pub end: usize,
}

/// The span value that marks a synthetic "test" origin.
pub open spec fn test_span() -> Span {
    Span { start: usize::MAX / 2, end: usize::MAX / 2 }
}

impl Span {
    /// The synthetic origin used for documentation examples.
    pub fn test_data() -> (r: Span)
        ensures
            r == test_span(),
    {
        Span { start: usize::MAX / 2, end: usize::MAX / 2 }
    }
}

} // verus!
