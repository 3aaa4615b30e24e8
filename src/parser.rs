//! Locations in rule source text, and the warnings raised while parsing.
use vstd::prelude::*;

pub mod warnings;

verus! {

/// A range of bytes `[start, end)` of the source text.
#[derive(Clone, Copy, Debug, PartialEq, Eq, Structural)]
pub struct Span {
    pub start: usize,
    pub end: usize,
}

} // verus!
