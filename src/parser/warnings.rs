//! Warnings raised while parsing rules.
use vstd::prelude::*;

use crate::parser::Span;

verus! {

/// A warning raised while parsing rules. Each carries a detailed report for
/// the user and the spans of source text it points at.
#[derive(Debug)]
pub enum Warning {
    /// Consecutive jumps in a hex pattern, which are treated as one.
    ConsecutiveJumps {
        detailed_report: String,
        pattern_ident: String,
        coalesced_jump: String,
        jumps_span: Span,
    },
    /// A quantifier over several patterns combined with an `at` offset, which
    /// asks all of them to match at the same offset.
    PotentiallyWrongExpression { detailed_report: String, quantifier_span: Span, at_span: Span },
}

} // verus!
