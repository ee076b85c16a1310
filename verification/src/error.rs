//! The one way in which a request can fail: an integer that names no member.

use vstd::prelude::*;

verus! {

/// The argument of a request that held a code.
#[derive(Clone, Copy, Debug, PartialEq, Eq, Structural)]
pub enum Argument {
    /// The case to convert to, or to test for.
    TargetCase,
    /// The case to split as.
    FromCase,
    /// The pattern of the options.
    Pattern,
    /// The entry at `index` of the options' list of boundaries.
    Boundary { index: usize },
}

/// An integer that names no case, no pattern or no boundary, and the
/// argument that held it.
#[derive(Clone, Copy, Debug, PartialEq, Eq, Structural)]
pub struct InvalidEnumCode {
    /// Where the code stood.
    pub argument: Argument,
    /// The code as it was received.
    pub code: i64,
}

} // verus!
