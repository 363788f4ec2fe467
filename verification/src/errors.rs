//! Error taxonomy of the statistics engine.
//!
//! Every operation reports failure synchronously through one of these
//! variants and leaves all fields, cached and persisted, exactly as they
//! were before the call.

use vstd::prelude::*;

verus! {

/// Why an operation on the statistics engine was refused.
#[derive(Clone, Copy, Debug, PartialEq, Eq, Structural)]
pub enum StatsError {
    /// The operation is not permitted in the session's current status,
    /// including any attempt to revert finalization.
    InvalidState,
    /// Count or sum arithmetic would leave the representable range.
    Overflow,
    /// A finalize or query was attempted with zero observations.
    EmptyDataset,
    /// The query's privacy cost exceeds the remaining privacy budget.
    BudgetExhausted,
    /// Persisted bytes are malformed or of the wrong length.
    DecodeError,
}

impl StatsError {
    /// A short human-readable description of the error.
    pub fn describe(&self) -> (r: &'static str)
        ensures
            r@ =~= self.describe_spec(),
    {
        match self {
            StatsError::InvalidState => "operation not permitted in current status",
            StatsError::Overflow => "arithmetic overflow",
            StatsError::EmptyDataset => "no observations collected",
            StatsError::BudgetExhausted => "privacy budget exhausted",
            StatsError::DecodeError => "malformed persisted bytes",
        }
    }

    /// What `describe` returns for each variant.
    pub open spec fn describe_spec(self) -> Seq<char> {
        match self {
            StatsError::InvalidState => "operation not permitted in current status"@,
            StatsError::Overflow => "arithmetic overflow"@,
            StatsError::EmptyDataset => "no observations collected"@,
            StatsError::BudgetExhausted => "privacy budget exhausted"@,
            StatsError::DecodeError => "malformed persisted bytes"@,
        }
    }
}

/// Why a geometric value could not be built.
#[derive(Clone, Copy, Debug, PartialEq, Eq, Structural)]
pub enum GeomError {
    /// A segment's endpoints coincide.
    DegenerateSegment,
    /// A polygon needs at least 3 vertices.
    TooFewVertices,
    /// A polygon's vertex ring must end where it starts.
    OpenRing,
    /// Stored bytes are malformed or of the wrong length.
    DecodeError,
}

impl GeomError {
    /// A short human-readable description of the error.
    pub fn describe(&self) -> (r: &'static str)
        ensures
            r@ =~= self.describe_spec(),
    {
        match self {
            GeomError::DegenerateSegment => "endpoints cannot be the same",
            GeomError::TooFewVertices => "polygon must have at least 3 vertices",
            GeomError::OpenRing => "first and last vertex must be the same",
            GeomError::DecodeError => "malformed stored bytes",
        }
    }

    /// What `describe` returns for each variant.
    pub open spec fn describe_spec(self) -> Seq<char> {
        match self {
            GeomError::DegenerateSegment => "endpoints cannot be the same"@,
            GeomError::TooFewVertices => "polygon must have at least 3 vertices"@,
            GeomError::OpenRing => "first and last vertex must be the same"@,
            GeomError::DecodeError => "malformed stored bytes"@,
        }
    }
}

} // verus!
