//! The solver's closed set of failure kinds.

use vstd::prelude::*;

verus! {

/// Why a cash-flow set was rejected before any iteration began.
#[derive(Clone, Copy, Debug, PartialEq, Eq, Structural)]
pub enum InvalidPaymentsKind {
    /// The set holds no entries at all.
    Empty,
    /// The set holds entries, but not both a strictly positive and a
    /// strictly negative amount, so no real rate can zero its value.
    OneSided,
}

/// A classified failure of the computation.
#[derive(Clone, Copy, Debug, PartialEq, Eq, Structural)]
pub enum XirrError {
    /// The input violates a solvability precondition; raised by validation,
    /// before any numerical work.
    InvalidPayments(InvalidPaymentsKind),
    /// The iteration cap was reached without the net present value's
    /// magnitude falling under the tolerance.
    NoConvergence,
    /// No sign change in the net present value was found inside the bounded
    /// widening search, so no root is bracketed in the supported domain.
    NoSolutionBracket,
}

impl XirrError {
    /// A human-readable description of the failure.
    pub fn message(&self) -> (r: &'static str)
        ensures
            *self == XirrError::InvalidPayments(InvalidPaymentsKind::Empty)
                ==> r@ == "empty cash flow set"@,
            *self == XirrError::InvalidPayments(InvalidPaymentsKind::OneSided)
                ==> r@ == "cash flows must contain both inflows and outflows"@,
            *self == XirrError::NoConvergence
                ==> r@ == "no convergence within the iteration cap"@,
            *self == XirrError::NoSolutionBracket
                ==> r@ == "no sign change in net present value over the searched rates"@,
    {
        match self {
            XirrError::InvalidPayments(InvalidPaymentsKind::Empty) => "empty cash flow set",
            XirrError::InvalidPayments(InvalidPaymentsKind::OneSided) => {
                "cash flows must contain both inflows and outflows"
            },
            XirrError::NoConvergence => "no convergence within the iteration cap",
            XirrError::NoSolutionBracket => {
                "no sign change in net present value over the searched rates"
            },
        }
    }
}

} // verus!
