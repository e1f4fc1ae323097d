//! Extended internal rate of return (XIRR) for irregularly dated cash flows.
//!
//! The solver finds the annual rate at which the net present value of a set
//! of dated cash flows is zero, by Newton-Raphson iteration with a bisection
//! fallback. Amounts and rates are IEEE 754 binary64 values, carried
//! throughout as their `u64` bit patterns so that every decision the solver
//! makes is over plain integers.

pub mod date;
pub mod error;
pub mod flows;
pub mod ieee;
pub mod solver;

pub use crate::date::Date;
pub use crate::error::{InvalidPaymentsKind, XirrError};
pub use crate::flows::{validate, CashFlow, ValidatedSet};
pub use crate::solver::{OpKind, Phase, Purpose, Request, Solver};
