//! The root finder: Newton-Raphson iteration with a bisection fallback,
//! as a request/reply machine.
//!
//! The solver performs no rounded arithmetic of its own: it is a state
//! machine over bit patterns, and every piece of arithmetic it needs is
//! handed out as a [`Request`], whose result the next [`Solver::step`] takes
//! back. A driver loop owns the arithmetic and nothing else; every decision
//! — what the net present value sums, in which order,
//! when the iteration has converged, when a Newton step is abandoned for a
//! bisection step, when the search gives up — is made, and verified, here.
//!
//! For a rate `r` with `1 + r > 0` and entries with elapsed years `t_k`
//! (days from the minimum date, over 365), the machine drives the evaluation
//!
//! > `value = Σ amount_k · (1 + r)^(−t_k)`
//! > `deriv = Σ amount_k · (−t_k) · (1 + r)^(−t_k − 1)`
//!
//! left to right, one rounded operation per request, computing the derivative
//! factor `(1 + r)^(−t_k − 1)` as the value factor over the base. An entry on
//! the minimum date has `t_k = 0` and its factor is taken to be one exactly,
//! with no request made.
//!
//! The machine is a mathematical function of its state and the replies: two
//! runs that receive the same replies reach the same outcome, so any
//! variation between runs can come only from the driver's arithmetic.

use vstd::prelude::*;
use crate::date::Date;
use crate::error::XirrError;
use crate::flows::{all_dates_wf, is_min_day, solvable, CashFlow, ValidatedSet};
use crate::ieee::{
    magnitude_bits, negate_bits, rate_above_neg_one, sign_bit, magnitude, negate,
    rate_admissible, is_sign_neg, ONE_BITS, TWO_BITS, ZERO_BITS,
};

verus! {

/// Most Newton-Raphson evaluations allowed before the solver reports
/// `NoConvergence`.
pub const ITERATION_CAP: u64 = 100;

/// Most doublings of the bracket's upper end while searching for a sign
/// change before the solver reports `NoSolutionBracket`.
pub const WIDEN_CAP: u64 = 60;

/// Bits of the absolute tolerance on the net present value, one millionth.
pub const EPS_BITS: u64 = 0x3EB0_C6F7_A0B5_ED8D;

/// Bits of the initial rate guess, one tenth.
pub const INITIAL_RATE_BITS: u64 = 0x3FB9_9999_9999_999A;

/// Bits of the days-per-year divisor of the actual/365 convention, 365.
pub const YEAR_DAYS_BITS: u64 = 0x4076_D000_0000_0000;

/// Bits of the bracket's fixed lower end, minus ninety-nine hundredths.
pub const BRACKET_LO_BITS: u64 = 0xBFEF_AE14_7AE1_47AE;

/// Bits of the bracket's first upper end, ten.
pub const BRACKET_HI_BITS: u64 = 0x4024_0000_0000_0000;

/// A rounded binary64 operation the driver is asked to perform.
#[derive(Clone, Copy, Debug, PartialEq, Eq)]
pub enum OpKind {
    /// Sum of the operands.
    Add,
    /// First operand minus the second.
    Sub,
    /// Product of the operands.
    Mul,
    /// First operand over the second.
    Div,
    /// First operand raised to the second.
    Pow,
}

/// What the solver asks of its driver next.
#[derive(Clone, Copy, Debug, PartialEq, Eq)]
pub enum Request {
    /// Perform one rounded binary64 operation on the encoded operands and
    /// reply with the encoded result.
    Arith { op: OpKind, a: u64, b: u64 },
    /// Convert this day count to the nearest binary64 value and reply with
    /// its encoding.
    FromDays { days: u64 },
    /// The computation is over; any further reply returns this outcome again.
    Done { outcome: Result<u64, XirrError> },
}

/// Which reply the solver is waiting for.
#[derive(Clone, Copy, Debug, PartialEq, Eq)]
pub enum Phase {
    /// The discount base `1 + rate`.
    AwaitBase,
    /// The current entry's day count as a binary64 value.
    AwaitRawDays,
    /// The current entry's elapsed years: days over 365.
    AwaitYears,
    /// The current entry's discount factor: the base to the negated years.
    AwaitFactor,
    /// The current entry's value term: amount times factor.
    AwaitValueTerm,
    /// The running value sum including the current entry.
    AwaitValueAcc,
    /// The value term times the negated years.
    AwaitDerivMul,
    /// The previous product over the base: the entry's derivative term.
    AwaitDerivDiv,
    /// The running derivative sum including the current entry.
    AwaitDerivAcc,
    /// The Newton quotient: value over derivative.
    AwaitNewtonQuot,
    /// The Newton candidate: rate minus the quotient.
    AwaitNewtonRate,
    /// The bracket endpoints' sum.
    AwaitMidSum,
    /// The bracket midpoint: the sum over two.
    AwaitMidRate,
    /// The doubled upper end of the widening bracket search.
    AwaitWidenHi,
    /// The computation is over with this outcome.
    Finished(Result<u64, XirrError>),
}

/// Why the net present value is being evaluated.
#[derive(Clone, Copy, Debug, PartialEq, Eq)]
pub enum Purpose {
    /// A Newton-Raphson or bisection iterate.
    Iterate,
    /// The bracket's lower end, probing for a sign change.
    ProbeLo,
    /// The bracket's upper end, probing for a sign change.
    ProbeHi,
}

/// The root finder's whole state between two replies.
pub struct Solver {
    /// The validated entries, in caller order.
    pub entries: Vec<CashFlow>,
    /// The minimum date, origin of discounting.
    pub origin: Date,
    /// Which reply is awaited.
    pub phase: Phase,
    /// Why the current evaluation runs.
    pub purpose: Purpose,
    /// The rate under evaluation.
    pub rate: u64,
    /// The discount base `1 + rate` of the current evaluation.
    pub base: u64,
    /// The entry the evaluation is at.
    pub index: usize,
    /// The current entry's elapsed years.
    pub years: u64,
    /// The current entry's value term.
    pub value_term: u64,
    /// The value sum so far.
    pub acc_value: u64,
    /// The derivative sum so far.
    pub acc_deriv: u64,
    /// Completed Newton-Raphson evaluations.
    pub iterations: u64,
    /// The bracket's lower end.
    pub lo: u64,
    /// The bracket's upper end.
    pub hi: u64,
    /// The sign of the net present value at the bracket's lower end.
    pub lo_sign: bool,
    /// Whether `lo` and `hi` are known to straddle a sign change.
    pub has_bracket: bool,
    /// How often the bracket search widened its upper end.
    pub widenings: u64,
    /// Whether the rate under evaluation came from a bisection step.
    pub from_bisect: bool,
}

impl Solver {
    /// The machine is evaluating the net present value and `index` points at
    /// the entry in hand.
    pub open spec fn in_evaluation(self) -> bool {
        match self.phase {
            Phase::AwaitRawDays => true,
            Phase::AwaitYears => true,
            Phase::AwaitFactor => true,
            Phase::AwaitValueTerm => true,
            Phase::AwaitValueAcc => true,
            Phase::AwaitDerivMul => true,
            Phase::AwaitDerivDiv => true,
            Phase::AwaitDerivAcc => true,
            _ => false,
        }
    }

    /// Well-formedness: the entries stay the validated ones, the origin their
    /// minimum date; the entry index is in range while evaluating; counters
    /// respect their caps; and a successful outcome carries an admissible
    /// rate, one strictly above minus one.
    pub open spec fn wf(self) -> bool {
        &&& solvable(self.entries@)
        &&& all_dates_wf(self.entries@)
        &&& is_min_day(self.entries@, self.origin.day_number)
        &&& self.origin.wf()
        &&& (self.in_evaluation() ==> self.index < self.entries@.len())
        &&& self.iterations <= ITERATION_CAP
        &&& self.widenings <= WIDEN_CAP
        &&& ((self.in_evaluation() || self.phase == Phase::AwaitBase) && self.purpose
            != Purpose::Iterate ==> !self.has_bracket)
        &&& (match self.phase {
            Phase::Finished(Ok(r)) => rate_above_neg_one(r),
            Phase::Finished(Err(e)) => !(e matches XirrError::InvalidPayments(_)),
            Phase::AwaitNewtonQuot => self.purpose == Purpose::Iterate,
            Phase::AwaitNewtonRate => self.purpose == Purpose::Iterate,
            Phase::AwaitMidSum => self.has_bracket,
            Phase::AwaitMidRate => self.has_bracket,
            Phase::AwaitWidenHi => !self.has_bracket,
            _ => true,
        })
    }

    /// The outcome, once the machine is finished.
    pub open spec fn outcome(self) -> Option<Result<u64, XirrError>> {
        match self.phase {
            Phase::Finished(out) => Some(out),
            _ => None,
        }
    }
}

/// The machine that ends the run with `outcome`.
pub open spec fn spec_finish(s: Solver, outcome: Result<u64, XirrError>) -> (Solver, Request) {
    (Solver { phase: Phase::Finished(outcome), ..s }, Request::Done { outcome })
}

/// The machine that begins evaluating the net present value at `rate` for
/// `purpose`: sums cleared, awaiting the discount base `1 + rate`.
pub open spec fn spec_start_eval(s: Solver, purpose: Purpose, rate: u64) -> (Solver, Request) {
    (
        Solver { phase: Phase::AwaitBase, purpose, rate, ..s },
        Request::Arith { op: OpKind::Add, a: ONE_BITS, b: rate },
    )
}

/// The day count of entry `i` from the origin, as the unsigned value the
/// driver is asked to convert.
pub open spec fn spec_entry_days(s: Solver, i: int) -> u64 {
    (s.entries@[i].date.day_number - s.origin.day_number) as u64
}

/// The machine that begins entry `i` of the evaluation. An entry on the
/// origin date has elapsed years zero and discount factor one exactly, so no
/// conversion, division or power is requested for it.
pub open spec fn spec_begin_entry(s: Solver, i: int) -> (Solver, Request) {
    if spec_entry_days(s, i) == 0 {
        (
            Solver { index: i as usize, years: ZERO_BITS, phase: Phase::AwaitValueTerm, ..s },
            Request::Arith { op: OpKind::Mul, a: s.entries@[i].amount_bits, b: ONE_BITS },
        )
    } else {
        (
            Solver { index: i as usize, phase: Phase::AwaitRawDays, ..s },
            Request::FromDays { days: spec_entry_days(s, i) },
        )
    }
}

/// The machine that abandons the Newton step: bisect the bracket when one is
/// known, else start probing for one at the fixed lower end.
pub open spec fn spec_fallback(s: Solver) -> (Solver, Request) {
    if s.has_bracket {
        (
            Solver { phase: Phase::AwaitMidSum, ..s },
            Request::Arith { op: OpKind::Add, a: s.lo, b: s.hi },
        )
    } else {
        spec_start_eval(
            Solver { lo: BRACKET_LO_BITS, hi: BRACKET_HI_BITS, from_bisect: false, ..s },
            Purpose::ProbeLo,
            BRACKET_LO_BITS,
        )
    }
}

/// The machine after a finished evaluation with value `v` and derivative `d`.
///
/// Convergence — the value's magnitude under the tolerance, at an admissible
/// rate — succeeds with the rate evaluated. A Newton iterate otherwise
/// counts against the iteration cap, refreshes the bracket's end of matching
/// sign when the iterate came from a bisection, and attempts a Newton step
/// exactly when the derivative is nonzero. A probe records or compares signs
/// and widens the search upward until the widening cap.
pub open spec fn spec_decide(s: Solver, v: u64, d: u64) -> (Solver, Request) {
    if magnitude_bits(v) < EPS_BITS && rate_above_neg_one(s.rate) {
        spec_finish(s, Ok(s.rate))
    } else {
        match s.purpose {
            Purpose::Iterate => {
                let s1 = if s.from_bisect && s.has_bracket {
                    if sign_bit(v) == s.lo_sign {
                        Solver { lo: s.rate, ..s }
                    } else {
                        Solver { hi: s.rate, ..s }
                    }
                } else {
                    s
                };
                if s1.iterations + 1 >= ITERATION_CAP {
                    spec_finish(
                        Solver { iterations: ITERATION_CAP, ..s1 },
                        Err(XirrError::NoConvergence),
                    )
                } else {
                    let s2 = Solver { iterations: (s1.iterations + 1) as u64, ..s1 };
                    if magnitude_bits(d) != 0 {
                        (
                            Solver { phase: Phase::AwaitNewtonQuot, ..s2 },
                            Request::Arith { op: OpKind::Div, a: v, b: d },
                        )
                    } else {
                        spec_fallback(s2)
                    }
                }
            },
            Purpose::ProbeLo => spec_start_eval(
                Solver { lo_sign: sign_bit(v), ..s },
                Purpose::ProbeHi,
                s.hi,
            ),
            Purpose::ProbeHi => {
                if sign_bit(v) != s.lo_sign {
                    (
                        Solver { has_bracket: true, phase: Phase::AwaitMidSum, ..s },
                        Request::Arith { op: OpKind::Add, a: s.lo, b: s.hi },
                    )
                } else if s.widenings >= WIDEN_CAP {
                    spec_finish(s, Err(XirrError::NoSolutionBracket))
                } else {
                    (
                        Solver {
                            widenings: (s.widenings + 1) as u64,
                            phase: Phase::AwaitWidenHi,
                            ..s
                        },
                        Request::Arith { op: OpKind::Mul, a: s.hi, b: TWO_BITS },
                    )
                }
            },
        }
    }
}

/// The machine after taking `reply`, the result of the operation it last
/// requested, together with what it requests next. This relation is the
/// whole algorithm; `Solver::step` implements it exactly.
pub open spec fn spec_step(s: Solver, reply: u64) -> (Solver, Request) {
    match s.phase {
        Phase::AwaitBase => spec_begin_entry(
            Solver { base: reply, acc_value: ZERO_BITS, acc_deriv: ZERO_BITS, ..s },
            0,
        ),
        Phase::AwaitRawDays => (
            Solver { phase: Phase::AwaitYears, ..s },
            Request::Arith { op: OpKind::Div, a: reply, b: YEAR_DAYS_BITS },
        ),
        Phase::AwaitYears => (
            Solver { years: reply, phase: Phase::AwaitFactor, ..s },
            Request::Arith { op: OpKind::Pow, a: s.base, b: negate_bits(reply) },
        ),
        Phase::AwaitFactor => (
            Solver { phase: Phase::AwaitValueTerm, ..s },
            Request::Arith { op: OpKind::Mul, a: s.entries@[s.index as int].amount_bits, b: reply },
        ),
        Phase::AwaitValueTerm => (
            Solver { value_term: reply, phase: Phase::AwaitValueAcc, ..s },
            Request::Arith { op: OpKind::Add, a: s.acc_value, b: reply },
        ),
        Phase::AwaitValueAcc => (
            Solver { acc_value: reply, phase: Phase::AwaitDerivMul, ..s },
            Request::Arith { op: OpKind::Mul, a: s.value_term, b: negate_bits(s.years) },
        ),
        Phase::AwaitDerivMul => (
            Solver { phase: Phase::AwaitDerivDiv, ..s },
            Request::Arith { op: OpKind::Div, a: reply, b: s.base },
        ),
        Phase::AwaitDerivDiv => (
            Solver { phase: Phase::AwaitDerivAcc, ..s },
            Request::Arith { op: OpKind::Add, a: s.acc_deriv, b: reply },
        ),
        Phase::AwaitDerivAcc => {
            let s1 = Solver { acc_deriv: reply, ..s };
            if s.index + 1 < s.entries@.len() {
                spec_begin_entry(s1, s.index + 1)
            } else {
                spec_decide(s1, s1.acc_value, s1.acc_deriv)
            }
        },
        Phase::AwaitNewtonQuot => (
            Solver { phase: Phase::AwaitNewtonRate, ..s },
            Request::Arith { op: OpKind::Sub, a: s.rate, b: reply },
        ),
        Phase::AwaitNewtonRate => {
            if rate_above_neg_one(reply) {
                spec_start_eval(Solver { from_bisect: false, ..s }, Purpose::Iterate, reply)
            } else {
                spec_fallback(s)
            }
        },
        Phase::AwaitMidSum => (
            Solver { phase: Phase::AwaitMidRate, ..s },
            Request::Arith { op: OpKind::Div, a: reply, b: TWO_BITS },
        ),
        Phase::AwaitMidRate => {
            if rate_above_neg_one(reply) {
                spec_start_eval(Solver { from_bisect: true, ..s }, Purpose::Iterate, reply)
            } else {
                spec_finish(s, Err(XirrError::NoConvergence))
            }
        },
        Phase::AwaitWidenHi => spec_start_eval(
            Solver { hi: reply, ..s },
            Purpose::ProbeHi,
            reply,
        ),
        Phase::Finished(outcome) => (s, Request::Done { outcome }),
    }
}

/// The machine's starting state on a validated set: about to evaluate the
/// net present value at the initial guess.
pub open spec fn spec_new(set: ValidatedSet) -> (Solver, Request) {
    spec_start_eval(
        Solver {
            entries: set.entries,
            origin: set.origin,
            phase: Phase::AwaitBase,
            purpose: Purpose::Iterate,
            rate: INITIAL_RATE_BITS,
            base: ZERO_BITS,
            index: 0,
            years: ZERO_BITS,
            value_term: ZERO_BITS,
            acc_value: ZERO_BITS,
            acc_deriv: ZERO_BITS,
            iterations: 0,
            lo: BRACKET_LO_BITS,
            hi: BRACKET_HI_BITS,
            lo_sign: false,
            has_bracket: false,
            widenings: 0,
            from_bisect: false,
        },
        Purpose::Iterate,
        INITIAL_RATE_BITS,
    )
}

impl Solver {
    /// Starts the root finder on a validated set. The first request asks for
    /// the discount base at the initial guess of one tenth.
    pub fn new(set: ValidatedSet) -> (r: (Solver, Request))
        requires
            set.wf(),
        ensures
            r == spec_new(set),
            r.0.wf(),
    {
        let s = Solver {
            entries: set.entries,
            origin: set.origin,
            phase: Phase::AwaitBase,
            purpose: Purpose::Iterate,
            rate: INITIAL_RATE_BITS,
            base: ZERO_BITS,
            index: 0,
            years: ZERO_BITS,
            value_term: ZERO_BITS,
            acc_value: ZERO_BITS,
            acc_deriv: ZERO_BITS,
            iterations: 0,
            lo: BRACKET_LO_BITS,
            hi: BRACKET_HI_BITS,
            lo_sign: false,
            has_bracket: false,
            widenings: 0,
            from_bisect: false,
        };
        s.start_eval(Purpose::Iterate, INITIAL_RATE_BITS)
    }

    /// Ends the run with `outcome`.
    fn finish(self, outcome: Result<u64, XirrError>) -> (r: (Solver, Request))
        requires
            (match outcome {
                Ok(rate) => rate_above_neg_one(rate),
                Err(_) => true,
            }),
        ensures
            r == spec_finish(self, outcome),
    {
        (Solver { phase: Phase::Finished(outcome), ..self }, Request::Done { outcome })
    }

    /// Begins an evaluation of the net present value at `rate`.
    fn start_eval(self, purpose: Purpose, rate: u64) -> (r: (Solver, Request))
        ensures
            r == spec_start_eval(self, purpose, rate),
    {
        (
            Solver { phase: Phase::AwaitBase, purpose, rate, ..self },
            Request::Arith { op: OpKind::Add, a: ONE_BITS, b: rate },
        )
    }

    /// Begins entry `i` of the running evaluation.
    fn begin_entry(self, i: usize) -> (r: (Solver, Request))
        requires
            i < self.entries@.len(),
            all_dates_wf(self.entries@),
            self.origin.wf(),
            is_min_day(self.entries@, self.origin.day_number),
        ensures
            r == spec_begin_entry(self, i as int),
    {
        let days_i64 = self.entries[i].date.days_since(&self.origin);
        assert(days_i64 >= 0);
        let days = days_i64 as u64;
        if days == 0 {
            let amount = self.entries[i].amount_bits;
            (
                Solver { index: i, years: ZERO_BITS, phase: Phase::AwaitValueTerm, ..self },
                Request::Arith { op: OpKind::Mul, a: amount, b: ONE_BITS },
            )
        } else {
            (
                Solver { index: i, phase: Phase::AwaitRawDays, ..self },
                Request::FromDays { days },
            )
        }
    }

    /// Abandons the Newton step: bisect, or start the bracket search.
    fn fallback(self) -> (r: (Solver, Request))
        ensures
            r == spec_fallback(self),
    {
        if self.has_bracket {
            let lo = self.lo;
            let hi = self.hi;
            (
                Solver { phase: Phase::AwaitMidSum, ..self },
                Request::Arith { op: OpKind::Add, a: lo, b: hi },
            )
        } else {
            Solver {
                lo: BRACKET_LO_BITS,
                hi: BRACKET_HI_BITS,
                from_bisect: false,
                ..self
            }.start_eval(Purpose::ProbeLo, BRACKET_LO_BITS)
        }
    }

    /// Acts on a finished evaluation: value `v`, derivative `d`.
    fn decide(self, v: u64, d: u64) -> (r: (Solver, Request))
        requires
            self.iterations <= ITERATION_CAP,
        ensures
            r == spec_decide(self, v, d),
    {
        if magnitude(v) < EPS_BITS && rate_admissible(self.rate) {
            let rate = self.rate;
            return self.finish(Ok(rate));
        }
        match self.purpose {
            Purpose::Iterate => {
                let s1 = if self.from_bisect && self.has_bracket {
                    if is_sign_neg(v) == self.lo_sign {
                        let rate = self.rate;
                        Solver { lo: rate, ..self }
                    } else {
                        let rate = self.rate;
                        Solver { hi: rate, ..self }
                    }
                } else {
                    self
                };
                if s1.iterations + 1 >= ITERATION_CAP {
                    Solver { iterations: ITERATION_CAP, ..s1 }.finish(
                        Err(XirrError::NoConvergence),
                    )
                } else {
                    let s2 = Solver { iterations: s1.iterations + 1, ..s1 };
                    if magnitude(d) != 0 {
                        (
                            Solver { phase: Phase::AwaitNewtonQuot, ..s2 },
                            Request::Arith { op: OpKind::Div, a: v, b: d },
                        )
                    } else {
                        s2.fallback()
                    }
                }
            },
            Purpose::ProbeLo => {
                let hi = self.hi;
                Solver { lo_sign: is_sign_neg(v), ..self }.start_eval(Purpose::ProbeHi, hi)
            },
            Purpose::ProbeHi => {
                if is_sign_neg(v) != self.lo_sign {
                    let lo = self.lo;
                    let hi = self.hi;
                    (
                        Solver { has_bracket: true, phase: Phase::AwaitMidSum, ..self },
                        Request::Arith { op: OpKind::Add, a: lo, b: hi },
                    )
                } else if self.widenings >= WIDEN_CAP {
                    self.finish(Err(XirrError::NoSolutionBracket))
                } else {
                    let hi = self.hi;
                    (
                        Solver { widenings: self.widenings + 1, phase: Phase::AwaitWidenHi, ..self },
                        Request::Arith { op: OpKind::Mul, a: hi, b: TWO_BITS },
                    )
                }
            },
        }
    }

    /// Takes `reply`, the result of the last requested operation, and moves
    /// the machine one step: exactly the transition `spec_step` describes.
    /// Once finished, any further step returns the outcome unchanged. A
    /// successful outcome's rate is strictly above minus one, and a failed
    /// one is a numerical failure, never a validation error: those are
    /// raised by `validate`, before any iteration.
    pub fn step(self, reply: u64) -> (r: (Solver, Request))
        requires
            self.wf(),
        ensures
            r == spec_step(self, reply),
            r.0.wf(),
            (r.1 matches Request::Done { outcome } ==> r.0.phase == Phase::Finished(outcome)),
            (r.1 matches Request::Done { outcome: Ok(rate) } ==> rate_above_neg_one(rate)),
            (r.1 matches Request::Done { outcome: Err(e) } ==> !(e matches XirrError::InvalidPayments(_))),
    {
        let r = match self.phase {
            Phase::AwaitBase => Solver {
                base: reply,
                acc_value: ZERO_BITS,
                acc_deriv: ZERO_BITS,
                ..self
            }.begin_entry(0),
            Phase::AwaitRawDays => (
                Solver { phase: Phase::AwaitYears, ..self },
                Request::Arith { op: OpKind::Div, a: reply, b: YEAR_DAYS_BITS },
            ),
            Phase::AwaitYears => {
                let base = self.base;
                (
                    Solver { years: reply, phase: Phase::AwaitFactor, ..self },
                    Request::Arith { op: OpKind::Pow, a: base, b: negate(reply) },
                )
            },
            Phase::AwaitFactor => {
                let amount = self.entries[self.index].amount_bits;
                (
                    Solver { phase: Phase::AwaitValueTerm, ..self },
                    Request::Arith { op: OpKind::Mul, a: amount, b: reply },
                )
            },
            Phase::AwaitValueTerm => {
                let acc = self.acc_value;
                (
                    Solver { value_term: reply, phase: Phase::AwaitValueAcc, ..self },
                    Request::Arith { op: OpKind::Add, a: acc, b: reply },
                )
            },
            Phase::AwaitValueAcc => {
                let term = self.value_term;
                let years = self.years;
                (
                    Solver { acc_value: reply, phase: Phase::AwaitDerivMul, ..self },
                    Request::Arith { op: OpKind::Mul, a: term, b: negate(years) },
                )
            },
            Phase::AwaitDerivMul => {
                let base = self.base;
                (
                    Solver { phase: Phase::AwaitDerivDiv, ..self },
                    Request::Arith { op: OpKind::Div, a: reply, b: base },
                )
            },
            Phase::AwaitDerivDiv => {
                let acc = self.acc_deriv;
                (
                    Solver { phase: Phase::AwaitDerivAcc, ..self },
                    Request::Arith { op: OpKind::Add, a: acc, b: reply },
                )
            },
            Phase::AwaitDerivAcc => {
                let len = self.entries.len();
                assert(self.index < len);
                let next = self.index + 1;
                let s1 = Solver { acc_deriv: reply, ..self };
                if next < len {
                    s1.begin_entry(next)
                } else {
                    let v = s1.acc_value;
                    let d = s1.acc_deriv;
                    s1.decide(v, d)
                }
            },
            Phase::AwaitNewtonQuot => {
                let rate = self.rate;
                (
                    Solver { phase: Phase::AwaitNewtonRate, ..self },
                    Request::Arith { op: OpKind::Sub, a: rate, b: reply },
                )
            },
            Phase::AwaitNewtonRate => {
                if rate_admissible(reply) {
                    Solver { from_bisect: false, ..self }.start_eval(Purpose::Iterate, reply)
                } else {
                    self.fallback()
                }
            },
            Phase::AwaitMidSum => (
                Solver { phase: Phase::AwaitMidRate, ..self },
                Request::Arith { op: OpKind::Div, a: reply, b: TWO_BITS },
            ),
            Phase::AwaitMidRate => {
                if rate_admissible(reply) {
                    Solver { from_bisect: true, ..self }.start_eval(Purpose::Iterate, reply)
                } else {
                    self.finish(Err(XirrError::NoConvergence))
                }
            },
            Phase::AwaitWidenHi => Solver { hi: reply, ..self }.start_eval(
                Purpose::ProbeHi,
                reply,
            ),
            Phase::Finished(outcome) => (self, Request::Done { outcome }),
        };
        r
    }
}

/// Replies needed for one whole evaluation and its follow-up steps, with
/// slack: the widest evaluation takes `8·l + 1` replies.
pub open spec fn iteration_cost(l: int) -> int {
    8 * l + 6
}

/// Replies left in the current entry's micro-sequence.
pub open spec fn entry_rank(p: Phase) -> int {
    match p {
        Phase::AwaitRawDays => 8,
        Phase::AwaitYears => 7,
        Phase::AwaitFactor => 6,
        Phase::AwaitValueTerm => 5,
        Phase::AwaitValueAcc => 4,
        Phase::AwaitDerivMul => 3,
        Phase::AwaitDerivDiv => 2,
        Phase::AwaitDerivAcc => 1,
        _ => 0,
    }
}

/// Replies left until the work the current phase belongs to is over: the
/// rest of the running evaluation, or of the running Newton or bisection
/// exchange, counted so that every transition of `spec_step` moves strictly
/// down. A probe of the bracket's lower end carries the cost of the upper
/// probe that follows it.
pub open spec fn local_measure(s: Solver) -> int {
    let l = s.entries@.len() as int;
    let off: int = if s.purpose == Purpose::ProbeLo {
        8 * l + 2
    } else {
        0
    };
    match s.phase {
        Phase::AwaitBase => 8 * l + 1 + off,
        Phase::AwaitNewtonQuot => 8 * l + 5,
        Phase::AwaitNewtonRate => 8 * l + 4,
        Phase::AwaitMidSum => 8 * l + 3,
        Phase::AwaitMidRate => 8 * l + 2,
        Phase::AwaitWidenHi => 8 * l + 2,
        Phase::Finished(_) => 0,
        _ => 8 * (l - 1 - s.index) + entry_rank(s.phase) + off,
    }
}

/// The bracket search's budget, charged while no bracket is known: one
/// evaluation per remaining widening, plus the entry fee of starting to
/// probe at all.
pub open spec fn probe_measure(s: Solver) -> int {
    let l = s.entries@.len() as int;
    if s.has_bracket {
        0
    } else {
        (WIDEN_CAP + 1 - s.widenings) * iteration_cost(l) + (if s.purpose == Purpose::Iterate {
            17 * l
        } else {
            0
        })
    }
}

/// An upper bound on how many replies the machine can still take before it
/// finishes: the remaining Newton-Raphson budget, the remaining bracket
/// search, and the work of the phase in hand.
pub open spec fn measure(s: Solver) -> int {
    let l = s.entries@.len() as int;
    (ITERATION_CAP - s.iterations) * iteration_cost(l) + probe_measure(s) + local_measure(s)
}

/// An entry dated on the origin — the minimum date, so in every well-formed
/// run at least one entry is — has elapsed time zero, and the machine
/// discounts it by one exactly: beginning it asks for the value term
/// `amount · 1` straight away, with no conversion, division or power ever
/// requested for it. Zero elapsed time therefore cannot raise a numerical
/// exception in any driver.
pub proof fn lemma_origin_entry_discounts_by_one(s: Solver, i: int)
    requires
        0 <= i < s.entries@.len(),
        s.entries@[i].date.day_number == s.origin.day_number,
    ensures
        spec_begin_entry(s, i) == (
            Solver { index: i as usize, years: ZERO_BITS, phase: Phase::AwaitValueTerm, ..s },
            Request::Arith { op: OpKind::Mul, a: s.entries@[i].amount_bits, b: ONE_BITS },
        ),
{
    assert(spec_entry_days(s, i) == 0);
}

/// Facts about products that the measure proof leans on.
proof fn lemma_mul_facts(a: int, x: int)
    by (nonlinear_arith)
    requires
        a >= 0,
        x >= 0,
    ensures
        a * x >= 0,
        a >= 1 ==> (a - 1) * x == a * x - x,
        a >= 1 ==> a * x >= x,
{
}

/// Termination: while the machine is not finished, every step strictly
/// decreases its measure, and the measure never falls below zero. A driver
/// loop therefore reaches `Done` within `measure` replies, whatever the
/// replies hold: the solver cannot run unboundedly, the iteration and
/// widening caps are the only bounds on its run time.
#[verifier::rlimit(60)]
pub proof fn lemma_step_measure_decreases(s: Solver, reply: u64)
    requires
        s.wf(),
        !(s.phase matches Phase::Finished(_)),
    ensures
        measure(spec_step(s, reply).0) >= 0,
        measure(spec_step(s, reply).0) < measure(s),
{
    broadcast use vstd::std_specs::vec::group_vec_axioms;

    let l = s.entries@.len() as int;
    let ic = iteration_cost(l);
    assert(l >= 1);
    assert(s.entries.len() == s.entries@.len());
    let bi = ITERATION_CAP - s.iterations;
    let bw = WIDEN_CAP + 1 - s.widenings;
    lemma_mul_facts(bi, ic);
    if bi >= 1 {
        lemma_mul_facts(bi - 1, ic);
    }
    lemma_mul_facts(bw, ic);
    if bw >= 1 {
        lemma_mul_facts(bw - 1, ic);
    }
    let t = spec_step(s, reply).0;
    match s.phase {
        Phase::AwaitDerivAcc => {
            if s.index + 1 < s.entries@.len() {
                assert(measure(t) < measure(s));
            } else {
                let s1 = Solver { acc_deriv: reply, ..s };
                assert(local_measure(s1) == local_measure(s));
                assert(probe_measure(s1) == probe_measure(s));
                let v = s1.acc_value;
                let d = s1.acc_deriv;
                if magnitude_bits(v) < EPS_BITS && rate_above_neg_one(s1.rate) {
                    assert(measure(t) < measure(s));
                } else {
                    match s1.purpose {
                        Purpose::Iterate => {
                            let s2 = if s1.from_bisect && s1.has_bracket {
                                if sign_bit(v) == s1.lo_sign {
                                    Solver { lo: s1.rate, ..s1 }
                                } else {
                                    Solver { hi: s1.rate, ..s1 }
                                }
                            } else {
                                s1
                            };
                            assert(probe_measure(s2) == probe_measure(s));
                            if s2.iterations + 1 >= ITERATION_CAP {
                                assert((ITERATION_CAP - ITERATION_CAP) * ic == 0);
                                assert(measure(t) < measure(s));
                            } else {
                                assert(bi >= 1);
                                if magnitude_bits(d) != 0 {
                                    assert(measure(t) < measure(s));
                                } else {
                                    let s3 = Solver { iterations: (s2.iterations + 1) as u64, ..s2 };
                                    if s3.has_bracket {
                                        assert(measure(t) < measure(s));
                                    } else {
                                        assert(probe_measure(t) == bw * ic);
                                        assert(measure(t) < measure(s));
                                    }
                                }
                            }
                        },
                        Purpose::ProbeLo => {
                            assert(measure(t) < measure(s));
                        },
                        Purpose::ProbeHi => {
                            if sign_bit(v) != s1.lo_sign {
                                assert(bw >= 1);
                                assert(probe_measure(s) >= ic);
                                assert(probe_measure(t) == 0);
                                assert(measure(t) < measure(s));
                            } else if s1.widenings >= WIDEN_CAP {
                                assert(measure(t) < measure(s));
                            } else {
                                assert(probe_measure(t) == (bw - 1) * ic);
                                assert(measure(t) < measure(s));
                            }
                        },
                    }
                }
            }
        },
        Phase::AwaitNewtonRate => {
            if rate_above_neg_one(reply) {
                assert(measure(t) < measure(s));
            } else {
                if s.has_bracket {
                    assert(measure(t) < measure(s));
                } else {
                    assert(probe_measure(t) == bw * ic);
                    assert(measure(t) < measure(s));
                }
            }
        },
        _ => {
            assert(measure(t) < measure(s));
        },
    }
}

} // verus!
