use xirr_core::{validate, CashFlow, Date, InvalidPaymentsKind, OpKind, Request, Solver, XirrError};

/// Runs the solver to completion, performing each requested binary64
/// operation. The driver holds no logic of its own: it is a calculator.
fn drive(entries: &Vec<CashFlow>) -> Result<f64, XirrError> {
    let set = match validate(entries) {
        Ok(v) => v,
        Err(e) => return Err(e),
    };
    let (mut solver, mut request) = Solver::new(set);
    loop {
        let reply: u64 = match request {
            Request::Arith { op, a, b } => {
                let x = f64::from_bits(a);
                let y = f64::from_bits(b);
                let r = match op {
                    OpKind::Add => x + y,
                    OpKind::Sub => x - y,
                    OpKind::Mul => x * y,
                    OpKind::Div => x / y,
                    OpKind::Pow => x.powf(y),
                };
                r.to_bits()
            },
            Request::FromDays { days } => (days as f64).to_bits(),
            Request::Done { outcome } => return outcome.map(f64::from_bits),
        };
        let next = solver.step(reply);
        solver = next.0;
        request = next.1;
    }
}

fn entry(y: i32, m: u32, d: u32, amount: f64) -> CashFlow {
    CashFlow { date: Date::from_ymd(y, m, d).unwrap(), amount_bits: amount.to_bits() }
}

#[test]
fn ten_percent_return() {
    let flows = vec![entry(2020, 1, 1, -1000.0), entry(2020, 12, 31, 1100.0)];
    let rate = drive(&flows).unwrap();
    assert!((rate - 0.10).abs() < 1e-6, "rate was {rate}");
}

#[test]
fn zero_return() {
    let flows = vec![entry(2020, 1, 1, -1000.0), entry(2020, 12, 31, 1000.0)];
    let rate = drive(&flows).unwrap();
    assert!(rate.abs() < 1e-6, "rate was {rate}");
}

#[test]
fn same_day_opposite_signs_no_division_by_zero() {
    let flows = vec![entry(2020, 5, 4, -100.0), entry(2020, 5, 4, 100.0)];
    let rate = drive(&flows).unwrap();
    // The net present value is exactly zero at the initial guess already.
    assert_eq!(rate, 0.1);
}

#[test]
fn identical_runs_give_identical_bits() {
    let flows = vec![
        entry(2019, 3, 1, -750.0),
        entry(2019, 9, 15, 200.0),
        entry(2020, 3, 1, 700.0),
    ];
    let first = drive(&flows).unwrap();
    let second = drive(&flows).unwrap();
    assert_eq!(first.to_bits(), second.to_bits());
}

#[test]
fn swapping_two_entries_gives_identical_bits() {
    let a = entry(2020, 1, 1, -1000.0);
    let b = entry(2020, 12, 31, 1100.0);
    let forward = drive(&vec![a, b]).unwrap();
    let backward = drive(&vec![b, a]).unwrap();
    assert_eq!(forward.to_bits(), backward.to_bits());
}

#[test]
fn permuted_entries_give_the_same_rate() {
    let a = entry(2020, 1, 1, -1000.0);
    let b = entry(2020, 6, 30, 300.0);
    let c = entry(2021, 12, 31, 900.0);
    let one = drive(&vec![a, b, c]).unwrap();
    let two = drive(&vec![c, a, b]).unwrap();
    let three = drive(&vec![b, c, a]).unwrap();
    assert!((one - two).abs() < 1e-6);
    assert!((one - three).abs() < 1e-6);
}

#[test]
fn extreme_magnitudes_fail_without_hanging() {
    let flows = vec![entry(2020, 1, 1, -1e300), entry(2020, 1, 2, 1e-300)];
    let err = drive(&flows).unwrap_err();
    assert!(matches!(err, XirrError::NoConvergence | XirrError::NoSolutionBracket));
}

#[test]
fn huge_amounts_exhaust_the_iteration_cap() {
    // The rounding floor of sums of this size stays above the absolute
    // tolerance, so the iteration cap is what stops the run.
    let flows = vec![
        CashFlow {
            date: Date::from_day_number(0).unwrap(),
            amount_bits: (-6651415165875000.0f64).to_bits(),
        },
        CashFlow {
            date: Date::from_day_number(1194).unwrap(),
            amount_bits: (3228817219095977.0f64).to_bits(),
        },
    ];
    let err = drive(&flows).unwrap_err();
    assert!(matches!(err, XirrError::NoConvergence));
}

#[test]
fn empty_set_is_rejected_before_any_iteration() {
    let flows: Vec<CashFlow> = vec![];
    let err = drive(&flows).unwrap_err();
    assert!(matches!(err, XirrError::InvalidPayments(InvalidPaymentsKind::Empty)));
}

#[test]
fn one_sided_flows_are_rejected_before_any_iteration() {
    let only_out = vec![entry(2020, 1, 1, -5.0), entry(2020, 2, 1, -7.0)];
    let err = drive(&only_out).unwrap_err();
    assert!(matches!(err, XirrError::InvalidPayments(InvalidPaymentsKind::OneSided)));

    let only_in = vec![entry(2020, 1, 1, 5.0), entry(2020, 2, 1, 7.0)];
    let err = drive(&only_in).unwrap_err();
    assert!(matches!(err, XirrError::InvalidPayments(InvalidPaymentsKind::OneSided)));

    // Zero amounts are legal but are neither inflow nor outflow.
    let zeros = vec![entry(2020, 1, 1, 0.0), entry(2020, 2, 1, -3.0)];
    let err = drive(&zeros).unwrap_err();
    assert!(matches!(err, XirrError::InvalidPayments(InvalidPaymentsKind::OneSided)));
}
