use xirr_core::{validate, CashFlow, Date, InvalidPaymentsKind, XirrError};

fn flow(day_number: i64, amount: f64) -> CashFlow {
    CashFlow { date: Date::from_day_number(day_number).unwrap(), amount_bits: amount.to_bits() }
}

#[test]
fn validate_rejects_the_empty_set() {
    let err = validate(&vec![]).unwrap_err();
    assert!(matches!(err, XirrError::InvalidPayments(InvalidPaymentsKind::Empty)));
    assert_eq!(err.message(), "empty cash flow set");
}

#[test]
fn validate_rejects_one_sided_sets() {
    let err = validate(&vec![flow(0, 1.0), flow(10, 2.5), flow(20, 0.0)]).unwrap_err();
    assert!(matches!(err, XirrError::InvalidPayments(InvalidPaymentsKind::OneSided)));
    assert_eq!(err.message(), "cash flows must contain both inflows and outflows");

    let err = validate(&vec![flow(0, -1.0)]).unwrap_err();
    assert!(matches!(err, XirrError::InvalidPayments(InvalidPaymentsKind::OneSided)));
}

#[test]
fn validate_accepts_mixed_signs_and_finds_the_minimum_date() {
    let set = validate(&vec![flow(100, 4.0), flow(40, -3.0), flow(70, 1.0)]).unwrap();
    assert_eq!(set.origin.day_number, 40);
    assert_eq!(set.entries.len(), 3);
    assert_eq!(set.entries[0].date.day_number, 100);
}

#[test]
fn validate_does_not_depend_on_entry_order() {
    let entries = vec![flow(9, -2.0), flow(3, 5.0), flow(12, 1.5)];
    let reordered = vec![flow(12, 1.5), flow(9, -2.0), flow(3, 5.0)];
    let a = validate(&entries).unwrap();
    let b = validate(&reordered).unwrap();
    assert_eq!(a.origin.day_number, b.origin.day_number);
}

#[test]
fn remaining_failures_have_messages() {
    assert_eq!(XirrError::NoConvergence.message(), "no convergence within the iteration cap");
    assert_eq!(
        XirrError::NoSolutionBracket.message(),
        "no sign change in net present value over the searched rates"
    );
}
