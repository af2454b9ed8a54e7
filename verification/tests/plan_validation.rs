use payment_router::error::ValidationError;
use payment_router::plan::validate_plan;

#[test]
fn accepts_amounts_summing_to_total() {
    assert_eq!(validate_plan(&vec![30, 70], 100, 2), Ok(()));
}

#[test]
fn accepts_single_recipient_plan() {
    assert_eq!(validate_plan(&vec![1], 1, 1), Ok(()));
}

#[test]
fn rejects_sum_mismatch() {
    assert_eq!(validate_plan(&vec![30, 70], 99, 2), Err(ValidationError::SumMismatch));
}

#[test]
fn rejects_length_mismatch() {
    assert_eq!(validate_plan(&vec![30, 70], 100, 3), Err(ValidationError::LengthMismatch));
}

#[test]
fn rejects_empty_plan() {
    assert_eq!(validate_plan(&vec![], 0, 0), Err(ValidationError::EmptyPlan));
}

#[test]
fn rejects_overflowing_sum_instead_of_wrapping() {
    // Wrapping would give 0, which equals the claimed total; the validator
    // must report overflow instead.
    assert_eq!(validate_plan(&vec![u64::MAX, 1], 0, 2), Err(ValidationError::AmountOverflow));
    assert_eq!(
        validate_plan(&vec![u64::MAX, u64::MAX, 2], 0, 3),
        Err(ValidationError::AmountOverflow),
    );
}

#[test]
fn rejects_length_mismatch_before_sum_mismatch() {
    assert_eq!(validate_plan(&vec![30, 70], 99, 1), Err(ValidationError::LengthMismatch));
}
