use fibtemp::fibonacci::{evaluate, evaluate_text, FibError, FibReport};

fn value_at(n: u32) -> u32 {
    match evaluate(n) {
        Ok(rep) => rep.value,
        Err(e) => panic!("position {} gave {:?}", n, e),
    }
}

#[test]
fn positions_three_to_ten_follow_the_window() {
    let expected: [u32; 8] = [1, 2, 3, 5, 8, 13, 21, 34];
    for (i, want) in expected.iter().enumerate() {
        let n = i as u32 + 3;
        assert_eq!(value_at(n), *want, "position {}", n);
        assert_eq!(evaluate(n).unwrap().position, n);
    }
}

#[test]
fn position_zero_is_reported_as_position_one() {
    assert_eq!(evaluate(0), Ok(FibReport { position: 1, value: 0 }));
}

#[test]
fn positions_one_and_two_report_zero() {
    assert_eq!(evaluate(1), Ok(FibReport { position: 1, value: 0 }));
    assert_eq!(evaluate(2), Ok(FibReport { position: 2, value: 0 }));
}

#[test]
fn input_ten_reports_eight_steps() {
    let rep = evaluate_text("10").unwrap();
    assert_eq!(rep, FibReport { position: 10, value: 34 });
    assert_eq!(rep.message(), "The fibonacci number at position 10 is 34");
}

#[test]
fn input_zero_message() {
    let rep = evaluate_text("0").unwrap();
    assert_eq!(rep.message(), "The fibonacci number at position 1 is 0");
}

#[test]
fn input_abc_is_not_a_number() {
    assert_eq!(evaluate_text("abc"), Err(FibError::NotANumber));
    assert_eq!(evaluate_text(""), Err(FibError::NotANumber));
    assert_eq!(evaluate_text("-3"), Err(FibError::NotANumber));
    assert_eq!(evaluate_text("1 2"), Err(FibError::NotANumber));
}

#[test]
fn largest_position_that_fits() {
    assert_eq!(evaluate(48), Ok(FibReport { position: 48, value: 2971215073 }));
    assert_eq!(evaluate(49), Err(FibError::ValueOverflow));
}

#[test]
fn maximum_position_overflows_without_wrapping() {
    assert_eq!(evaluate(u32::MAX), Err(FibError::ValueOverflow));
    assert_eq!(evaluate_text("4294967295"), Err(FibError::ValueOverflow));
}

#[test]
fn position_beyond_u32_is_too_large() {
    assert_eq!(evaluate_text("4294967296"), Err(FibError::PositionTooLarge));
    assert_eq!(evaluate_text("99999999999999999999"), Err(FibError::PositionTooLarge));
}

#[test]
fn text_with_plus_sign_and_leading_zeros() {
    assert_eq!(evaluate_text("+7"), Ok(FibReport { position: 7, value: 8 }));
    assert_eq!(evaluate_text("0009"), Ok(FibReport { position: 9, value: 21 }));
}

#[test]
fn message_with_large_value() {
    let rep = evaluate(48).unwrap();
    assert_eq!(rep.message(), "The fibonacci number at position 48 is 2971215073");
}
