use rust_project::calculator;

#[test]
fn test_calculator_add() {
    assert_eq!(calculator::add(5, 3), 8);
}

#[test]
fn test_add() {
    assert_eq!(calculator::add(2, 3), 5);
    assert_eq!(calculator::add(-1, 1), 0);
}

#[test]
fn test_subtract() {
    assert_eq!(calculator::subtract(5, 3), 2);
    assert_eq!(calculator::subtract(0, 5), -5);
}

#[test]
fn test_multiply() {
    assert_eq!(calculator::multiply(4, 5), 20);
    assert_eq!(calculator::multiply(-2, 3), -6);
}

#[test]
fn test_add_commutes() {
    assert_eq!(calculator::add(7, -2), calculator::add(-2, 7));
    assert_eq!(calculator::add(0, 9), calculator::add(9, 0));
}

#[test]
fn test_subtract_negated_swap() {
    assert_eq!(calculator::subtract(9, 4), -calculator::subtract(4, 9));
    assert_eq!(calculator::subtract(-3, -3), -calculator::subtract(-3, -3));
}

#[test]
fn test_add_extremes() {
    assert_eq!(calculator::add(i32::MAX, 0), i32::MAX);
    assert_eq!(calculator::add(i32::MIN, i32::MAX), -1);
}

#[test]
fn test_multiply_by_zero() {
    assert_eq!(calculator::multiply(i32::MAX, 0), 0);
    assert_eq!(calculator::multiply(0, i32::MIN), 0);
}
