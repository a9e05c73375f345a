use minitask::math::{
    add, categorize_number, cube, double, double_add, factorial, fibonacci, handle_optional,
    is_even, is_prime, multiply, plus_one, power, power_sum, square, subtract,
};

#[test]
fn test_math_add() {
    assert_eq!(add(2, 3), 5);
}

#[test]
fn test_basic_arithmetic() {
    assert_eq!(subtract(10, 4), 6);
    assert_eq!(multiply(6, 7), 42);
    assert_eq!(double(21), 42);
    assert_eq!(square(-5), 25);
    assert_eq!(cube(3), 27);
    assert_eq!(cube(-3), -27);
    assert_eq!(double_add(5, 3), 16);
}

#[test]
fn test_power_and_power_sum() {
    assert_eq!(power(2, 3), 8);
    assert_eq!(power(5, 0), 1);
    assert_eq!(power(-2, 3), -8);
    assert_eq!(power_sum(2, 3, 2), 13);
}

#[test]
fn test_factorial() {
    assert_eq!(factorial(0), 1);
    assert_eq!(factorial(1), 1);
    assert_eq!(factorial(5), 120);
    assert_eq!(factorial(12), 479_001_600);
}

#[test]
fn test_fibonacci() {
    assert_eq!(fibonacci(0), 0);
    assert_eq!(fibonacci(1), 1);
    assert_eq!(fibonacci(2), 1);
    assert_eq!(fibonacci(10), 55);
}

#[test]
fn test_is_even() {
    assert!(is_even(0));
    assert!(is_even(4));
    assert!(!is_even(7));
    assert!(is_even(-2));
    assert!(!is_even(-3));
}

#[test]
fn test_is_prime() {
    assert!(!is_prime(0));
    assert!(!is_prime(1));
    assert!(is_prime(2));
    assert!(is_prime(3));
    assert!(!is_prime(4));
    assert!(is_prime(5));
    assert!(!is_prime(9));
    assert!(is_prime(13));
    assert!(!is_prime(15));
    assert!(is_prime(7919));
    assert!(!is_prime(7921)); // 89 * 89
}

#[test]
fn test_plus_one() {
    assert_eq!(plus_one(Some(5)), Some(6));
    assert_eq!(plus_one(None), None);
}

#[test]
fn test_handle_optional() {
    assert_eq!(handle_optional(Some(25)), 50);
    assert_eq!(handle_optional(Some(5)), 5);
    assert_eq!(handle_optional(None), 0);
}

#[test]
fn test_categorize_number() {
    assert_eq!(categorize_number(5), "small");
    assert_eq!(categorize_number(-7), "small");
    assert_eq!(categorize_number(50), "medium");
    assert_eq!(categorize_number(500), "large");
}
