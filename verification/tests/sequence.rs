use falcon_lib::fibonacci;

#[test]
fn fibonacci_starts_at_zero_and_one() {
    assert_eq!(fibonacci(0), (0, 1));
    assert_eq!(fibonacci(1), (1, 1));
    assert_eq!(fibonacci(2), (1, 2));
}

#[test]
fn fibonacci_of_ten_and_twenty() {
    assert_eq!(fibonacci(10), (55, 89));
    assert_eq!(fibonacci(20), (6765, 10946));
}

#[test]
fn fibonacci_wraps_at_the_word_size() {
    assert_eq!(fibonacci(46), (1836311903, 2971215073));
    assert_eq!(fibonacci(47), (2971215073, 512559680));
    assert_eq!(fibonacci(48), (512559680, 3483774753));
}

#[test]
fn fibonacci_steps_by_wrapping_sum() {
    for n in 0..200u32 {
        let (a, b) = fibonacci(n);
        let (c, d) = fibonacci(n + 1);
        assert_eq!(c, b);
        assert_eq!(d, a.wrapping_add(b));
    }
}
