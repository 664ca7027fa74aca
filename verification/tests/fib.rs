use virtual_machine::fib::fibo;

#[test]
fn fibo_small_values() {
    assert_eq!(fibo(0), Some(0));
    assert_eq!(fibo(1), Some(1));
    assert_eq!(fibo(2), Some(1));
    assert_eq!(fibo(10), Some(55));
}

#[test]
fn fibo_largest_value_that_fits() {
    assert_eq!(fibo(47), Some(2_971_215_073));
}

#[test]
fn fibo_overflow_returns_none() {
    assert_eq!(fibo(48), None);
    assert_eq!(fibo(1000), None);
}
