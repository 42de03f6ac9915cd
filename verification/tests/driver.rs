use yield_once::driver::{computed_result, driver_line};

#[test]
fn driver_emits_fixed_line() {
    let line = driver_line();
    assert_eq!(line, b"Result: 13".to_vec());
}

#[test]
fn driver_line_is_the_same_on_every_run() {
    assert_eq!(driver_line(), driver_line());
}

#[test]
fn computed_result_twice_in_sequence() {
    let a = computed_result();
    let b = computed_result();
    assert_eq!(a, 13);
    assert_eq!(b, 13);
}
