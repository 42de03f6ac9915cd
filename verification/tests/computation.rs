use yield_once::computation::{Computation, Resolved, Step, DEPENDENCY_VALUE};

#[test]
fn computation_returns_expected_value() {
    let mut computation = Computation::new();
    let result = computation.run_to_completion();
    assert_eq!(result, 13);
}

#[test]
fn repeated_invocations_are_independent() {
    let mut first = Computation::new();
    let mut second = Computation::new();
    let a = first.run_to_completion();
    let b = second.run_to_completion();
    assert_eq!(a, 13);
    assert_eq!(b, 13);
}

#[test]
fn suspends_exactly_once() {
    let mut computation = Computation::new();
    let mut pending_polls: u32 = 0;
    let result: i32 = loop {
        match computation.step() {
            Step::Pending => pending_polls += 1,
            Step::Ready(value) => break value,
        }
    };
    assert_eq!(pending_polls, 1);
    assert_eq!(result, 13);
}

#[test]
fn step_parks_then_finishes() {
    let mut computation = Computation::new();
    assert_eq!(computation.step(), Step::Pending);
    assert_eq!(computation.step(), Step::Ready(13));
}

#[test]
fn is_done_tracks_completion() {
    let mut computation = Computation::new();
    assert!(!computation.is_done());
    let first = computation.step();
    assert_eq!(first, Step::Pending);
    assert!(!computation.is_done());
    let second = computation.step();
    assert_eq!(second, Step::Ready(13));
    assert!(computation.is_done());
}

#[test]
fn resolved_dependency_is_immediately_ready() {
    let dependency = Resolved::new(DEPENDENCY_VALUE);
    assert_eq!(dependency.poll(), Step::Ready(42));
    assert_eq!(dependency.poll(), Step::Ready(42));
}
