use std::future::Future;
use std::pin::Pin;
use std::task::{Context, Poll};

use futures::executor::block_on;
use yield_once::computation::{Computation, Step};

/// Adapter that lets an executor drive the computation: each poll of the
/// future steps the state machine once.
struct ComputationFuture {
    inner: Computation,
}

impl Future for ComputationFuture {
    type Output = i32;

    fn poll(self: Pin<&mut Self>, cx: &mut Context<'_>) -> Poll<i32> {
        let this = self.get_mut();
        if this.inner.is_done() {
            panic!("polled a computation that already finished");
        }
        match this.inner.step() {
            Step::Pending => {
                cx.waker().wake_by_ref();
                Poll::Pending
            }
            Step::Ready(value) => Poll::Ready(value),
        }
    }
}

#[test]
fn executor_drives_computation_to_completion() {
    let result = block_on(ComputationFuture { inner: Computation::new() });
    assert_eq!(result, 13);
}

#[test]
fn executor_drives_two_computations_in_sequence() {
    let a = block_on(ComputationFuture { inner: Computation::new() });
    let b = block_on(ComputationFuture { inner: Computation::new() });
    assert_eq!(a, 13);
    assert_eq!(b, 13);
}
