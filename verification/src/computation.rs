use vstd::prelude::*;

verus! {

/// The value the computation starts from.
pub const INITIAL_VALUE: i32 = 1;

/// Added to the initial value before the suspension point.
pub const FIRST_INCREMENT: i32 = 2;

/// Added to the intermediate value after resumption.
pub const SECOND_INCREMENT: i32 = 10;

/// The value carried by the already-resolved dependency awaited at the
/// suspension point. It is discarded on resumption; only the suspension
/// itself is observable.
pub const DEPENDENCY_VALUE: i32 = 42;

/// The intermediate value held while the computation is suspended.
pub open spec fn intermediate_value() -> int {
    INITIAL_VALUE + FIRST_INCREMENT
}

/// The result of the fixed arithmetic sequence: what every completed run
/// returns.
pub open spec fn final_value() -> int {
    intermediate_value() + SECOND_INCREMENT
}

/// What one poll reports: the computation suspended, or it finished with its
/// result.
#[derive(Clone, Copy, Debug, PartialEq, Eq, Structural)]
pub enum Step {
    Pending,
    Ready(i32),
}

/// A dependency that is already resolved when it is constructed: polling it
/// never blocks and always hands back the stored value.
pub struct Resolved {
    value: i32,
}

impl Resolved {
    /// The value the dependency was constructed with.
    pub closed spec fn value_spec(self) -> i32 {
        self.value
    }

    pub fn new(value: i32) -> (r: Resolved)
        ensures
            r.value_spec() == value,
    {
        Resolved { value }
    }

    /// Polling an already-resolved dependency always succeeds: it never
    /// reports that the value is not yet available.
    pub fn poll(&self) -> (r: Step)
        ensures
            r == Step::Ready(self.value_spec()),
    {
        Step::Ready(self.value)
    }
}

/// The abstract phase of the computation: not yet begun, parked at the single
/// suspension point holding the intermediate value, or finished with the
/// result.
pub enum Phase {
    Start,
    Suspended { intermediate: int },
    Done { result: int },
}

/// The transition taken by one poll: the first runs the arithmetic before the
/// suspension point, the second runs the remainder. A finished phase does not
/// move: the computation is single-shot, with no path back to the start.
pub open spec fn phase_step(p: Phase) -> Phase {
    match p {
        Phase::Start => Phase::Suspended { intermediate: intermediate_value() },
        Phase::Suspended { intermediate } => Phase::Done {
            result: intermediate + SECOND_INCREMENT,
        },
        Phase::Done { result } => Phase::Done { result },
    }
}

enum State {
    Start,
    Suspended { intermediate: i32, dependency: Resolved },
    Done { result: i32 },
}

/// A single-shot computation with exactly one suspension point, driven by
/// repeated polling. The first poll runs the arithmetic before the suspension
/// point and parks; the second polls the already-resolved dependency, runs
/// the remaining arithmetic, and finishes.
pub struct Computation {
    state: State,
}

impl View for Computation {
    type V = Phase;

    closed spec fn view(&self) -> Phase {
        match self.state {
            State::Start => Phase::Start,
            State::Suspended { intermediate, .. } => Phase::Suspended {
                intermediate: intermediate as int,
            },
            State::Done { result } => Phase::Done { result: result as int },
        }
    }
}

impl Computation {
    /// The states reachable from `new`: the machine only ever parks with the
    /// fixed intermediate value, awaiting the fixed dependency, and only ever
    /// finishes with the fixed result.
    pub closed spec fn wf(self) -> bool {
        match self.state {
            State::Start => true,
            State::Suspended { intermediate, dependency } => {
                &&& intermediate == intermediate_value()
                &&& dependency.value_spec() == DEPENDENCY_VALUE
            },
            State::Done { result } => result == final_value(),
        }
    }

    /// A fresh computation that has not yet begun.
    pub fn new() -> (c: Computation)
        ensures
            c@ is Start,
            c.wf(),
    {
        Computation { state: State::Start }
    }

    /// Whether the computation has reached its terminal state.
    pub fn is_done(&self) -> (r: bool)
        ensures
            r == (self@ is Done),
    {
        matches!(self.state, State::Done { .. })
    }

    /// Advance the computation by one poll. From the start it runs the first
    /// two arithmetic steps, constructs the already-resolved dependency, and
    /// parks at the suspension point. From the suspension point it polls the
    /// dependency, whose value is available at once, discards that value,
    /// runs the remaining arithmetic step, and finishes. A finished
    /// computation is never polled again: it is single-shot.
    pub fn step(&mut self) -> (r: Step)
        requires
            old(self).wf(),
            !(old(self)@ is Done),
        ensures
            final(self).wf(),
            final(self)@ == phase_step(old(self)@),
            old(self)@ is Start ==> r == Step::Pending,
            old(self)@ is Suspended ==> (r matches Step::Ready(v) && v == final(self)@->result),
    {
        match &self.state {
            State::Start => {
                let x = INITIAL_VALUE;
                let y = x + FIRST_INCREMENT;
                self.state = State::Suspended {
                    intermediate: y,
                    dependency: Resolved::new(DEPENDENCY_VALUE),
                };
                Step::Pending
            },
            State::Suspended { intermediate, dependency } => {
                match dependency.poll() {
                    Step::Ready(_) => {
                        let result = *intermediate + SECOND_INCREMENT;
                        self.state = State::Done { result };
                        Step::Ready(result)
                    },
                    Step::Pending => unreached(),
                }
            },
            State::Done { .. } => unreached(),
        }
    }

    /// Drive the computation from its start to its terminal state by
    /// cooperative polling: ask repeatedly whether it is finished, resuming
    /// it otherwise, and return its result once it is.
    pub fn run_to_completion(&mut self) -> (r: i32)
        requires
            old(self).wf(),
            old(self)@ is Start,
        ensures
            final(self).wf(),
            final(self)@ is Done,
            r == final(self)@->result,
            r == final_value(),
    {
        loop
            invariant
                self.wf(),
                !(self@ is Done),
            decreases (if self@ is Start { 2int } else { 1int }),
        {
            match self.step() {
                Step::Pending => {},
                Step::Ready(result) => {
                    return result;
                },
            }
        }
    }
}

/// From the start, the computation suspends exactly once: the first poll
/// parks it, the second completes it, and the completed result is the fixed
/// arithmetic sum.
pub proof fn lemma_suspends_exactly_once(p: Phase)
    requires
        p is Start,
    ensures
        phase_step(p) is Suspended,
        phase_step(phase_step(p)) is Done,
        phase_step(phase_step(p))->result == final_value(),
{
}

/// Independent invocations share no state: any two computations driven from
/// the start complete with equal results, the fixed arithmetic sum.
pub proof fn lemma_invocations_independent(p1: Phase, p2: Phase)
    requires
        p1 is Start,
        p2 is Start,
    ensures
        phase_step(phase_step(p1)) == phase_step(phase_step(p2)),
        phase_step(phase_step(p1))->result == final_value(),
{
}

/// A finished computation is terminal: stepping a completed phase leaves it
/// unchanged, so there is no path back to the start.
pub proof fn lemma_done_is_terminal(p: Phase)
    requires
        p is Done,
    ensures
        phase_step(p) == p,
{
}

} // verus!
