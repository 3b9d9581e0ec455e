use vstd::prelude::*;

use crate::error::IcpError;

verus! {

/// What validation needs to know of a registration request. The comparisons of
/// the thresholds with the scalar type's machine epsilon are made by the
/// caller, who holds the floating-point values; `None` for the absolute
/// threshold means that none is configured.
#[derive(Debug, Clone, Copy, PartialEq, Eq, Structural)]
pub struct RegistrationRequest {
    pub source_len: usize,
    pub target_len: usize,
    pub max_iterations: usize,
    pub interval_threshold_above_epsilon: bool,
    pub absolute_threshold_above_epsilon: Option<bool>,
}

/// The first check that the request fails, in the fixed order source-empty,
/// target-empty, iteration budget, interval threshold, absolute threshold.
pub open spec fn first_violation(r: RegistrationRequest) -> Option<IcpError> {
    if r.source_len == 0 {
        Some(IcpError::EmptySourceCloud)
    } else if r.target_len == 0 {
        Some(IcpError::EmptyTargetCloud)
    } else if r.max_iterations == 0 {
        Some(IcpError::InvalidIterationBudget)
    } else if !r.interval_threshold_above_epsilon {
        Some(IcpError::IntervalThresholdTooLow)
    } else if r.absolute_threshold_above_epsilon == Some(false) {
        Some(IcpError::AbsoluteThresholdTooLow)
    } else {
        None
    }
}

/// The two termination tests of one iteration, evaluated on its new error
/// metric: whether it lies below the absolute threshold (`None` when no
/// absolute threshold is configured), and whether it differs from the
/// previous iteration's metric by less than the interval threshold.
#[derive(Debug, Clone, Copy, PartialEq, Eq, Structural)]
pub struct IterationVerdict {
    pub below_absolute: Option<bool>,
    pub within_interval: bool,
}

pub open spec fn verdict_converges(v: IterationVerdict) -> bool {
    v.below_absolute == Some(true) || v.within_interval
}

/// Whether an iteration with this verdict ends the registration successfully.
pub fn converges(v: &IterationVerdict) -> (r: bool)
    ensures
        r == verdict_converges(*v),
{
    let absolute = match v.below_absolute {
        Some(b) => b,
        None => false,
    };
    absolute || v.within_interval
}

#[derive(Debug, Clone, Copy, PartialEq, Eq, Structural)]
pub enum LoopState {
    /// The iteration with this 0-based index runs next.
    Iterating { iteration: usize },
    /// The iteration with this index met a termination test.
    Converged { iteration_num: usize },
    /// The budget ran out without convergence.
    Exhausted,
}

/// The convergence loop: the accumulated transform and the error metrics are
/// floating-point state kept by the caller; this records how far the loop has
/// come and decides, after each iteration, whether it goes on.
#[derive(Debug, Clone, Copy, PartialEq, Eq, Structural)]
pub struct ConvergenceLoop {
    pub max_iterations: usize,
    pub state: LoopState,
}

pub open spec fn fresh_loop(max_iterations: usize) -> ConvergenceLoop {
    ConvergenceLoop { max_iterations, state: LoopState::Iterating { iteration: 0 } }
}

/// The loop after one more iteration with verdict `v`; a finished loop stays
/// as it is.
pub open spec fn advance(l: ConvergenceLoop, v: IterationVerdict) -> ConvergenceLoop {
    match l.state {
        LoopState::Iterating { iteration } => {
            if verdict_converges(v) {
                ConvergenceLoop { state: LoopState::Converged { iteration_num: iteration }, ..l }
            } else if iteration + 1 < l.max_iterations {
                ConvergenceLoop { state: LoopState::Iterating { iteration: (iteration + 1) as usize }, ..l }
            } else {
                ConvergenceLoop { state: LoopState::Exhausted, ..l }
            }
        },
        _ => l,
    }
}

/// What the registration returns once the loop has finished: the index of
/// the converging iteration, or the failure to converge.
pub open spec fn outcome_of(l: ConvergenceLoop) -> Option<Result<usize, IcpError>> {
    match l.state {
        LoopState::Iterating { .. } => None,
        LoopState::Converged { iteration_num } => Some(Ok(iteration_num)),
        LoopState::Exhausted => Some(Err(IcpError::DidNotConverge)),
    }
}

/// The loop after the verdicts `vs`, one per iteration, in order.
pub open spec fn drive(l: ConvergenceLoop, vs: Seq<IterationVerdict>) -> ConvergenceLoop
    decreases vs.len(),
{
    if vs.len() == 0 {
        l
    } else {
        drive(advance(l, vs[0]), vs.drop_first())
    }
}

/// Iteration `k` is the first among the verdicts that converges.
pub open spec fn first_converging(vs: Seq<IterationVerdict>, k: int) -> bool {
    &&& 0 <= k < vs.len()
    &&& verdict_converges(vs[k])
    &&& forall|j: int| 0 <= j < k ==> !verdict_converges(#[trigger] vs[j])
}

proof fn lemma_drive_finished(l: ConvergenceLoop, vs: Seq<IterationVerdict>)
    requires
        !(l.state is Iterating),
    ensures
        drive(l, vs) == l,
    decreases vs.len(),
{
    if vs.len() > 0 {
        lemma_drive_finished(advance(l, vs[0]), vs.drop_first());
    }
}

proof fn lemma_drive_from(l: ConvergenceLoop, vs: Seq<IterationVerdict>)
    requires
        l.wf(),
        l.state is Iterating,
        vs.len() >= l.max_iterations - l.state->iteration,
    ensures
        forall|k: int|
            first_converging(vs, k) && k < l.max_iterations - l.state->iteration ==> drive(l, vs).state
                == (LoopState::Converged { iteration_num: (l.state->iteration + k) as usize }),
        (forall|j: int|
            0 <= j < l.max_iterations - l.state->iteration ==> !verdict_converges(#[trigger] vs[j]))
            ==> drive(l, vs).state == LoopState::Exhausted,
    decreases vs.len(),
{
    let i = l.state->iteration;
    let next = advance(l, vs[0]);
    let rest = vs.drop_first();
    if verdict_converges(vs[0]) {
        lemma_drive_finished(next, rest);
        assert forall|k: int| first_converging(vs, k) implies k == 0 by {
            if k > 0 {
                assert(!verdict_converges(vs[0]));
            }
        }
    } else if i + 1 < l.max_iterations {
        lemma_drive_from(next, rest);
        assert forall|k: int|
            first_converging(vs, k) && k < l.max_iterations - i implies drive(l, vs).state
                == (LoopState::Converged { iteration_num: (i + k) as usize }) by {
            assert(k != 0);
            assert(first_converging(rest, k - 1)) by {
                assert forall|j: int| 0 <= j < k - 1 implies !verdict_converges(#[trigger] rest[j]) by {
                    assert(rest[j] == vs[j + 1]);
                }
            }
        }
        if forall|j: int| 0 <= j < l.max_iterations - i ==> !verdict_converges(#[trigger] vs[j]) {
            assert forall|j: int| 0 <= j < l.max_iterations - (i + 1) implies !verdict_converges(
                #[trigger] rest[j],
            ) by {
                assert(rest[j] == vs[j + 1]);
            }
        }
    } else {
        lemma_drive_finished(next, rest);
        assert forall|k: int| first_converging(vs, k) implies k >= l.max_iterations - i by {
            if k == 0 {
                assert(verdict_converges(vs[0]));
            }
        }
    }
}

/// Termination of the convergence loop: fed one verdict per iteration, a loop
/// with budget `max_iterations` converges at the first iteration whose
/// verdict meets a termination test, provided it lies within the budget, and
/// otherwise fails with `DidNotConverge` after exactly `max_iterations`
/// iterations.
pub proof fn lemma_loop_outcome(max_iterations: usize, vs: Seq<IterationVerdict>)
    requires
        max_iterations >= 1,
        vs.len() >= max_iterations,
    ensures
        forall|k: int|
            first_converging(vs, k) && k < max_iterations ==> outcome_of(
                drive(fresh_loop(max_iterations), vs),
            ) == Some(Ok::<usize, IcpError>(k as usize)),
        (forall|j: int| 0 <= j < max_iterations ==> !verdict_converges(#[trigger] vs[j])) ==> outcome_of(
            drive(fresh_loop(max_iterations), vs),
        ) == Some(Err::<usize, IcpError>(IcpError::DidNotConverge)),
{
    lemma_drive_from(fresh_loop(max_iterations), vs);
}

impl ConvergenceLoop {
    pub open spec fn wf(&self) -> bool {
        &&& self.max_iterations >= 1
        &&& match self.state {
            LoopState::Iterating { iteration } => iteration < self.max_iterations,
            LoopState::Converged { iteration_num } => iteration_num < self.max_iterations,
            LoopState::Exhausted => true,
        }
    }

    /// Runs the checks of a request in their fixed order; the first that fails
    /// is the error. A valid request starts a loop at iteration 0.
    pub fn validate(req: &RegistrationRequest) -> (r: Result<ConvergenceLoop, IcpError>)
        ensures
            match first_violation(*req) {
                Some(e) => r == Err::<ConvergenceLoop, IcpError>(e),
                None => r == Ok::<ConvergenceLoop, IcpError>(fresh_loop(req.max_iterations)),
            },
            r is Ok ==> r->Ok_0.wf(),
    {
        if req.source_len == 0 {
            return Err(IcpError::EmptySourceCloud);
        }
        if req.target_len == 0 {
            return Err(IcpError::EmptyTargetCloud);
        }
        if req.max_iterations == 0 {
            return Err(IcpError::InvalidIterationBudget);
        }
        if !req.interval_threshold_above_epsilon {
            return Err(IcpError::IntervalThresholdTooLow);
        }
        if req.absolute_threshold_above_epsilon == Some(false) {
            return Err(IcpError::AbsoluteThresholdTooLow);
        }
        Ok(ConvergenceLoop {
            max_iterations: req.max_iterations,
            state: LoopState::Iterating { iteration: 0 },
        })
    }

    /// Records the verdict of the iteration that just ran.
    pub fn record(&mut self, v: IterationVerdict)
        requires
            old(self).wf(),
        ensures
            *final(self) == advance(*old(self), v),
            final(self).wf(),
    {
        match self.state {
            LoopState::Iterating { iteration } => {
                if converges(&v) {
                    self.state = LoopState::Converged { iteration_num: iteration };
                } else if iteration + 1 < self.max_iterations {
                    self.state = LoopState::Iterating { iteration: iteration + 1 };
                } else {
                    self.state = LoopState::Exhausted;
                }
            },
            _ => {},
        }
    }

    /// `None` while iterations remain to run; then the converging iteration's
    /// index, or the failure to converge.
    pub fn outcome(&self) -> (r: Option<Result<usize, IcpError>>)
        ensures
            r == outcome_of(*self),
    {
        match self.state {
            LoopState::Iterating { .. } => None,
            LoopState::Converged { iteration_num } => Some(Ok(iteration_num)),
            LoopState::Exhausted => Some(Err(IcpError::DidNotConverge)),
        }
    }
}

} // verus!
