//! The outer iteration of the Method of Ellipcenters as a state machine.

use vstd::prelude::*;

verus! {

/// The iteration limit of the default configuration.
pub const DEFAULT_MAX_ITERS: usize = 1000;

/// Reasons the solver stops.
#[derive(Debug, Clone, Copy, PartialEq, Eq, Structural)]
pub enum StopReason {
    GradNormBelowTol,
    MaxItersReached,
    LineSearchFailure,
    NumericalIssue,
}

/// Errors that end a run without a result.
#[derive(Debug, Clone, Copy, PartialEq, Eq, Structural)]
pub enum EllipCentersError {
    /// The gradient has another length than the initial point.
    DimMismatch,
}

/// What the objective offers for the closed-form step `t_k = 2‖g‖² / (gᵀ A g)`.
#[derive(Debug, Clone, Copy, PartialEq, Eq, Structural)]
pub enum Curvature {
    /// The objective gives no Hessian-vector product.
    Unavailable,
    /// It gives `A g`, but `gᵀ A g` is zero (or not a number): the closed form cannot be used.
    Degenerate,
    /// It gives `A g` and `|gᵀ A g| > 0`.
    Usable,
}

/// How the gradients at `x_k` and `y_k` are placed.
#[derive(Debug, Clone, Copy, PartialEq, Eq, Structural)]
pub enum Alignment {
    /// One of the gradients is (near) zero, so they have no angle.
    Degenerate,
    /// `1 - |cos θ| <= collinear_eps`.
    Collinear,
    /// Neither: they span a plane.
    Transverse,
}

/// Where the step size `t_k` comes from.
#[derive(Debug, Clone, Copy, PartialEq, Eq, Structural)]
pub enum StepRule {
    /// `t_k = 2‖g‖² / (gᵀ A g)`.
    ClosedForm,
    /// The `t_k` that the level-set search returned.
    LevelSet,
}

/// What the caller reports to the solver.
#[derive(Debug, Clone, Copy, PartialEq, Eq, Structural)]
pub enum SolverEvent {
    /// The gradient at the current iterate has been evaluated; `within_tol` is
    /// `‖g‖₂ <= tol_grad`.
    Gradient { within_tol: bool },
    /// The outcome of [`SolverAction::InspectCurvature`].
    Curvature(Curvature),
    /// The outcome of [`SolverAction::SearchStepSize`].
    LineSearch { found: bool },
    /// The outcome of [`SolverAction::EvaluateTrialPoint`].
    Alignment(Alignment),
    /// The outcome of [`SolverAction::SolveCenter`]: whether `|det| > det_eps`.
    CenterSystem { solvable: bool },
}

/// What the caller does next.
#[derive(Debug, Clone, Copy, PartialEq, Eq, Structural)]
pub enum SolverAction {
    /// Ask the objective for `A g` and compute `gᵀ A g`; report [`SolverEvent::Curvature`].
    InspectCurvature,
    /// Run the level-set search for `t_k`; report [`SolverEvent::LineSearch`].
    SearchStepSize,
    /// Set `y = x - t_k g` with `t_k` by the rule, evaluate the gradient at `y`, and report
    /// [`SolverEvent::Alignment`].
    EvaluateTrialPoint(StepRule),
    /// Solve the 2×2 system for `(α, β)`; report [`SolverEvent::CenterSystem`].
    SolveCenter,
    /// `x := (x + y) / 2`, evaluate value and gradient there; report [`SolverEvent::Gradient`].
    MoveToMidpoint,
    /// `x := x + α g_x + β g_y`, evaluate value and gradient there; report
    /// [`SolverEvent::Gradient`].
    MoveToCenter,
    /// Return the current iterate with this stop reason and iteration count.
    Stop { reason: StopReason, iters: usize },
}

impl SolverAction {
    /// The action asks for one evaluation of the gradient.
    pub open spec fn evaluates_gradient(self) -> bool {
        self is EvaluateTrialPoint || self is MoveToMidpoint || self is MoveToCenter
    }

    /// The action moves to the next iterate.
    pub open spec fn advances(self) -> bool {
        self is MoveToMidpoint || self is MoveToCenter
    }

    /// The action ends the run.
    pub open spec fn ends_run(self) -> bool {
        self is Stop
    }
}

/// The stage of an iteration.
#[derive(Debug, Clone, Copy, PartialEq, Eq, Structural)]
pub enum SolverPhase {
    AwaitGradient,
    AwaitCurvature,
    AwaitLineSearch,
    AwaitAlignment,
    AwaitCenter,
    Finished,
}

/// The mathematical state of a run.
pub struct SolverModel {
    pub max_iters: usize,
    /// Index `k` of the current iterate `x_k`.
    pub iter: nat,
    pub phase: SolverPhase,
    /// Gradient evaluations asked for so far, the one at `x_0` included.
    pub gradient_evals: nat,
}

impl SolverModel {
    /// The state once the value and gradient at `x_0` are known.
    pub open spec fn initial(max_iters: usize) -> SolverModel {
        SolverModel { max_iters, iter: 0, phase: SolverPhase::AwaitGradient, gradient_evals: 1 }
    }

    /// The trial gradient of the current iteration has been asked for.
    pub open spec fn trial_evaluated(self) -> bool {
        self.phase is AwaitAlignment || self.phase is AwaitCenter
    }

    /// The invariant that every reachable state keeps.
    pub open spec fn wf(self) -> bool {
        &&& self.iter <= self.max_iters
        &&& !(self.phase is AwaitGradient || self.phase is Finished) ==> self.iter < self.max_iters
        &&& self.gradient_evals == 1 + 2 * self.iter + (if self.trial_evaluated() { 1int } else { 0int })
    }

    /// The event that the run waits for in this state.
    pub open spec fn accepts(self, event: SolverEvent) -> bool {
        match self.phase {
            SolverPhase::AwaitGradient => event is Gradient,
            SolverPhase::AwaitCurvature => event is Curvature,
            SolverPhase::AwaitLineSearch => event is LineSearch,
            SolverPhase::AwaitAlignment => event is Alignment,
            SolverPhase::AwaitCenter => event is CenterSystem,
            SolverPhase::Finished => false,
        }
    }

    /// An upper bound on the events still to come: at most five per remaining iteration and
    /// one for the last gradient.
    pub open spec fn events_left(self) -> nat {
        let rest = 5 * (self.max_iters - self.iter);
        (match self.phase {
            SolverPhase::AwaitGradient => rest + 1,
            SolverPhase::AwaitCurvature => rest,
            SolverPhase::AwaitLineSearch => rest - 1,
            SolverPhase::AwaitAlignment => rest - 2,
            SolverPhase::AwaitCenter => rest - 3,
            SolverPhase::Finished => 0,
        }) as nat
    }

    pub open spec fn with_phase(self, phase: SolverPhase) -> SolverModel {
        SolverModel { phase, ..self }
    }

    /// Asks for the gradient at the trial point `y_k`.
    pub open spec fn to_trial(self, rule: StepRule) -> (SolverModel, SolverAction) {
        (
            SolverModel {
                phase: SolverPhase::AwaitAlignment,
                gradient_evals: self.gradient_evals + 1,
                ..self
            },
            SolverAction::EvaluateTrialPoint(rule),
        )
    }

    /// Moves to `x_{k+1}` and asks for the gradient there.
    pub open spec fn advance(self, action: SolverAction) -> (SolverModel, SolverAction) {
        (
            SolverModel {
                phase: SolverPhase::AwaitGradient,
                iter: self.iter + 1,
                gradient_evals: self.gradient_evals + 1,
                ..self
            },
            action,
        )
    }

    /// Ends the run with a stop reason.
    pub open spec fn stop(self, reason: StopReason) -> (SolverModel, SolverAction) {
        (
            self.with_phase(SolverPhase::Finished),
            SolverAction::Stop { reason, iters: self.iter as usize },
        )
    }

    /// The transition: the next state and the action for an event.
    pub open spec fn step(self, event: SolverEvent) -> (SolverModel, SolverAction) {
        match event {
            SolverEvent::Gradient { within_tol } => {
                if self.iter == self.max_iters {
                    self.stop(StopReason::MaxItersReached)
                } else if within_tol {
                    self.stop(StopReason::GradNormBelowTol)
                } else {
                    (self.with_phase(SolverPhase::AwaitCurvature), SolverAction::InspectCurvature)
                }
            },
            SolverEvent::Curvature(c) => match c {
                Curvature::Usable => self.to_trial(StepRule::ClosedForm),
                _ => (self.with_phase(SolverPhase::AwaitLineSearch), SolverAction::SearchStepSize),
            },
            SolverEvent::LineSearch { found } => {
                if found {
                    self.to_trial(StepRule::LevelSet)
                } else {
                    self.stop(StopReason::LineSearchFailure)
                }
            },
            SolverEvent::Alignment(a) => match a {
                Alignment::Transverse => (
                    self.with_phase(SolverPhase::AwaitCenter),
                    SolverAction::SolveCenter,
                ),
                _ => self.advance(SolverAction::MoveToMidpoint),
            },
            SolverEvent::CenterSystem { solvable } => {
                if solvable {
                    self.advance(SolverAction::MoveToCenter)
                } else {
                    self.advance(SolverAction::MoveToMidpoint)
                }
            },
        }
    }
}

/// Whether an action sequence reaches the iteration limit.
pub open spec fn reaches_limit(actions: Seq<SolverAction>) -> bool {
    exists|i: int|
        0 <= i < actions.len() && #[trigger] actions[i] matches SolverAction::Stop {
            reason: StopReason::MaxItersReached,
            ..
        }
}

impl SolverModel {
    /// The actions given for a sequence of events, up to the first event that the run does not
    /// accept (after a stop, none is accepted).
    pub open spec fn trace(self, events: Seq<SolverEvent>) -> Seq<SolverAction>
        decreases events.len(),
    {
        if events.len() == 0 || !self.accepts(events[0]) {
            Seq::empty()
        } else {
            let (next, action) = self.step(events[0]);
            seq![action] + next.trace(events.drop_first())
        }
    }

    /// This state under another iteration limit.
    pub open spec fn with_limit(self, max_iters: usize) -> SolverModel {
        SolverModel { max_iters, ..self }
    }
}

/// A running Ellipcenters iteration.
pub struct SolverRun {
    max_iters: usize,
    iter: usize,
    phase: SolverPhase,
    gradient_evals: Ghost<nat>,
}

impl View for SolverRun {
    type V = SolverModel;

    closed spec fn view(&self) -> SolverModel {
        SolverModel {
            max_iters: self.max_iters,
            iter: self.iter as nat,
            phase: self.phase,
            gradient_evals: self.gradient_evals@,
        }
    }
}

impl SolverRun {
    /// Every run is in a reachable state.
    #[verifier::type_invariant]
    spec fn reachable(self) -> bool {
        self@.wf()
    }

    /// Starts a run once the value and gradient at `x_0` are known: refuses a gradient whose
    /// length differs from that of `x_0`. This is the only place where the error arises.
    pub fn start(max_iters: usize, x_len: usize, grad_len: usize) -> (r: Result<
        SolverRun,
        EllipCentersError,
    >)
        ensures
            match r {
                Ok(run) => x_len == grad_len && run@ == SolverModel::initial(max_iters)
                    && run@.wf(),
                Err(e) => x_len != grad_len && e == EllipCentersError::DimMismatch,
            },
    {
        if x_len != grad_len {
            return Err(EllipCentersError::DimMismatch);
        }
        Ok(SolverRun { max_iters, iter: 0, phase: SolverPhase::AwaitGradient, gradient_evals: Ghost(1) })
    }

    /// Index `k` of the current iterate.
    pub fn iterations(&self) -> (k: usize)
        ensures
            k == self@.iter,
    {
        self.iter
    }

    /// The iteration limit.
    pub fn max_iters(&self) -> (n: usize)
        ensures
            n == self@.max_iters,
    {
        self.max_iters
    }

    /// Whether a stop action has been given.
    pub fn is_finished(&self) -> (b: bool)
        ensures
            b == (self@.phase is Finished),
    {
        match self.phase {
            SolverPhase::Finished => true,
            _ => false,
        }
    }

    /// Whether the run waits for this kind of event.
    pub fn accepts(&self, event: SolverEvent) -> (b: bool)
        ensures
            b == self@.accepts(event),
    {
        match (self.phase, event) {
            (SolverPhase::AwaitGradient, SolverEvent::Gradient { .. }) => true,
            (SolverPhase::AwaitCurvature, SolverEvent::Curvature(_)) => true,
            (SolverPhase::AwaitLineSearch, SolverEvent::LineSearch { .. }) => true,
            (SolverPhase::AwaitAlignment, SolverEvent::Alignment(_)) => true,
            (SolverPhase::AwaitCenter, SolverEvent::CenterSystem { .. }) => true,
            _ => false,
        }
    }

    /// Takes the reported outcome and gives the next action.
    pub fn observe(&mut self, event: SolverEvent) -> (action: SolverAction)
        requires
            old(self)@.accepts(event),
        ensures
            (final(self)@, action) == old(self)@.step(event),
            final(self)@.wf(),
            final(self)@.max_iters == old(self)@.max_iters,
            // the run moves on: it ends, or fewer events are left
            action.ends_run() <==> final(self)@.phase is Finished,
            !action.ends_run() ==> final(self)@.events_left() < old(self)@.events_left(),
            // the iterate index grows by one exactly on a move
            action.advances() ==> final(self)@.iter == old(self)@.iter + 1,
            !action.advances() ==> final(self)@.iter == old(self)@.iter,
            // each action that evaluates the gradient is counted
            final(self)@.gradient_evals == old(self)@.gradient_evals + (if action.evaluates_gradient() {
                1int
            } else {
                0int
            }),
            // stop reasons
            action matches SolverAction::Stop { reason, iters } ==> iters == old(self)@.iter
                && iters <= old(self)@.max_iters && reason != StopReason::NumericalIssue,
            action == (SolverAction::Stop {
                reason: StopReason::MaxItersReached,
                iters: old(self)@.max_iters,
            }) <==> (old(self)@.phase is AwaitGradient && old(self)@.iter == old(self)@.max_iters),
            action matches SolverAction::Stop { reason: StopReason::GradNormBelowTol, .. } <==> (
            old(self)@.phase is AwaitGradient && old(self)@.iter < old(self)@.max_iters && event
                == (SolverEvent::Gradient { within_tol: true })),
            // a failed level-set search stops the run, whether it stood in for a degenerate
            // closed-form step or was the only way to a step size
            action matches SolverAction::Stop { reason: StopReason::LineSearchFailure, .. } <==> (
            event == (SolverEvent::LineSearch { found: false })),
            // the midpoint is the fallback when the gradients are collinear or the system is
            // singular
            (event == SolverEvent::Alignment(Alignment::Degenerate) || event
                == SolverEvent::Alignment(Alignment::Collinear) || event == (
            SolverEvent::CenterSystem { solvable: false })) ==> action
                == SolverAction::MoveToMidpoint,
            action == SolverAction::MoveToCenter ==> event == (SolverEvent::CenterSystem {
                solvable: true,
            }),
    {
        proof {
            use_type_invariant(&*self);
        }
        let max_iters = self.max_iters;
        let iter = self.iter;
        let evals = self.gradient_evals;
        match event {
            SolverEvent::Gradient { within_tol } => {
                if iter == max_iters {
                    self.phase = SolverPhase::Finished;
                    SolverAction::Stop { reason: StopReason::MaxItersReached, iters: iter }
                } else if within_tol {
                    self.phase = SolverPhase::Finished;
                    SolverAction::Stop { reason: StopReason::GradNormBelowTol, iters: iter }
                } else {
                    self.phase = SolverPhase::AwaitCurvature;
                    SolverAction::InspectCurvature
                }
            },
            SolverEvent::Curvature(c) => match c {
                Curvature::Usable => {
                    *self = SolverRun {
                        max_iters,
                        iter,
                        phase: SolverPhase::AwaitAlignment,
                        gradient_evals: Ghost(evals@ + 1),
                    };
                    SolverAction::EvaluateTrialPoint(StepRule::ClosedForm)
                },
                _ => {
                    self.phase = SolverPhase::AwaitLineSearch;
                    SolverAction::SearchStepSize
                },
            },
            SolverEvent::LineSearch { found } => {
                if found {
                    *self = SolverRun {
                        max_iters,
                        iter,
                        phase: SolverPhase::AwaitAlignment,
                        gradient_evals: Ghost(evals@ + 1),
                    };
                    SolverAction::EvaluateTrialPoint(StepRule::LevelSet)
                } else {
                    self.phase = SolverPhase::Finished;
                    SolverAction::Stop { reason: StopReason::LineSearchFailure, iters: iter }
                }
            },
            SolverEvent::Alignment(a) => match a {
                Alignment::Transverse => {
                    self.phase = SolverPhase::AwaitCenter;
                    SolverAction::SolveCenter
                },
                _ => {
                    *self = SolverRun {
                        max_iters,
                        iter: iter + 1,
                        phase: SolverPhase::AwaitGradient,
                        gradient_evals: Ghost(evals@ + 1),
                    };
                    SolverAction::MoveToMidpoint
                },
            },
            SolverEvent::CenterSystem { solvable } => {
                *self = SolverRun {
                    max_iters,
                    iter: iter + 1,
                    phase: SolverPhase::AwaitGradient,
                    gradient_evals: Ghost(evals@ + 1),
                };
                if solvable {
                    SolverAction::MoveToCenter
                } else {
                    SolverAction::MoveToMidpoint
                }
            },
        }
    }
}

/// Every run stops: each accepted event either ends the run or leaves fewer events to come,
/// and a fresh run has at most `5 * max_iters + 1` events to come.
pub proof fn lemma_run_progress(m: SolverModel, event: SolverEvent)
    requires
        m.wf(),
        m.accepts(event),
    ensures
        m.step(event).0.wf(),
        m.step(event).0.phase is Finished || m.step(event).0.events_left() < m.events_left(),
        SolverModel::initial(m.max_iters).events_left() == 5 * m.max_iters + 1,
{
}

/// Each iteration evaluates the gradient twice (at the trial point and at the next iterate):
/// a run that ends after `k` iterations has evaluated the gradient `2k + 1` times, the
/// evaluation at `x_0` included, and `k` never exceeds `max_iters`.
pub proof fn lemma_gradient_cost(m: SolverModel)
    requires
        m.wf(),
        m.phase is Finished,
    ensures
        m.gradient_evals == 2 * m.iter + 1,
        m.iter <= m.max_iters,
{
}

/// A run never reports `NumericalIssue`: no transition stops with it.
pub proof fn lemma_no_numerical_issue(m: SolverModel, event: SolverEvent)
    requires
        m.wf(),
        m.accepts(event),
    ensures
        !(m.step(event).1 matches SolverAction::Stop { reason: StopReason::NumericalIssue, .. }),
{
}

/// A larger iteration limit changes nothing in a run that does not reach the smaller one:
/// from the same state, under the limits `m.max_iters <= max_iters`, the same events give
/// the same actions, as long as the run under the smaller limit does not stop with
/// `MaxItersReached`.
pub proof fn lemma_larger_limit_same_run(m: SolverModel, max_iters: usize, events: Seq<SolverEvent>)
    requires
        m.wf(),
        m.max_iters <= max_iters,
        !reaches_limit(m.trace(events)),
    ensures
        m.with_limit(max_iters).trace(events) == m.trace(events),
    decreases events.len(),
{
    let m2 = m.with_limit(max_iters);
    if events.len() == 0 || !m.accepts(events[0]) {
        assert(m2.accepts(events[0]) == m.accepts(events[0]));
    } else {
        let e = events[0];
        let (next, action) = m.step(e);
        let rest = events.drop_first();
        let t = m.trace(events);
        assert(t == seq![action] + next.trace(rest));
        assert(t[0] == action);
        assert(!(action matches SolverAction::Stop { reason: StopReason::MaxItersReached, .. }));
        assert(m2.step(e) == (next.with_limit(max_iters), action));
        lemma_run_progress(m, e);
        assert forall|i: int| 0 <= i < next.trace(rest).len() implies !(#[trigger] next.trace(
            rest,
        )[i] matches SolverAction::Stop { reason: StopReason::MaxItersReached, .. }) by {
            assert(t[i + 1] == next.trace(rest)[i]);
        }
        lemma_larger_limit_same_run(next, max_iters, rest);
    }
}

/// Runs that start alike under the limits `m1 <= m2` take the same actions on the same
/// events unless the first run stops with `MaxItersReached`.
pub proof fn lemma_larger_limit_same_start(m1: usize, m2: usize, events: Seq<SolverEvent>)
    requires
        m1 <= m2,
        !reaches_limit(SolverModel::initial(m1).trace(events)),
    ensures
        SolverModel::initial(m2).trace(events) == SolverModel::initial(m1).trace(events),
{
    assert(SolverModel::initial(m1).with_limit(m2) == SolverModel::initial(m2));
    lemma_larger_limit_same_run(SolverModel::initial(m1), m2, events);
}

/// The gradient test at the start of an iteration: below the configured limit, a gradient
/// within the tolerance stops the run with `GradNormBelowTol`, and any other gradient goes on
/// to the step size of the same iteration; at the configured limit the run stops with
/// `MaxItersReached`, whatever the gradient. No other event stops with `MaxItersReached`.
pub proof fn lemma_gradient_test(m: SolverModel, event: SolverEvent)
    requires
        m.wf(),
        m.accepts(event),
    ensures
        m.step(event).1 matches SolverAction::Stop { reason: StopReason::MaxItersReached, .. }
            ==> m.iter == m.max_iters && event is Gradient,
        (m.phase is AwaitGradient && m.iter < m.max_iters && event == (SolverEvent::Gradient {
            within_tol: false,
        })) ==> m.step(event).1 == SolverAction::InspectCurvature && m.step(event).0.iter
            == m.iter && m.step(event).0.phase is AwaitCurvature,
        (m.phase is AwaitGradient && m.iter < m.max_iters && event == (SolverEvent::Gradient {
            within_tol: true,
        })) ==> m.step(event).1 == (SolverAction::Stop {
            reason: StopReason::GradNormBelowTol,
            iters: m.iter as usize,
        }),
        (m.phase is AwaitGradient && m.iter == m.max_iters) ==> m.step(event).1 == (
        SolverAction::Stop { reason: StopReason::MaxItersReached, iters: m.max_iters }),
{
}

/// The step size rule, at every iteration: a usable `gᵀ A g` gives the closed-form step, and
/// an objective without a Hessian product, or with a degenerate one, gives the level-set
/// search. The closed form is used only on a usable curvature, and the level-set step only on
/// a search that found `t_k`.
pub proof fn lemma_step_size_rule(m: SolverModel, event: SolverEvent)
    requires
        m.wf(),
        m.accepts(event),
    ensures
        event == SolverEvent::Curvature(Curvature::Usable) ==> m.step(event).1
            == SolverAction::EvaluateTrialPoint(StepRule::ClosedForm),
        (event == SolverEvent::Curvature(Curvature::Unavailable) || event == SolverEvent::Curvature(
            Curvature::Degenerate,
        )) ==> m.step(event).1 == SolverAction::SearchStepSize && m.step(event).0.phase
            is AwaitLineSearch,
        event == (SolverEvent::LineSearch { found: true }) ==> m.step(event).1
            == SolverAction::EvaluateTrialPoint(StepRule::LevelSet),
        m.step(event).1 == SolverAction::EvaluateTrialPoint(StepRule::ClosedForm) ==> event
            == SolverEvent::Curvature(Curvature::Usable),
        m.step(event).1 == SolverAction::EvaluateTrialPoint(StepRule::LevelSet) ==> event == (
        SolverEvent::LineSearch { found: true }),
        m.step(event).1 is EvaluateTrialPoint ==> m.step(event).0.phase is AwaitAlignment
            && m.step(event).0.iter == m.iter,
{
}

/// The move at the end of an iteration, at every iteration: gradients that span a plane lead
/// to the 2×2 system; a solvable system moves to the ellipse center and a singular one, like
/// collinear or vanishing gradients, to the midpoint. Either move goes to the next iterate.
pub proof fn lemma_iteration_move(m: SolverModel, event: SolverEvent)
    requires
        m.wf(),
        m.accepts(event),
    ensures
        event == SolverEvent::Alignment(Alignment::Transverse) ==> m.step(event).1
            == SolverAction::SolveCenter && m.step(event).0.phase is AwaitCenter,
        event == (SolverEvent::CenterSystem { solvable: true }) ==> m.step(event).1
            == SolverAction::MoveToCenter,
        (event == (SolverEvent::CenterSystem { solvable: false }) || event == SolverEvent::Alignment(
            Alignment::Collinear,
        ) || event == SolverEvent::Alignment(Alignment::Degenerate)) ==> m.step(event).1
            == SolverAction::MoveToMidpoint,
        m.step(event).1.advances() ==> m.step(event).0.iter == m.iter + 1 && m.step(event).0.phase
            is AwaitGradient,
        m.step(event).1 == SolverAction::MoveToCenter ==> event == (SolverEvent::CenterSystem {
            solvable: true,
        }),
{
}

} // verus!
