//! Bracket + bisection for the level-set crossing `φ(t) = f(x - t g) - f(x) = 0`.
//!
//! The search starts with a trial step `t_hi = t0` and the lower end `t_lo = 0`. While
//! `φ(t_hi) < 0` it moves `t_lo` up to `t_hi` and grows `t_hi`, at most `max_expand` times.
//! Once `φ(t_hi) >= 0`, it bisects `(t_lo, t_hi)` for at most `max_bisect` steps.
//!
//! [`LevelSetSearch`] makes every decision of that procedure. The caller holds the step sizes
//! and evaluates `φ`; it reports each evaluation as a [`SearchEvent`] and performs the
//! [`SearchAction`] that comes back.

use vstd::prelude::*;

verus! {

/// The integer limits of the level-set search.
#[derive(Debug, Clone, Copy, PartialEq, Eq, Structural)]
pub struct SearchBudget {
    /// Maximum number of expansions while bracketing (must be > 0).
    pub max_expand: usize,
    /// Maximum number of bisection steps.
    pub max_bisect: usize,
}

impl Default for SearchBudget {
    /// 40 expansions and 80 bisection steps.
    fn default() -> (b: Self)
        ensures
            b.max_expand == 40,
            b.max_bisect == 80,
    {
        SearchBudget { max_expand: 40, max_bisect: 80 }
    }
}

/// Where an evaluation of `φ` fell: below zero, exactly zero, above zero, or not a number.
#[derive(Debug, Clone, Copy, PartialEq, Eq, Structural)]
pub enum PhiSign {
    Below,
    Zero,
    Above,
    /// The value is not a number: a numerical issue, on which the search fails.
    NotANumber,
}

/// An evaluation of `φ` reported to the search.
#[derive(Debug, Clone, Copy, PartialEq, Eq, Structural)]
pub enum SearchEvent {
    /// `φ` at the upper end `t_hi` of the bracket.
    Upper(PhiSign),
    /// `φ` at the midpoint of the bracket, and whether the bracket was already no wider than
    /// the tolerance on `t`.
    Midpoint { sign: PhiSign, narrow: bool },
}

impl SearchEvent {
    /// Where the reported value fell.
    pub open spec fn sign_of(self) -> PhiSign {
        match self {
            SearchEvent::Upper(sign) => sign,
            SearchEvent::Midpoint { sign, .. } => sign,
        }
    }
}

/// How to move the bracket `(lo, hi)` with the midpoint probed last.
#[derive(Debug, Clone, Copy, PartialEq, Eq, Structural)]
pub enum BracketUpdate {
    /// Leave both ends where they are.
    KeepBoth,
    /// `lo := mid`.
    LowerToMidpoint,
    /// `hi := mid`.
    UpperToMidpoint,
}

/// Why the search failed.
#[derive(Debug, Clone, Copy, PartialEq, Eq, Structural)]
pub enum SearchFailure {
    /// `φ(t_hi)` was still below zero after `max_expand` expansions.
    NoBracket,
    /// A value of `φ` was not a number.
    NotANumber,
}

/// What the caller does next.
#[derive(Debug, Clone, Copy, PartialEq, Eq, Structural)]
pub enum SearchAction {
    /// `t_lo := t_hi`, `t_hi := growth * t_hi`, then report `φ(t_hi)`.
    ProbeExpanded,
    /// Apply the update, then report `φ` at the midpoint of the bracket.
    ProbeMidpoint(BracketUpdate),
    /// Return `t_hi`: it lies exactly on the level set.
    AcceptUpper,
    /// Return the midpoint probed last.
    AcceptMidpoint,
    /// Apply the update, then return the midpoint of the bracket.
    AcceptCenter(BracketUpdate),
    /// Return an error.
    Fail(SearchFailure),
}

impl SearchAction {
    /// The action asks for another evaluation of `φ`.
    pub open spec fn is_probe(self) -> bool {
        self is ProbeExpanded || self is ProbeMidpoint
    }
}

/// The stage the search is in.
#[derive(Debug, Clone, Copy, PartialEq, Eq, Structural)]
pub enum SearchPhase {
    /// Waiting for `φ(t_hi)`.
    Bracketing,
    /// Waiting for `φ` at a midpoint.
    Bisecting,
    /// An accept or fail action has been given.
    Finished,
}

/// What is known of `φ` at an end of the bracket.
#[derive(Debug, Clone, Copy, PartialEq, Eq, Structural)]
pub enum EndSign {
    /// The end is `t = 0`, where `φ(0) = 0` by definition.
    Origin,
    /// `φ` has been asked for at this end and not reported yet.
    Pending,
    /// `φ` was reported at this end.
    Observed(PhiSign),
}

/// The mathematical state of a search.
pub struct SearchModel {
    pub budget: SearchBudget,
    pub phase: SearchPhase,
    /// Expansions of the upper end so far.
    pub expansions: nat,
    /// Midpoints probed so far.
    pub bisections: nat,
    /// What is known of `φ` at the lower end `lo`.
    pub lower_end: EndSign,
    /// What is known of `φ` at the upper end `hi`.
    pub upper_end: EndSign,
}

impl SearchModel {
    /// The state right after the first probe at `t0` has been asked for.
    pub open spec fn initial(budget: SearchBudget) -> SearchModel {
        SearchModel {
            budget,
            phase: SearchPhase::Bracketing,
            expansions: 0,
            bisections: 0,
            lower_end: EndSign::Origin,
            upper_end: EndSign::Pending,
        }
    }

    /// The lower end is the origin or a point where `φ` was below zero.
    pub open spec fn lower_end_ok(self) -> bool {
        self.lower_end == EndSign::Origin || self.lower_end == EndSign::Observed(PhiSign::Below)
    }

    /// The upper end is a point where `φ` was zero or above zero.
    pub open spec fn upper_end_ok(self) -> bool {
        self.upper_end == EndSign::Observed(PhiSign::Zero) || self.upper_end == EndSign::Observed(
            PhiSign::Above,
        )
    }

    /// The invariant that every reachable state keeps.
    pub open spec fn wf(self) -> bool {
        &&& self.budget.max_expand > 0
        &&& self.expansions <= self.budget.max_expand
        &&& self.bisections <= self.budget.max_bisect
        &&& self.phase is Bracketing ==> self.bisections == 0 && self.upper_end == EndSign::Pending
        &&& self.phase is Bisecting ==> self.bisections >= 1 && self.upper_end_ok()
        &&& self.lower_end_ok()
        &&& self.expansions > 0 ==> self.lower_end == EndSign::Observed(PhiSign::Below)
    }

    /// The event that the search waits for in this state.
    pub open spec fn accepts(self, event: SearchEvent) -> bool {
        match self.phase {
            SearchPhase::Bracketing => event is Upper,
            SearchPhase::Bisecting => event is Midpoint,
            SearchPhase::Finished => false,
        }
    }

    /// Evaluations of `φ` asked for so far, the first one at `t0` included.
    pub open spec fn probes_issued(self) -> nat {
        1 + self.expansions + self.bisections
    }

    /// The most evaluations of `φ` that a search with this budget ever asks for.
    pub open spec fn probe_limit(self) -> nat {
        (1 + self.budget.max_expand + self.budget.max_bisect) as nat
    }

    /// This state, finished.
    pub open spec fn finished(self) -> SearchModel {
        SearchModel { phase: SearchPhase::Finished, ..self }
    }

    /// The bracket is settled: start bisecting, or return its center at once when no
    /// bisection step is allowed.
    pub open spec fn start_bisection(self) -> (SearchModel, SearchAction) {
        if self.budget.max_bisect == 0 {
            (self.finished(), SearchAction::AcceptCenter(BracketUpdate::KeepBoth))
        } else {
            (
                SearchModel { phase: SearchPhase::Bisecting, bisections: 1, ..self },
                SearchAction::ProbeMidpoint(BracketUpdate::KeepBoth),
            )
        }
    }

    /// The transition: the next state and the action for an event.
    pub open spec fn step(self, event: SearchEvent) -> (SearchModel, SearchAction) {
        match event {
            SearchEvent::Upper(sign) => {
                if sign is NotANumber {
                    (self.finished(), SearchAction::Fail(SearchFailure::NotANumber))
                } else if sign is Below {
                    if self.expansions < self.budget.max_expand {
                        (
                            SearchModel {
                                expansions: self.expansions + 1,
                                lower_end: EndSign::Observed(PhiSign::Below),
                                upper_end: EndSign::Pending,
                                ..self
                            },
                            SearchAction::ProbeExpanded,
                        )
                    } else {
                        (self.finished(), SearchAction::Fail(SearchFailure::NoBracket))
                    }
                } else if self.expansions == 0 && sign is Zero {
                    (self.finished(), SearchAction::AcceptUpper)
                } else {
                    SearchModel { upper_end: EndSign::Observed(sign), ..self }.start_bisection()
                }
            },
            SearchEvent::Midpoint { sign, narrow } => {
                if sign is NotANumber {
                    (self.finished(), SearchAction::Fail(SearchFailure::NotANumber))
                } else if sign is Zero || narrow {
                    (self.finished(), SearchAction::AcceptMidpoint)
                } else {
                    let (update, moved) = if sign is Below {
                        (
                            BracketUpdate::LowerToMidpoint,
                            SearchModel { lower_end: EndSign::Observed(PhiSign::Below), ..self },
                        )
                    } else {
                        (
                            BracketUpdate::UpperToMidpoint,
                            SearchModel { upper_end: EndSign::Observed(PhiSign::Above), ..self },
                        )
                    };
                    if self.bisections < self.budget.max_bisect {
                        (
                            SearchModel { bisections: self.bisections + 1, ..moved },
                            SearchAction::ProbeMidpoint(update),
                        )
                    } else {
                        (moved.finished(), SearchAction::AcceptCenter(update))
                    }
                }
            },
        }
    }
}

/// A running level-set search.
pub struct LevelSetSearch {
    budget: SearchBudget,
    phase: SearchPhase,
    expansions: usize,
    bisections: usize,
    lower_end: Ghost<EndSign>,
    upper_end: Ghost<EndSign>,
}

impl View for LevelSetSearch {
    type V = SearchModel;

    closed spec fn view(&self) -> SearchModel {
        SearchModel {
            budget: self.budget,
            phase: self.phase,
            expansions: self.expansions as nat,
            bisections: self.bisections as nat,
            lower_end: self.lower_end@,
            upper_end: self.upper_end@,
        }
    }
}

impl LevelSetSearch {
    /// Every search is in a reachable state.
    #[verifier::type_invariant]
    spec fn reachable(self) -> bool {
        self@.wf()
    }

    /// Starts a search. The caller evaluates `φ(t0)` first and reports it as
    /// [`SearchEvent::Upper`].
    pub fn new(budget: SearchBudget) -> (s: Self)
        requires
            budget.max_expand > 0,
        ensures
            s@ == SearchModel::initial(budget),
            s@.wf(),
    {
        LevelSetSearch {
            budget,
            phase: SearchPhase::Bracketing,
            expansions: 0,
            bisections: 0,
            lower_end: Ghost(EndSign::Origin),
            upper_end: Ghost(EndSign::Pending),
        }
    }

    /// Whether an accept or fail action has been given.
    pub fn is_finished(&self) -> (b: bool)
        ensures
            b == (self@.phase is Finished),
    {
        match self.phase {
            SearchPhase::Finished => true,
            _ => false,
        }
    }

    /// Whether the search waits for this kind of event.
    pub fn accepts(&self, event: SearchEvent) -> (b: bool)
        ensures
            b == self@.accepts(event),
    {
        match (self.phase, event) {
            (SearchPhase::Bracketing, SearchEvent::Upper(_)) => true,
            (SearchPhase::Bisecting, SearchEvent::Midpoint { .. }) => true,
            _ => false,
        }
    }

    /// Expansions of the upper end so far.
    pub fn expansions(&self) -> (n: usize)
        ensures
            n == self@.expansions,
    {
        self.expansions
    }

    /// Midpoints probed so far.
    pub fn bisections(&self) -> (n: usize)
        ensures
            n == self@.bisections,
    {
        self.bisections
    }

    /// Takes the reported evaluation and gives the next action.
    pub fn observe(&mut self, event: SearchEvent) -> (action: SearchAction)
        requires
            old(self)@.accepts(event),
        ensures
            (final(self)@, action) == old(self)@.step(event),
            final(self)@.wf(),
            final(self)@.budget == old(self)@.budget,
            // each probe asked for is counted, and the count stays within the budget
            action.is_probe() ==> final(self)@.probes_issued() == old(self)@.probes_issued() + 1
                && !(final(self)@.phase is Finished),
            !action.is_probe() ==> final(self)@.phase is Finished
                && final(self)@.probes_issued() == old(self)@.probes_issued(),
            final(self)@.probes_issued() <= final(self)@.probe_limit(),
            // the search fails on a value that is not a number, and when φ(t_hi) is still below
            // zero after all expansions; nothing else fails
            action == SearchAction::Fail(SearchFailure::NotANumber) <==> event.sign_of()
                is NotANumber,
            action == SearchAction::Fail(SearchFailure::NoBracket) <==> (old(self)@.phase
                is Bracketing && event == SearchEvent::Upper(PhiSign::Below) && old(self)@.expansions
                == old(self)@.budget.max_expand),
            // t_hi is accepted only when it was never moved and lies on the level set
            action == SearchAction::AcceptUpper ==> old(self)@.expansions == 0 && event
                == SearchEvent::Upper(PhiSign::Zero),
            // a returned bracket center lies between an end where φ was not above zero and one
            // where it was not below zero
            action is AcceptCenter ==> final(self)@.lower_end_ok() && final(self)@.upper_end_ok(),
            // a bisection step moves the end whose sign the midpoint shares
            (action == SearchAction::ProbeMidpoint(BracketUpdate::LowerToMidpoint) || action
                == SearchAction::AcceptCenter(BracketUpdate::LowerToMidpoint)) ==> event
                == (SearchEvent::Midpoint { sign: PhiSign::Below, narrow: false }),
            (action == SearchAction::ProbeMidpoint(BracketUpdate::UpperToMidpoint) || action
                == SearchAction::AcceptCenter(BracketUpdate::UpperToMidpoint)) ==> event
                == (SearchEvent::Midpoint { sign: PhiSign::Above, narrow: false }),
    {
        proof {
            use_type_invariant(&*self);
        }
        let max_expand = self.budget.max_expand;
        let max_bisect = self.budget.max_bisect;
        let budget = self.budget;
        let expansions = self.expansions;
        let bisections = self.bisections;
        let lower_end = self.lower_end;
        let upper_end = self.upper_end;
        let finished = LevelSetSearch {
            budget,
            phase: SearchPhase::Finished,
            expansions,
            bisections,
            lower_end,
            upper_end,
        };
        match event {
            SearchEvent::Upper(sign) => {
                match sign {
                    PhiSign::NotANumber => {
                        *self = finished;
                        SearchAction::Fail(SearchFailure::NotANumber)
                    },
                    PhiSign::Below => {
                        if expansions < max_expand {
                            *self = LevelSetSearch {
                                budget,
                                phase: SearchPhase::Bracketing,
                                expansions: expansions + 1,
                                bisections,
                                lower_end: Ghost(EndSign::Observed(PhiSign::Below)),
                                upper_end: Ghost(EndSign::Pending),
                            };
                            SearchAction::ProbeExpanded
                        } else {
                            *self = finished;
                            SearchAction::Fail(SearchFailure::NoBracket)
                        }
                    },
                    _ => {
                        let on_level_set = match sign {
                            PhiSign::Zero => true,
                            _ => false,
                        };
                        if expansions == 0 && on_level_set {
                            *self = finished;
                            SearchAction::AcceptUpper
                        } else if max_bisect == 0 {
                            *self = LevelSetSearch {
                                budget,
                                phase: SearchPhase::Finished,
                                expansions,
                                bisections,
                                lower_end,
                                upper_end: Ghost(EndSign::Observed(sign)),
                            };
                            SearchAction::AcceptCenter(BracketUpdate::KeepBoth)
                        } else {
                            *self = LevelSetSearch {
                                budget,
                                phase: SearchPhase::Bisecting,
                                expansions,
                                bisections: 1,
                                lower_end,
                                upper_end: Ghost(EndSign::Observed(sign)),
                            };
                            SearchAction::ProbeMidpoint(BracketUpdate::KeepBoth)
                        }
                    },
                }
            },
            SearchEvent::Midpoint { sign, narrow } => {
                let (update, new_lower, new_upper) = match sign {
                    PhiSign::NotANumber => {
                        *self = finished;
                        return SearchAction::Fail(SearchFailure::NotANumber);
                    },
                    PhiSign::Zero => {
                        *self = finished;
                        return SearchAction::AcceptMidpoint;
                    },
                    PhiSign::Below => (
                        BracketUpdate::LowerToMidpoint,
                        Ghost(EndSign::Observed(PhiSign::Below)),
                        upper_end,
                    ),
                    PhiSign::Above => (
                        BracketUpdate::UpperToMidpoint,
                        lower_end,
                        Ghost(EndSign::Observed(PhiSign::Above)),
                    ),
                };
                if narrow {
                    *self = finished;
                    SearchAction::AcceptMidpoint
                } else if bisections < max_bisect {
                    *self = LevelSetSearch {
                        budget,
                        phase: SearchPhase::Bisecting,
                        expansions,
                        bisections: bisections + 1,
                        lower_end: new_lower,
                        upper_end: new_upper,
                    };
                    SearchAction::ProbeMidpoint(update)
                } else {
                    *self = LevelSetSearch {
                        budget,
                        phase: SearchPhase::Finished,
                        expansions,
                        bisections,
                        lower_end: new_lower,
                        upper_end: new_upper,
                    };
                    SearchAction::AcceptCenter(update)
                }
            },
        }
    }
}

/// Every state of a search stays within its budget: at most `1 + max_expand + max_bisect`
/// evaluations of `φ` are ever asked for (the first one at `t0` included).
pub proof fn lemma_probe_budget(m: SearchModel)
    requires
        m.wf(),
    ensures
        m.expansions <= m.budget.max_expand,
        m.bisections <= m.budget.max_bisect,
        m.probes_issued() <= m.probe_limit(),
{
}

/// The search always ends: every accepted event either finishes the search or asks for one
/// more evaluation of `φ`, and the evaluations asked for never exceed the budget. So the
/// number of unused probes strictly decreases until the search is finished.
pub proof fn lemma_search_progress(m: SearchModel, event: SearchEvent)
    requires
        m.wf(),
        m.accepts(event),
    ensures
        m.step(event).0.wf(),
        m.step(event).0.phase is Finished || (m.probe_limit() - m.step(event).0.probes_issued()
            < m.probe_limit() - m.probes_issued()),
        m.step(event).0.probes_issued() <= m.probe_limit(),
{
}

/// The bracket always holds a crossing: while bisecting, the lower end is the origin or a
/// point where `φ` was below zero, and the upper end is a point where `φ` was zero or above
/// zero. Once the lower end has moved off the origin, `φ` was below zero there.
pub proof fn lemma_bracket_signs(m: SearchModel)
    requires
        m.wf(),
    ensures
        m.lower_end == EndSign::Origin || m.lower_end == EndSign::Observed(PhiSign::Below),
        m.phase is Bisecting ==> (m.upper_end == EndSign::Observed(PhiSign::Zero) || m.upper_end
            == EndSign::Observed(PhiSign::Above)),
        m.expansions > 0 ==> m.lower_end == EndSign::Observed(PhiSign::Below),
{
}

/// Bracketing, whatever the number of expansions so far: `φ(t_hi)` below zero expands while
/// expansions are left; a `φ(t_hi)` above zero, or zero after an expansion, settles the bracket
/// and starts the bisection with its first midpoint when bisection steps are allowed.
pub proof fn lemma_bracketing_rule(m: SearchModel, sign: PhiSign)
    requires
        m.wf(),
        m.phase is Bracketing,
    ensures
        (sign is Below && m.expansions < m.budget.max_expand) ==> m.step(SearchEvent::Upper(sign)).1
            == SearchAction::ProbeExpanded && m.step(SearchEvent::Upper(sign)).0.expansions
            == m.expansions + 1,
        ((sign is Above || (sign is Zero && m.expansions > 0)) && m.budget.max_bisect > 0) ==> m.step(
            SearchEvent::Upper(sign),
        ).1 == SearchAction::ProbeMidpoint(BracketUpdate::KeepBoth) && m.step(
            SearchEvent::Upper(sign),
        ).0.phase is Bisecting && m.step(SearchEvent::Upper(sign)).0.bisections == 1,
        ((sign is Above || (sign is Zero && m.expansions > 0)) && m.budget.max_bisect == 0) ==> m.step(
            SearchEvent::Upper(sign),
        ).1 == SearchAction::AcceptCenter(BracketUpdate::KeepBoth),
{
}

/// Bisection, at every step: a midpoint below or above zero in a bracket wider than the
/// tolerance moves the end with its sign and probes the next midpoint while steps are left.
/// The bracket center is returned only once every bisection step allowed has been taken.
pub proof fn lemma_bisection_rule(m: SearchModel, event: SearchEvent)
    requires
        m.wf(),
        m.accepts(event),
    ensures
        (m.phase is Bisecting && m.bisections < m.budget.max_bisect && event == (
        SearchEvent::Midpoint { sign: PhiSign::Below, narrow: false })) ==> m.step(event).1
            == SearchAction::ProbeMidpoint(BracketUpdate::LowerToMidpoint),
        (m.phase is Bisecting && m.bisections < m.budget.max_bisect && event == (
        SearchEvent::Midpoint { sign: PhiSign::Above, narrow: false })) ==> m.step(event).1
            == SearchAction::ProbeMidpoint(BracketUpdate::UpperToMidpoint),
        m.step(event).1 is AcceptCenter ==> m.step(event).0.bisections == m.budget.max_bisect,
        m.step(event).1 is ProbeMidpoint ==> m.step(event).0.bisections == (if m.phase
            is Bracketing {
            1
        } else {
            m.bisections + 1
        }),
{
}

} // verus!
