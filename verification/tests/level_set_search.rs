use ellipcenters::line_search::{
    BracketUpdate, LevelSetSearch, PhiSign, SearchAction, SearchBudget, SearchEvent,
    SearchFailure,
};

fn budget(max_expand: usize, max_bisect: usize) -> SearchBudget {
    SearchBudget { max_expand, max_bisect }
}

fn mid(sign: PhiSign, narrow: bool) -> SearchEvent {
    SearchEvent::Midpoint { sign, narrow }
}

#[test]
fn default_budget_is_40_expansions_and_80_bisections() {
    let b = SearchBudget::default();
    assert_eq!(b.max_expand, 40);
    assert_eq!(b.max_bisect, 80);
}

#[test]
fn exact_hit_at_first_trial_step_is_accepted() {
    let mut s = LevelSetSearch::new(SearchBudget::default());
    assert_eq!(s.observe(SearchEvent::Upper(PhiSign::Zero)), SearchAction::AcceptUpper);
    assert!(s.is_finished());
}

#[test]
fn exact_hit_after_an_expansion_goes_to_bisection() {
    let mut s = LevelSetSearch::new(budget(5, 5));
    assert_eq!(s.observe(SearchEvent::Upper(PhiSign::Below)), SearchAction::ProbeExpanded);
    assert_eq!(
        s.observe(SearchEvent::Upper(PhiSign::Zero)),
        SearchAction::ProbeMidpoint(BracketUpdate::KeepBoth)
    );
    assert!(!s.is_finished());
    assert_eq!(s.expansions(), 1);
    assert_eq!(s.bisections(), 1);
}

#[test]
fn fails_when_no_bracket_within_max_expansions() {
    let mut s = LevelSetSearch::new(budget(3, 10));
    for k in 1..=3usize {
        assert_eq!(s.observe(SearchEvent::Upper(PhiSign::Below)), SearchAction::ProbeExpanded);
        assert_eq!(s.expansions(), k);
    }
    assert_eq!(s.observe(SearchEvent::Upper(PhiSign::Below)), SearchAction::Fail(SearchFailure::NoBracket));
    assert!(s.is_finished());
}

#[test]
fn bracket_found_on_last_expansion_does_not_fail() {
    let mut s = LevelSetSearch::new(budget(2, 10));
    assert_eq!(s.observe(SearchEvent::Upper(PhiSign::Below)), SearchAction::ProbeExpanded);
    assert_eq!(s.observe(SearchEvent::Upper(PhiSign::Below)), SearchAction::ProbeExpanded);
    assert_eq!(
        s.observe(SearchEvent::Upper(PhiSign::Above)),
        SearchAction::ProbeMidpoint(BracketUpdate::KeepBoth)
    );
}

#[test]
fn bisection_moves_the_end_that_shares_the_sign() {
    let mut s = LevelSetSearch::new(budget(4, 10));
    assert_eq!(
        s.observe(SearchEvent::Upper(PhiSign::Above)),
        SearchAction::ProbeMidpoint(BracketUpdate::KeepBoth)
    );
    assert_eq!(
        s.observe(mid(PhiSign::Below, false)),
        SearchAction::ProbeMidpoint(BracketUpdate::LowerToMidpoint)
    );
    assert_eq!(
        s.observe(mid(PhiSign::Above, false)),
        SearchAction::ProbeMidpoint(BracketUpdate::UpperToMidpoint)
    );
    assert_eq!(s.bisections(), 3);
}

#[test]
fn midpoint_on_level_set_is_accepted() {
    let mut s = LevelSetSearch::new(budget(4, 10));
    s.observe(SearchEvent::Upper(PhiSign::Above));
    assert_eq!(s.observe(mid(PhiSign::Zero, false)), SearchAction::AcceptMidpoint);
    assert!(s.is_finished());
}

#[test]
fn narrow_bracket_accepts_midpoint_whatever_its_sign() {
    let mut s = LevelSetSearch::new(budget(4, 10));
    s.observe(SearchEvent::Upper(PhiSign::Above));
    assert_eq!(s.observe(mid(PhiSign::Below, true)), SearchAction::AcceptMidpoint);
}

#[test]
fn no_bisection_allowed_returns_bracket_center() {
    let mut s = LevelSetSearch::new(budget(4, 0));
    assert_eq!(
        s.observe(SearchEvent::Upper(PhiSign::Above)),
        SearchAction::AcceptCenter(BracketUpdate::KeepBoth)
    );
    assert!(s.is_finished());
}

#[test]
fn bisection_budget_exhausted_returns_center_after_last_update() {
    let mut s = LevelSetSearch::new(budget(4, 2));
    s.observe(SearchEvent::Upper(PhiSign::Above));
    assert_eq!(
        s.observe(mid(PhiSign::Below, false)),
        SearchAction::ProbeMidpoint(BracketUpdate::LowerToMidpoint)
    );
    assert_eq!(
        s.observe(mid(PhiSign::Above, false)),
        SearchAction::AcceptCenter(BracketUpdate::UpperToMidpoint)
    );
    assert!(s.is_finished());
}

#[test]
fn accepts_only_the_awaited_event() {
    let mut s = LevelSetSearch::new(budget(4, 2));
    assert!(s.accepts(SearchEvent::Upper(PhiSign::Below)));
    assert!(!s.accepts(mid(PhiSign::Below, false)));
    s.observe(SearchEvent::Upper(PhiSign::Above));
    assert!(!s.accepts(SearchEvent::Upper(PhiSign::Below)));
    assert!(s.accepts(mid(PhiSign::Below, false)));
    s.observe(mid(PhiSign::Zero, false));
    assert!(!s.accepts(mid(PhiSign::Below, false)));
    assert!(!s.accepts(SearchEvent::Upper(PhiSign::Below)));
}

#[test]
fn worst_case_run_uses_exactly_the_probe_budget() {
    // Expand as often as allowed, then bisect as often as allowed.
    let (max_expand, max_bisect) = (6usize, 9usize);
    let mut s = LevelSetSearch::new(budget(max_expand, max_bisect));
    let mut probes = 1usize; // φ(t0)
    let mut action = s.observe(SearchEvent::Upper(PhiSign::Below));
    loop {
        match action {
            SearchAction::ProbeExpanded => {
                probes += 1;
                let sign = if s.expansions() < max_expand { PhiSign::Below } else { PhiSign::Above };
                action = s.observe(SearchEvent::Upper(sign));
            }
            SearchAction::ProbeMidpoint(_) => {
                probes += 1;
                action = s.observe(mid(PhiSign::Below, false));
            }
            _ => break,
        }
    }
    assert_eq!(action, SearchAction::AcceptCenter(BracketUpdate::LowerToMidpoint));
    assert_eq!(probes, 1 + max_expand + max_bisect);
}

/// Drives the search on φ(t) = f(x - t g) - f(x) for f(x) = x², x = 1, g = 2, so that
/// φ(t) = 4t² - 4t, whose positive root is t = 1.
#[test]
fn finds_level_set_crossing_of_a_parabola() {
    let phi = |t: f64| 4.0 * t * t - 4.0 * t;
    let sign = |v: f64| {
        if v < 0.0 {
            PhiSign::Below
        } else if v == 0.0 {
            PhiSign::Zero
        } else {
            PhiSign::Above
        }
    };
    let (t0, growth, tol_t) = (1e-3, 2.0, 1e-12);
    let mut s = LevelSetSearch::new(SearchBudget::default());
    let (mut lo, mut hi, mut m) = (0.0f64, t0, 0.0f64);
    let mut action = s.observe(SearchEvent::Upper(sign(phi(hi))));
    let t = loop {
        let apply = |u: BracketUpdate, lo: &mut f64, hi: &mut f64, m: f64| match u {
            BracketUpdate::KeepBoth => {}
            BracketUpdate::LowerToMidpoint => *lo = m,
            BracketUpdate::UpperToMidpoint => *hi = m,
        };
        match action {
            SearchAction::ProbeExpanded => {
                lo = hi;
                hi *= growth;
                action = s.observe(SearchEvent::Upper(sign(phi(hi))));
            }
            SearchAction::ProbeMidpoint(u) => {
                apply(u, &mut lo, &mut hi, m);
                m = 0.5 * (lo + hi);
                let narrow = (hi - lo).abs() <= tol_t;
                action = s.observe(mid(sign(phi(m)), narrow));
            }
            SearchAction::AcceptUpper => break hi,
            SearchAction::AcceptMidpoint => break m,
            SearchAction::AcceptCenter(u) => {
                apply(u, &mut lo, &mut hi, m);
                break 0.5 * (lo + hi);
            }
            SearchAction::Fail(_) => panic!("no bracket"),
        }
    };
    assert_eq!(s.expansions(), 10); // 1e-3 * 2^10 = 1.024 is the first trial step past 1
    assert!((t - 1.0).abs() < 1e-9);
}

fn sign_of(v: f64) -> PhiSign {
    if v.is_nan() {
        PhiSign::NotANumber
    } else if v < 0.0 {
        PhiSign::Below
    } else if v == 0.0 {
        PhiSign::Zero
    } else {
        PhiSign::Above
    }
}

#[test]
fn a_nan_value_at_the_upper_end_fails() {
    let mut s = LevelSetSearch::new(SearchBudget::default());
    assert_eq!(
        s.observe(SearchEvent::Upper(sign_of(f64::NAN))),
        SearchAction::Fail(SearchFailure::NotANumber)
    );
    assert!(s.is_finished());
}

#[test]
fn a_nan_value_at_a_midpoint_fails_even_when_narrow() {
    let mut s = LevelSetSearch::new(SearchBudget::default());
    s.observe(SearchEvent::Upper(PhiSign::Above));
    assert_eq!(
        s.observe(mid(sign_of(f64::NAN), true)),
        SearchAction::Fail(SearchFailure::NotANumber)
    );
}

/// An objective that gives NaN everywhere: the search reports the numerical issue.
#[test]
fn nan_everywhere_is_a_failure_not_a_step() {
    let mut s = LevelSetSearch::new(SearchBudget::default());
    let mut events = 0usize;
    let mut action = s.observe(SearchEvent::Upper(sign_of(f64::NAN)));
    events += 1;
    while let SearchAction::ProbeExpanded | SearchAction::ProbeMidpoint(_) = action {
        action = match action {
            SearchAction::ProbeExpanded => s.observe(SearchEvent::Upper(sign_of(f64::NAN))),
            _ => s.observe(mid(sign_of(f64::NAN), false)),
        };
        events += 1;
    }
    assert_eq!(action, SearchAction::Fail(SearchFailure::NotANumber));
    assert_eq!(events, 1);
}
