use roulette::retry::{route_warnings, Adjustment, Attempt, Checks, Next, Outcome, RetryLoop, Warning, MAX_ITER};

fn checks(in_tolerance: bool, climb_ok: bool, overlap_ok: bool, beats_best: bool) -> Checks {
    Checks { in_tolerance, climb_ok, overlap_ok, ratio_positive: true, beats_best }
}

#[test]
fn first_good_route_ends_generation() {
    let mut lp = RetryLoop::new();
    let st = lp.record(Attempt::Measured(checks(true, true, true, false)));
    assert!(st.keep_as_best);
    assert_eq!(st.next, Next::Stop);
    assert!(lp.is_stopped());
    assert_eq!(lp.outcome(), Outcome::Best);
}

#[test]
fn at_most_three_attempts() {
    assert_eq!(MAX_ITER, 3);
    let mut lp = RetryLoop::new();
    let mut n = 0;
    while !lp.is_stopped() {
        lp.record(Attempt::Measured(checks(false, true, true, true)));
        n += 1;
    }
    assert_eq!(n, 3);
    assert_eq!(lp.outcome(), Outcome::Best);
}

#[test]
fn misses_ask_for_matching_adjustments() {
    let mut lp = RetryLoop::new();
    let st = lp.record(Attempt::Measured(checks(false, false, false, false)));
    assert_eq!(
        st.next,
        Next::Retry(Adjustment { rescale_to_target: true, turn_quarter: true, shrink_for_climb: true })
    );
    let st = lp.record(Attempt::Measured(checks(true, true, false, true)));
    assert!(st.keep_as_best);
    assert_eq!(
        st.next,
        Next::Retry(Adjustment { rescale_to_target: false, turn_quarter: true, shrink_for_climb: false })
    );
}

#[test]
fn non_positive_ratio_is_not_rescaled() {
    let mut lp = RetryLoop::new();
    let c = Checks { in_tolerance: false, climb_ok: true, overlap_ok: true, ratio_positive: false, beats_best: false };
    let st = lp.record(Attempt::Measured(c));
    assert_eq!(
        st.next,
        Next::Retry(Adjustment { rescale_to_target: false, turn_quarter: false, shrink_for_climb: false })
    );
}

#[test]
fn worse_route_is_not_kept() {
    let mut lp = RetryLoop::new();
    assert!(lp.record(Attempt::Measured(checks(false, true, true, false))).keep_as_best);
    assert!(!lp.record(Attempt::Measured(checks(false, true, true, false))).keep_as_best);
    assert!(lp.record(Attempt::Measured(checks(false, true, true, true))).keep_as_best);
}

#[test]
fn routing_failures_retry_unchanged_then_fail() {
    let mut lp = RetryLoop::new();
    let none = Adjustment { rescale_to_target: false, turn_quarter: false, shrink_for_climb: false };
    assert_eq!(lp.record(Attempt::RoutingFailed).next, Next::Retry(none));
    assert_eq!(lp.record(Attempt::EmptyRoute).next, Next::Retry(none));
    assert_eq!(lp.record(Attempt::RoutingFailed).next, Next::Stop);
    assert_eq!(lp.outcome(), Outcome::RoutingError);
}

#[test]
fn empty_routes_only_give_no_route() {
    let mut lp = RetryLoop::new();
    for _ in 0..3 {
        let st = lp.record(Attempt::EmptyRoute);
        assert!(!st.keep_as_best);
    }
    assert!(lp.is_stopped());
    assert_eq!(lp.outcome(), Outcome::NoRoute);
}

#[test]
fn a_measured_route_beats_earlier_failures() {
    let mut lp = RetryLoop::new();
    lp.record(Attempt::RoutingFailed);
    lp.record(Attempt::Measured(checks(false, true, true, false)));
    lp.record(Attempt::RoutingFailed);
    assert_eq!(lp.outcome(), Outcome::Best);
}

#[test]
fn warnings_in_order() {
    assert_eq!(route_warnings(false, false, false), Vec::<Warning>::new());
    assert_eq!(
        route_warnings(true, true, true),
        vec![Warning::DistanceOutOfTolerance, Warning::ClimbAboveMax, Warning::OverlapAboveThreshold]
    );
    assert_eq!(route_warnings(false, true, false), vec![Warning::ClimbAboveMax]);
    assert_eq!(route_warnings(true, false, true), vec![Warning::DistanceOutOfTolerance, Warning::OverlapAboveThreshold]);
}
