//! The decisions of route generation under constraints. A route is asked
//! from the router at most `MAX_ITER` times; after each answer the loop
//! keeps the best route seen so far, stops once every constraint holds,
//! and otherwise says how the next attempt's waypoints must change.
//! Measuring a route (distances, climb, overlap, score) is done by the
//! caller, which reports the outcome of each check here.

use vstd::prelude::*;

verus! {

/// Most routing attempts for one generation.
pub const MAX_ITER: usize = 3;
/// Accepted deviation of the route length from the target, in percent.
pub const TOLERANCE_PCT: u32 = 10;
/// Largest accepted share of the route near avoided routes, in percent.
pub const OVERLAP_THRESHOLD_PCT: u32 = 30;

/// The checks made on one measured route.
#[derive(Clone, Copy, Debug, PartialEq, Eq, Structural)]
pub struct Checks {
    /// The length is within `TOLERANCE_PCT` of the target.
    pub in_tolerance: bool,
    /// The climb is within the requested cap (or there is no cap).
    pub climb_ok: bool,
    /// The overlap with avoided routes is at most `OVERLAP_THRESHOLD_PCT`.
    pub overlap_ok: bool,
    /// The ratio of measured to target length is positive.
    pub ratio_positive: bool,
    /// The route scores strictly lower than the best route kept so far.
    pub beats_best: bool,
}

/// What one routing attempt gave.
#[derive(Clone, Copy, Debug, PartialEq, Eq, Structural)]
pub enum Attempt {
    /// The router could not be reached or answered with an error.
    RoutingFailed,
    /// The router answered with a route without points.
    EmptyRoute,
    /// A route was measured.
    Measured(Checks),
}

/// How the waypoints of the next attempt change.
#[derive(Clone, Copy, Debug, PartialEq, Eq, Structural)]
pub struct Adjustment {
    /// Scale the waypoints by the inverse of the length ratio.
    pub rescale_to_target: bool,
    /// Turn the route's direction by a quarter turn.
    pub turn_quarter: bool,
    /// Shrink the waypoints to 90 % to lower the climb.
    pub shrink_for_climb: bool,
}

/// What the generation does after an attempt.
#[derive(Clone, Copy, Debug, PartialEq, Eq, Structural)]
pub enum Next {
    Retry(Adjustment),
    Stop,
}

/// The decision taken on an attempt.
#[derive(Clone, Copy, Debug, PartialEq, Eq, Structural)]
pub struct Step {
    /// The attempt's route replaces the best route kept so far.
    pub keep_as_best: bool,
    pub next: Next,
}

/// How a finished generation ends.
#[derive(Clone, Copy, Debug, PartialEq, Eq, Structural)]
pub enum Outcome {
    /// The best route kept is the result.
    Best,
    /// No route was measured and the last routing call failed: its error is the result.
    RoutingError,
    /// No route was measured and no routing call failed.
    NoRoute,
}

/// Abstract state of a generation.
pub struct RetryState {
    pub attempts: nat,
    pub has_best: bool,
    pub routing_failed: bool,
    pub stopped: bool,
}

/// The state of a generation.
pub struct RetryLoop {
    attempts: usize,
    has_best: bool,
    routing_failed: bool,
    stopped: bool,
}

/// The state before the first attempt.
pub open spec fn initial_state() -> RetryState {
    RetryState { attempts: 0, has_best: false, routing_failed: false, stopped: false }
}

/// Every constraint holds.
pub open spec fn all_met(c: Checks) -> bool {
    c.in_tolerance && c.climb_ok && c.overlap_ok
}

/// The change asked for after a measured route that missed a constraint.
pub open spec fn adjustment_for(c: Checks) -> Adjustment {
    Adjustment {
        rescale_to_target: !c.in_tolerance && c.ratio_positive,
        turn_quarter: !c.overlap_ok,
        shrink_for_climb: !c.climb_ok,
    }
}

/// No change to the waypoints.
pub open spec fn unchanged() -> Adjustment {
    Adjustment { rescale_to_target: false, turn_quarter: false, shrink_for_climb: false }
}

/// One attempt: the state after it and the decision taken.
pub open spec fn step_spec(s: RetryState, a: Attempt) -> (RetryState, Step) {
    let attempts = s.attempts + 1;
    let out_of_attempts = attempts >= MAX_ITER;
    match a {
        Attempt::RoutingFailed => (
            RetryState { attempts, has_best: s.has_best, routing_failed: true, stopped: out_of_attempts },
            Step { keep_as_best: false, next: if out_of_attempts { Next::Stop } else { Next::Retry(unchanged()) } },
        ),
        Attempt::EmptyRoute => (
            RetryState { attempts, has_best: s.has_best, routing_failed: s.routing_failed, stopped: out_of_attempts },
            Step { keep_as_best: false, next: if out_of_attempts { Next::Stop } else { Next::Retry(unchanged()) } },
        ),
        Attempt::Measured(c) => {
            let stop = all_met(c) || out_of_attempts;
            (
                RetryState { attempts, has_best: true, routing_failed: s.routing_failed, stopped: stop },
                Step {
                    keep_as_best: !s.has_best || c.beats_best,
                    next: if stop { Next::Stop } else { Next::Retry(adjustment_for(c)) },
                },
            )
        },
    }
}

/// How a generation in state `s` ends.
pub open spec fn outcome_spec(s: RetryState) -> Outcome {
    if s.has_best {
        Outcome::Best
    } else if s.routing_failed {
        Outcome::RoutingError
    } else {
        Outcome::NoRoute
    }
}

/// A reachable state.
pub open spec fn state_wf(s: RetryState) -> bool {
    &&& s.attempts <= MAX_ITER
    &&& s.attempts == MAX_ITER ==> s.stopped
}

impl View for RetryLoop {
    type V = RetryState;

    closed spec fn view(&self) -> RetryState {
        RetryState {
            attempts: self.attempts as nat,
            has_best: self.has_best,
            routing_failed: self.routing_failed,
            stopped: self.stopped,
        }
    }
}

impl RetryLoop {
    /// A generation before its first attempt.
    pub fn new() -> (r: RetryLoop)
        ensures
            r@ == initial_state(),
    {
        RetryLoop { attempts: 0, has_best: false, routing_failed: false, stopped: false }
    }

    /// Whether the generation is over.
    pub fn is_stopped(&self) -> (r: bool)
        ensures
            r == self@.stopped,
    {
        self.stopped
    }

    /// Records an attempt and decides what comes next.
    pub fn record(&mut self, a: Attempt) -> (st: Step)
        requires
            state_wf(old(self)@),
            !old(self)@.stopped,
        ensures
            state_wf(final(self)@),
            (final(self)@, st) == step_spec(old(self)@, a),
            final(self)@.attempts == old(self)@.attempts + 1,
            final(self)@.stopped == (st.next == Next::Stop),
            st.next == Next::Stop <==> (old(self)@.attempts + 1 >= 3 || (a matches Attempt::Measured(c)
                && c.in_tolerance && c.climb_ok && c.overlap_ok)),
            st.keep_as_best <==> (a matches Attempt::Measured(c) && (!old(self)@.has_best || c.beats_best)),
            st.next matches Next::Retry(adj) ==> match a {
                Attempt::Measured(c) => {
                    &&& adj.rescale_to_target == (!c.in_tolerance && c.ratio_positive)
                    &&& adj.turn_quarter == !c.overlap_ok
                    &&& adj.shrink_for_climb == !c.climb_ok
                },
                _ => !adj.rescale_to_target && !adj.turn_quarter && !adj.shrink_for_climb,
            },
    {
        self.attempts = self.attempts + 1;
        let out_of_attempts = self.attempts >= MAX_ITER;
        match a {
            Attempt::RoutingFailed => {
                self.routing_failed = true;
                self.stopped = out_of_attempts;
                Step {
                    keep_as_best: false,
                    next: if out_of_attempts { Next::Stop } else { Next::Retry(no_change()) },
                }
            },
            Attempt::EmptyRoute => {
                self.stopped = out_of_attempts;
                Step {
                    keep_as_best: false,
                    next: if out_of_attempts { Next::Stop } else { Next::Retry(no_change()) },
                }
            },
            Attempt::Measured(c) => {
                let keep = !self.has_best || c.beats_best;
                let stop = (c.in_tolerance && c.climb_ok && c.overlap_ok) || out_of_attempts;
                self.has_best = true;
                self.stopped = stop;
                Step {
                    keep_as_best: keep,
                    next: if stop {
                        Next::Stop
                    } else {
                        Next::Retry(Adjustment {
                            rescale_to_target: !c.in_tolerance && c.ratio_positive,
                            turn_quarter: !c.overlap_ok,
                            shrink_for_climb: !c.climb_ok,
                        })
                    },
                }
            },
        }
    }

    /// How the generation ends, given the attempts recorded so far.
    pub fn outcome(&self) -> (o: Outcome)
        ensures
            o == outcome_spec(self@),
    {
        if self.has_best {
            Outcome::Best
        } else if self.routing_failed {
            Outcome::RoutingError
        } else {
            Outcome::NoRoute
        }
    }
}

fn no_change() -> (a: Adjustment)
    ensures
        a == unchanged(),
{
    Adjustment { rescale_to_target: false, turn_quarter: false, shrink_for_climb: false }
}

/// The state after feeding `events` one by one to a generation in state
/// `s`; events after the generation stopped are not taken.
pub open spec fn run(s: RetryState, events: Seq<Attempt>) -> RetryState
    decreases events.len(),
{
    if events.len() == 0 || s.stopped {
        s
    } else {
        run(step_spec(s, events[0]).0, events.drop_first())
    }
}

/// Among the first `n` events there is a measured route.
pub open spec fn measured_within(events: Seq<Attempt>, n: int) -> bool {
    exists|i: int| 0 <= i < n && i < events.len() && events[i] is Measured
}

/// Among the first `n` events a routing call failed.
pub open spec fn failed_within(events: Seq<Attempt>, n: int) -> bool {
    exists|i: int| 0 <= i < n && i < events.len() && events[i] is RoutingFailed
}

/// A generation never routes more than `MAX_ITER` times, and it has
/// stopped once `MAX_ITER` attempts were made.
pub proof fn attempts_are_bounded(s: RetryState, events: Seq<Attempt>)
    requires
        state_wf(s),
    ensures
        state_wf(run(s, events)),
        run(s, events).attempts <= MAX_ITER,
        s.attempts + events.len() >= MAX_ITER ==> run(s, events).stopped,
        s.attempts <= run(s, events).attempts <= s.attempts + events.len(),
    decreases events.len(),
{
    if events.len() == 0 || s.stopped {
    } else {
        let t = step_spec(s, events[0]).0;
        attempts_are_bounded(t, events.drop_first());
    }
}

/// A generation stops as soon as a measured route meets every constraint.
pub proof fn stops_once_constraints_hold(s: RetryState, c: Checks)
    requires
        state_wf(s),
        !s.stopped,
        all_met(c),
    ensures
        step_spec(s, Attempt::Measured(c)).1.next == Next::Stop,
        step_spec(s, Attempt::Measured(c)).0.stopped,
{
}

/// The first measured route is always kept; a later one only when it
/// scores better than the one kept.
pub proof fn best_route_is_kept(s: RetryState, c: Checks)
    ensures
        !s.has_best ==> step_spec(s, Attempt::Measured(c)).1.keep_as_best,
        s.has_best ==> (step_spec(s, Attempt::Measured(c)).1.keep_as_best == c.beats_best),
        !step_spec(s, Attempt::RoutingFailed).1.keep_as_best,
        !step_spec(s, Attempt::EmptyRoute).1.keep_as_best,
{
}

/// A retry changes exactly what the measured route missed: the direction
/// turns iff the overlap was too high, the waypoints shrink iff the climb
/// was too high, and they are rescaled iff the length was off (with a
/// positive ratio). After a failed or empty attempt nothing changes.
pub proof fn retry_answers_misses(s: RetryState, a: Attempt)
    ensures
        step_spec(s, a).1.next matches Next::Retry(adj) ==> match a {
            Attempt::Measured(c) => {
                &&& !all_met(c)
                &&& adj.turn_quarter == !c.overlap_ok
                &&& adj.shrink_for_climb == !c.climb_ok
                &&& adj.rescale_to_target == (!c.in_tolerance && c.ratio_positive)
            },
            _ => adj == unchanged(),
        },
{
}

/// A generation ends with a route iff some attempt it took measured one;
/// it ends with the routing error iff none did and some routing call failed.
pub proof fn fails_only_without_route(s: RetryState, events: Seq<Attempt>)
    requires
        state_wf(s),
    ensures
        run(s, events).has_best == (s.has_best || measured_within(
            events,
            run(s, events).attempts - s.attempts,
        )),
        run(s, events).routing_failed == (s.routing_failed || failed_within(
            events,
            run(s, events).attempts - s.attempts,
        )),
    decreases events.len(),
{
    attempts_are_bounded(s, events);
    if events.len() == 0 || s.stopped {
        assert(!measured_within(events, 0));
        assert(!failed_within(events, 0));
    } else {
        let t = step_spec(s, events[0]).0;
        let rest = events.drop_first();
        fails_only_without_route(t, rest);
        attempts_are_bounded(t, rest);
        let n = run(s, events).attempts - s.attempts;
        let m = run(t, rest).attempts - t.attempts;
        assert(n == m + 1);
        assert(measured_within(events, n) == (events[0] is Measured || measured_within(rest, m))) by {
            if measured_within(rest, m) {
                let i = choose|i: int| 0 <= i < m && i < rest.len() && rest[i] is Measured;
                assert(events[i + 1] == rest[i]);
            }
            if measured_within(events, n) && !(events[0] is Measured) {
                let i = choose|i: int| 0 <= i < n && i < events.len() && events[i] is Measured;
                assert(i != 0);
                assert(rest[i - 1] == events[i]);
            }
        }
        assert(failed_within(events, n) == (events[0] is RoutingFailed || failed_within(rest, m))) by {
            if failed_within(rest, m) {
                let i = choose|i: int| 0 <= i < m && i < rest.len() && rest[i] is RoutingFailed;
                assert(events[i + 1] == rest[i]);
            }
            if failed_within(events, n) && !(events[0] is RoutingFailed) {
                let i = choose|i: int| 0 <= i < n && i < events.len() && events[i] is RoutingFailed;
                assert(i != 0);
                assert(rest[i - 1] == events[i]);
            }
        }
    }
}

/// A warning attached to a generated route that misses a constraint.
#[derive(Clone, Copy, Debug, PartialEq, Eq, Structural)]
pub enum Warning {
    /// The length is outside the tolerance around the target.
    DistanceOutOfTolerance,
    /// The climb is above the requested maximum.
    ClimbAboveMax,
    /// Too much of the route runs near avoided routes.
    OverlapAboveThreshold,
}

/// The warnings for a route, in the order they are reported.
pub open spec fn warnings_spec(distance_off: bool, climb_over: bool, overlap_over: bool) -> Seq<Warning> {
    (if distance_off { seq![Warning::DistanceOutOfTolerance] } else { Seq::empty() })
        + (if climb_over { seq![Warning::ClimbAboveMax] } else { Seq::empty() })
        + (if overlap_over { seq![Warning::OverlapAboveThreshold] } else { Seq::empty() })
}

/// A measured route ends the generation only when its length is within
/// tolerance, its climb within the cap and its overlap within the
/// threshold, or when it was the third attempt. Before the third attempt,
/// a route that climbs too much is retried with shrunk waypoints, one that
/// overlaps too much with a quarter turn, and one whose length is off
/// (with a positive ratio) rescaled.
pub proof fn measured_route_stops_only_when_all_constraints_hold(s: RetryState, c: Checks)
    ensures
        MAX_ITER == 3,
        step_spec(s, Attempt::Measured(c)).1.next == Next::Stop ==> (c.in_tolerance && c.climb_ok
            && c.overlap_ok) || s.attempts + 1 >= 3,
        s.attempts + 1 < 3 && !(c.in_tolerance && c.climb_ok && c.overlap_ok) ==> step_spec(
            s,
            Attempt::Measured(c),
        ).1.next == Next::Retry(
            Adjustment {
                rescale_to_target: !c.in_tolerance && c.ratio_positive,
                turn_quarter: !c.overlap_ok,
                shrink_for_climb: !c.climb_ok,
            },
        ),
        s.attempts + 1 < 3 && !c.climb_ok ==> (step_spec(s, Attempt::Measured(c)).1.next matches Next::Retry(adj)
            && adj.shrink_for_climb),
        !step_spec(s, Attempt::Measured(c)).0.stopped ==> !(c.in_tolerance && c.climb_ok && c.overlap_ok),
{
}

/// Each warning is reported exactly when its own constraint was missed,
/// whatever the other two are, at most once, and in the order distance,
/// climb, overlap.
pub proof fn warnings_match_misses(distance_off: bool, climb_over: bool, overlap_over: bool)
    ensures
        warnings_spec(distance_off, climb_over, overlap_over).contains(Warning::DistanceOutOfTolerance)
            == distance_off,
        warnings_spec(distance_off, climb_over, overlap_over).contains(Warning::ClimbAboveMax)
            == climb_over,
        warnings_spec(distance_off, climb_over, overlap_over).contains(Warning::OverlapAboveThreshold)
            == overlap_over,
        warnings_spec(distance_off, climb_over, overlap_over).len() == (distance_off as int) + (
        climb_over as int) + (overlap_over as int),
        distance_off ==> warnings_spec(distance_off, climb_over, overlap_over)[0]
            == Warning::DistanceOutOfTolerance,
        overlap_over ==> warnings_spec(distance_off, climb_over, overlap_over).last()
            == Warning::OverlapAboveThreshold,
{
    let w = warnings_spec(distance_off, climb_over, overlap_over);
    let d: Seq<Warning> = if distance_off { seq![Warning::DistanceOutOfTolerance] } else { Seq::empty() };
    let cl: Seq<Warning> = if climb_over { seq![Warning::ClimbAboveMax] } else { Seq::empty() };
    let o: Seq<Warning> = if overlap_over { seq![Warning::OverlapAboveThreshold] } else { Seq::empty() };
    assert(w =~= d + cl + o);
    if distance_off {
        assert(w[0] == Warning::DistanceOutOfTolerance);
    }
    if climb_over {
        assert(w[d.len() as int] == Warning::ClimbAboveMax);
    }
    if overlap_over {
        assert(w[w.len() - 1] == Warning::OverlapAboveThreshold);
    }
    assert(w.contains(Warning::DistanceOutOfTolerance) ==> distance_off) by {
        if w.contains(Warning::DistanceOutOfTolerance) {
            let k = choose|k: int| 0 <= k < w.len() && w[k] == Warning::DistanceOutOfTolerance;
            if !distance_off {
                if k < cl.len() {
                    assert(w[k] == cl[k]);
                } else {
                    assert(w[k] == o[k - cl.len()]);
                }
            }
        }
    }
    assert(w.contains(Warning::ClimbAboveMax) ==> climb_over) by {
        if w.contains(Warning::ClimbAboveMax) {
            let k = choose|k: int| 0 <= k < w.len() && w[k] == Warning::ClimbAboveMax;
            if !climb_over {
                if k < d.len() {
                    assert(w[k] == d[k]);
                } else {
                    assert(w[k] == o[k - d.len()]);
                }
            }
        }
    }
    assert(w.contains(Warning::OverlapAboveThreshold) ==> overlap_over) by {
        if w.contains(Warning::OverlapAboveThreshold) {
            let k = choose|k: int| 0 <= k < w.len() && w[k] == Warning::OverlapAboveThreshold;
            if !overlap_over {
                if k < d.len() {
                    assert(w[k] == d[k]);
                } else {
                    assert(w[k] == cl[k - d.len()]);
                }
            }
        }
    }
}

/// Lists the warnings for the chosen route.
pub fn route_warnings(distance_off: bool, climb_over: bool, overlap_over: bool) -> (w: Vec<Warning>)
    ensures
        w@ == warnings_spec(distance_off, climb_over, overlap_over),
        w@.contains(Warning::DistanceOutOfTolerance) == distance_off,
        w@.contains(Warning::ClimbAboveMax) == climb_over,
        w@.contains(Warning::OverlapAboveThreshold) == overlap_over,
        w@.len() == (distance_off as int) + (climb_over as int) + (overlap_over as int),
{
    let mut w: Vec<Warning> = Vec::new();
    if distance_off {
        w.push(Warning::DistanceOutOfTolerance);
    }
    if climb_over {
        w.push(Warning::ClimbAboveMax);
    }
    if overlap_over {
        w.push(Warning::OverlapAboveThreshold);
    }
    assert(w@ =~= warnings_spec(distance_off, climb_over, overlap_over));
    proof {
        warnings_match_misses(distance_off, climb_over, overlap_over);
    }
    w
}

} // verus!
