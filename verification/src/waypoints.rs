//! Waypoint bookkeeping that does not depend on coordinates: how many
//! intermediate waypoints a route gets, where a forced waypoint goes, and
//! the ordered list of points handed to the router.

use vstd::prelude::*;

verus! {

/// Fewest intermediate waypoints of a generated route.
pub const MIN_WAYPOINTS: usize = 2;
/// Most intermediate waypoints of a generated route.
pub const MAX_WAYPOINTS: usize = 8;

/// `q` clamped into `MIN_WAYPOINTS..=MAX_WAYPOINTS`.
pub open spec fn clamp_count(q: int) -> int {
    if q < MIN_WAYPOINTS {
        MIN_WAYPOINTS as int
    } else if q > MAX_WAYPOINTS {
        MAX_WAYPOINTS as int
    } else {
        q
    }
}

/// Number of intermediate waypoints for a route whose length divided by
/// 30 km (rounded down) is `per_30_km`: that quotient, clamped to 2..=8.
pub fn waypoint_count(per_30_km: usize) -> (n: usize)
    ensures
        n == clamp_count(per_30_km as int),
        MIN_WAYPOINTS <= n <= MAX_WAYPOINTS,
        2 <= per_30_km <= 8 ==> n == per_30_km,
        per_30_km < 2 ==> n == 2,
        per_30_km > 8 ==> n == 8,
{
    if per_30_km < MIN_WAYPOINTS {
        MIN_WAYPOINTS
    } else if per_30_km > MAX_WAYPOINTS {
        MAX_WAYPOINTS
    } else {
        per_30_km
    }
}

/// `k` is the first position of a smallest key.
pub open spec fn is_first_min(keys: Seq<u64>, k: int) -> bool {
    &&& 0 <= k < keys.len()
    &&& forall|j: int| 0 <= j < keys.len() ==> keys[k] <= #[trigger] keys[j]
    &&& forall|j: int| 0 <= j < k ==> keys[k] < #[trigger] keys[j]
}

/// At most one position is the first position of a smallest key.
pub proof fn first_min_is_unique(keys: Seq<u64>, a: int, b: int)
    requires
        is_first_min(keys, a),
        is_first_min(keys, b),
    ensures
        a == b,
{
    if a < b {
        assert(keys[b] < keys[a]);
        assert(keys[a] <= keys[b]);
    } else if b < a {
        assert(keys[a] < keys[b]);
        assert(keys[b] <= keys[a]);
    }
}

/// Position of the first smallest key (the waypoint nearest to a point,
/// when `keys` orders the waypoints by their distance to it).
pub fn nearest_index(keys: &Vec<u64>) -> (k: usize)
    requires
        keys@.len() > 0,
    ensures
        is_first_min(keys@, k as int),
{
    let mut best: usize = 0;
    let mut i: usize = 1;
    while i < keys.len()
        invariant
            0 < i <= keys@.len(),
            best < i,
            forall|j: int| 0 <= j < i ==> keys@[best as int] <= #[trigger] keys@[j],
            forall|j: int| 0 <= j < best ==> keys@[best as int] < #[trigger] keys@[j],
        decreases keys@.len() - i,
    {
        if keys[i] < keys[best] {
            best = i;
        }
        i = i + 1;
    }
    best
}

/// Inserts a forced waypoint right after the waypoint nearest to it.
/// `keys[i]` orders waypoint `i` by its distance to the forced point;
/// ties go to the earliest waypoint. Returns where the point was put.
pub fn insert_forced_waypoint<T: Copy>(wps: &mut Vec<T>, forced: T, keys: &Vec<u64>) -> (at: usize)
    requires
        old(wps)@.len() > 0,
        keys@.len() == old(wps)@.len(),
    ensures
        1 <= at <= old(wps)@.len(),
        is_first_min(keys@, at - 1),
        final(wps)@ == old(wps)@.insert(at as int, forced),
{
    let k = nearest_index(keys);
    let len = wps.len();
    assert(k < len);
    wps.insert(k + 1, forced);
    k + 1
}

/// The points a route is asked through: the start, the waypoints, and the
/// start again when the route is a loop.
pub open spec fn route_points<T>(start: T, wps: Seq<T>, is_loop: bool) -> Seq<T> {
    if is_loop {
        seq![start] + wps + seq![start]
    } else {
        seq![start] + wps
    }
}

/// Lists the points the router goes through, in order.
pub fn assemble_route_points<T: Copy>(start: T, wps: &Vec<T>, is_loop: bool) -> (pts: Vec<T>)
    ensures
        pts@ == route_points(start, wps@, is_loop),
        pts@.len() == wps@.len() + if is_loop { 2int } else { 1int },
        pts@[0] == start,
        forall|i: int| 0 <= i < wps@.len() ==> pts@[i + 1] == #[trigger] wps@[i],
        is_loop ==> pts@.last() == start,
        !is_loop && wps@.len() > 0 ==> pts@.last() == wps@.last(),
{
    let mut pts: Vec<T> = Vec::new();
    pts.push(start);
    let n = wps.len();
    let mut i: usize = 0;
    while i < n
        invariant
            n == wps@.len(),
            i <= n,
            pts@ == seq![start] + wps@.take(i as int),
        decreases n - i,
    {
        pts.push(wps[i]);
        assert(wps@.take(i + 1) =~= wps@.take(i as int).push(wps@[i as int]));
        i = i + 1;
    }
    assert(wps@.take(n as int) =~= wps@);
    if is_loop {
        pts.push(start);
    }
    assert forall|i: int| 0 <= i < wps@.len() implies pts@[i + 1] == #[trigger] wps@[i] by {
        assert((seq![start] + wps@)[i + 1] == wps@[i]);
    }
    pts
}

} // verus!
