//! Parts of route statistics that do not depend on coordinates: which
//! points feed the elevation profile, and the names of compass sectors.

use vstd::prelude::*;
use vstd::string::StringExecFns;

verus! {

/// Point `i` of a route of `n` points is drawn in the elevation profile:
/// every fifth point, and the last one.
pub open spec fn is_profile_sample(i: int, n: int) -> bool {
    i % 5 == 0 || i == n - 1
}

/// The profile samples among the first `upto` of `n` points, in order.
pub open spec fn profile_samples(n: int, upto: int) -> Seq<usize>
    decreases upto,
{
    if upto <= 0 {
        Seq::empty()
    } else if is_profile_sample(upto - 1, n) {
        profile_samples(n, upto - 1).push((upto - 1) as usize)
    } else {
        profile_samples(n, upto - 1)
    }
}

/// The indices of the points of a route of `n` points that the elevation
/// profile samples, in increasing order.
pub fn elevation_sample_indices(n: usize) -> (r: Vec<usize>)
    ensures
        r@ == profile_samples(n as int, n as int),
{
    let mut r: Vec<usize> = Vec::new();
    let mut i: usize = 0;
    while i < n
        invariant
            i <= n,
            r@ == profile_samples(n as int, i as int),
        decreases n - i,
    {
        if i % 5 == 0 || i == n - 1 {
            r.push(i);
        }
        i = i + 1;
    }
    r
}

/// Every sample index is a point of the route, samples increase, and a
/// point is sampled exactly when it is every fifth one or the last.
pub proof fn profile_samples_are_exact(n: int, upto: int)
    requires
        0 <= upto <= n <= usize::MAX,
    ensures
        forall|k: int| 0 <= k < profile_samples(n, upto).len() ==> (#[trigger] profile_samples(n, upto)[k]) < upto,
        forall|k: int, l: int| 0 <= k < l < profile_samples(n, upto).len() ==>
            (#[trigger] profile_samples(n, upto)[k]) < (#[trigger] profile_samples(n, upto)[l]),
        forall|i: int| 0 <= i < upto ==> (is_profile_sample(i, n) <==> profile_samples(n, upto).contains(i as usize)),
    decreases upto,
{
    if upto > 0 {
        profile_samples_are_exact(n, upto - 1);
        let prev = profile_samples(n, upto - 1);
        let cur = profile_samples(n, upto);
        assert forall|k: int, l: int| 0 <= k < l < cur.len() implies cur[k] < cur[l] by {
            if l == cur.len() - 1 && cur.len() > prev.len() {
                assert(cur[k] == prev[k]);
                assert(prev[k] < upto - 1);
            } else {
                assert(cur[k] == prev[k]);
                assert(cur[l] == prev[l]);
            }
        }
        assert forall|i: int| 0 <= i < upto implies (is_profile_sample(i, n) <==> cur.contains(i as usize)) by {
            if i < upto - 1 {
                if cur.contains(i as usize) && !prev.contains(i as usize) {
                    let k = choose|k: int| 0 <= k < cur.len() && cur[k] == i as usize;
                    assert(k == prev.len());
                }
                if prev.contains(i as usize) {
                    let k = choose|k: int| 0 <= k < prev.len() && prev[k] == i as usize;
                    assert(cur[k] == i as usize);
                }
            } else {
                if is_profile_sample(i, n) {
                    assert(cur[cur.len() - 1] == i as usize);
                } else {
                    if cur.contains(i as usize) {
                        let k = choose|k: int| 0 <= k < cur.len() && cur[k] == i as usize;
                        assert(prev[k] < upto - 1);
                    }
                }
            }
        }
    }
}

/// Name of compass sector `k` (0 = north, counting clockwise in 45° steps).
pub open spec fn sector_name(k: int) -> Seq<char> {
    if k == 0 {
        "N"@
    } else if k == 1 {
        "NE"@
    } else if k == 2 {
        "E"@
    } else if k == 3 {
        "SE"@
    } else if k == 4 {
        "S"@
    } else if k == 5 {
        "SW"@
    } else if k == 6 {
        "W"@
    } else {
        "NW"@
    }
}

/// The eight compass points, clockwise from north.
pub open spec fn compass_names() -> Seq<Seq<char>> {
    seq!["N"@, "NE"@, "E"@, "SE"@, "S"@, "SW"@, "W"@, "NW"@]
}

/// Sector 0 is north and the sectors go clockwise in 45° steps through the
/// eight compass points.
pub proof fn sectors_run_clockwise_from_north()
    ensures
        forall|k: int| 0 <= k < 8 ==> sector_name(k) == #[trigger] compass_names()[k],
{
    assert forall|k: int| 0 <= k < 8 implies sector_name(k) == #[trigger] compass_names()[k] by {
        if k == 0 {} else if k == 1 {} else if k == 2 {} else if k == 3 {}
        else if k == 4 {} else if k == 5 {} else if k == 6 {} else {}
    }
}

/// Name of the compass sector numbered `sector`, counted modulo 8.
pub fn cardinal(sector: usize) -> (r: String)
    ensures
        r@ == sector_name((sector % 8) as int),
        r@ == compass_names()[(sector % 8) as int],
{
    proof {
        sectors_run_clockwise_from_north();
    }
    let k = sector % 8;
    let name = if k == 0 {
        "N"
    } else if k == 1 {
        "NE"
    } else if k == 2 {
        "E"
    } else if k == 3 {
        "SE"
    } else if k == 4 {
        "S"
    } else if k == 5 {
        "SW"
    } else if k == 6 {
        "W"
    } else {
        "NW"
    };
    String::from_str(name)
}

/// The route's dominant direction: the sector from the start to the last
/// point, or north for a route without points.
pub fn dominant_direction(last_point_sector: Option<usize>) -> (r: String)
    ensures
        r@ == match last_point_sector {
            Some(s) => sector_name((s % 8) as int),
            None => "N"@,
        },
{
    match last_point_sector {
        Some(s) => cardinal(s),
        None => String::from_str("N"),
    }
}

} // verus!
