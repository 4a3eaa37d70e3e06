//! Routing profiles and the requests sent to a BRouter server.

use vstd::prelude::*;
use crate::text::{str_eq, contains_bytes, has_subslice};
use vstd::string::{StringExecFns, StrSliceExecFns, StringSliceAdditionalSpecFns};

verus! {

/// A BRouter routing profile.
#[derive(Clone, Copy, Debug, PartialEq, Eq, Structural)]
pub enum Profile {
    Trekking,
    Fastbike,
    Safety,
}

/// The name BRouter knows a profile by.
pub open spec fn profile_name(p: Profile) -> Seq<char> {
    match p {
        Profile::Trekking => "trekking"@,
        Profile::Fastbike => "fastbike"@,
        Profile::Safety => "safety"@,
    }
}

/// The profile a request names; anything unknown falls back to trekking.
pub open spec fn profile_named(s: Seq<char>) -> Profile {
    if s == "fastbike"@ {
        Profile::Fastbike
    } else if s == "safety"@ {
        Profile::Safety
    } else {
        Profile::Trekking
    }
}

impl Profile {
    /// The profile's name as BRouter expects it in a request.
    pub fn as_str(&self) -> (r: &'static str)
        ensures
            r@ == profile_name(*self),
    {
        match self {
            Profile::Trekking => "trekking",
            Profile::Fastbike => "fastbike",
            Profile::Safety => "safety",
        }
    }

    /// Reads a profile name; an unknown name gives `Trekking`.
    pub fn parse(s: &str) -> (r: Profile)
        ensures
            r == profile_named(s@),
    {
        if str_eq(s, "fastbike") {
            Profile::Fastbike
        } else if str_eq(s, "safety") {
            Profile::Safety
        } else {
            Profile::Trekking
        }
    }
}

/// Reading back the name of a profile gives the same profile.
pub proof fn profile_name_round_trip(p: Profile)
    ensures
        profile_named(profile_name(p)) == p,
{
    reveal_strlit("trekking");
    reveal_strlit("fastbike");
    reveal_strlit("safety");
    if p == Profile::Trekking {
        assert("trekking"@ != "fastbike"@) by {
            assert("trekking"@[0] != "fastbike"@[0]);
        }
        assert("trekking"@ != "safety"@) by {
            assert("trekking"@[0] != "safety"@[0]);
        }
    } else if p == Profile::Safety {
        assert("safety"@ != "fastbike"@) by {
            assert("safety"@[0] != "fastbike"@[0]);
        }
    }
}

/// Whether the BRouter base URL points at the public brouter.de server,
/// whose requests must be spaced out.
pub fn detect_rate_limit(url: &str) -> (r: bool)
    ensures
        r == has_subslice(url.spec_bytes(), "brouter.de".spec_bytes()),
{
    contains_bytes(url.as_bytes(), "brouter.de".as_bytes())
}

/// The URL that asks `base` for the route between two points, each given
/// as the decimal text of its latitude and longitude. BRouter takes
/// longitude first.
pub open spec fn segment_url_spec(
    base: Seq<char>,
    from_lat: Seq<char>,
    from_lon: Seq<char>,
    to_lat: Seq<char>,
    to_lon: Seq<char>,
    p: Profile,
) -> Seq<char> {
    base + "/brouter?lonlats="@ + from_lon + ","@ + from_lat + "|"@ + to_lon + ","@ + to_lat
        + "&profile="@ + profile_name(p) + "&alternativeidx=0&format=gpx"@
}

/// Builds the GPX routing request for one leg.
pub fn segment_url(
    base: &str,
    from_lat: &str,
    from_lon: &str,
    to_lat: &str,
    to_lon: &str,
    p: Profile,
) -> (r: String)
    ensures
        r@ == segment_url_spec(base@, from_lat@, from_lon@, to_lat@, to_lon@, p),
        r@ == base@ + "/brouter?lonlats="@ + from_lon@ + ","@ + from_lat@ + "|"@ + to_lon@ + ","@
            + to_lat@ + "&profile="@ + requested_profile_text(p) + "&alternativeidx=0&format=gpx"@,
{
    let mut url = String::from_str(base);
    url.append("/brouter?lonlats=");
    url.append(from_lon);
    url.append(",");
    url.append(from_lat);
    url.append("|");
    url.append(to_lon);
    url.append(",");
    url.append(to_lat);
    url.append("&profile=");
    url.append(p.as_str());
    url.append("&alternativeidx=0&format=gpx");
    proof {
        segment_url_names_requested_profile(base@, from_lat@, from_lon@, to_lat@, to_lon@, p);
    }
    url
}

/// Most characters of an error body quoted in a routing error.
pub const ERROR_EXCERPT_CHARS: usize = 200;

/// The start of a failed response's body, at most `ERROR_EXCERPT_CHARS` characters.
pub fn body_excerpt(body: &str) -> (r: String)
    ensures
        r@ == body@.take(
            if body@.len() < ERROR_EXCERPT_CHARS { body@.len() as int } else { ERROR_EXCERPT_CHARS as int },
        ),
{
    let n = body.unicode_len();
    let end = if n < ERROR_EXCERPT_CHARS { n } else { ERROR_EXCERPT_CHARS };
    let head = body.substring_char(0, end);
    String::from_str(head)
}

/// Why a route cannot be asked for.
#[derive(Clone, Copy, Debug, PartialEq, Eq, Structural)]
pub enum RouteError {
    /// Fewer than two points were given.
    TooFewPoints,
}

/// Consecutive pairs of points: the legs routed one by one.
pub open spec fn legs_of<T>(pts: Seq<T>) -> Seq<(T, T)> {
    Seq::new((pts.len() - 1) as nat, |i: int| (pts[i], pts[i + 1]))
}

/// The profile text a request names, written out per profile.
pub open spec fn requested_profile_text(p: Profile) -> Seq<char> {
    match p {
        Profile::Trekking => "trekking"@,
        Profile::Fastbike => "fastbike"@,
        Profile::Safety => "safety"@,
    }
}

/// The URL of a leg carries the requested profile's own name after
/// `&profile=`, and that name reads back as the same profile; the
/// coordinates come longitude first, start then end.
pub proof fn segment_url_names_requested_profile(
    base: Seq<char>,
    from_lat: Seq<char>,
    from_lon: Seq<char>,
    to_lat: Seq<char>,
    to_lon: Seq<char>,
    p: Profile,
)
    ensures
        segment_url_spec(base, from_lat, from_lon, to_lat, to_lon, p) == base + "/brouter?lonlats="@
            + from_lon + ","@ + from_lat + "|"@ + to_lon + ","@ + to_lat + "&profile="@
            + requested_profile_text(p) + "&alternativeidx=0&format=gpx"@,
        profile_named(requested_profile_text(p)) == p,
        p == Profile::Safety ==> requested_profile_text(p) == "safety"@,
        p == Profile::Fastbike ==> requested_profile_text(p) == "fastbike"@,
        p == Profile::Trekking ==> requested_profile_text(p) == "trekking"@,
{
    profile_name_round_trip(p);
}

/// A route through `n >= 2` points has `n - 1` legs, and leg `i` goes from
/// point `i` to point `i + 1`: the first leg leaves the first point and the
/// last leg reaches the last point.
pub proof fn legs_cover_every_consecutive_pair<T>(pts: Seq<T>)
    requires
        pts.len() >= 2,
    ensures
        legs_of(pts).len() == pts.len() - 1,
        forall|i: int| 0 <= i < pts.len() - 1 ==> #[trigger] legs_of(pts)[i] == (pts[i], pts[i + 1]),
        legs_of(pts)[0].0 == pts[0],
        legs_of(pts)[pts.len() - 2].1 == pts[pts.len() - 1],
{
}

/// The legs a route through `points` is made of, in order; at least two
/// points are needed.
pub fn route_legs<T: Copy>(points: &Vec<T>) -> (r: Result<Vec<(T, T)>, RouteError>)
    ensures
        points@.len() < 2 <==> r is Err,
        r matches Ok(legs) ==> legs@ == legs_of(points@),
        r matches Ok(legs) ==> {
            &&& legs@.len() + 1 == points@.len()
            &&& forall|i: int| 0 <= i < points@.len() - 1 ==> #[trigger] legs@[i] == (points@[i], points@[i + 1])
        },
{
    let n = points.len();
    if n < 2 {
        return Err(RouteError::TooFewPoints);
    }
    let mut legs: Vec<(T, T)> = Vec::new();
    let mut i: usize = 0;
    while i + 1 < n
        invariant
            n == points@.len(),
            n >= 2,
            i + 1 <= n,
            legs@ == legs_of(points@.take(i as int + 1)),
        decreases n - i,
    {
        legs.push((points[i], points[i + 1]));
        assert(legs@ =~= legs_of(points@.take(i as int + 2)));
        i = i + 1;
    }
    assert(points@.take(n as int) =~= points@);
    proof {
        legs_cover_every_consecutive_pair(points@);
    }
    Ok(legs)
}

} // verus!
