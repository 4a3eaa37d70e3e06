//! The daily challenge: one seeded loop per city and per day.

use vstd::prelude::*;
use vstd::string::StringSliceAdditionalSpecFns;
use crate::brouter::Profile;
use crate::text::str_eq;

verus! {

/// What `str::to_lowercase` makes of a string: its lower-case form as
/// the Unicode `Lowercase` property defines it (a character may map to
/// several, and a final capital sigma is mapped by its context).
pub uninterp spec fn lowercased(s: Seq<char>) -> Seq<char>;

/// Calls `str::to_lowercase`; claims only that the result is the
/// `lowercased` form of the input, a function of the input alone.
#[verifier::external_body]
fn lowercase(s: &str) -> (r: String)
    ensures
        r@ == lowercased(s@),
{
    s.to_lowercase()
}

/// The query of a daily-route request.
pub struct DailyQuery {
    pub city: String,
}

/// The city name a daily request is looked up and seeded by.
pub fn city_key(q: &DailyQuery) -> (k: String)
    ensures
        k@ == lowercased(q.city@),
{
    lowercase(q.city.as_str())
}

/// Length of every daily loop, in kilometres.
pub const DAILY_DISTANCE_KM: u32 = 80;

/// A city with a daily challenge; coordinates in ten-thousandths of a degree.
#[derive(Clone, Copy, Debug)]
pub struct City {
    pub name: &'static str,
    pub lat_e4: i32,
    pub lon_e4: i32,
}

/// The cities with a daily challenge: name, latitude and longitude in
/// ten-thousandths of a degree.
pub open spec fn city_table() -> Seq<(Seq<char>, int, int)> {
    seq![
        ("paris"@, 488566, 23522),
        ("lyon"@, 457640, 48357),
        ("marseille"@, 432965, 53698),
        ("bordeaux"@, 448378, -5792),
        ("toulouse"@, 436047, 14442),
        ("nantes"@, 472184, -15536),
        ("strasbourg"@, 485734, 77521),
        ("lille"@, 506292, 30573),
        ("montpellier"@, 436108, 38767),
        ("rennes"@, 481173, -16778),
    ]
}

/// The table entry of `c`.
pub open spec fn city_entry(c: City) -> (Seq<char>, int, int) {
    (c.name@, c.lat_e4 as int, c.lon_e4 as int)
}

/// The daily cities, in table order.
pub fn daily_cities() -> (r: Vec<City>)
    ensures
        r@.len() == city_table().len(),
        forall|i: int| 0 <= i < r@.len() ==> city_entry(#[trigger] r@[i]) == city_table()[i],
{
    let r = vec![
        City { name: "paris", lat_e4: 488566, lon_e4: 23522 },
        City { name: "lyon", lat_e4: 457640, lon_e4: 48357 },
        City { name: "marseille", lat_e4: 432965, lon_e4: 53698 },
        City { name: "bordeaux", lat_e4: 448378, lon_e4: -5792 },
        City { name: "toulouse", lat_e4: 436047, lon_e4: 14442 },
        City { name: "nantes", lat_e4: 472184, lon_e4: -15536 },
        City { name: "strasbourg", lat_e4: 485734, lon_e4: 77521 },
        City { name: "lille", lat_e4: 506292, lon_e4: 30573 },
        City { name: "montpellier", lat_e4: 436108, lon_e4: 38767 },
        City { name: "rennes", lat_e4: 481173, lon_e4: -16778 },
    ];
    assert forall|i: int| 0 <= i < r@.len() implies city_entry(#[trigger] r@[i]) == city_table()[i] by {
    }
    r
}

/// The coordinates of the first city in `t` named `name`.
pub open spec fn find_city(t: Seq<(Seq<char>, int, int)>, name: Seq<char>) -> Option<(int, int)>
    decreases t.len(),
{
    if t.len() == 0 {
        None
    } else if t[0].0 == name {
        Some((t[0].1, t[0].2))
    } else {
        find_city(t.drop_first(), name)
    }
}

/// The whole table is within metropolitan France: latitudes between
/// 41.3° N and 51.1° N, longitudes between 5.2° W and 9.6° E. In
/// particular no entry has its latitude and longitude swapped.
pub proof fn daily_cities_are_in_france(name: Seq<char>)
    ensures
        find_city(city_table(), name) matches Some((lat, lon)) ==> 413000 <= lat <= 511000 && -52000
            <= lon <= 96000,
{
    let t = city_table();
    assert forall|i: int| 0 <= i < t.len() implies 413000 <= (#[trigger] t[i]).1 <= 511000 && -52000
        <= t[i].2 <= 96000 by {}
    find_city_is_an_entry(t, name);
}

proof fn find_city_is_an_entry(t: Seq<(Seq<char>, int, int)>, name: Seq<char>)
    ensures
        find_city(t, name) matches Some((lat, lon)) ==> exists|i: int|
            0 <= i < t.len() && #[trigger] t[i] == (name, lat, lon),
    decreases t.len(),
{
    if t.len() > 0 && t[0].0 != name {
        find_city_is_an_entry(t.drop_first(), name);
        if let Some((lat, lon)) = find_city(t, name) {
            let i = choose|i: int| 0 <= i < t.drop_first().len() && #[trigger] t.drop_first()[i] == (name, lat, lon);
            assert(t[i + 1] == (name, lat, lon));
        }
    } else if t.len() > 0 {
        assert(t[0] == (name, t[0].1, t[0].2));
    }
}

/// Each daily city has the coordinates of its city centre, in
/// ten-thousandths of a degree (latitude, longitude).
pub proof fn daily_city_coordinates()
    ensures
        find_city(city_table(), "paris"@) == Some((488566int, 23522int)),
        find_city(city_table(), "lyon"@) == Some((457640int, 48357int)),
        find_city(city_table(), "marseille"@) == Some((432965int, 53698int)),
        find_city(city_table(), "bordeaux"@) == Some((448378int, -5792int)),
        find_city(city_table(), "toulouse"@) == Some((436047int, 14442int)),
        find_city(city_table(), "nantes"@) == Some((472184int, -15536int)),
        find_city(city_table(), "strasbourg"@) == Some((485734int, 77521int)),
        find_city(city_table(), "lille"@) == Some((506292int, 30573int)),
        find_city(city_table(), "montpellier"@) == Some((436108int, 38767int)),
        find_city(city_table(), "rennes"@) == Some((481173int, -16778int)),
{
    reveal_strlit("paris");
    reveal_strlit("lyon");
    reveal_strlit("marseille");
    reveal_strlit("bordeaux");
    reveal_strlit("toulouse");
    reveal_strlit("nantes");
    reveal_strlit("strasbourg");
    reveal_strlit("lille");
    reveal_strlit("montpellier");
    reveal_strlit("rennes");
    let t = city_table();
    assert("lille"@[0] != "paris"@[0]);
    assert("toulouse"@[0] != "bordeaux"@[0]);
    assert("rennes"@[0] != "nantes"@[0]);
    assert(t[0].0 == "paris"@ && "paris"@.len() == 5);
    assert(t[1].0 == "lyon"@ && "lyon"@.len() == 4);
    assert(t[2].0 == "marseille"@ && "marseille"@.len() == 9);
    assert(t[3].0 == "bordeaux"@ && "bordeaux"@.len() == 8);
    assert(t[4].0 == "toulouse"@ && "toulouse"@.len() == 8);
    assert(t[5].0 == "nantes"@ && "nantes"@.len() == 6);
    assert(t[6].0 == "strasbourg"@ && "strasbourg"@.len() == 10);
    assert(t[7].0 == "lille"@ && "lille"@.len() == 5);
    assert(t[8].0 == "montpellier"@ && "montpellier"@.len() == 11);
    assert(t[9].0 == "rennes"@ && "rennes"@.len() == 6);
    assert forall|i: int, j: int| 0 <= j < i < 10 implies (#[trigger] t[j]).0 != (#[trigger] t[i]).0 by {
        if t[j].0 == t[i].0 {
            assert(t[j].0.len() == t[i].0.len());
            assert(t[j].0[0] == t[i].0[0]);
        }
    }
    assert forall|i: int| 0 <= i < 10 implies find_city(t, (#[trigger] t[i]).0) == Some((t[i].1, t[i].2)) by {
        find_city_at(t, i);
    }
    assert(t[0].0 == "paris"@);
    assert(t[1].0 == "lyon"@);
    assert(t[2].0 == "marseille"@);
    assert(t[3].0 == "bordeaux"@);
    assert(t[4].0 == "toulouse"@);
    assert(t[5].0 == "nantes"@);
    assert(t[6].0 == "strasbourg"@);
    assert(t[7].0 == "lille"@);
    assert(t[8].0 == "montpellier"@);
    assert(t[9].0 == "rennes"@);
}

proof fn find_city_at(t: Seq<(Seq<char>, int, int)>, i: int)
    requires
        0 <= i < t.len(),
        forall|j: int| 0 <= j < i ==> (#[trigger] t[j]).0 != t[i].0,
    ensures
        find_city(t, t[i].0) == Some((t[i].1, t[i].2)),
    decreases i,
{
    if i > 0 {
        let r = t.drop_first();
        assert forall|j: int| 0 <= j < i - 1 implies (#[trigger] r[j]).0 != r[i - 1].0 by {
            assert(r[j] == t[j + 1]);
        }
        find_city_at(r, i - 1);
        assert(r[i - 1] == t[i]);
        assert(t[0].0 != t[i].0);
    }
}

/// Looks a city up by its (lower-case) name.
pub fn city_coordinates(name: &str) -> (r: Option<(i32, i32)>)
    ensures
        r matches Some(c) ==> find_city(city_table(), name@) == Some((c.0 as int, c.1 as int)),
        r is None ==> find_city(city_table(), name@) is None,
        r matches Some(c) ==> 413000 <= c.0 <= 511000 && -52000 <= c.1 <= 96000,
{
    proof {
        daily_cities_are_in_france(name@);
    }
    let cities = daily_cities();
    let n = cities.len();
    let mut i: usize = 0;
    assert(city_table().skip(0) =~= city_table());
    while i < n
        invariant
            n == cities@.len(),
            n == city_table().len(),
            i <= n,
            forall|k: int| 0 <= k < n ==> city_entry(#[trigger] cities@[k]) == city_table()[k],
            find_city(city_table(), name@) == find_city(city_table().skip(i as int), name@),
        decreases n - i,
    {
        let c = cities[i];
        assert(city_entry(cities@[i as int]) == city_table()[i as int]);
        assert(city_table().skip(i as int).drop_first() =~= city_table().skip(i + 1));
        if str_eq(c.name, name) {
            return Some((c.lat_e4, c.lon_e4));
        }
        i = i + 1;
    }
    assert(city_table().skip(n as int).len() == 0);
    None
}

/// Starting value of the seed hash.
pub const SEED_OFFSET: u64 = 1469598103934665603;
/// Multiplier of the seed hash.
pub const SEED_PRIME: u64 = 1099511628211;

/// `x * y` modulo 2^64.
pub open spec fn mul_mod64(x: u64, y: u64) -> u64 {
    ((x as nat * y as nat) % 0x1_0000_0000_0000_0000) as u64
}

/// The seed hash of a byte sequence: for each byte, xor it in, then
/// multiply by `SEED_PRIME` modulo 2^64.
pub open spec fn seed_hash(bytes: Seq<u8>) -> u64
    decreases bytes.len(),
{
    if bytes.len() == 0 {
        SEED_OFFSET
    } else {
        mul_mod64(seed_hash(bytes.drop_last()) ^ (bytes.last() as u64), SEED_PRIME)
    }
}

/// The day's starting direction for a city, in tenths of a degree.
pub open spec fn seeded_tenths(city: Seq<u8>, date: Seq<u8>) -> u64 {
    (seed_hash(city + date) % 3600) as u64
}

/// The starting direction of the daily loop of `city` on `date`, in
/// tenths of a degree (0 to 3599): the seed hash of the city's bytes
/// followed by the date's, modulo 3600.
pub fn seeded_direction_tenths(city: &str, date: &str) -> (d: u64)
    ensures
        d == seeded_tenths(city.spec_bytes(), date.spec_bytes()),
        d < 3600,
{
    let cb = city.as_bytes();
    let db = date.as_bytes();
    let mut h: u64 = SEED_OFFSET;
    let mut i: usize = 0;
    while i < cb.len()
        invariant
            i <= cb@.len(),
            h == seed_hash(cb@.take(i as int)),
        decreases cb@.len() - i,
    {
        assert(cb@.take(i + 1).drop_last() =~= cb@.take(i as int));
        h = (h ^ (cb[i] as u64)).wrapping_mul(SEED_PRIME);
        i = i + 1;
    }
    assert(cb@.take(cb@.len() as int) =~= cb@);
    let mut j: usize = 0;
    while j < db.len()
        invariant
            j <= db@.len(),
            h == seed_hash(cb@ + db@.take(j as int)),
        decreases db@.len() - j,
    {
        assert((cb@ + db@.take(j + 1)).drop_last() =~= cb@ + db@.take(j as int));
        assert((cb@ + db@.take(j + 1)).last() == db@[j as int]);
        h = (h ^ (db[j] as u64)).wrapping_mul(SEED_PRIME);
        j = j + 1;
    }
    assert(db@.take(db@.len() as int) =~= db@);
    assert(cb@ + db@.take(0) =~= cb@);
    h % 3600
}

/// Everything that fixes a city's daily loop.
#[derive(Clone, Copy, Debug, PartialEq, Eq, Structural)]
pub struct DailyPlan {
    pub lat_e4: i32,
    pub lon_e4: i32,
    pub direction_tenths: u64,
    pub distance_km: u32,
    pub profile: Profile,
    pub is_loop: bool,
}

/// The daily loop of `city` (lower-case) on `date`: none for a city
/// without a daily challenge.
pub fn daily_plan(city: &str, date: &str) -> (r: Option<DailyPlan>)
    ensures
        r is None <==> find_city(city_table(), city@) is None,
        r matches Some(p) ==> {
            &&& find_city(city_table(), city@) == Some((p.lat_e4 as int, p.lon_e4 as int))
            &&& p.direction_tenths == seeded_tenths(city.spec_bytes(), date.spec_bytes())
            &&& p.distance_km == DAILY_DISTANCE_KM
            &&& p.distance_km == 80
            &&& p.profile == Profile::Trekking
            &&& p.is_loop
            &&& 413000 <= p.lat_e4 <= 511000 && -52000 <= p.lon_e4 <= 96000
        },
{
    match city_coordinates(city) {
        Some((lat, lon)) => Some(DailyPlan {
            lat_e4: lat,
            lon_e4: lon,
            direction_tenths: seeded_direction_tenths(city, date),
            distance_km: DAILY_DISTANCE_KM,
            profile: Profile::Trekking,
            is_loop: true,
        }),
        None => None,
    }
}

/// Shortest wait before the daily routes are regenerated, in seconds.
pub const MIN_DAILY_WAIT_SECS: i64 = 60;

/// Seconds to wait for the next regeneration, given the seconds left
/// until the next UTC midnight: never less than a minute.
pub fn daily_wait_secs(until_midnight: i64) -> (s: u64)
    ensures
        s == if until_midnight < MIN_DAILY_WAIT_SECS { MIN_DAILY_WAIT_SECS as int } else { until_midnight as int },
{
    if until_midnight < MIN_DAILY_WAIT_SECS {
        MIN_DAILY_WAIT_SECS as u64
    } else {
        until_midnight as u64
    }
}

} // verus!
