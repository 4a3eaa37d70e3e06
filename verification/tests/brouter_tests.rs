use roulette::brouter::{body_excerpt, detect_rate_limit, route_legs, segment_url, Profile, RouteError};

#[test]
fn profile_names() {
    assert_eq!(Profile::Trekking.as_str(), "trekking");
    assert_eq!(Profile::Fastbike.as_str(), "fastbike");
    assert_eq!(Profile::Safety.as_str(), "safety");
}

#[test]
fn profile_parse_known_names() {
    assert_eq!(Profile::parse("fastbike"), Profile::Fastbike);
    assert_eq!(Profile::parse("safety"), Profile::Safety);
    assert_eq!(Profile::parse("trekking"), Profile::Trekking);
}

#[test]
fn profile_parse_unknown_falls_back_to_trekking() {
    assert_eq!(Profile::parse(""), Profile::Trekking);
    assert_eq!(Profile::parse("Fastbike"), Profile::Trekking);
    assert_eq!(Profile::parse("safety "), Profile::Trekking);
    assert_eq!(Profile::parse("mtb"), Profile::Trekking);
}

#[test]
fn profile_name_round_trip_on_every_profile() {
    for p in [Profile::Trekking, Profile::Fastbike, Profile::Safety] {
        assert_eq!(Profile::parse(p.as_str()), p);
    }
}

#[test]
fn rate_limit_for_public_server() {
    assert!(detect_rate_limit("https://brouter.de/brouter"));
    assert!(detect_rate_limit("http://x.brouter.de:17777"));
}

#[test]
fn no_rate_limit_for_self_hosted_server() {
    assert!(!detect_rate_limit("http://localhost:17777"));
    assert!(!detect_rate_limit("https://brouter.example.org"));
    assert!(!detect_rate_limit(""));
    assert!(!detect_rate_limit("brouter.d"));
}

#[test]
fn segment_url_puts_longitude_first() {
    let url = segment_url("https://brouter.de/brouter", "48.8566", "2.3522", "45.764", "4.8357", Profile::Fastbike);
    assert_eq!(
        url,
        "https://brouter.de/brouter/brouter?lonlats=2.3522,48.8566|4.8357,45.764&profile=fastbike&alternativeidx=0&format=gpx"
    );
}

#[test]
fn segment_url_default_profile() {
    let url = segment_url("http://h", "1", "2", "3", "4", Profile::Trekking);
    assert_eq!(url, "http://h/brouter?lonlats=2,1|4,3&profile=trekking&alternativeidx=0&format=gpx");
}

#[test]
fn body_excerpt_keeps_short_bodies() {
    assert_eq!(body_excerpt("bad request"), "bad request");
    assert_eq!(body_excerpt(""), "");
}

#[test]
fn body_excerpt_cuts_at_two_hundred_characters() {
    let long: String = std::iter::repeat('é').take(250).collect();
    let ex = body_excerpt(&long);
    assert_eq!(ex.chars().count(), 200);
    assert!(ex.chars().all(|c| c == 'é'));
    let exact: String = std::iter::repeat('x').take(200).collect();
    assert_eq!(body_excerpt(&exact), exact);
}

#[test]
fn route_legs_needs_two_points() {
    let none: Vec<(i32, i32)> = vec![];
    assert_eq!(route_legs(&none).err(), Some(RouteError::TooFewPoints));
    assert_eq!(route_legs(&vec![(1, 2)]).err(), Some(RouteError::TooFewPoints));
}

#[test]
fn route_legs_pairs_consecutive_points() {
    let legs = route_legs(&vec![1, 2, 3, 1]).ok().unwrap();
    assert_eq!(legs, vec![(1, 2), (2, 3), (3, 1)]);
    let two = route_legs(&vec!['a', 'b']).ok().unwrap();
    assert_eq!(two, vec![('a', 'b')]);
}
