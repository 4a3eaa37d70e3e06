use roulette::brouter::Profile;
use roulette::daily::{city_coordinates, city_key, daily_cities, daily_plan, daily_wait_secs, seeded_direction_tenths, DailyQuery, DAILY_DISTANCE_KM};

#[test]
fn ten_daily_cities() {
    let names: Vec<&str> = daily_cities().iter().map(|c| c.name).collect();
    assert_eq!(
        names,
        vec!["paris", "lyon", "marseille", "bordeaux", "toulouse", "nantes", "strasbourg", "lille", "montpellier", "rennes"]
    );
}

#[test]
fn city_coordinates_in_ten_thousandths() {
    assert_eq!(city_coordinates("paris"), Some((488566, 23522)));
    assert_eq!(city_coordinates("bordeaux"), Some((448378, -5792)));
    assert_eq!(city_coordinates("rennes"), Some((481173, -16778)));
    assert_eq!(city_coordinates("Paris"), None);
    assert_eq!(city_coordinates("brest"), None);
}

#[test]
fn fixed_point_coordinates_match_decimal_degrees() {
    let c = city_coordinates("lyon").unwrap();
    assert_eq!(c.0 as f64 / 10000.0, 45.7640);
    assert_eq!(c.1 as f64 / 10000.0, 4.8357);
}

#[test]
fn city_key_lowercases() {
    assert_eq!(city_key(&DailyQuery { city: "PaRiS".to_string() }), "paris");
    assert_eq!(city_key(&DailyQuery { city: "lille".to_string() }), "lille");
}

#[test]
fn seeded_direction_values() {
    assert_eq!(seeded_direction_tenths("paris", "2024-01-01"), 1078);
    assert_eq!(seeded_direction_tenths("lyon", "2025-06-15"), 1376);
    assert_eq!(seeded_direction_tenths("", ""), 403);
}

#[test]
fn same_city_and_day_give_same_direction() {
    assert_eq!(seeded_direction_tenths("nantes", "2025-02-03"), seeded_direction_tenths("nantes", "2025-02-03"));
    assert!(seeded_direction_tenths("nantes", "2025-02-03") < 3600);
}

#[test]
fn daily_plan_of_known_city() {
    let p = daily_plan("paris", "2024-01-01").unwrap();
    assert_eq!((p.lat_e4, p.lon_e4), (488566, 23522));
    assert_eq!(p.direction_tenths, 1078);
    assert_eq!(p.distance_km, DAILY_DISTANCE_KM);
    assert_eq!(p.distance_km, 80);
    assert_eq!(p.profile, Profile::Trekking);
    assert!(p.is_loop);
}

#[test]
fn daily_plan_of_unknown_city() {
    assert_eq!(daily_plan("brest", "2024-01-01"), None);
}

#[test]
fn daily_wait_is_at_least_a_minute() {
    assert_eq!(daily_wait_secs(3600), 3600);
    assert_eq!(daily_wait_secs(60), 60);
    assert_eq!(daily_wait_secs(59), 60);
    assert_eq!(daily_wait_secs(0), 60);
    assert_eq!(daily_wait_secs(-5), 60);
}
