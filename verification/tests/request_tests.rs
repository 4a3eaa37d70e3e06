use roulette::brouter::Profile;
use roulette::request::{default_loop, request_profile};

#[test]
fn requests_default_to_loops() {
    assert!(default_loop());
}

#[test]
fn request_profile_defaults_to_trekking() {
    assert_eq!(request_profile(&None), Profile::Trekking);
    assert_eq!(request_profile(&Some("safety".to_string())), Profile::Safety);
    assert_eq!(request_profile(&Some("fastbike".to_string())), Profile::Fastbike);
    assert_eq!(request_profile(&Some("gravel".to_string())), Profile::Trekking);
}
