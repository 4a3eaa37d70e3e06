use roulette::stats::{cardinal, dominant_direction, elevation_sample_indices};

#[test]
fn samples_every_fifth_point_and_the_last() {
    assert_eq!(elevation_sample_indices(12), vec![0, 5, 10, 11]);
    assert_eq!(elevation_sample_indices(11), vec![0, 5, 10]);
    assert_eq!(elevation_sample_indices(6), vec![0, 5]);
    assert_eq!(elevation_sample_indices(3), vec![0, 2]);
}

#[test]
fn samples_of_tiny_routes() {
    assert_eq!(elevation_sample_indices(0), Vec::<usize>::new());
    assert_eq!(elevation_sample_indices(1), vec![0]);
    assert_eq!(elevation_sample_indices(2), vec![0, 1]);
}

#[test]
fn cardinal_names() {
    let names: Vec<String> = (0..8).map(cardinal).collect();
    assert_eq!(names, vec!["N", "NE", "E", "SE", "S", "SW", "W", "NW"]);
    assert_eq!(cardinal(8), "N");
    assert_eq!(cardinal(13), "SW");
}

#[test]
fn dominant_direction_defaults_to_north() {
    assert_eq!(dominant_direction(None), "N");
    assert_eq!(dominant_direction(Some(2)), "E");
}
