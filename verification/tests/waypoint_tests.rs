use roulette::waypoints::{assemble_route_points, insert_forced_waypoint, nearest_index, waypoint_count};

#[test]
fn waypoint_count_is_clamped() {
    assert_eq!(waypoint_count(0), 2);
    assert_eq!(waypoint_count(1), 2);
    assert_eq!(waypoint_count(2), 2);
    assert_eq!(waypoint_count(5), 5);
    assert_eq!(waypoint_count(8), 8);
    assert_eq!(waypoint_count(9), 8);
    assert_eq!(waypoint_count(usize::MAX), 8);
}

#[test]
fn nearest_index_takes_first_of_ties() {
    assert_eq!(nearest_index(&vec![5, 3, 3, 9]), 1);
    assert_eq!(nearest_index(&vec![7]), 0);
    assert_eq!(nearest_index(&vec![4, 4, 4]), 0);
    assert_eq!(nearest_index(&vec![9, 8, 1]), 2);
}

#[test]
fn forced_waypoint_goes_after_nearest() {
    let mut wps = vec!['a', 'b', 'c'];
    let at = insert_forced_waypoint(&mut wps, 'F', &vec![10, 2, 30]);
    assert_eq!(at, 2);
    assert_eq!(wps, vec!['a', 'b', 'F', 'c']);
}

#[test]
fn forced_waypoint_after_last() {
    let mut wps = vec![1, 2];
    let at = insert_forced_waypoint(&mut wps, 99, &vec![5, 0]);
    assert_eq!(at, 2);
    assert_eq!(wps, vec![1, 2, 99]);
}

#[test]
fn loop_route_returns_to_start() {
    let pts = assemble_route_points(0, &vec![1, 2, 3], true);
    assert_eq!(pts, vec![0, 1, 2, 3, 0]);
}

#[test]
fn oneway_route_ends_at_last_waypoint() {
    let pts = assemble_route_points(0, &vec![1, 2, 3], false);
    assert_eq!(pts, vec![0, 1, 2, 3]);
    let bare = assemble_route_points(7, &Vec::new(), true);
    assert_eq!(bare, vec![7, 7]);
}
