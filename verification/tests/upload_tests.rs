use roulette::upload::{start_upload, UploadError};

fn is_v4_text(s: &str) -> bool {
    let b: Vec<char> = s.chars().collect();
    b.len() == 36
        && b.iter().enumerate().all(|(i, c)| {
            if i == 8 || i == 13 || i == 18 || i == 23 {
                *c == '-'
            } else {
                c.is_ascii_digit() || ('a'..='f').contains(c)
            }
        })
        && b[14] == '4'
        && "89ab".contains(b[19])
}

#[test]
fn upload_without_points_is_refused() {
    assert_eq!(start_upload(0).err(), Some(UploadError::NoPoints));
}

#[test]
fn upload_opens_session_with_point_count() {
    let r = start_upload(42).ok().unwrap();
    assert_eq!(r.points, 42);
    assert!(is_v4_text(&r.session_id));
}

#[test]
fn sessions_get_distinct_ids() {
    let a = start_upload(1).ok().unwrap();
    let b = start_upload(1).ok().unwrap();
    assert_ne!(a.session_id, b.session_id);
}
