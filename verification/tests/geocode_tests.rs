use roulette::geocode::{geocode_query, nominatim_url, percent_encode, urlencode, GeocodeError, GeocodeQuery};

#[test]
fn urlencode_keeps_unreserved_bytes() {
    assert_eq!(urlencode("Paris-15_e.arr~"), "Paris-15_e.arr~");
    assert_eq!(urlencode(""), "");
}

#[test]
fn urlencode_escapes_everything_else() {
    assert_eq!(urlencode("Saint Malo"), "Saint%20Malo");
    assert_eq!(urlencode("a&b=c/d?"), "a%26b%3Dc%2Fd%3F");
    assert_eq!(urlencode("%"), "%25");
}

#[test]
fn urlencode_escapes_utf8_bytes_in_upper_case_hex() {
    assert_eq!(urlencode("é"), "%C3%A9");
    assert_eq!(urlencode("Orléans"), "Orl%C3%A9ans");
}

#[test]
fn percent_encode_on_raw_bytes() {
    assert_eq!(percent_encode(&[0x00, 0xff, b'A', 0x7f]), "%00%FFA%7F");
}

#[test]
fn nominatim_url_for_query() {
    assert_eq!(
        nominatim_url("place de la Concorde"),
        "https://nominatim.openstreetmap.org/search?q=place%20de%20la%20Concorde&format=json&limit=1"
    );
}

#[test]
fn geocode_query_is_trimmed() {
    let q = GeocodeQuery { q: "  Lyon \n".to_string() };
    assert_eq!(geocode_query(&q), Ok("Lyon".to_string()));
    let inner = GeocodeQuery { q: " Le Mans ".to_string() };
    assert_eq!(geocode_query(&inner), Ok("Le Mans".to_string()));
}

#[test]
fn geocode_query_refuses_blank_queries() {
    assert_eq!(geocode_query(&GeocodeQuery { q: String::new() }), Err(GeocodeError::EmptyQuery));
    assert_eq!(geocode_query(&GeocodeQuery { q: " \t ".to_string() }), Err(GeocodeError::EmptyQuery));
}

fn decode(s: &str) -> Vec<u8> {
    let b = s.as_bytes();
    let mut out = Vec::new();
    let mut i = 0;
    while i < b.len() {
        if b[i] == b'%' && i + 2 < b.len() {
            let hex = std::str::from_utf8(&b[i + 1..i + 3]).unwrap();
            out.push(u8::from_str_radix(hex, 16).unwrap());
            i += 3;
        } else {
            out.push(b[i]);
            i += 1;
        }
    }
    out
}

#[test]
fn urlencode_round_trip() {
    for q in ["Saint-Étienne", "100% vélo & co", "", "~_.-", "東京"] {
        let enc = urlencode(q);
        assert!(enc.chars().all(|c| c.is_ascii_alphanumeric() || "-_.~%".contains(c)));
        assert_eq!(decode(&enc), q.as_bytes());
    }
}

#[test]
fn geocode_query_trims_unicode_white_space() {
    let q = GeocodeQuery { q: "\u{3000}Nice\u{a0}\u{2009}".to_string() };
    assert_eq!(geocode_query(&q), Ok("Nice".to_string()));
    let blank = GeocodeQuery { q: "\u{85}\u{2028} \u{202f}".to_string() };
    assert_eq!(geocode_query(&blank), Err(GeocodeError::EmptyQuery));
}
