//! Geocoding queries: the query a user typed and the Nominatim search URL.

use vstd::prelude::*;
use vstd::string::{StringExecFns, StringSliceAdditionalSpecFns};
use crate::text::push_char;

verus! {

/// A character with the Unicode `White_Space` property, the test
/// `char::is_whitespace` makes: U+0009 to U+000D, U+0020, U+0085, U+00A0,
/// U+1680, U+2000 to U+200A, U+2028, U+2029, U+202F, U+205F and U+3000.
pub open spec fn is_white_space(c: char) -> bool {
    let u = c as u32;
    ||| (0x9 <= u && u <= 0xD)
    ||| u == 0x20
    ||| u == 0x85
    ||| u == 0xA0
    ||| u == 0x1680
    ||| (0x2000 <= u && u <= 0x200A)
    ||| u == 0x2028
    ||| u == 0x2029
    ||| u == 0x202F
    ||| u == 0x205F
    ||| u == 0x3000
}

/// `s` without its leading white space.
pub open spec fn trim_start(s: Seq<char>) -> Seq<char>
    decreases s.len(),
{
    if s.len() > 0 && is_white_space(s[0]) {
        trim_start(s.drop_first())
    } else {
        s
    }
}

/// `s` without its trailing white space.
pub open spec fn trim_end(s: Seq<char>) -> Seq<char>
    decreases s.len(),
{
    if s.len() > 0 && is_white_space(s.last()) {
        trim_end(s.drop_last())
    } else {
        s
    }
}

/// What `str::trim` leaves of a string: the string without its leading
/// and trailing white space.
pub open spec fn trimmed(s: Seq<char>) -> Seq<char> {
    trim_end(trim_start(s))
}

/// Calls `str::trim`; claims that the result is the input without its
/// leading and trailing `White_Space` characters, as std documents.
#[verifier::external_body]
fn trim_str(s: &str) -> (r: &str)
    ensures
        r@ == trimmed(s@),
{
    s.trim()
}

proof fn trim_start_of_blank(s: Seq<char>)
    requires
        forall|i: int| 0 <= i < s.len() ==> is_white_space(#[trigger] s[i]),
    ensures
        trim_start(s).len() == 0,
    decreases s.len(),
{
    if s.len() > 0 {
        let t = s.drop_first();
        assert forall|i: int| 0 <= i < t.len() implies is_white_space(#[trigger] t[i]) by {
            assert(t[i] == s[i + 1]);
        }
        trim_start_of_blank(t);
    }
}

/// A query made only of white space (or empty) trims to nothing, and is
/// therefore refused by `geocode_query`.
pub proof fn blank_queries_trim_to_nothing(s: Seq<char>)
    requires
        forall|i: int| 0 <= i < s.len() ==> is_white_space(#[trigger] s[i]),
    ensures
        trimmed(s).len() == 0,
{
    trim_start_of_blank(s);
}

/// Trimming keeps a query that neither starts nor ends with white space.
pub proof fn trimmed_keeps_clean_query(s: Seq<char>)
    requires
        s.len() > 0,
        !is_white_space(s[0]),
        !is_white_space(s.last()),
    ensures
        trimmed(s) == s,
{
}

/// The query string of a geocoding request.
pub struct GeocodeQuery {
    pub q: String,
}

/// Why a geocoding query is refused before any lookup.
#[derive(Debug, PartialEq, Eq, Structural)]
pub enum GeocodeError {
    EmptyQuery,
}

/// Bytes that go into a URL unchanged.
pub open spec fn is_unreserved(b: u8) -> bool {
    ||| (65 <= b && b <= 90)
    ||| (97 <= b && b <= 122)
    ||| (48 <= b && b <= 57)
    ||| b == 45
    ||| b == 95
    ||| b == 46
    ||| b == 126
}

/// Upper-case hexadecimal digit of a nibble.
pub open spec fn hex_digit(n: u8) -> char
    recommends
        n < 16,
{
    if n < 10 {
        ((48 + n) as u8) as char
    } else {
        ((55 + n) as u8) as char
    }
}

/// The encoding of one byte: itself if unreserved, else `%XY`.
pub open spec fn encode_byte(b: u8) -> Seq<char> {
    if is_unreserved(b) {
        seq![b as char]
    } else {
        seq!['%', hex_digit(b / 16), hex_digit(b % 16)]
    }
}

/// Percent-encoding of a byte sequence, byte by byte.
pub open spec fn percent_encoded(bytes: Seq<u8>) -> Seq<char>
    decreases bytes.len(),
{
    if bytes.len() == 0 {
        Seq::empty()
    } else {
        percent_encoded(bytes.drop_last()) + encode_byte(bytes.last())
    }
}

fn hex_digit_exec(n: u8) -> (c: char)
    requires
        n < 16,
    ensures
        c == hex_digit(n),
{
    if n < 10 {
        (48 + n) as char
    } else {
        (55 + n) as char
    }
}

/// A character that can stand in a URL query without further escaping:
/// an unreserved character, `%`, or an upper-case hexadecimal digit.
pub open spec fn is_url_safe(c: char) -> bool {
    ||| ('A' <= c && c <= 'Z')
    ||| ('a' <= c && c <= 'z')
    ||| ('0' <= c && c <= '9')
    ||| c == '-'
    ||| c == '_'
    ||| c == '.'
    ||| c == '~'
    ||| c == '%'
}

/// Percent-encoding only produces URL-safe characters, never shortens the
/// input, and leaves text made of unreserved bytes unchanged.
pub proof fn percent_encoding_is_url_safe(bytes: Seq<u8>)
    ensures
        forall|k: int| 0 <= k < percent_encoded(bytes).len() ==> is_url_safe(#[trigger] percent_encoded(bytes)[k]),
        percent_encoded(bytes).len() >= bytes.len(),
        (forall|i: int| 0 <= i < bytes.len() ==> is_unreserved(#[trigger] bytes[i])) ==>
            percent_encoded(bytes) == bytes.map_values(|b: u8| b as char),
    decreases bytes.len(),
{
    if bytes.len() > 0 {
        let init = bytes.drop_last();
        let b = bytes.last();
        percent_encoding_is_url_safe(init);
        let e = encode_byte(b);
        assert forall|k: int| 0 <= k < e.len() implies is_url_safe(#[trigger] e[k]) by {
            if !is_unreserved(b) {
                assert(b / 16 < 16);
                assert(b % 16 < 16);
            }
        }
        let whole = percent_encoded(bytes);
        let pre = percent_encoded(init);
        assert(whole == pre + e);
        assert forall|k: int| 0 <= k < whole.len() implies is_url_safe(#[trigger] whole[k]) by {
            if k < pre.len() {
                assert(whole[k] == pre[k]);
            } else {
                assert(whole[k] == e[k - pre.len()]);
            }
        }
        if forall|i: int| 0 <= i < bytes.len() ==> is_unreserved(#[trigger] bytes[i]) {
            assert forall|i: int| 0 <= i < init.len() implies is_unreserved(#[trigger] init[i]) by {
                assert(init[i] == bytes[i]);
            }
            assert(is_unreserved(bytes[bytes.len() - 1]));
            assert(whole =~= bytes.map_values(|b: u8| b as char));
        }
    }
}

/// Value of an upper-case hexadecimal digit.
pub open spec fn hex_value(c: char) -> int {
    if '0' <= c && c <= '9' {
        c as int - 48
    } else {
        c as int - 55
    }
}

/// Reads percent-encoded text back into bytes: `%XY` gives the byte with
/// hexadecimal value `XY`, any other character gives its own code.
pub open spec fn percent_decoded(chars: Seq<char>) -> Seq<u8>
    decreases chars.len(),
{
    if chars.len() == 0 {
        Seq::empty()
    } else if chars[0] == '%' && chars.len() >= 3 {
        seq![(hex_value(chars[1]) * 16 + hex_value(chars[2])) as u8] + percent_decoded(chars.skip(3))
    } else {
        seq![chars[0] as u8] + percent_decoded(chars.skip(1))
    }
}

proof fn percent_encoded_front(bytes: Seq<u8>)
    requires
        bytes.len() > 0,
    ensures
        percent_encoded(bytes) == encode_byte(bytes[0]) + percent_encoded(bytes.drop_first()),
    decreases bytes.len(),
{
    if bytes.len() == 1 {
        assert(bytes.drop_last() =~= Seq::<u8>::empty());
        assert(bytes.drop_first() =~= Seq::<u8>::empty());
        assert(percent_encoded(bytes.drop_first()) =~= Seq::<char>::empty());
        assert(encode_byte(bytes[0]) + Seq::<char>::empty() =~= encode_byte(bytes[0]));
    } else {
        let init = bytes.drop_last();
        percent_encoded_front(init);
        assert(init.drop_first() =~= bytes.drop_first().drop_last());
        assert(bytes.drop_first().last() == bytes.last());
        assert(init[0] == bytes[0]);
        assert(percent_encoded(bytes) =~= encode_byte(bytes[0]) + percent_encoded(bytes.drop_first()));
    }
}

proof fn decode_one_byte(b: u8, rest: Seq<char>)
    ensures
        percent_decoded(encode_byte(b) + rest) == seq![b] + percent_decoded(rest),
{
    let e = encode_byte(b);
    let all = e + rest;
    if is_unreserved(b) {
        assert(all[0] == b as char);
        assert(all.skip(1) =~= rest);
        assert((b as char) as u8 == b);
    } else {
        assert(all[0] == '%');
        assert(all.skip(3) =~= rest);
        let hi = b / 16;
        let lo = b % 16;
        assert(hex_value(hex_digit(hi)) == hi as int);
        assert(hex_value(hex_digit(lo)) == lo as int);
        assert(hi as int * 16 + lo as int == b as int);
    }
}

/// Decoding the percent-encoding of bytes gives the bytes back: the query
/// reaches the geocoder unchanged.
pub proof fn percent_encoding_round_trip(bytes: Seq<u8>)
    ensures
        percent_decoded(percent_encoded(bytes)) == bytes,
    decreases bytes.len(),
{
    if bytes.len() == 0 {
    } else {
        percent_encoded_front(bytes);
        decode_one_byte(bytes[0], percent_encoded(bytes.drop_first()));
        percent_encoding_round_trip(bytes.drop_first());
        assert(seq![bytes[0]] + bytes.drop_first() =~= bytes);
    }
}

/// Percent-encodes bytes for a URL query: unreserved bytes
/// (`A-Z a-z 0-9 - _ . ~`) stay, every other byte becomes `%XY`.
pub fn percent_encode(bytes: &[u8]) -> (r: String)
    ensures
        r@ == percent_encoded(bytes@),
{
    let mut out = String::new();
    let n = bytes.len();
    let mut i: usize = 0;
    while i < n
        invariant
            n == bytes@.len(),
            i <= n,
            out@ == percent_encoded(bytes@.take(i as int)),
        decreases n - i,
    {
        let b = bytes[i];
        proof {
            assert(bytes@.take(i + 1).drop_last() =~= bytes@.take(i as int));
            assert(bytes@.take(i + 1).last() == b);
        }
        if (65 <= b && b <= 90) || (97 <= b && b <= 122) || (48 <= b && b <= 57) || b == 45
            || b == 95 || b == 46 || b == 126 {
            push_char(&mut out, b as char);
        } else {
            push_char(&mut out, '%');
            push_char(&mut out, hex_digit_exec(b / 16));
            push_char(&mut out, hex_digit_exec(b % 16));
        }
        assert(out@ =~= percent_encoded(bytes@.take(i + 1)));
        i = i + 1;
    }
    assert(bytes@.take(n as int) =~= bytes@);
    out
}

/// Percent-encodes the UTF-8 bytes of a string.
pub fn urlencode(s: &str) -> (r: String)
    ensures
        r@ == percent_encoded(s.spec_bytes()),
{
    percent_encode(s.as_bytes())
}

/// The trimmed query, refused when nothing is left of it.
pub fn geocode_query(q: &GeocodeQuery) -> (r: Result<String, GeocodeError>)
    ensures
        trimmed(q.q@).len() == 0 <==> r == Err::<String, GeocodeError>(GeocodeError::EmptyQuery),
        r matches Ok(s) ==> s@ == trimmed(q.q@),
{
    let t = trim_str(q.q.as_str());
    if t.is_empty() {
        Err(GeocodeError::EmptyQuery)
    } else {
        Ok(t.to_owned())
    }
}

/// The Nominatim search URL that asks for the best match of `query`.
pub open spec fn nominatim_url_spec(query: Seq<u8>) -> Seq<char> {
    "https://nominatim.openstreetmap.org/search?q="@ + percent_encoded(query)
        + "&format=json&limit=1"@
}

/// Builds the Nominatim search URL for a (trimmed) query.
pub fn nominatim_url(query: &str) -> (r: String)
    ensures
        r@ == nominatim_url_spec(query.spec_bytes()),
        r@.take(45) == "https://nominatim.openstreetmap.org/search?q="@,
        percent_decoded(r@.subrange(45, r@.len() - 20)) == query.spec_bytes(),
        r@.skip(r@.len() - 20) == "&format=json&limit=1"@,
{
    let mut url = String::from_str("https://nominatim.openstreetmap.org/search?q=");
    let enc = urlencode(query);
    url.append(enc.as_str());
    url.append("&format=json&limit=1");
    proof {
        nominatim_url_carries_query(query.spec_bytes());
    }
    url
}

/// The search URL is the Nominatim search endpoint, then the query, which
/// decodes back to exactly the bytes asked for, then the JSON/one-result
/// options.
pub proof fn nominatim_url_carries_query(query: Seq<u8>)
    ensures
        nominatim_url_spec(query).take(45) == "https://nominatim.openstreetmap.org/search?q="@,
        percent_decoded(
            nominatim_url_spec(query).subrange(45, nominatim_url_spec(query).len() - 20),
        ) == query,
        nominatim_url_spec(query).skip(nominatim_url_spec(query).len() - 20)
            == "&format=json&limit=1"@,
{
    reveal_strlit("https://nominatim.openstreetmap.org/search?q=");
    reveal_strlit("&format=json&limit=1");
    let pre = "https://nominatim.openstreetmap.org/search?q="@;
    let mid = percent_encoded(query);
    let post = "&format=json&limit=1"@;
    let u = nominatim_url_spec(query);
    assert(pre.len() == 45);
    assert(post.len() == 20);
    assert(u == pre + mid + post);
    assert(u.take(45) =~= pre);
    assert(u.subrange(45, u.len() - 20) =~= mid);
    assert(u.skip(u.len() - 20) =~= post);
    percent_encoding_round_trip(query);
}

} // verus!
