//! Uploads of routes to avoid: the session that holds their points.

use vstd::prelude::*;

verus! {

/// What an accepted upload answers: the new session and how many points it holds.
pub struct UploadResponse {
    pub session_id: String,
    pub points: usize,
}

/// Why an upload is refused.
#[derive(Clone, Copy, Debug, PartialEq, Eq, Structural)]
pub enum UploadError {
    /// The uploaded GPX files held no point.
    NoPoints,
}

/// A lower-case hexadecimal digit.
pub open spec fn is_lower_hex(c: char) -> bool {
    ('0' <= c && c <= '9') || ('a' <= c && c <= 'f')
}

/// The hyphenated lower-case text of a random (version 4, RFC 4122
/// variant) UUID: `xxxxxxxx-xxxx-4xxx-yxxx-xxxxxxxxxxxx`, `y` one of `89ab`.
pub open spec fn is_v4_uuid_text(s: Seq<char>) -> bool {
    &&& s.len() == 36
    &&& forall|i: int| 0 <= i < 36 ==> (if i == 8 || i == 13 || i == 18 || i == 23 {
        s[i] == '-'
    } else {
        is_lower_hex(#[trigger] s[i])
    })
    &&& s[14] == '4'
    &&& (s[19] == '8' || s[19] == '9' || s[19] == 'a' || s[19] == 'b')
}

/// `uuid::Uuid::new_v4` rendered with `to_string`: 128 random bits with
/// the version and variant bits set, as hyphenated lower-case hex. Which
/// identifier comes out is chance; the form is what uuid's source fixes.
/// (It panics only if the operating system cannot supply random bytes.)
#[verifier::external_body]
fn new_session_id() -> (id: String)
    ensures
        is_v4_uuid_text(id@),
{
    uuid::Uuid::new_v4().to_string()
}

/// Opens an avoid session for `point_count` uploaded points; refused when
/// there are none. The session gets a fresh random identifier.
pub fn start_upload(point_count: usize) -> (r: Result<UploadResponse, UploadError>)
    ensures
        point_count == 0 <==> r is Err,
        r matches Ok(resp) ==> resp.points == point_count && is_v4_uuid_text(resp.session_id@),
{
    if point_count == 0 {
        Err(UploadError::NoPoints)
    } else {
        Ok(UploadResponse { session_id: new_session_id(), points: point_count })
    }
}

} // verus!
