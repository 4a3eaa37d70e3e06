//! Defaults of a route-generation request.

use vstd::prelude::*;
use crate::brouter::{Profile, profile_named};

verus! {

/// A request that does not say otherwise asks for a loop.
pub fn default_loop() -> (b: bool)
    ensures
        b,
{
    true
}

/// The profile of a request: the one it names, trekking when it names none.
pub fn request_profile(name: &Option<String>) -> (p: Profile)
    ensures
        p == match name {
            Some(s) => profile_named(s@),
            None => Profile::Trekking,
        },
{
    match name {
        Some(s) => Profile::parse(s.as_str()),
        None => Profile::Trekking,
    }
}

} // verus!
