use vstd::prelude::*;
use axum::http::HeaderMap;
use crate::auth::validation::id_result;
use crate::headers::bearer_token;
use crate::routes::stocks::spec_profile_id_of;
use crate::status::StatusCode;

verus! {

/// The user whose profile is asked for: the bearer token read as the user's
/// UUID, or 401 (the same reading as `extract_profile_id`).
pub fn extract_user_id(headers: &HeaderMap) -> (r: Result<u128, StatusCode>)
    ensures
        r == spec_profile_id_of(*headers),
{
    match bearer_token(headers) {
        Some(token) => id_result(crate::ids::parse_uuid(token.as_str())),
        None => Err(StatusCode::UNAUTHORIZED),
    }
}

} // verus!
