//! What the HTTP handlers decide: reading the caller and the path, and the
//! shapes of the requests and answers.
pub mod profile;
pub mod simulation;
pub mod stocks;
pub mod websocket;

use vstd::prelude::*;
use crate::ids::{hyphenated_value, parse_uuid, uuid_parse};
use crate::status::StatusCode;

verus! {

/// The answer of reading a record id out of a path: the id, or 400.
pub open spec fn spec_path_id_result(parsed: Option<u128>) -> Result<u128, StatusCode> {
    match parsed {
        Some(id) => Ok(id),
        None => Err(StatusCode::BAD_REQUEST),
    }
}

/// Maps a parsed path id to the answer (see `spec_path_id_result`).
pub fn path_id_result(parsed: Option<u128>) -> (r: Result<u128, StatusCode>)
    ensures
        r == spec_path_id_result(parsed),
{
    match parsed {
        Some(id) => Ok(id),
        None => Err(StatusCode::BAD_REQUEST),
    }
}

/// The record id that a path segment names, read as a UUID, or 400.
pub fn parse_path_id(segment: &str) -> (r: Result<u128, StatusCode>)
    ensures
        r == spec_path_id_result(uuid_parse(segment@)),
        segment@.len() == 36 ==> r == spec_path_id_result(hyphenated_value(segment@)),
{
    path_id_result(parse_uuid(segment))
}

} // verus!
