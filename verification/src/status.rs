use vstd::prelude::*;

verus! {

/// The HTTP status codes that the library's decisions produce.
///
/// The variant names follow the constant names of the HTTP crates, so that a
/// handler can map each one to its wire code with `as_u16`.
#[allow(non_camel_case_types)]
#[derive(Debug, Clone, Copy, PartialEq, Eq, Structural)]
pub enum StatusCode {
    BAD_REQUEST,
    UNAUTHORIZED,
    NOT_FOUND,
    CONFLICT,
    PAYLOAD_TOO_LARGE,
    INTERNAL_SERVER_ERROR,
}

impl StatusCode {
    /// The numeric code of the status.
    pub open spec fn code(self) -> u16 {
        match self {
            StatusCode::BAD_REQUEST => 400,
            StatusCode::UNAUTHORIZED => 401,
            StatusCode::NOT_FOUND => 404,
            StatusCode::CONFLICT => 409,
            StatusCode::PAYLOAD_TOO_LARGE => 413,
            StatusCode::INTERNAL_SERVER_ERROR => 500,
        }
    }

    pub fn as_u16(&self) -> (r: u16)
        ensures
            r == self.code(),
    {
        match self {
            StatusCode::BAD_REQUEST => 400,
            StatusCode::UNAUTHORIZED => 401,
            StatusCode::NOT_FOUND => 404,
            StatusCode::CONFLICT => 409,
            StatusCode::PAYLOAD_TOO_LARGE => 413,
            StatusCode::INTERNAL_SERVER_ERROR => 500,
        }
    }
}

} // verus!
