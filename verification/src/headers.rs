//! Request headers, as the HTTP crate holds them, and the bearer token that
//! an `Authorization` header carries.
use vstd::prelude::*;
use axum::http::{HeaderMap, HeaderValue};

verus! {

#[verifier::external_type_specification]
#[verifier::external_body]
#[verifier::reject_recursive_types(T)]
pub struct ExHeaderMap<T>(HeaderMap<T>);

#[verifier::external_type_specification]
#[verifier::external_body]
pub struct ExHeaderValue(HeaderValue);

/// The headers of a map: for each (lowercase) name, the bytes of its first
/// value.
pub uninterp spec fn header_first_values(headers: HeaderMap) -> Map<Seq<char>, Seq<u8>>;

/// A header name as the map stores it: non-empty, lowercase letters, digits
/// and hyphens.
pub open spec fn is_lowercase_header_name(name: Seq<char>) -> bool {
    name.len() > 0 && forall|i: int|
        0 <= i < name.len() ==> {
            let c = #[trigger] name[i];
            ('a' <= c && c <= 'z') || ('0' <= c && c <= '9') || c == '-'
        }
}

/// Calls `HeaderMap::get` and reads the bytes of the value found.  Claimed,
/// as the documentation says: the first value associated with the name, or
/// none when the name has no value.
#[verifier::external_body]
pub(crate) fn header_value_bytes(headers: &HeaderMap, name: &str) -> (r: Option<Vec<u8>>)
    requires
        is_lowercase_header_name(name@),
    ensures
        match r {
            Some(v) => header_first_values(*headers).contains_key(name@) && v@ == header_first_values(
                *headers,
            )[name@],
            None => !header_first_values(*headers).contains_key(name@),
        },
{
    headers.get(name).map(|v| v.as_bytes().to_vec())
}

/// Calls `String::from_utf8` on bytes that are all ASCII.  Claimed: ASCII is
/// valid UTF-8, and each byte becomes the character with its code.
#[verifier::external_body]
fn ascii_string(bytes: Vec<u8>) -> (r: String)
    requires
        forall|i: int| 0 <= i < bytes@.len() ==> bytes@[i] < 128,
    ensures
        r@ == bytes@.map_values(|b: u8| b as char),
{
    match String::from_utf8(bytes) {
        Ok(s) => s,
        Err(_) => String::new(),
    }
}

/// The name of the `Authorization` header, as the map stores it.
pub open spec fn authorization_name() -> Seq<char> {
    seq!['a', 'u', 't', 'h', 'o', 'r', 'i', 'z', 'a', 't', 'i', 'o', 'n']
}

/// The bytes of `"Bearer "`.
pub open spec fn bearer_prefix() -> Seq<u8> {
    seq![66u8, 101u8, 97u8, 114u8, 101u8, 114u8, 32u8]
}

/// A byte that a header value may hold for it to read as text: a tab or a
/// visible ASCII character (what `HeaderValue::to_str` accepts).
pub open spec fn visible_ascii(b: u8) -> bool {
    (32 <= b && b < 127) || b == 9
}

/// The token that a header value carries: the value reads as text and starts
/// with `"Bearer "`; the token is the rest of it.
pub open spec fn bearer_token_in(value: Seq<u8>) -> Option<Seq<char>> {
    if (forall|i: int| 0 <= i < value.len() ==> visible_ascii(#[trigger] value[i])) && value.len()
        >= 7 && value.subrange(0, 7) == bearer_prefix() {
        Some(value.subrange(7, value.len() as int).map_values(|b: u8| b as char))
    } else {
        None
    }
}

/// The bearer token of a request's headers, if its first `Authorization`
/// value carries one.
pub open spec fn bearer_token_of(headers: HeaderMap) -> Option<Seq<char>> {
    let values = header_first_values(headers);
    if values.contains_key(authorization_name()) {
        bearer_token_in(values[authorization_name()])
    } else {
        None
    }
}

/// Reads the token of a header value (see `bearer_token_in`).
pub fn bearer_token_from_value(value: &Vec<u8>) -> (r: Option<String>)
    ensures
        match bearer_token_in(value@) {
            Some(t) => r matches Some(s) && s@ == t,
            None => r is None,
        },
{
    let n = value.len();
    let mut i: usize = 0;
    while i < n
        invariant
            n == value@.len(),
            i <= n,
            forall|j: int| 0 <= j < i ==> visible_ascii(#[trigger] value@[j]),
        decreases n - i,
    {
        let b = value[i];
        if !((32 <= b && b < 127) || b == 9) {
            return None;
        }
        i = i + 1;
    }
    let prefix: [u8; 7] = [66, 101, 97, 114, 101, 114, 32];
    if n < 7 {
        return None;
    }
    let mut k: usize = 0;
    while k < 7
        invariant
            n == value@.len(),
            n >= 7,
            k <= 7,
            prefix@ == bearer_prefix(),
            forall|j: int| 0 <= j < k ==> value@[j] == bearer_prefix()[j],
        decreases 7 - k,
    {
        if value[k] != prefix[k] {
            assert(value@.subrange(0, 7)[k as int] != bearer_prefix()[k as int]);
            return None;
        }
        k = k + 1;
    }
    assert(value@.subrange(0, 7) =~= bearer_prefix());
    let mut rest: Vec<u8> = Vec::new();
    let mut m: usize = 7;
    while m < n
        invariant
            n == value@.len(),
            7 <= m <= n,
            rest@ == value@.subrange(7, m as int),
            forall|j: int| 0 <= j < n ==> visible_ascii(#[trigger] value@[j]),
        decreases n - m,
    {
        rest.push(value[m]);
        assert(value@.subrange(7, m + 1) =~= value@.subrange(7, m as int).push(value@[m as int]));
        m = m + 1;
    }
    assert forall|j: int| 0 <= j < rest@.len() implies rest@[j] < 128 by {
        assert(rest@[j] == value@[j + 7]);
        assert(visible_ascii(value@[j + 7]));
    }
    Some(ascii_string(rest))
}

/// Reads the bearer token of a request's headers (see `bearer_token_of`).
pub fn bearer_token(headers: &HeaderMap) -> (r: Option<String>)
    ensures
        match bearer_token_of(*headers) {
            Some(t) => r matches Some(s) && s@ == t,
            None => r is None,
        },
{
    let name = "authorization";
    proof {
        reveal_strlit("authorization");
        assert(name@ =~= authorization_name());
    }
    match header_value_bytes(headers, name) {
        Some(value) => bearer_token_from_value(&value),
        None => None,
    }
}

} // verus!
