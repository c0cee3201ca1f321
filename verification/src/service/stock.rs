//! The rules of the stock operations.  Each operation checks its input,
//! hands the repository a request, and maps the repository's failure to the
//! status it answers with.
use vstd::prelude::*;
use vstd::utf8::{encode_scalar, encode_utf8};
use crate::db::schema::stock::Stock;
use crate::service::RepositoryError;
use crate::status::StatusCode;
use crate::text::{ascii_upper, is_ascii_text, to_uppercase, unicode_uppercase};

verus! {

/// The longest ticker accepted, in bytes.
pub const TICKER_MAX_BYTES: usize = 10;

/// The longest stock name accepted, in bytes.
pub const NAME_MAX_BYTES: usize = 100;

/// The repository that the stock operations use.
pub struct StockService<R> {
    pub repo: R,
}

impl<R> StockService<R> {
    pub fn new(repo: R) -> (r: Self)
        ensures
            r.repo == repo,
    {
        StockService { repo }
    }
}

/// A ticker is accepted when it is non-empty and at most 10 bytes long.
pub open spec fn ticker_ok(ticker: Seq<char>) -> bool {
    ticker.len() > 0 && encode_utf8(ticker).len() <= TICKER_MAX_BYTES
}

/// A name is accepted when it is non-empty and at most 100 bytes long.
pub open spec fn name_ok(name: Seq<char>) -> bool {
    name.len() > 0 && encode_utf8(name).len() <= NAME_MAX_BYTES
}

/// The stock that the repository is asked to create.
#[derive(Debug, Clone, PartialEq, Eq)]
pub struct NewStock {
    pub profile_id: u128,
    /// Upper-cased.
    pub ticker: String,
    pub name: String,
}

fn text_ok(s: &str, max_bytes: usize) -> (r: bool)
    ensures
        r == (s@.len() > 0 && encode_utf8(s@).len() <= max_bytes),
{
    !s.is_empty() && s.as_bytes().len() <= max_bytes
}

/// Checks a new stock: 400 when the ticker or the name is out of bounds;
/// otherwise the repository is asked for the stock with the ticker
/// upper-cased.
pub fn create_request(profile_id: u128, ticker: &str, name: &str) -> (r: Result<NewStock, StatusCode>)
    ensures
        r is Err <==> !(ticker_ok(ticker@) && name_ok(name@)),
        r is Ok <==> (1 <= encode_utf8(ticker@).len() <= 10 && 1 <= encode_utf8(name@).len() <= 100),
        r matches Err(e) ==> e == StatusCode::BAD_REQUEST,
        r matches Ok(s) ==> s.profile_id == profile_id && s.ticker@ == unicode_uppercase(ticker@)
            && s.name@ == name@,
        r matches Ok(s) ==> (is_ascii_text(ticker@) ==> s.ticker@ == ticker@.map_values(
            |c: char| ascii_upper(c),
        )),
{
    proof {
        lemma_text_has_bytes_iff_chars(ticker@);
        lemma_text_has_bytes_iff_chars(name@);
    }
    if !text_ok(ticker, TICKER_MAX_BYTES) {
        return Err(StatusCode::BAD_REQUEST);
    }
    if !text_ok(name, NAME_MAX_BYTES) {
        return Err(StatusCode::BAD_REQUEST);
    }
    Ok(NewStock { profile_id, ticker: to_uppercase(ticker), name: name.to_owned() })
}

/// A text has UTF-8 bytes exactly when it has characters.
pub proof fn lemma_text_has_bytes_iff_chars(s: Seq<char>)
    ensures
        s.len() > 0 <==> encode_utf8(s).len() > 0,
{
    if s.len() > 0 {
        assert(encode_utf8(s) == encode_scalar(s[0] as u32) + encode_utf8(s.drop_first()));
    }
}

/// An ASCII text has one UTF-8 byte per character.
pub proof fn lemma_ascii_text_bytes(s: Seq<char>)
    requires
        is_ascii_text(s),
    ensures
        encode_utf8(s).len() == s.len(),
    decreases s.len(),
{
    if s.len() > 0 {
        assert(is_ascii_text(s.drop_first())) by {
            assert forall|i: int| 0 <= i < s.drop_first().len() implies (#[trigger] s.drop_first()[i]
                as u32) < 128 by {
                assert(s.drop_first()[i] == s[i + 1]);
                assert((s[i + 1] as u32) < 128);
            }
        }
        assert((s[0] as u32) < 128);
        lemma_ascii_text_bytes(s.drop_first());
    }
}

/// A ticker is accepted exactly when it has between 1 and 10 UTF-8 bytes, and
/// a name exactly when it has between 1 and 100.
pub proof fn lemma_stock_text_bounds(ticker: Seq<char>, name: Seq<char>)
    ensures
        ticker_ok(ticker) <==> 1 <= encode_utf8(ticker).len() <= 10,
        name_ok(name) <==> 1 <= encode_utf8(name).len() <= 100,
{
    lemma_text_has_bytes_iff_chars(ticker);
    lemma_text_has_bytes_iff_chars(name);
}

/// Every ASCII ticker of 1 to 10 characters is accepted, a one-letter one
/// included, and every longer ASCII ticker is refused.
pub proof fn lemma_ascii_ticker_length(ticker: Seq<char>)
    requires
        is_ascii_text(ticker),
    ensures
        ticker_ok(ticker) <==> 1 <= ticker.len() <= 10,
{
    lemma_ascii_text_bytes(ticker);
}

/// The answer to a creation: the stored stock, or 500.
pub fn create_result(created: Result<Stock, RepositoryError>) -> (r: Result<Stock, StatusCode>)
    ensures
        match created {
            Ok(s) => r == Ok::<Stock, StatusCode>(s),
            Err(_) => r == Err::<Stock, StatusCode>(StatusCode::INTERNAL_SERVER_ERROR),
        },
{
    match created {
        Ok(s) => Ok(s),
        Err(_) => Err(StatusCode::INTERNAL_SERVER_ERROR),
    }
}

/// The ticker that a lookup asks the repository for: the given one
/// upper-cased, as it was stored.
pub fn ticker_key(ticker: &str) -> (r: String)
    ensures
        r@ == unicode_uppercase(ticker@),
        is_ascii_text(ticker@) ==> r@ == ticker@.map_values(|c: char| ascii_upper(c)),
{
    to_uppercase(ticker)
}

/// The answer to a lookup by ticker or by id: the stock, or 404.
pub fn get_result(found: Result<Stock, RepositoryError>) -> (r: Result<Stock, StatusCode>)
    ensures
        match found {
            Ok(s) => r == Ok::<Stock, StatusCode>(s),
            Err(_) => r == Err::<Stock, StatusCode>(StatusCode::NOT_FOUND),
        },
{
    match found {
        Ok(s) => Ok(s),
        Err(_) => Err(StatusCode::NOT_FOUND),
    }
}

/// The answer to a listing: the stocks, or 500.
pub fn list_result(listed: Result<Vec<Stock>, RepositoryError>) -> (r: Result<Vec<Stock>, StatusCode>)
    ensures
        match listed {
            Ok(v) => r == Ok::<Vec<Stock>, StatusCode>(v),
            Err(_) => r == Err::<Vec<Stock>, StatusCode>(StatusCode::INTERNAL_SERVER_ERROR),
        },
{
    match listed {
        Ok(v) => Ok(v),
        Err(_) => Err(StatusCode::INTERNAL_SERVER_ERROR),
    }
}

/// Checks an update: a new name, when one is given, must be non-empty and at
/// most 100 bytes (else 400); the repository is then asked to apply it.
pub fn update_request(name: Option<String>) -> (r: Result<Option<String>, StatusCode>)
    ensures
        match name {
            Some(n) => if name_ok(n@) {
                r == Ok::<Option<String>, StatusCode>(Some(n))
            } else {
                r == Err::<Option<String>, StatusCode>(StatusCode::BAD_REQUEST)
            },
            None => r == Ok::<Option<String>, StatusCode>(None),
        },
        r is Err <==> (name matches Some(n) && !(1 <= encode_utf8(n@).len() <= 100)),
{
    proof {
        if name is Some {
            lemma_text_has_bytes_iff_chars(name->Some_0@);
        }
    }
    match name {
        Some(n) => {
            if text_ok(n.as_str(), NAME_MAX_BYTES) {
                Ok(Some(n))
            } else {
                Err(StatusCode::BAD_REQUEST)
            }
        },
        None => Ok(None),
    }
}

/// The answer to an update: the updated stock, 404 when the profile has no
/// such stock, or 500 when the store failed.
pub fn update_result(updated: Result<Stock, RepositoryError>) -> (r: Result<Stock, StatusCode>)
    ensures
        match updated {
            Ok(s) => r == Ok::<Stock, StatusCode>(s),
            Err(RepositoryError::NotFound) => r == Err::<Stock, StatusCode>(StatusCode::NOT_FOUND),
            Err(RepositoryError::Failed) => r == Err::<Stock, StatusCode>(
                StatusCode::INTERNAL_SERVER_ERROR,
            ),
        },
{
    match updated {
        Ok(s) => Ok(s),
        Err(RepositoryError::NotFound) => Err(StatusCode::NOT_FOUND),
        Err(RepositoryError::Failed) => Err(StatusCode::INTERNAL_SERVER_ERROR),
    }
}

/// The answer to a deletion: done, 404 when there was no such stock to
/// delete, or 500 when the store failed.
pub fn delete_result(deleted: Result<(), RepositoryError>) -> (r: Result<(), StatusCode>)
    ensures
        match deleted {
            Ok(_) => r is Ok,
            Err(RepositoryError::NotFound) => r == Err::<(), StatusCode>(StatusCode::NOT_FOUND),
            Err(RepositoryError::Failed) => r == Err::<(), StatusCode>(StatusCode::INTERNAL_SERVER_ERROR),
        },
{
    match deleted {
        Ok(_) => Ok(()),
        Err(RepositoryError::NotFound) => Err(StatusCode::NOT_FOUND),
        Err(RepositoryError::Failed) => Err(StatusCode::INTERNAL_SERVER_ERROR),
    }
}

/// A lookup by ticker finds what the creation stored, whatever the case the
/// ASCII ticker was written in: creating with one spelling and looking up
/// with another that differs only in letter case hand the repository the same
/// ticker.
pub proof fn lemma_ticker_lookup_ignores_case(stored: Seq<char>, asked: Seq<char>)
    requires
        is_ascii_text(stored),
        is_ascii_text(asked),
        stored.len() == asked.len(),
        forall|i: int| 0 <= i < stored.len() ==> ascii_upper(#[trigger] stored[i]) == ascii_upper(asked[i]),
    ensures
        stored.map_values(|c: char| ascii_upper(c)) == asked.map_values(|c: char| ascii_upper(c)),
{
    assert(stored.map_values(|c: char| ascii_upper(c)) =~= asked.map_values(|c: char| ascii_upper(c)));
}

} // verus!
