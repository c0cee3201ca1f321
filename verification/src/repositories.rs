//! What the repositories decide about the rows that the database returns.
use vstd::prelude::*;
use crate::db::schema::stock::Stock;
use crate::db::schema::user::User;
use crate::service::RepositoryError;

verus! {

/// The row that a filtered lookup answers with: the last of the matching
/// rows, or a failure when none matches.
pub fn pick_found<T>(rows: Vec<T>) -> (r: Result<T, RepositoryError>)
    ensures
        rows@.len() == 0 ==> r == Err::<T, RepositoryError>(RepositoryError::NotFound),
        rows@.len() > 0 ==> r == Ok::<T, RepositoryError>(rows@.last()),
{
    let mut rows = rows;
    match rows.pop() {
        Some(row) => Ok(row),
        None => Err(RepositoryError::NotFound),
    }
}

/// Whether a lookup by email found an account.
pub fn email_taken(found: &Result<User, RepositoryError>) -> (r: bool)
    ensures
        r == found is Ok,
{
    found.is_ok()
}

/// Whether a listing of the accounts with a username found any.  A failed
/// listing counts as not taken.
pub fn username_taken(listed: &Result<Vec<User>, RepositoryError>) -> (r: bool)
    ensures
        r == (listed matches Ok(users) && users@.len() > 0),
{
    match listed {
        Ok(users) => users.len() > 0,
        Err(_) => false,
    }
}

/// The stock as an update leaves it: the new name when one is given, and
/// every other field as it was.
pub fn apply_stock_update(stock: Stock, name: Option<String>) -> (r: Stock)
    ensures
        r.id == stock.id,
        r.ticker == stock.ticker,
        r.profile_id == stock.profile_id,
        r.created_at == stock.created_at,
        r.updated_at == stock.updated_at,
        r.name == match name {
            Some(n) => n,
            None => stock.name,
        },
{
    let mut stock = stock;
    match name {
        Some(n) => {
            stock.name = n;
        },
        None => {},
    }
    stock
}

} // verus!
