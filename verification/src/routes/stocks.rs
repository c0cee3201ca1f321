use vstd::prelude::*;
use axum::http::HeaderMap;
use crate::auth::validation::{id_result, spec_id_result};
use crate::db::schema::stock::Stock;
use crate::headers::{bearer_token, bearer_token_of};
use crate::ids::{parse_uuid, uuid_parse};
use crate::status::StatusCode;

verus! {

/// A request to create a stock.
#[derive(Debug, Clone, PartialEq, Eq)]
pub struct CreateStockPayload {
    pub ticker: String,
    pub name: String,
}

/// A request to change a stock: only the fields given change.
#[derive(Debug, Clone, PartialEq, Eq)]
pub struct UpdateStockPayload {
    pub name: Option<String>,
}

/// Paging of a stock listing.
#[derive(Debug, Clone, Copy, PartialEq, Eq, Structural)]
pub struct StockQueryFilters {
    pub limit: Option<u32>,
    pub offset: Option<u32>,
}

/// A stock as the API answers with it.
#[derive(Debug, Clone, PartialEq, Eq)]
pub struct StockResponse {
    pub id: u128,
    pub ticker: String,
    pub name: String,
    pub profile_id: Option<u128>,
    pub created_at: String,
    pub updated_at: String,
}

/// The answer for a stock: all its fields.
pub open spec fn stock_response_of(stock: Stock) -> StockResponse {
    StockResponse {
        id: stock.id,
        ticker: stock.ticker,
        name: stock.name,
        profile_id: stock.profile_id,
        created_at: stock.created_at,
        updated_at: stock.updated_at,
    }
}

impl From<Stock> for StockResponse {
    fn from(stock: Stock) -> (r: StockResponse) {
        StockResponse {
            id: stock.id,
            ticker: stock.ticker,
            name: stock.name,
            profile_id: stock.profile_id,
            created_at: stock.created_at,
            updated_at: stock.updated_at,
        }
    }
}

impl vstd::std_specs::convert::FromSpecImpl<Stock> for StockResponse {
    open spec fn obeys_from_spec() -> bool {
        true
    }

    open spec fn from_spec(stock: Stock) -> StockResponse {
        stock_response_of(stock)
    }
}

/// The answer for a stock reports the stored record field for field.
pub proof fn lemma_stock_response_reports_the_record(stock: Stock)
    ensures
        stock_response_of(stock).id == stock.id,
        stock_response_of(stock).ticker == stock.ticker,
        stock_response_of(stock).name == stock.name,
        stock_response_of(stock).profile_id == stock.profile_id,
        stock_response_of(stock).created_at == stock.created_at,
        stock_response_of(stock).updated_at == stock.updated_at,
{
}

/// The profile a stock request acts for: the bearer token read as the
/// profile's UUID.  401 when there is no bearer token or it is no UUID.
pub open spec fn spec_profile_id_of(headers: HeaderMap) -> Result<u128, StatusCode> {
    match bearer_token_of(headers) {
        Some(token) => spec_id_result(uuid_parse(token)),
        None => Err(StatusCode::UNAUTHORIZED),
    }
}

/// Reads the profile a stock request acts for (see `spec_profile_id_of`).
pub fn extract_profile_id(headers: &HeaderMap) -> (r: Result<u128, StatusCode>)
    ensures
        r == spec_profile_id_of(*headers),
{
    match bearer_token(headers) {
        Some(token) => id_result(parse_uuid(token.as_str())),
        None => Err(StatusCode::UNAUTHORIZED),
    }
}

} // verus!
