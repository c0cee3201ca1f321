use vstd::prelude::*;

verus! {

/// A stock row as the logic reads it.  The ticker is stored upper-cased, at
/// most 10 bytes; the name at most 100 bytes.
#[derive(Debug, Clone, PartialEq, Eq)]
pub struct Stock {
    pub id: u128,
    pub name: String,
    pub ticker: String,
    pub profile_id: Option<u128>,
    pub created_at: String,
    pub updated_at: String,
}

} // verus!
