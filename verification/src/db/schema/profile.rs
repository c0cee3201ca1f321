use vstd::prelude::*;

verus! {

/// A profile row as the logic reads it.  A profile belongs to at most one user.
#[derive(Debug, Clone, PartialEq, Eq)]
pub struct Profile {
    pub id: u128,
    pub user_id: Option<u128>,
    pub created_at: String,
    pub updated_at: String,
}

} // verus!
