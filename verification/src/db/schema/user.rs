use vstd::prelude::*;

verus! {

/// A user row as the logic reads it.  `id` is the UUID's 128-bit value; the
/// timestamps are the text of the stored instants.
#[derive(Debug, Clone, PartialEq, Eq)]
pub struct User {
    pub id: u128,
    pub name: String,
    pub email: String,
    /// The Argon2 PHC string of the password.
    pub password: String,
    pub created_at: String,
    pub updated_at: String,
}

} // verus!
