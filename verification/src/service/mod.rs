pub mod profile;
pub mod simulation;
pub mod stock;
pub mod user;

use vstd::prelude::*;

verus! {

/// A repository call that failed: either no record matched what it was
/// asked for, or the store itself failed.  Each service maps the failure to
/// the status that its operation answers with.
#[derive(Debug, Clone, Copy, PartialEq, Eq, Structural)]
pub enum RepositoryError {
    /// No record matched the lookup, update or deletion.
    NotFound,
    /// The store failed to answer.
    Failed,
}

} // verus!
