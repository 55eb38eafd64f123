use vstd::prelude::*;

verus! {

/// The storage accounting of a user: bytes in use and the allowance.
#[derive(Debug, Clone, Copy, PartialEq, Eq)]
pub struct UserStorage {
    pub storage_used: i64,
    pub storage_limit: i64,
}

} // verus!
