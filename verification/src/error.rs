use vstd::prelude::*;

verus! {

/// Everything that can go wrong while handling a message.
///
/// Queries and execute messages surface `NotInitialized` when the record is
/// missing (no initialization has run against the store); `Unauthorized` is
/// the one domain error: a reset attempted by a caller other than the owner.
#[derive(Clone, Copy, Debug, PartialEq, Eq, Structural)]
pub enum ContractError {
    Unauthorized,
    NotInitialized,
}

} // verus!
