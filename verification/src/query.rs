use vstd::prelude::*;

use crate::error::ContractError;
use crate::msg::{GetCountResponse, GetResetResponse};
use crate::state::Storage;

verus! {

/// Read the current count. Never mutates the store, so two calls with no
/// intervening mutation return the same value; fails only when no record
/// exists yet.
pub fn count(store: &Storage) -> (r: Result<GetCountResponse, ContractError>)
    ensures
        match store@ {
            Some(s) => r == Ok::<GetCountResponse, ContractError>(
                GetCountResponse { count: s.count },
            ),
            None => r == Err::<GetCountResponse, ContractError>(ContractError::NotInitialized),
        },
{
    match store.load() {
        Some(state) => Ok(GetCountResponse { count: state.count }),
        None => Err(ContractError::NotInitialized),
    }
}

/// Read the reset tally. Never mutates the store, so two calls with no
/// intervening mutation return the same value; fails only when no record
/// exists yet.
pub fn reset_count(store: &Storage) -> (r: Result<GetResetResponse, ContractError>)
    ensures
        match store@ {
            Some(s) => r == Ok::<GetResetResponse, ContractError>(
                GetResetResponse { reset_count: s.reset_count },
            ),
            None => r == Err::<GetResetResponse, ContractError>(ContractError::NotInitialized),
        },
{
    match store.load() {
        Some(state) => Ok(GetResetResponse { reset_count: state.reset_count }),
        None => Err(ContractError::NotInitialized),
    }
}

} // verus!
