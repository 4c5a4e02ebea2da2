use vstd::prelude::*;

verus! {

/// Creates the record; `count` is the initial counter value.
#[derive(Clone, Copy, Debug, PartialEq, Eq, Structural)]
pub struct InstantiateMsg {
    pub count: i32,
}

/// The three mutating messages.
///
/// `Reset`'s target is optional and defaults to 0; `Increment`'s and
/// `Decrement`'s amounts are optional and default to 1.
#[derive(Clone, Copy, Debug, PartialEq)]
pub enum ExecuteMsg {
    Reset { count: Option<i32> },
    Increment { amount: Option<i32> },
    Decrement { amount: Option<i32> },
}

/// The two read-only queries.
#[derive(Clone, Copy, Debug, PartialEq)]
pub enum QueryMsg {
    /// Returns the current count, as a [`GetCountResponse`].
    GetCount {},
    /// Returns how many resets have succeeded, as a [`GetResetResponse`].
    GetResetCount {},
}

/// Answer to [`QueryMsg::GetCount`].
#[derive(Clone, Copy, Debug, PartialEq, Eq, Structural)]
pub struct GetCountResponse {
    pub count: i32,
}

/// Answer to [`QueryMsg::GetResetCount`].
#[derive(Clone, Copy, Debug, PartialEq, Eq, Structural)]
pub struct GetResetResponse {
    pub reset_count: i32,
}

/// What a query returns: one variant per [`QueryMsg`] variant. The host
/// serializes it into its wire format outside the library.
#[derive(Clone, Copy, Debug, PartialEq, Eq, Structural)]
pub enum QueryAnswer {
    Count(GetCountResponse),
    ResetCount(GetResetResponse),
}

/// One coin of the funds attached to a message: an amount of a denomination.
#[derive(Clone, Debug)]
pub struct Coin {
    pub denom: String,
    pub amount: u128,
}

/// What the host attributes to an invocation: the authenticated caller
/// identity and the funds sent along. The state machine reads only the
/// sender; funds are carried for the record.
#[derive(Clone, Debug)]
pub struct MessageInfo {
    pub sender: String,
    pub funds: Vec<Coin>,
}

} // verus!
