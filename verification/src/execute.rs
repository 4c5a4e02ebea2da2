use vstd::prelude::*;

use crate::error::ContractError;
use crate::msg::MessageInfo;
use crate::response::{AttributeValue, AttributeValueView, AttributeView, Response};
use crate::state::{State, StateView, Storage};

verus! {

/// The amount an increment or decrement applies: the explicit one, or 1.
pub open spec fn resolved_amount(amount: Option<i32>) -> i32 {
    match amount {
        Some(a) => a,
        None => 1,
    }
}

/// The target a reset sets the counter to: the explicit one, or 0.
pub open spec fn resolved_reset_target(count: Option<i32>) -> i32 {
    match count {
        Some(c) => c,
        None => 0,
    }
}

/// Counter arithmetic wraps in two's complement at the 32-bit width, the
/// host's standard overflow behavior.
pub open spec fn wrap_add(x: i32, y: i32) -> i32 {
    vstd::wrapping::i32_specs::wrapping_add(x, y)
}

/// See [`wrap_add`].
pub open spec fn wrap_sub(x: i32, y: i32) -> i32 {
    vstd::wrapping::i32_specs::wrapping_sub(x, y)
}

/// What Increment does to the record: adds the resolved amount (wrapping),
/// touching neither the owner nor the reset tally.
pub open spec fn spec_increment(s: StateView, amount: Option<i32>) -> StateView {
    StateView { count: wrap_add(s.count, resolved_amount(amount)), ..s }
}

/// What Decrement does to the record: subtracts the resolved amount
/// (wrapping), touching neither the owner nor the reset tally.
pub open spec fn spec_decrement(s: StateView, amount: Option<i32>) -> StateView {
    StateView { count: wrap_sub(s.count, resolved_amount(amount)), ..s }
}

/// What Reset does: rejected with `Unauthorized` unless the caller is the
/// owner; on success the counter becomes the resolved target and the reset
/// tally grows by one (wrapping at the 32-bit width like the counter).
pub open spec fn spec_reset(s: StateView, sender: Seq<char>, count: Option<i32>) -> Result<
    StateView,
    ContractError,
> {
    if sender != s.owner {
        Err(ContractError::Unauthorized)
    } else {
        Ok(
            StateView {
                count: resolved_reset_target(count),
                owner: s.owner,
                reset_count: wrap_add(s.reset_count, 1),
            },
        )
    }
}

/// The attributes a successful execute reports: the action's name and the
/// counter value it left behind.
pub open spec fn action_attrs(action: Seq<char>, new_count: i32) -> Seq<AttributeView> {
    seq![
        AttributeView { key: "action"@, value: AttributeValueView::Text(action) },
        AttributeView { key: "count"@, value: AttributeValueView::Int(new_count) },
    ]
}

/// Exec counterpart of [`resolved_amount`].
pub fn resolve_amount(amount: Option<i32>) -> (r: i32)
    ensures
        r == resolved_amount(amount),
{
    match amount {
        Some(a) => a,
        None => 1,
    }
}

/// Exec counterpart of [`resolved_reset_target`].
pub fn resolve_reset_target(count: Option<i32>) -> (r: i32)
    ensures
        r == resolved_reset_target(count),
{
    match count {
        Some(c) => c,
        None => 0,
    }
}

/// Reset the counter to `count` (default 0) and bump the reset tally.
/// Only the owner recorded at initialization may do this; any other caller
/// gets `Unauthorized` and the record stays untouched.
pub fn reset(store: &mut Storage, info: &MessageInfo, count: Option<i32>) -> (r: Result<
    Response,
    ContractError,
>)
    ensures
        old(store)@ is None ==> final(store)@ == old(store)@ && r == Err::<
            Response,
            ContractError,
        >(ContractError::NotInitialized),
        old(store)@ matches Some(s) ==> match spec_reset(s, info.sender@, count) {
            Ok(s2) => final(store)@ == Some(s2) && (r matches Ok(resp) && resp@ == action_attrs(
                "reset"@,
                s2.count,
            )),
            Err(e) => final(store)@ == old(store)@ && r == Err::<Response, ContractError>(e),
        },
{
    match store.load() {
        None => Err(ContractError::NotInitialized),
        Some(state) => {
            if info.sender == state.owner {
                let new_count = resolve_reset_target(count);
                store.save(
                    State {
                        count: new_count,
                        owner: state.owner,
                        reset_count: state.reset_count.wrapping_add(1),
                    },
                );
                Ok(
                    Response::new().add_attribute(
                        "action",
                        AttributeValue::Text(String::from_str("reset")),
                    ).add_attribute("count", AttributeValue::Int(new_count)),
                )
            } else {
                Err(ContractError::Unauthorized)
            }
        },
    }
}

/// Add `amount` (default 1) to the counter, wrapping at the 32-bit width.
/// Any caller may do this; the owner and the reset tally are untouched.
pub fn increment(store: &mut Storage, amount: Option<i32>) -> (r: Result<Response, ContractError>)
    ensures
        old(store)@ is None ==> final(store)@ == old(store)@ && r == Err::<
            Response,
            ContractError,
        >(ContractError::NotInitialized),
        old(store)@ matches Some(s) ==> {
            let s2 = spec_increment(s, amount);
            final(store)@ == Some(s2) && (r matches Ok(resp) && resp@ == action_attrs(
                "increment"@,
                s2.count,
            ))
        },
{
    match store.load() {
        None => Err(ContractError::NotInitialized),
        Some(state) => {
            let new_count = state.count.wrapping_add(resolve_amount(amount));
            store.save(
                State { count: new_count, owner: state.owner, reset_count: state.reset_count },
            );
            Ok(
                Response::new().add_attribute(
                    "action",
                    AttributeValue::Text(String::from_str("increment")),
                ).add_attribute("count", AttributeValue::Int(new_count)),
            )
        },
    }
}

/// Subtract `amount` (default 1) from the counter, wrapping at the 32-bit
/// width. Any caller may do this; the owner and the reset tally are
/// untouched.
pub fn decrement(store: &mut Storage, amount: Option<i32>) -> (r: Result<Response, ContractError>)
    ensures
        old(store)@ is None ==> final(store)@ == old(store)@ && r == Err::<
            Response,
            ContractError,
        >(ContractError::NotInitialized),
        old(store)@ matches Some(s) ==> {
            let s2 = spec_decrement(s, amount);
            final(store)@ == Some(s2) && (r matches Ok(resp) && resp@ == action_attrs(
                "decrement"@,
                s2.count,
            ))
        },
{
    match store.load() {
        None => Err(ContractError::NotInitialized),
        Some(state) => {
            let new_count = state.count.wrapping_sub(resolve_amount(amount));
            store.save(
                State { count: new_count, owner: state.owner, reset_count: state.reset_count },
            );
            Ok(
                Response::new().add_attribute(
                    "action",
                    AttributeValue::Text(String::from_str("decrement")),
                ).add_attribute("count", AttributeValue::Int(new_count)),
            )
        },
    }
}

} // verus!
