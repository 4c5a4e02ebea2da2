use vstd::prelude::*;

use crate::error::ContractError;
use crate::execute::{spec_decrement, spec_increment, spec_reset};
use crate::msg::{ExecuteMsg, InstantiateMsg, MessageInfo, QueryAnswer, QueryMsg};
use crate::response::{AttributeValue, AttributeValueView, AttributeView, Response};
use crate::state::{State, StateView, Storage};

verus! {

/// The record initialization creates: the requested count, the caller as
/// owner, a reset tally of zero.
pub open spec fn spec_instantiate(sender: Seq<char>, count: i32) -> StateView {
    StateView { count: count, owner: sender, reset_count: 0 }
}

/// The attributes instantiation reports: the method's name, the owner it
/// recorded, and the initial count.
pub open spec fn instantiate_attrs(sender: Seq<char>, count: i32) -> Seq<AttributeView> {
    seq![
        AttributeView { key: "method"@, value: AttributeValueView::Text("instantiate"@) },
        AttributeView { key: "owner"@, value: AttributeValueView::Text(sender) },
        AttributeView { key: "count"@, value: AttributeValueView::Int(count) },
    ]
}

/// What one execute message does to the record: the transition relation of
/// the whole state machine, one arm per message.
pub open spec fn spec_execute(s: StateView, sender: Seq<char>, msg: ExecuteMsg) -> Result<
    StateView,
    ContractError,
> {
    match msg {
        ExecuteMsg::Reset { count } => spec_reset(s, sender, count),
        ExecuteMsg::Increment { amount } => Ok(spec_increment(s, amount)),
        ExecuteMsg::Decrement { amount } => Ok(spec_decrement(s, amount)),
    }
}

/// The attributes a successful execute message reports: the action's name
/// and the counter value it left behind.
pub open spec fn execute_attrs(msg: ExecuteMsg, new_count: i32) -> Seq<AttributeView> {
    match msg {
        ExecuteMsg::Reset { .. } => crate::execute::action_attrs("reset"@, new_count),
        ExecuteMsg::Increment { .. } => crate::execute::action_attrs("increment"@, new_count),
        ExecuteMsg::Decrement { .. } => crate::execute::action_attrs("decrement"@, new_count),
    }
}

/// What a query answers, given the record: a projection, never a mutation.
pub open spec fn spec_query(s: StateView, msg: QueryMsg) -> QueryAnswer {
    match msg {
        QueryMsg::GetCount {} => QueryAnswer::Count(crate::msg::GetCountResponse { count: s.count }),
        QueryMsg::GetResetCount {} => QueryAnswer::ResetCount(
            crate::msg::GetResetResponse { reset_count: s.reset_count },
        ),
    }
}

/// Create the record: the requested count, the caller as owner, a reset
/// tally of zero. Overwrites whatever the store held before; the host
/// guarantees it runs at most once per deployed instance. Pure construction:
/// it always succeeds.
pub fn instantiate(store: &mut Storage, info: &MessageInfo, msg: InstantiateMsg) -> (r: Result<
    Response,
    ContractError,
>)
    ensures
        final(store)@ == Some(spec_instantiate(info.sender@, msg.count)),
        r matches Ok(resp) && resp@ == instantiate_attrs(info.sender@, msg.count),
{
    store.save(State { count: msg.count, owner: info.sender.clone(), reset_count: 0 });
    Ok(
        Response::new().add_attribute(
            "method",
            AttributeValue::Text(String::from_str("instantiate")),
        ).add_attribute("owner", AttributeValue::Text(info.sender.clone())).add_attribute(
            "count",
            AttributeValue::Int(msg.count),
        ),
    )
}

/// Dispatch one execute message: the record changes exactly as
/// [`spec_execute`] says, a failed message changes nothing, and a missing
/// record surfaces as `NotInitialized`.
pub fn execute(store: &mut Storage, info: &MessageInfo, msg: ExecuteMsg) -> (r: Result<
    Response,
    ContractError,
>)
    ensures
        old(store)@ is None ==> final(store)@ == old(store)@ && r == Err::<
            Response,
            ContractError,
        >(ContractError::NotInitialized),
        old(store)@ matches Some(s) ==> match spec_execute(s, info.sender@, msg) {
            Ok(s2) => final(store)@ == Some(s2) && (r matches Ok(resp) && resp@ == execute_attrs(
                msg,
                s2.count,
            )),
            Err(e) => final(store)@ == old(store)@ && r == Err::<Response, ContractError>(e),
        },
{
    match msg {
        ExecuteMsg::Reset { count } => crate::execute::reset(store, info, count),
        ExecuteMsg::Increment { amount } => crate::execute::increment(store, amount),
        ExecuteMsg::Decrement { amount } => crate::execute::decrement(store, amount),
    }
}

/// Answer one query from the record alone: the result is a function of the
/// store's contents, and the store is left untouched. Fails only when no
/// record exists yet.
pub fn query(store: &Storage, msg: QueryMsg) -> (r: Result<QueryAnswer, ContractError>)
    ensures
        match store@ {
            Some(s) => r == Ok::<QueryAnswer, ContractError>(spec_query(s, msg)),
            None => r == Err::<QueryAnswer, ContractError>(ContractError::NotInitialized),
        },
{
    match msg {
        QueryMsg::GetCount {} => match crate::query::count(store) {
            Ok(resp) => Ok(QueryAnswer::Count(resp)),
            Err(e) => Err(e),
        },
        QueryMsg::GetResetCount {} => match crate::query::reset_count(store) {
            Ok(resp) => Ok(QueryAnswer::ResetCount(resp)),
            Err(e) => Err(e),
        },
    }
}

} // verus!
