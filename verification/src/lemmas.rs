use vstd::prelude::*;

use crate::contract::spec_execute;
use crate::error::ContractError;
use crate::execute::{
    resolved_amount, resolved_reset_target, spec_decrement, spec_increment, spec_reset,
};
use crate::msg::ExecuteMsg;
use crate::state::StateView;

verus! {

/// One execute invocation as the host records it: who called, with which
/// message.
pub struct Step {
    pub sender: Seq<char>,
    pub msg: ExecuteMsg,
}

/// The record after a sequence of execute invocations, starting from `s`.
/// A step that fails (an unauthorized reset) leaves the record as it was;
/// the host discards the transaction whole.
pub open spec fn run_steps(s: StateView, steps: Seq<Step>) -> StateView
    decreases steps.len(),
{
    if steps.len() == 0 {
        s
    } else {
        let s1 = match spec_execute(s, steps[0].sender, steps[0].msg) {
            Ok(s2) => s2,
            Err(_) => s,
        };
        run_steps(s1, steps.drop_first())
    }
}

/// No execute message ever changes the owner: whatever the message and
/// whoever sends it, a step that succeeds keeps the owner, and a step that
/// fails keeps the whole record.
pub proof fn lemma_step_preserves_owner(s: StateView, sender: Seq<char>, msg: ExecuteMsg)
    ensures
        match spec_execute(s, sender, msg) {
            Ok(s2) => s2.owner == s.owner,
            Err(_) => true,
        },
{
}

/// The owner recorded at initialization stands for the lifetime of the
/// instance: no sequence of execute invocations, by anyone, moves it.
pub proof fn lemma_owner_immutable(s: StateView, steps: Seq<Step>)
    ensures
        run_steps(s, steps).owner == s.owner,
    decreases steps.len(),
{
    if steps.len() > 0 {
        let s1 = match spec_execute(s, steps[0].sender, steps[0].msg) {
            Ok(s2) => s2,
            Err(_) => s,
        };
        lemma_step_preserves_owner(s, steps[0].sender, steps[0].msg);
        lemma_owner_immutable(s1, steps.drop_first());
    }
}

/// The owner recorded at initialization is the only identity ever authorized
/// to reset: after any history whatsoever, a reset by any other identity is
/// rejected as unauthorized.
pub proof fn lemma_reset_only_by_owner(
    s: StateView,
    steps: Seq<Step>,
    sender: Seq<char>,
    count: Option<i32>,
)
    requires
        sender != s.owner,
    ensures
        spec_execute(run_steps(s, steps), sender, ExecuteMsg::Reset { count }) == Err::<
            StateView,
            ContractError,
        >(ContractError::Unauthorized),
{
    lemma_owner_immutable(s, steps);
}

/// End to end from initialization: whoever initializes the instance is the
/// only identity a reset ever succeeds for. Whatever happens in between,
/// anyone else is rejected as unauthorized.
pub proof fn lemma_only_initializer_can_reset(
    sender: Seq<char>,
    count: i32,
    steps: Seq<Step>,
    other: Seq<char>,
    target: Option<i32>,
)
    requires
        other != sender,
    ensures
        spec_execute(
            run_steps(crate::contract::spec_instantiate(sender, count), steps),
            other,
            ExecuteMsg::Reset { count: target },
        ) == Err::<StateView, ContractError>(ContractError::Unauthorized),
{
    lemma_reset_only_by_owner(crate::contract::spec_instantiate(sender, count), steps, other, target);
}

/// An authorized reset sets the counter to the resolved target and bumps the
/// reset tally by exactly one, keeping the owner. (At a tally of `i32::MAX`
/// the tally would wrap instead; no instance reaches that many resets.)
pub proof fn lemma_reset_bumps_tally(s: StateView, sender: Seq<char>, count: Option<i32>)
    requires
        sender == s.owner,
        s.reset_count < i32::MAX,
    ensures
        spec_reset(s, sender, count) matches Ok(s2) && s2 == (StateView {
            count: resolved_reset_target(count),
            owner: s.owner,
            reset_count: (s.reset_count + 1) as i32,
        }),
{
}

/// Increment and decrement touch nothing but the counter: the owner and the
/// reset tally come through unchanged, whatever the amount.
pub proof fn lemma_count_ops_touch_only_count(s: StateView, amount: Option<i32>)
    ensures
        spec_increment(s, amount).owner == s.owner,
        spec_increment(s, amount).reset_count == s.reset_count,
        spec_decrement(s, amount).owner == s.owner,
        spec_decrement(s, amount).reset_count == s.reset_count,
{
}

/// Away from the wrap boundaries, increment adds exactly the resolved amount
/// (the explicit one, or 1 by default).
pub proof fn lemma_increment_adds(s: StateView, amount: Option<i32>)
    requires
        i32::MIN <= s.count + resolved_amount(amount) <= i32::MAX,
    ensures
        spec_increment(s, amount).count == s.count + resolved_amount(amount),
{
}

/// Away from the wrap boundaries, decrement subtracts exactly the resolved
/// amount: the mirror image of [`lemma_increment_adds`].
pub proof fn lemma_decrement_subtracts(s: StateView, amount: Option<i32>)
    requires
        i32::MIN <= s.count - resolved_amount(amount) <= i32::MAX,
    ensures
        spec_decrement(s, amount).count == s.count - resolved_amount(amount),
{
}

/// Decrement is the exact inverse of increment, for every amount and every
/// record: with wrapping arithmetic the round trip loses nothing, wrap
/// boundaries included.
pub proof fn lemma_decrement_inverts_increment(s: StateView, amount: Option<i32>)
    ensures
        spec_decrement(spec_increment(s, amount), amount) == s,
{
}

} // verus!
