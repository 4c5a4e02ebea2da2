use counter::contract;
use counter::msg::{Coin, ExecuteMsg, InstantiateMsg, MessageInfo, QueryAnswer, QueryMsg};
use counter::state::Storage;
use counter::ContractError;

#[test]
fn contract_proper_initialization() {
    let mut store = Storage::new();

    let msg = InstantiateMsg { count: 17 };
    let info = MessageInfo {
        sender: "creator".to_string(),
        funds: vec![Coin { denom: "earth".to_string(), amount: 1000 }],
    };

    // we can just call .unwrap() to assert this was a success
    let res = contract::instantiate(&mut store, &info, msg).unwrap();
    assert_eq!(3, res.attributes.len());

    // it worked, let's query the state
    let res = contract::query(&store, QueryMsg::GetCount {}).unwrap();
    let value = match res {
        QueryAnswer::Count(v) => v,
        _ => panic!("unexpected query answer"),
    };
    assert_eq!(17, value.count);
}

#[test]
fn contract_increment() {
    let mut store = Storage::new();

    let msg = InstantiateMsg { count: 17 };
    let info = MessageInfo {
        sender: "creator".to_string(),
        funds: vec![Coin { denom: "token".to_string(), amount: 2 }],
    };
    let _res = contract::instantiate(&mut store, &info, msg).unwrap();

    // increment by 1
    let info = MessageInfo {
        sender: "anyone".to_string(),
        funds: vec![Coin { denom: "token".to_string(), amount: 2 }],
    };
    let msg = ExecuteMsg::Increment { amount: None };
    let _res = contract::execute(&mut store, &info, msg).unwrap();

    // should increase counter by 1
    let res = contract::query(&store, QueryMsg::GetCount {}).unwrap();
    let value = match res {
        QueryAnswer::Count(v) => v,
        _ => panic!("unexpected query answer"),
    };
    assert_eq!(18, value.count);

    // increment by 5
    let msg = ExecuteMsg::Increment { amount: Some(5) };
    let _res = contract::execute(&mut store, &info, msg).unwrap();

    // should increase counter by 5
    let res = contract::query(&store, QueryMsg::GetCount {}).unwrap();
    let value = match res {
        QueryAnswer::Count(v) => v,
        _ => panic!("unexpected query answer"),
    };
    assert_eq!(23, value.count);
}

#[test]
fn contract_decrement() {
    let mut store = Storage::new();

    let msg = InstantiateMsg { count: 17 };
    let info = MessageInfo {
        sender: "creator".to_string(),
        funds: vec![Coin { denom: "token".to_string(), amount: 2 }],
    };
    let _res = contract::instantiate(&mut store, &info, msg).unwrap();

    // decrement by 1
    let info = MessageInfo {
        sender: "anyone".to_string(),
        funds: vec![Coin { denom: "token".to_string(), amount: 2 }],
    };
    let msg = ExecuteMsg::Decrement { amount: None };
    let _res = contract::execute(&mut store, &info, msg).unwrap();

    // should decrease counter by 1
    let res = contract::query(&store, QueryMsg::GetCount {}).unwrap();
    let value = match res {
        QueryAnswer::Count(v) => v,
        _ => panic!("unexpected query answer"),
    };
    assert_eq!(16, value.count);

    // decrement by 5
    let msg = ExecuteMsg::Decrement { amount: Some(5) };
    let _res = contract::execute(&mut store, &info, msg).unwrap();

    // should decrease counter by 5
    let res = contract::query(&store, QueryMsg::GetCount {}).unwrap();
    let value = match res {
        QueryAnswer::Count(v) => v,
        _ => panic!("unexpected query answer"),
    };
    assert_eq!(11, value.count);
}

#[test]
fn contract_reset() {
    let mut store = Storage::new();

    let msg = InstantiateMsg { count: 17 };
    let info = MessageInfo {
        sender: "creator".to_string(),
        funds: vec![Coin { denom: "token".to_string(), amount: 2 }],
    };
    let _res = contract::instantiate(&mut store, &info, msg).unwrap();

    // beneficiary can release it
    let unauth_info = MessageInfo {
        sender: "anyone".to_string(),
        funds: vec![Coin { denom: "token".to_string(), amount: 2 }],
    };
    let msg = ExecuteMsg::Reset { count: Some(5) };
    let res = contract::execute(&mut store, &unauth_info, msg);
    match res {
        Err(ContractError::Unauthorized) => {}
        _ => panic!("Must return unauthorized error"),
    }

    // only the original creator can reset the counter
    let auth_info = MessageInfo {
        sender: "creator".to_string(),
        funds: vec![Coin { denom: "token".to_string(), amount: 2 }],
    };
    let msg = ExecuteMsg::Reset { count: Some(5) };
    let _res = contract::execute(&mut store, &auth_info, msg).unwrap();

    // should now be 5
    let res = contract::query(&store, QueryMsg::GetCount {}).unwrap();
    let count_value = match res {
        QueryAnswer::Count(v) => v,
        _ => panic!("unexpected query answer"),
    };
    assert_eq!(5, count_value.count);

    // should now be 1
    let res = contract::query(&store, QueryMsg::GetResetCount {}).unwrap();
    let reset_count_value = match res {
        QueryAnswer::ResetCount(v) => v,
        _ => panic!("unexpected query answer"),
    };
    assert_eq!(1, reset_count_value.reset_count);
}
