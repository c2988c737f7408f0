use pool_ledger::contract::{execute, instantiate, query};
use pool_ledger::msg::{ExecuteMsg, InstantiateMsg, QueryMsg};

#[test]
fn proper_initialization() {
    let msg = InstantiateMsg {
        token1: "token1".to_string(),
        token2: "token2".to_string(),
        amount1: 50,
        amount2: 50,
    };

    let (state, res) = instantiate(msg, "creator".to_string());
    assert_eq!(2, res.attributes.len());
    assert_eq!("method", res.attributes[0].key);
    assert_eq!("instantiate", res.attributes[0].value);
    assert_eq!("owner", res.attributes[1].key);
    assert_eq!("creator", res.attributes[1].value);

    // it worked, let's query the state
    let value = query(&state, QueryMsg::GetPool {});
    assert_eq!("token1", value.token1);
    assert_eq!("token2", value.token2);
    assert_eq!(50, value.amount1);
    assert_eq!(50, value.amount2);
}

#[test]
fn trade2for1() {
    let msg = InstantiateMsg {
        token1: "token1".to_string(),
        token2: "token2".to_string(),
        amount1: 50,
        amount2: 50,
    };

    let (mut state, _res) = instantiate(msg, "creator".to_string());

    // anyone can trade against the pool
    let msg = ExecuteMsg::GetToken2for1 { token2: 1 };
    let _res = execute(&mut state, msg).unwrap();

    // should increase the token2 amount by 1, reduce the token1 amount by 1
    let value = query(&state, QueryMsg::GetPool {});
    assert_eq!("token1", value.token1);
    assert_eq!("token2", value.token2);
    assert_eq!(49, value.amount1);
    assert_eq!(51, value.amount2);
}

#[test]
fn trade1for2() {
    let msg = InstantiateMsg {
        token1: "token1".to_string(),
        token2: "token2".to_string(),
        amount1: 50,
        amount2: 50,
    };

    let (mut state, _res) = instantiate(msg, "creator".to_string());

    // anyone can trade against the pool
    let msg = ExecuteMsg::GetToken1for2 { token1: 1 };
    let _res = execute(&mut state, msg).unwrap();

    // should increase the token1 amount by 1, reduce the token2 amount by 1
    let value = query(&state, QueryMsg::GetPool {});
    assert_eq!("token1", value.token1);
    assert_eq!("token2", value.token2);
    assert_eq!(51, value.amount1);
    assert_eq!(49, value.amount2);
}
