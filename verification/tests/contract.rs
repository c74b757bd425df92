use ft_airdrop::contract::{
    execute, instantiate, mint_for_airdrop, minted_for_airdrop, query, receive_airdrop, token,
    ContractError,
};
use ft_airdrop::msg::{ExecuteMsg, InstantiateMsg, QueryMsg, QueryOutcome, Response, TokenMsg};
use ft_airdrop::state::State;

fn default_msg() -> InstantiateMsg {
    InstantiateMsg {
        symbol: "SYM".to_string(),
        subunit: "SUB".to_string(),
        precision: 2,
        initial_amount: 1000,
        airdrop_amount: 100,
    }
}

fn init() -> (State, Response) {
    instantiate("creator", "cosmos2contract", default_msg())
}

#[test]
fn proper_initialization() {
    let (state, res) = init();

    println!("RESULT: {:?}", res);

    // it works
    assert_eq!(1, res.messages.len());

    // Initial state
    assert_eq!(state.owner, "creator".to_string());
    assert_eq!(state.denom, "sub-cosmos2contract".to_string());
    assert_eq!(state.minted_for_airdrop, 1000);
    assert_eq!(state.airdrop_amount, 100);
}

#[test]
fn mint_for_airdrop_works() {
    let (mut state, _) = init();

    // Mint some coins for airdrop
    let execute_msg = ExecuteMsg::MintForAirdrop { amount: 100 };
    let res = execute(&mut state, "creator", execute_msg).unwrap();

    println!("RESULT: {:?}", res);

    // it works
    assert_eq!(1, res.messages.len());

    // Check if the minted amount is correct
    assert_eq!(state.minted_for_airdrop, 1100);
}

#[test]
fn receive_airdrop_works() {
    let (mut state, _) = init();

    // Receive airdrop
    let execute_msg = ExecuteMsg::ReceiveAirdrop {};
    let res = execute(&mut state, "creator", execute_msg).unwrap();

    println!("RESULT: {:?}", res);

    // it works
    assert_eq!(1, res.messages.len());

    // Check if the airdrop amount is correct
    assert_eq!(state.minted_for_airdrop, 900);
}

#[test]
fn issue_message_contents() {
    let (_, res) = init();

    assert_eq!(res.messages.len(), 1);
    match &res.messages[0] {
        TokenMsg::Issue {
            symbol,
            subunit,
            precision,
            initial_amount,
            description,
            features,
            burn_rate,
            send_commission_rate,
        } => {
            assert_eq!(symbol, "SYM");
            assert_eq!(subunit, "SUB");
            assert_eq!(*precision, 2);
            assert_eq!(*initial_amount, 1000);
            assert!(description.is_none());
            assert_eq!(features.as_deref(), Some(&[0u32][..]));
            assert_eq!(burn_rate.as_deref(), Some("0"));
            assert_eq!(send_commission_rate.as_deref(), Some("0.1"));
        }
        other => panic!("expected an Issue instruction, got {:?}", other),
    }

    assert_eq!(res.attributes.len(), 2);
    assert_eq!(res.attributes[0].key, "owner");
    assert_eq!(res.attributes[0].value, "creator");
    assert_eq!(res.attributes[1].key, "denom");
    assert_eq!(res.attributes[1].value, "sub-cosmos2contract");
}

#[test]
fn mint_unauthorized_leaves_state_unchanged() {
    let (mut state, _) = init();

    let res = execute(&mut state, "stranger", ExecuteMsg::MintForAirdrop { amount: 100 });
    assert!(matches!(res, Err(ContractError::Unauthorized {})));

    assert_eq!(state.owner, "creator");
    assert_eq!(state.denom, "sub-cosmos2contract");
    assert_eq!(state.minted_for_airdrop, 1000);
    assert_eq!(state.airdrop_amount, 100);
}

#[test]
fn mint_message_and_attributes() {
    let (mut state, _) = init();

    let res = mint_for_airdrop(&mut state, "creator", 42).unwrap();

    assert_eq!(res.messages.len(), 1);
    match &res.messages[0] {
        TokenMsg::Mint { coin } => {
            assert_eq!(coin.denom, "sub-cosmos2contract");
            assert_eq!(coin.amount, 42);
        }
        other => panic!("expected a Mint instruction, got {:?}", other),
    }

    assert_eq!(res.attributes.len(), 3);
    assert_eq!(res.attributes[0].key, "method");
    assert_eq!(res.attributes[0].value, "mint_for_airdrop");
    assert_eq!(res.attributes[1].key, "denom");
    assert_eq!(res.attributes[1].value, "sub-cosmos2contract");
    assert_eq!(res.attributes[2].key, "amount");
    assert_eq!(res.attributes[2].value, "42");

    assert_eq!(state.minted_for_airdrop, 1042);
}

#[test]
fn mint_amount_attribute_renders_every_digit() {
    let (mut state, _) = init();

    let res = mint_for_airdrop(&mut state, "creator", 1234567890).unwrap();
    assert_eq!(res.attributes[2].key, "amount");
    assert_eq!(res.attributes[2].value, "1234567890");

    let res = mint_for_airdrop(&mut state, "creator", 0).unwrap();
    assert_eq!(res.attributes[2].value, "0");
}

#[test]
fn claim_before_enough_minted_fails() {
    let msg = InstantiateMsg {
        symbol: "SYM".to_string(),
        subunit: "SUB".to_string(),
        precision: 2,
        initial_amount: 50,
        airdrop_amount: 100,
    };
    let (mut state, _) = instantiate("creator", "cosmos2contract", msg);

    let res = receive_airdrop(&mut state, "claimant");
    match res {
        Err(ContractError::CustomError { val }) => assert_eq!(val, "not enough minted"),
        other => panic!("expected the insufficient-minted error, got {:?}", other),
    }

    assert_eq!(state.minted_for_airdrop, 50);
    assert_eq!(state.airdrop_amount, 100);
    assert_eq!(state.owner, "creator");
    assert_eq!(state.denom, "sub-cosmos2contract");
}

#[test]
fn claim_sends_one_allotment() {
    let (mut state, _) = init();

    let res = receive_airdrop(&mut state, "claimant").unwrap();

    assert_eq!(res.messages.len(), 1);
    match &res.messages[0] {
        TokenMsg::Send { to_address, amount } => {
            assert_eq!(to_address, "claimant");
            assert_eq!(amount.len(), 1);
            assert_eq!(amount[0].amount, 100);
            assert_eq!(amount[0].denom, "sub-cosmos2contract");
        }
        other => panic!("expected a Send instruction, got {:?}", other),
    }

    assert_eq!(res.attributes.len(), 3);
    assert_eq!(res.attributes[0].key, "method");
    assert_eq!(res.attributes[0].value, "receive_airdrop");
    assert_eq!(res.attributes[1].key, "denom");
    assert_eq!(res.attributes[1].value, "sub-cosmos2contract");
    assert_eq!(res.attributes[2].key, "amount");
    assert_eq!(res.attributes[2].value, "100");

    assert_eq!(state.minted_for_airdrop, 900);
}

#[test]
fn end_to_end_scenario() {
    let (mut state, _) = init();
    assert_eq!(state.minted_for_airdrop, 1000);

    let res = execute(&mut state, "creator", ExecuteMsg::MintForAirdrop { amount: 100 });
    assert!(res.is_ok());
    assert_eq!(state.minted_for_airdrop, 1100);

    let res = execute(&mut state, "claimant", ExecuteMsg::ReceiveAirdrop {}).unwrap();
    assert_eq!(state.minted_for_airdrop, 1000);
    match &res.messages[0] {
        TokenMsg::Send { to_address, amount } => {
            assert_eq!(to_address, "claimant");
            assert_eq!(amount[0].amount, 100);
            assert_eq!(amount[0].denom, "sub-cosmos2contract");
        }
        other => panic!("expected a Send instruction, got {:?}", other),
    }
}

#[test]
fn repeated_claims_by_one_caller_succeed() {
    let (mut state, _) = init();

    let first = receive_airdrop(&mut state, "claimant");
    assert!(first.is_ok());
    assert_eq!(state.minted_for_airdrop, 900);

    let second = receive_airdrop(&mut state, "claimant");
    assert!(second.is_ok());
    assert_eq!(state.minted_for_airdrop, 800);
}

#[test]
fn zero_allotment_claims_always_succeed() {
    let msg = InstantiateMsg {
        symbol: "SYM".to_string(),
        subunit: "SUB".to_string(),
        precision: 2,
        initial_amount: 0,
        airdrop_amount: 0,
    };
    let (mut state, _) = instantiate("creator", "cosmos2contract", msg);

    let res = receive_airdrop(&mut state, "claimant");
    assert!(res.is_ok());
    assert_eq!(state.minted_for_airdrop, 0);
}

#[test]
fn denom_is_lowercased_per_deployment() {
    let (state, _) = instantiate("creator", "COSMOS2CONTRACT", default_msg());
    assert_eq!(state.denom, "sub-cosmos2contract");
}

#[test]
fn query_minted_for_airdrop_works() {
    let (state, _) = init();

    let direct = minted_for_airdrop(&state);
    assert_eq!(direct.amount, 1000);

    match query(&state, QueryMsg::MintedForAirdrop {}) {
        QueryOutcome::MintedForAirdrop(a) => assert_eq!(a.amount, 1000),
        other => panic!("expected an amount answer, got {:?}", other),
    }
}

#[test]
fn query_token_builds_host_lookup() {
    let (state, _) = init();

    let direct = token(&state);
    assert_eq!(direct.denom, "sub-cosmos2contract");

    match query(&state, QueryMsg::Token {}) {
        QueryOutcome::Token(q) => assert_eq!(q.denom, "sub-cosmos2contract"),
        other => panic!("expected a token lookup, got {:?}", other),
    }
}
