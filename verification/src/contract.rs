use vstd::prelude::*;

use crate::decimal::{dec_of, decimal_string};
use crate::denom::{denom_of, make_denom};
use crate::msg::{
    AmountResponse, Coin, ExecuteMsg, InstantiateMsg, QueryMsg, QueryOutcome, Response,
    TokenMsg, TokenQuery,
};
use crate::state::{claim_enabled, claim_step, State, StateView};

verus! {

/// The error taxonomy of the transition handlers. Storage failures belong to
/// the host layer and never arise in this pure core; `InvalidInput` is part
/// of the taxonomy but currently raised by no handler.
#[derive(Debug)]
pub enum ContractError {
    Unauthorized {},
    InvalidInput(String),
    CustomError { val: String },
}

/// The full effect of instantiation: the initial state carries the caller as
/// owner, the derived denomination, and the two configured amounts; the
/// response carries the owner/denom attributes and exactly one `Issue`
/// instruction with minting enabled, no burn rate, and a 10% send
/// commission.
pub open spec fn instantiate_outcome(
    sender: Seq<char>,
    contract_address: Seq<char>,
    msg: InstantiateMsg,
    st: StateView,
    r: Response,
) -> bool {
    &&& st.owner == sender
    &&& st.denom == denom_of(msg.subunit@, contract_address)
    &&& st.minted_for_airdrop == msg.initial_amount as int
    &&& st.airdrop_amount == msg.airdrop_amount as int
    &&& r.messages@.len() == 1
    &&& (r.messages@[0] matches TokenMsg::Issue {
        symbol,
        subunit,
        precision,
        initial_amount,
        description,
        features,
        burn_rate,
        send_commission_rate,
    } && {
        &&& symbol@ == msg.symbol@
        &&& subunit@ == msg.subunit@
        &&& precision == msg.precision
        &&& initial_amount == msg.initial_amount
        &&& description is None
        &&& (features matches Some(f) && f@ == seq![0u32])
        &&& (burn_rate matches Some(b) && b@ == "0"@)
        &&& (send_commission_rate matches Some(c) && c@ == "0.1"@)
    })
    &&& r.attributes@.len() == 2
    &&& r.attributes@[0].key@ == "owner"@
    &&& r.attributes@[0].value@ == sender
    &&& r.attributes@[1].key@ == "denom"@
    &&& r.attributes@[1].value@ == st.denom
}

/// The full effect of `MintForAirdrop`. A caller other than the owner gets
/// `Unauthorized` and the state keeps its value; the owner grows the pool by
/// exactly `amount` and the response carries one host `Mint` instruction for
/// `amount` of the stored denomination, with the method/denom/amount
/// attributes.
pub open spec fn mint_outcome(
    pre: StateView,
    sender: Seq<char>,
    amount: u128,
    post: StateView,
    r: Result<Response, ContractError>,
) -> bool {
    if sender == pre.owner {
        &&& (r matches Ok(resp) && {
            &&& resp.messages@.len() == 1
            &&& (resp.messages@[0] matches TokenMsg::Mint { coin } && coin.denom@ == pre.denom
                && coin.amount == amount)
            &&& resp.attributes@.len() == 3
            &&& resp.attributes@[0].key@ == "method"@
            &&& resp.attributes@[0].value@ == "mint_for_airdrop"@
            &&& resp.attributes@[1].key@ == "denom"@
            &&& resp.attributes@[1].value@ == pre.denom
            &&& resp.attributes@[2].key@ == "amount"@
            &&& resp.attributes@[2].value@ == dec_of(amount as int)
        })
        &&& post == StateView { minted_for_airdrop: pre.minted_for_airdrop + amount, ..pre }
    } else {
        &&& r matches Err(ContractError::Unauthorized {})
        &&& post == pre
    }
}

/// The full effect of `ReceiveAirdrop`. With less than one allotment in the
/// pool the claim fails and the state keeps its value; otherwise the pool
/// shrinks by exactly the configured allotment and the response carries one
/// host `Send` instruction paying that allotment of the stored denomination
/// to the caller, with the method/denom/amount attributes. Whether a claim
/// succeeds depends on the pool alone, never on who already claimed.
pub open spec fn claim_outcome(
    pre: StateView,
    sender: Seq<char>,
    post: StateView,
    r: Result<Response, ContractError>,
) -> bool {
    if claim_enabled(pre) {
        &&& (r matches Ok(resp) && {
            &&& resp.messages@.len() == 1
            &&& (resp.messages@[0] matches TokenMsg::Send { to_address, amount } && {
                &&& to_address@ == sender
                &&& amount@.len() == 1
                &&& amount@[0].amount as int == pre.airdrop_amount
                &&& amount@[0].denom@ == pre.denom
            })
            &&& resp.attributes@.len() == 3
            &&& resp.attributes@[0].key@ == "method"@
            &&& resp.attributes@[0].value@ == "receive_airdrop"@
            &&& resp.attributes@[1].key@ == "denom"@
            &&& resp.attributes@[1].value@ == pre.denom
            &&& resp.attributes@[2].key@ == "amount"@
            &&& resp.attributes@[2].value@ == dec_of(pre.airdrop_amount)
        })
        &&& post == claim_step(pre)
    } else {
        &&& (r matches Err(ContractError::CustomError { val }) && val@ == "not enough minted"@)
        &&& post == pre
    }
}

/// Runs exactly once per deployment: issues the token, derives the
/// denomination from the subunit and the contract's own address, and writes
/// the initial state with the caller as owner and the pool primed with the
/// initial supply.
pub fn instantiate(sender: &str, contract_address: &str, msg: InstantiateMsg) -> (r: (
    State,
    Response,
))
    ensures
        instantiate_outcome(sender@, contract_address@, msg, r.0@, r.1),
{
    let denom = make_denom(msg.subunit.as_str(), contract_address);

    let mut features: Vec<u32> = Vec::new();
    features.push(0); // minting
    proof {
        assert(features@ =~= seq![0u32]);
    }

    let issue_msg = TokenMsg::Issue {
        symbol: msg.symbol,
        subunit: msg.subunit,
        precision: msg.precision,
        initial_amount: msg.initial_amount,
        description: None,
        features: Some(features),
        burn_rate: Some(String::from_str("0")),
        send_commission_rate: Some(String::from_str("0.1")),
    };

    let state = State {
        owner: String::from_str(sender),
        denom,
        airdrop_amount: msg.airdrop_amount,
        minted_for_airdrop: msg.initial_amount,
    };

    let response = Response::new()
        .add_attribute(String::from_str("owner"), state.owner.clone())
        .add_attribute(String::from_str("denom"), state.denom.clone())
        .add_message(issue_msg);

    (state, response)
}

/// Owner-only: grows the airdrop pool by `amount` and asks the host to mint
/// that much of the denomination to the contract's own balance.
pub fn mint_for_airdrop(state: &mut State, sender: &str, amount: u128) -> (r: Result<
    Response,
    ContractError,
>)
    requires
        sender@ == old(state)@.owner ==> old(state)@.minted_for_airdrop + amount <= u128::MAX,
    ensures
        mint_outcome(old(state)@, sender@, amount, final(state)@, r),
{
    let sender_s = String::from_str(sender);
    if !(sender_s == state.owner) {
        return Err(ContractError::Unauthorized {});
    }

    let mint_msg = TokenMsg::Mint { coin: Coin { denom: state.denom.clone(), amount } };

    state.minted_for_airdrop = state.minted_for_airdrop + amount;

    let response = Response::new()
        .add_attribute(String::from_str("method"), String::from_str("mint_for_airdrop"))
        .add_attribute(String::from_str("denom"), state.denom.clone())
        .add_attribute(String::from_str("amount"), decimal_string(amount))
        .add_message(mint_msg);

    Ok(response)
}

/// Open to any caller: pays out one fixed allotment from the pool, or fails
/// when the pool holds less than one allotment.
pub fn receive_airdrop(state: &mut State, sender: &str) -> (r: Result<Response, ContractError>)
    ensures
        claim_outcome(old(state)@, sender@, final(state)@, r),
{
    if state.minted_for_airdrop < state.airdrop_amount {
        return Err(ContractError::CustomError { val: String::from_str("not enough minted") });
    }

    let mut coins: Vec<Coin> = Vec::new();
    coins.push(Coin { denom: state.denom.clone(), amount: state.airdrop_amount });
    let send_msg = TokenMsg::Send { to_address: String::from_str(sender), amount: coins };

    state.minted_for_airdrop = state.minted_for_airdrop - state.airdrop_amount;

    let response = Response::new()
        .add_attribute(String::from_str("method"), String::from_str("receive_airdrop"))
        .add_attribute(String::from_str("denom"), state.denom.clone())
        .add_attribute(String::from_str("amount"), decimal_string(state.airdrop_amount))
        .add_message(send_msg);

    Ok(response)
}

/// Entry-point dispatch for the two transitions.
pub fn execute(state: &mut State, sender: &str, msg: ExecuteMsg) -> (r: Result<
    Response,
    ContractError,
>)
    requires
        msg matches ExecuteMsg::MintForAirdrop { amount } ==> (sender@ == old(state)@.owner
            ==> old(state)@.minted_for_airdrop + amount <= u128::MAX),
    ensures
        match msg {
            ExecuteMsg::MintForAirdrop { amount } => mint_outcome(
                old(state)@,
                sender@,
                amount,
                final(state)@,
                r,
            ),
            ExecuteMsg::ReceiveAirdrop {} => claim_outcome(old(state)@, sender@, final(state)@, r),
        },
{
    match msg {
        ExecuteMsg::MintForAirdrop { amount } => mint_for_airdrop(state, sender, amount),
        ExecuteMsg::ReceiveAirdrop {} => receive_airdrop(state, sender),
    }
}

/// The `Token` query: a metadata lookup for the host token registry, keyed
/// by the stored denomination.
pub fn token(state: &State) -> (r: TokenQuery)
    ensures
        r.denom@ == state@.denom,
{
    TokenQuery { denom: state.denom.clone() }
}

/// The `MintedForAirdrop` query: the current pool counter.
pub fn minted_for_airdrop(state: &State) -> (r: AmountResponse)
    ensures
        r.amount as int == state@.minted_for_airdrop,
{
    AmountResponse { amount: state.minted_for_airdrop }
}

/// Entry-point dispatch for the two read-only queries; neither mutates the
/// state.
pub fn query(state: &State, msg: QueryMsg) -> (r: QueryOutcome)
    ensures
        match msg {
            QueryMsg::Token {} => r matches QueryOutcome::Token(q) && q.denom@ == state@.denom,
            QueryMsg::MintedForAirdrop {} => r matches QueryOutcome::MintedForAirdrop(a)
                && a.amount as int == state@.minted_for_airdrop,
        },
{
    match msg {
        QueryMsg::Token {} => QueryOutcome::Token(token(state)),
        QueryMsg::MintedForAirdrop {} => QueryOutcome::MintedForAirdrop(minted_for_airdrop(state)),
    }
}

} // verus!
