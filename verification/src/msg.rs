use vstd::prelude::*;

verus! {

/// The message that instantiates the contract: token parameters, the supply
/// minted up front, and the fixed per-claim allotment.
#[derive(Clone, Debug, PartialEq)]
pub struct InstantiateMsg {
    pub symbol: String,
    pub subunit: String,
    pub precision: u32,
    pub initial_amount: u128,
    pub airdrop_amount: u128,
}

/// The two guarded transitions: owner-only minting into the airdrop pool,
/// and a claim open to any caller.
#[derive(Clone, Debug, PartialEq)]
pub enum ExecuteMsg {
    MintForAirdrop { amount: u128 },
    ReceiveAirdrop {},
}

/// The two read-only queries.
#[derive(Clone, Debug, PartialEq)]
pub enum QueryMsg {
    Token {},
    MintedForAirdrop {},
}

/// An amount of a named token.
#[derive(Clone, Debug)]
pub struct Coin {
    pub denom: String,
    pub amount: u128,
}

/// One instruction for the host's native fungible-token module, to be
/// executed atomically with the state commit.
#[derive(Clone, Debug)]
pub enum TokenMsg {
    Issue {
        symbol: String,
        subunit: String,
        precision: u32,
        initial_amount: u128,
        description: Option<String>,
        features: Option<Vec<u32>>,
        burn_rate: Option<String>,
        send_commission_rate: Option<String>,
    },
    Mint { coin: Coin },
    Send { to_address: String, amount: Vec<Coin> },
}

/// A key/value pair attached to a response, observable by off-chain
/// indexers but never read back by any handler.
#[derive(Clone, Debug)]
pub struct Attribute {
    pub key: String,
    pub value: String,
}

/// What a handler returns on success: attributes for indexers and the host
/// instructions to execute.
#[derive(Clone, Debug)]
pub struct Response {
    pub attributes: Vec<Attribute>,
    pub messages: Vec<TokenMsg>,
}

impl Response {
    pub fn new() -> (r: Response)
        ensures
            r.attributes@.len() == 0,
            r.messages@.len() == 0,
    {
        Response { attributes: Vec::new(), messages: Vec::new() }
    }

    pub fn add_attribute(self, key: String, value: String) -> (r: Response)
        ensures
            r.attributes@ == self.attributes@.push(Attribute { key, value }),
            r.messages@ == self.messages@,
    {
        let mut attributes = self.attributes;
        attributes.push(Attribute { key, value });
        Response { attributes, messages: self.messages }
    }

    pub fn add_message(self, msg: TokenMsg) -> (r: Response)
        ensures
            r.messages@ == self.messages@.push(msg),
            r.attributes@ == self.attributes@,
    {
        let mut messages = self.messages;
        messages.push(msg);
        Response { attributes: self.attributes, messages }
    }
}

/// The answer to the `MintedForAirdrop` query.
#[derive(Clone, Debug, PartialEq)]
pub struct AmountResponse {
    pub amount: u128,
}

/// The host lookup built by the `Token` query: full token metadata, keyed by
/// denomination.
#[derive(Clone, Debug)]
pub struct TokenQuery {
    pub denom: String,
}

/// The outcome of a query: either a lookup for the host token registry to
/// answer, or an answer computed from the state itself.
#[derive(Clone, Debug)]
pub enum QueryOutcome {
    Token(TokenQuery),
    MintedForAirdrop(AmountResponse),
}

} // verus!
