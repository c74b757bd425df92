use vstd::prelude::*;

verus! {

/// Abstract value of the contract state: what every contract in this crate
/// speaks of.
#[verifier::ext_equal]
pub struct StateView {
    pub owner: Seq<char>,
    pub denom: Seq<char>,
    pub airdrop_amount: int,
    pub minted_for_airdrop: int,
}

/// The singleton record the host persists between invocations: the owner
/// identity, the per-deployment token denomination, the fixed per-claim
/// allotment, and the cumulative amount minted and not yet distributed.
#[derive(Clone, Debug)]
pub struct State {
    pub owner: String,
    pub denom: String,
    pub airdrop_amount: u128,
    pub minted_for_airdrop: u128,
}

impl View for State {
    type V = StateView;

    open spec fn view(&self) -> StateView {
        StateView {
            owner: self.owner@,
            denom: self.denom@,
            airdrop_amount: self.airdrop_amount as int,
            minted_for_airdrop: self.minted_for_airdrop as int,
        }
    }
}

/// A claim is possible exactly when the pool holds at least one full
/// allotment; the caller's identity plays no part.
pub open spec fn claim_enabled(s: StateView) -> bool {
    s.minted_for_airdrop >= s.airdrop_amount
}

/// The state change of one successful claim: the pool shrinks by exactly one
/// allotment and nothing else moves.
pub open spec fn claim_step(s: StateView) -> StateView {
    StateView { minted_for_airdrop: s.minted_for_airdrop - s.airdrop_amount, ..s }
}

/// The state after `n` successful claims in a row.
pub open spec fn claim_many(s: StateView, n: nat) -> StateView
    decreases n,
{
    if n == 0 {
        s
    } else {
        claim_step(claim_many(s, (n - 1) as nat))
    }
}

/// Claims are not one per caller: as long as the pool holds `n` allotments,
/// `n` consecutive claims are all enabled — by anyone, since enabledness
/// reads only the pool — and together they drain exactly `n` allotments,
/// touching neither owner, denomination, nor the configured allotment.
pub proof fn lemma_repeated_claims(s: StateView, n: nat)
    requires
        s.airdrop_amount >= 0,
        s.minted_for_airdrop >= n * s.airdrop_amount,
    ensures
        forall|k: nat| k < n ==> claim_enabled(#[trigger] claim_many(s, k)),
        claim_many(s, n).minted_for_airdrop == s.minted_for_airdrop - n * s.airdrop_amount,
        claim_many(s, n).airdrop_amount == s.airdrop_amount,
        claim_many(s, n).owner == s.owner,
        claim_many(s, n).denom == s.denom,
    decreases n,
{
    if n == 0 {
        assert(n * s.airdrop_amount == 0) by (nonlinear_arith)
            requires
                n == 0;
    } else {
        let m = (n - 1) as nat;
        assert(n * s.airdrop_amount == m * s.airdrop_amount + s.airdrop_amount)
            by (nonlinear_arith)
            requires
                m == n - 1,
                n >= 1;
        lemma_repeated_claims(s, m);
        assert(claim_enabled(claim_many(s, m)));
        assert(claim_many(s, n) == claim_step(claim_many(s, m)));
        assert(claim_many(s, n).minted_for_airdrop == claim_many(s, m).minted_for_airdrop
            - s.airdrop_amount);
        assert(forall|k: nat| k < n ==> claim_enabled(#[trigger] claim_many(s, k))) by {
            assert(forall|k: nat| k < m ==> claim_enabled(#[trigger] claim_many(s, k)));
        }
    }
}

} // verus!
