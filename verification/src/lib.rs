//! A minimal token-issuance and airdrop-distribution module.
//!
//! The library is the pure core of a smart contract: it issues a fungible
//! token at instantiation, lets the owner mint additional supply into an
//! airdrop pool, and lets any caller drain one fixed-size allotment per
//! claim. Every handler is a terminating function of
//! (current state, caller identity, input) that returns the new state
//! together with the instructions the host must execute atomically with the
//! state commit. Storage, message dispatch, and serialization belong to the
//! host runtime and stay outside this crate.

pub mod contract;
pub mod decimal;
pub mod denom;
pub mod msg;
pub mod state;
