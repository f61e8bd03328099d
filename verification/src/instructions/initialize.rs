use crate::identity::Identity;
use crate::state::token_pool::{TokenPool, BASIS_POINTS};
use vstd::prelude::*;

verus! {

/// The rates that a pool starts with.
#[derive(Clone, Copy, Debug, PartialEq, Eq)]
pub struct InitializeParams {
    /// Price of one token, in lamports.
    pub token_price: u64,
    /// Share of each heritage spend that funds trees, in basis points.
    pub tree_fund_rate: u16,
    /// Tokens paid per verified tree.
    pub tree_payment_rate: u64,
}

impl InitializeParams {
    /// The rates that make a well-formed pool.
    pub open spec fn valid(&self) -> bool {
        &&& self.token_price > 0
        &&& self.tree_fund_rate <= BASIS_POINTS
        &&& self.tree_payment_rate > 0
    }
}

/// The pool as it stands right after it was set up.
pub open spec fn initial_pool(authority: Identity, params: InitializeParams, bump: u8)
    -> TokenPool {
    TokenPool {
        authority,
        total_supply: 0,
        trees_funded: 0,
        heritage_preserved: 0,
        token_price: params.token_price,
        tree_fund_rate: params.tree_fund_rate,
        tree_payment_rate: params.tree_payment_rate,
        bump,
    }
}

/// Sets up the pool: `authority` becomes the one who may verify evidence,
/// the rates are taken as given and every counter starts at zero.
///
/// The rates are not examined. The pool is well formed exactly when they
/// are valid.
pub fn handler(authority: Identity, params: InitializeParams, bump: u8) -> (pool: TokenPool)
    ensures
        pool == initial_pool(authority, params, bump),
        pool.wf() <==> params.valid(),
{
    TokenPool {
        authority,
        total_supply: 0,
        trees_funded: 0,
        heritage_preserved: 0,
        token_price: params.token_price,
        tree_fund_rate: params.tree_fund_rate,
        tree_payment_rate: params.tree_payment_rate,
        bump,
    }
}

} // verus!
