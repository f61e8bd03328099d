use crate::identity::Identity;
use vstd::prelude::*;

verus! {

/// Basis points that make up the whole of a spend.
pub const BASIS_POINTS: u64 = 10_000;

/// The one global record of supply, pricing and programme statistics.
#[derive(Clone, Copy, Debug, PartialEq, Eq)]
pub struct TokenPool {
    /// The identity that may verify planting evidence.
    pub authority: Identity,
    /// Tokens issued so far.
    pub total_supply: u64,
    /// Trees funded by heritage preservation so far.
    pub trees_funded: u64,
    /// Heritage items preserved so far.
    pub heritage_preserved: u64,
    /// Price of one token, in lamports.
    pub token_price: u64,
    /// Share of each heritage spend that funds trees, in basis points.
    pub tree_fund_rate: u16,
    /// Tokens paid per verified tree.
    pub tree_payment_rate: u64,
    /// Bump seed of the address under which the record is stored.
    pub bump: u8,
}

impl TokenPool {
    /// Bytes the record takes in storage, discriminator included.
    pub const SIZE: usize = 8 + 32 + 8 + 8 + 8 + 8 + 2 + 8 + 1;

    /// A pool that sells at a positive price, routes at most the whole of a
    /// spend to trees and pays something for a tree.
    pub open spec fn wf(&self) -> bool {
        &&& self.token_price > 0
        &&& self.tree_fund_rate <= BASIS_POINTS
        &&& self.tree_payment_rate > 0
    }
}

} // verus!
