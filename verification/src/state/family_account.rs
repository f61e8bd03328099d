use crate::identity::Identity;
use vstd::prelude::*;

verus! {

/// What one buyer holds and has spent. It comes into being with the buyer's
/// first purchase.
#[derive(Clone, Copy, Debug, PartialEq, Eq)]
pub struct FamilyAccount {
    /// The buyer; unset until the first purchase.
    pub owner: Identity,
    /// Tokens the family can still spend.
    pub token_balance: u64,
    /// Heritage items the family has preserved.
    pub heritage_items: u32,
    /// Whole trees the family's spending has funded.
    pub trees_funded: u32,
    /// Tokens spent on preservation so far; it never decreases.
    pub total_spent: u64,
    /// When the first purchase was made.
    pub created_at: i64,
    /// Bump seed of the address under which the record is stored.
    pub bump: u8,
}

impl FamilyAccount {
    /// Bytes the record takes in storage, discriminator included.
    pub const SIZE: usize = 8 + 32 + 8 + 4 + 4 + 8 + 8 + 1;

    /// Whether the account has had its first purchase.
    pub open spec fn created(&self) -> bool {
        !self.owner.unset()
    }

    /// The account as storage hands it out before its first purchase.
    pub open spec fn blank(&self) -> bool {
        &&& self.owner.unset()
        &&& self.token_balance == 0
        &&& self.heritage_items == 0
        &&& self.trees_funded == 0
        &&& self.total_spent == 0
        &&& self.created_at == 0
        &&& self.bump == 0
    }
}

impl Default for FamilyAccount {
    fn default() -> (r: FamilyAccount)
        ensures
            r.blank(),
    {
        FamilyAccount {
            owner: Identity::default(),
            token_balance: 0,
            heritage_items: 0,
            trees_funded: 0,
            total_spent: 0,
            created_at: 0,
            bump: 0,
        }
    }
}

} // verus!
