use crate::errors::PyebwaError;
use crate::state::family_account::FamilyAccount;
use crate::state::planting_evidence::{hash_len, stored_len, MAX_HASH_LEN};
use crate::state::token_pool::{TokenPool, BASIS_POINTS};
use crate::state::HeritageType;
use vstd::prelude::*;

verus! {

/// Tokens of a spend that go to tree funding: the pool's share of it in
/// basis points, rounded down.
pub open spec fn tree_funding(pool: TokenPool, token_cost: u64) -> int {
    token_cost * pool.tree_fund_rate / (BASIS_POINTS as int)
}

/// Whole trees that a spend funds. What is left of the funding after the
/// last whole tree is dropped, not carried to the next spend.
pub open spec fn trees_funded_by(pool: TokenPool, token_cost: u64) -> int {
    tree_funding(pool, token_cost) / (pool.tree_payment_rate as int)
}

/// Whether every number of the preservation stays in range and the pool
/// pays something for a tree.
pub open spec fn preservation_fits(pool: TokenPool, family: FamilyAccount, token_cost: u64)
    -> bool {
    &&& token_cost * pool.tree_fund_rate <= u64::MAX
    &&& family.heritage_items + 1 <= u32::MAX
    &&& family.total_spent + token_cost <= u64::MAX
    &&& pool.tree_payment_rate > 0
    &&& family.trees_funded + trees_funded_by(pool, token_cost) <= u32::MAX
    &&& pool.heritage_preserved + 1 <= u64::MAX
    &&& pool.trees_funded + trees_funded_by(pool, token_cost) <= u64::MAX
}

/// Why a preservation is refused, if it is. The hash is looked at first,
/// then the balance, then the arithmetic.
pub open spec fn preservation_refusal(
    pool: TokenPool,
    family: FamilyAccount,
    ipfs_hash: Seq<char>,
    token_cost: u64,
) -> Option<PyebwaError> {
    if hash_len(ipfs_hash) > MAX_HASH_LEN {
        Some(PyebwaError::IPFSHashTooLong)
    } else if family.token_balance < token_cost {
        Some(PyebwaError::InsufficientBalance)
    } else if !preservation_fits(pool, family, token_cost) {
        Some(PyebwaError::MathOverflow)
    } else {
        None
    }
}

/// The family's account after a preservation that went through.
pub open spec fn family_after_preservation(pool: TokenPool, family: FamilyAccount, token_cost: u64)
    -> FamilyAccount {
    FamilyAccount {
        token_balance: (family.token_balance - token_cost) as u64,
        heritage_items: (family.heritage_items + 1) as u32,
        total_spent: (family.total_spent + token_cost) as u64,
        trees_funded: (family.trees_funded + trees_funded_by(pool, token_cost)) as u32,
        ..family
    }
}

/// The pool after a preservation that went through.
pub open spec fn pool_after_preservation(pool: TokenPool, token_cost: u64) -> TokenPool {
    TokenPool {
        heritage_preserved: (pool.heritage_preserved + 1) as u64,
        trees_funded: (pool.trees_funded + trees_funded_by(pool, token_cost)) as u64,
        ..pool
    }
}

/// Spends `token_cost` of the family's tokens on preserving one heritage
/// item and returns the number of whole trees that the spend funds.
///
/// The kind of item changes nothing in the books. A refused preservation
/// leaves the pool and the account as they were.
pub fn handler(
    token_pool: &mut TokenPool,
    family_account: &mut FamilyAccount,
    ipfs_hash: String,
    heritage_type: HeritageType,
    token_cost: u64,
) -> (r: Result<u64, PyebwaError>)
    ensures
        match preservation_refusal(
            *old(token_pool),
            *old(family_account),
            ipfs_hash@,
            token_cost,
        ) {
            Some(e) => {
                &&& r == Err::<u64, PyebwaError>(e)
                &&& *final(token_pool) == *old(token_pool)
                &&& *final(family_account) == *old(family_account)
            },
            None => {
                &&& r == Ok::<u64, PyebwaError>(
                    trees_funded_by(*old(token_pool), token_cost) as u64,
                )
                &&& *final(token_pool) == pool_after_preservation(*old(token_pool), token_cost)
                &&& *final(family_account) == family_after_preservation(
                    *old(token_pool),
                    *old(family_account),
                    token_cost,
                )
            },
        },
        // The balance falls by the cost, to the token.
        r is Ok ==> old(family_account).token_balance - final(family_account).token_balance
            == token_cost,
        r is Ok ==> final(family_account).total_spent - old(family_account).total_spent
            == token_cost,
        old(token_pool).wf() ==> final(token_pool).wf(),
{
    if stored_len(&ipfs_hash) > MAX_HASH_LEN {
        return Err(PyebwaError::IPFSHashTooLong);
    }
    if family_account.token_balance < token_cost {
        return Err(PyebwaError::InsufficientBalance);
    }
    let funding = match token_cost.checked_mul(token_pool.tree_fund_rate as u64) {
        Some(scaled) => scaled / BASIS_POINTS,
        None => {
            return Err(PyebwaError::MathOverflow);
        },
    };
    let items = match family_account.heritage_items.checked_add(1) {
        Some(items) => items,
        None => {
            return Err(PyebwaError::MathOverflow);
        },
    };
    let spent = match family_account.total_spent.checked_add(token_cost) {
        Some(spent) => spent,
        None => {
            return Err(PyebwaError::MathOverflow);
        },
    };
    let trees = match funding.checked_div(token_pool.tree_payment_rate) {
        Some(trees) => trees,
        None => {
            return Err(PyebwaError::MathOverflow);
        },
    };
    if trees > u32::MAX as u64 {
        return Err(PyebwaError::MathOverflow);
    }
    let family_trees = match family_account.trees_funded.checked_add(trees as u32) {
        Some(family_trees) => family_trees,
        None => {
            return Err(PyebwaError::MathOverflow);
        },
    };
    let preserved = match token_pool.heritage_preserved.checked_add(1) {
        Some(preserved) => preserved,
        None => {
            return Err(PyebwaError::MathOverflow);
        },
    };
    let pool_trees = match token_pool.trees_funded.checked_add(trees) {
        Some(pool_trees) => pool_trees,
        None => {
            return Err(PyebwaError::MathOverflow);
        },
    };
    family_account.token_balance = family_account.token_balance - token_cost;
    family_account.heritage_items = items;
    family_account.total_spent = spent;
    family_account.trees_funded = family_trees;
    token_pool.heritage_preserved = preserved;
    token_pool.trees_funded = pool_trees;
    Ok(trees)
}

} // verus!
