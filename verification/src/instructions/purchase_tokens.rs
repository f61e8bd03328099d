use crate::errors::PyebwaError;
use crate::identity::Identity;
use crate::state::family_account::FamilyAccount;
use crate::state::token_pool::TokenPool;
use vstd::prelude::*;

verus! {

/// Each time the supply lands on a multiple of this, the price takes a step.
pub const PRICE_STEP_INTERVAL: u64 = 1_000_000;

/// A step multiplies the price by this ...
pub const PRICE_STEP_NUMERATOR: u64 = 10_001;

/// ... and divides it by this, rounding down.
pub const PRICE_STEP_DENOMINATOR: u64 = 10_000;

/// Lamports that `amount` tokens cost at `price`.
pub open spec fn cost_of(price: u64, amount: u64) -> int {
    amount * price
}

/// The price one step up: a ten-thousandth more, rounded down.
pub open spec fn stepped_price(price: int) -> int {
    price * PRICE_STEP_NUMERATOR / (PRICE_STEP_DENOMINATOR as int)
}

/// Whether buying `amount` moves the price: the purchase is of something and
/// brings the supply onto a multiple of the interval. A purchase that only
/// passes over a multiple moves nothing.
pub open spec fn price_steps(supply: u64, amount: u64) -> bool {
    amount > 0 && (supply + amount) % (PRICE_STEP_INTERVAL as int) == 0
}

/// The price after `amount` has been bought.
pub open spec fn price_after(pool: TokenPool, amount: u64) -> int {
    if price_steps(pool.total_supply, amount) {
        stepped_price(pool.token_price as int)
    } else {
        pool.token_price as int
    }
}

/// Whether every number of the purchase stays within 64 bits: the cost, the
/// buyer's balance, the supply, and the price before it is divided.
pub open spec fn purchase_fits(pool: TokenPool, family: FamilyAccount, amount: u64) -> bool {
    &&& cost_of(pool.token_price, amount) <= u64::MAX
    &&& family.token_balance + amount <= u64::MAX
    &&& pool.total_supply + amount <= u64::MAX
    &&& price_steps(pool.total_supply, amount) ==> pool.token_price * PRICE_STEP_NUMERATOR
        <= u64::MAX
}

/// Why a purchase is refused, if it is: only for a number out of range.
pub open spec fn purchase_refusal(pool: TokenPool, family: FamilyAccount, amount: u64) -> Option<
    PyebwaError,
> {
    if purchase_fits(pool, family, amount) {
        None
    } else {
        Some(PyebwaError::MathOverflow)
    }
}

/// The pool after a purchase that fits.
pub open spec fn pool_after_purchase(pool: TokenPool, amount: u64) -> TokenPool {
    TokenPool {
        total_supply: (pool.total_supply + amount) as u64,
        token_price: price_after(pool, amount) as u64,
        ..pool
    }
}

/// The buyer's account after a purchase that fits. A purchase of nothing
/// leaves it as it is; any other fills in an account that had no owner yet.
pub open spec fn family_after_purchase(
    family: FamilyAccount,
    buyer: Identity,
    amount: u64,
    now: i64,
    bump: u8,
) -> FamilyAccount {
    if amount == 0 {
        family
    } else if family.created() {
        FamilyAccount { token_balance: (family.token_balance + amount) as u64, ..family }
    } else {
        FamilyAccount {
            owner: buyer,
            created_at: now,
            bump,
            token_balance: (family.token_balance + amount) as u64,
            ..family
        }
    }
}

/// A step never lowers the price.
pub proof fn lemma_step_never_lowers(price: int)
    requires
        0 <= price,
    ensures
        stepped_price(price) >= price,
{
}

/// What `amount` tokens cost at the pool's price: the lamports that the
/// buyer has to hand over before the purchase is booked.
pub fn quote(token_pool: &TokenPool, amount: u64) -> (r: Result<u64, PyebwaError>)
    ensures
        cost_of(token_pool.token_price, amount) <= u64::MAX ==> r == Ok::<u64, PyebwaError>(
            cost_of(token_pool.token_price, amount) as u64,
        ),
        cost_of(token_pool.token_price, amount) > u64::MAX ==> r == Err::<u64, PyebwaError>(
            PyebwaError::MathOverflow,
        ),
{
    match amount.checked_mul(token_pool.token_price) {
        Some(cost) => Ok(cost),
        None => Err(PyebwaError::MathOverflow),
    }
}

/// Books a purchase of `amount` tokens by `buyer` and returns its cost.
///
/// The buyer's first purchase fills in the account: the buyer becomes its
/// owner and `now` the time of its creation. A purchase of nothing is
/// accepted and books nothing. The purchase is all or nothing: where a
/// number would leave its range the pool and the account stay as they were.
pub fn handler(
    token_pool: &mut TokenPool,
    family_account: &mut FamilyAccount,
    buyer: Identity,
    amount: u64,
    now: i64,
    bump: u8,
) -> (r: Result<u64, PyebwaError>)
    ensures
        match purchase_refusal(*old(token_pool), *old(family_account), amount) {
            Some(e) => {
                &&& r == Err::<u64, PyebwaError>(e)
                &&& *final(token_pool) == *old(token_pool)
                &&& *final(family_account) == *old(family_account)
            },
            None => {
                &&& r == Ok::<u64, PyebwaError>(
                    cost_of(old(token_pool).token_price, amount) as u64,
                )
                &&& *final(token_pool) == pool_after_purchase(*old(token_pool), amount)
                &&& *final(family_account) == family_after_purchase(
                    *old(family_account),
                    buyer,
                    amount,
                    now,
                    bump,
                )
            },
        },
        final(token_pool).token_price >= old(token_pool).token_price,
        old(token_pool).wf() ==> final(token_pool).wf(),
{
    if amount == 0 {
        return Ok(0);
    }
    let cost = match amount.checked_mul(token_pool.token_price) {
        Some(cost) => cost,
        None => {
            return Err(PyebwaError::MathOverflow);
        },
    };
    let balance = match family_account.token_balance.checked_add(amount) {
        Some(balance) => balance,
        None => {
            return Err(PyebwaError::MathOverflow);
        },
    };
    let supply = match token_pool.total_supply.checked_add(amount) {
        Some(supply) => supply,
        None => {
            return Err(PyebwaError::MathOverflow);
        },
    };
    let price = if supply % PRICE_STEP_INTERVAL == 0 {
        match token_pool.token_price.checked_mul(PRICE_STEP_NUMERATOR) {
            Some(scaled) => scaled / PRICE_STEP_DENOMINATOR,
            None => {
                return Err(PyebwaError::MathOverflow);
            },
        }
    } else {
        token_pool.token_price
    };
    if family_account.owner.is_unset() {
        family_account.owner = buyer;
        family_account.created_at = now;
        family_account.bump = bump;
    }
    family_account.token_balance = balance;
    token_pool.total_supply = supply;
    token_pool.token_price = price;
    Ok(cost)
}

} // verus!
