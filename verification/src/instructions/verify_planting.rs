use crate::errors::PyebwaError;
use crate::identity::Identity;
use crate::state::planter_account::{PlanterAccount, MAX_REPUTATION};
use crate::state::planting_evidence::PlantingEvidence;
use crate::state::token_pool::TokenPool;
use vstd::prelude::*;

verus! {

/// What one verification adds to a planter's reputation.
pub const REPUTATION_STEP: u16 = 10;

/// Tokens that a record earns its planter: the pool's payment for each of
/// its trees.
pub open spec fn payment_for(pool: TokenPool, evidence: PlantingEvidence) -> int {
    evidence.tree_count * pool.tree_payment_rate
}

/// A reputation one verification later: ten more, and 1000 at most.
pub open spec fn raised_reputation(score: u16) -> u16 {
    if score + REPUTATION_STEP < MAX_REPUTATION {
        (score + REPUTATION_STEP) as u16
    } else {
        MAX_REPUTATION
    }
}

/// Whether a record and an account can belong together: the trees of a
/// record that is still to be verified are among those that the planter
/// planted and has not had verified.
pub open spec fn consistent(evidence: PlantingEvidence, planter_account: PlanterAccount)
    -> bool {
    evidence.verified || planter_account.trees_verified + evidence.tree_count
        <= planter_account.trees_planted
}

/// Why a verification is refused, if it is. The verifier is looked at
/// first, then the state of the record, then the arithmetic.
pub open spec fn verification_refusal(
    pool: TokenPool,
    evidence: PlantingEvidence,
    planter_account: PlanterAccount,
    verifier: Identity,
) -> Option<PyebwaError> {
    if verifier != pool.authority {
        Some(PyebwaError::Unauthorized)
    } else if evidence.verified {
        Some(PyebwaError::AlreadyVerified)
    } else if planter_account.trees_verified + evidence.tree_count > u32::MAX || payment_for(
        pool,
        evidence,
    ) > u64::MAX || planter_account.earnings + payment_for(pool, evidence) > u64::MAX {
        Some(PyebwaError::MathOverflow)
    } else {
        None
    }
}

/// The record after its verification: closed, with the verifier and the
/// time written in, and its payment booked as released.
pub open spec fn verified_evidence(evidence: PlantingEvidence, verifier: Identity, now: i64)
    -> PlantingEvidence {
    PlantingEvidence {
        verified: true,
        verified_by: Some(verifier),
        verified_at: Some(now),
        payment_released: true,
        ..evidence
    }
}

/// The planter's account after one of its records was verified.
pub open spec fn planter_after_verification(
    pool: TokenPool,
    evidence: PlantingEvidence,
    planter_account: PlanterAccount,
) -> PlanterAccount {
    PlanterAccount {
        trees_verified: (planter_account.trees_verified + evidence.tree_count) as u32,
        earnings: (planter_account.earnings + payment_for(pool, evidence)) as u64,
        reputation_score: raised_reputation(planter_account.reputation_score),
        ..planter_account
    }
}

/// The number under which a record was filed, worked out from what the
/// planter has planted since: the trees planted, less those of the record.
/// It is the number that the record was given only as long as nothing was
/// submitted after it. `None` where the record names more trees than the
/// account has planted.
pub open spec fn filed_under(planter_account: PlanterAccount, evidence: PlantingEvidence)
    -> Option<u32> {
    if planter_account.trees_planted >= evidence.tree_count {
        Some((planter_account.trees_planted - evidence.tree_count) as u32)
    } else {
        None
    }
}

/// Computes `filed_under`.
pub fn filed_sequence(planter_account: &PlanterAccount, planting_evidence: &PlantingEvidence)
    -> (sequence: Option<u32>)
    ensures
        sequence == filed_under(*planter_account, *planting_evidence),
{
    planter_account.trees_planted.checked_sub(planting_evidence.tree_count as u32)
}

/// Decides `consistent`: whether the record may be put to verification
/// together with the account.
pub fn is_consistent(planting_evidence: &PlantingEvidence, planter_account: &PlanterAccount)
    -> (r: bool)
    ensures
        r == consistent(*planting_evidence, *planter_account),
{
    planting_evidence.verified || planting_evidence.tree_count as u64
        + planter_account.trees_verified as u64 <= planter_account.trees_planted as u64
}

/// Verifies a record of planting evidence on behalf of `verifier`, books the
/// payment for it in the planter's account, and returns that payment.
///
/// Only the pool's authority may verify, and a record is verified once. A
/// refused verification leaves the record and the account as they were.
/// Booking the payment moves no tokens.
pub fn handler(
    token_pool: &TokenPool,
    planting_evidence: &mut PlantingEvidence,
    planter_account: &mut PlanterAccount,
    verifier: Identity,
    now: i64,
) -> (r: Result<u64, PyebwaError>)
    requires
        consistent(*old(planting_evidence), *old(planter_account)),
    ensures
        match verification_refusal(
            *token_pool,
            *old(planting_evidence),
            *old(planter_account),
            verifier,
        ) {
            Some(e) => {
                &&& r == Err::<u64, PyebwaError>(e)
                &&& *final(planting_evidence) == *old(planting_evidence)
                &&& *final(planter_account) == *old(planter_account)
            },
            None => {
                &&& r == Ok::<u64, PyebwaError>(
                    payment_for(*token_pool, *old(planting_evidence)) as u64,
                )
                &&& *final(planting_evidence) == verified_evidence(
                    *old(planting_evidence),
                    verifier,
                    now,
                )
                &&& *final(planter_account) == planter_after_verification(
                    *token_pool,
                    *old(planting_evidence),
                    *old(planter_account),
                )
            },
        },
        r is Ok ==> final(planter_account).reputation_score <= MAX_REPUTATION,
        r is Ok ==> final(planter_account).trees_verified <= final(planter_account).trees_planted,
        old(planter_account).wf() ==> final(planter_account).wf(),
        old(planting_evidence).wf() ==> final(planting_evidence).wf(),
        consistent(*final(planting_evidence), *final(planter_account)),
{
    if !(verifier == token_pool.authority) {
        return Err(PyebwaError::Unauthorized);
    }
    if planting_evidence.verified {
        return Err(PyebwaError::AlreadyVerified);
    }
    let verified = match planter_account.trees_verified.checked_add(
        planting_evidence.tree_count as u32,
    ) {
        Some(verified) => verified,
        None => {
            return Err(PyebwaError::MathOverflow);
        },
    };
    let payment = match (planting_evidence.tree_count as u64).checked_mul(
        token_pool.tree_payment_rate,
    ) {
        Some(payment) => payment,
        None => {
            return Err(PyebwaError::MathOverflow);
        },
    };
    let earnings = match planter_account.earnings.checked_add(payment) {
        Some(earnings) => earnings,
        None => {
            return Err(PyebwaError::MathOverflow);
        },
    };
    let raised = planter_account.reputation_score.saturating_add(REPUTATION_STEP);
    planting_evidence.verified = true;
    planting_evidence.verified_by = Some(verifier);
    planting_evidence.verified_at = Some(now);
    planting_evidence.payment_released = true;
    planter_account.trees_verified = verified;
    planter_account.earnings = earnings;
    planter_account.reputation_score = if raised > MAX_REPUTATION {
        MAX_REPUTATION
    } else {
        raised
    };
    Ok(payment)
}

} // verus!
