//! The books of a reforestation programme: families buy tokens from a pool
//! and spend them on preserving heritage, and planters earn tokens for
//! evidence of planted trees that the pool's authority has verified.
//!
//! Every operation takes the records it works on, the identity of the
//! caller and the time, and changes the records or reports why it did not.
//! Storage, signatures and the movement of lamports are the caller's
//! business.
use vstd::prelude::*;

pub mod errors;
pub mod gps;
pub mod identity;
pub mod instructions;
pub mod invariants;
pub mod state;

use crate::errors::PyebwaError;
use crate::identity::Identity;
use crate::instructions::initialize::{initial_pool, InitializeParams};
use crate::instructions::preserve_heritage::{
    family_after_preservation, pool_after_preservation, preservation_refusal, trees_funded_by,
};
use crate::instructions::purchase_tokens::{
    cost_of, family_after_purchase, pool_after_purchase, purchase_refusal,
};
use crate::instructions::submit_planting::{
    planter_after_submission, submission_refusal, submission_well_formed, submitted_evidence,
};
use crate::instructions::verify_planting::{
    consistent, payment_for, planter_after_verification, verification_refusal,
    verified_evidence,
};
use crate::state::family_account::FamilyAccount;
use crate::state::planter_account::{PlanterAccount, MAX_REPUTATION};
use crate::state::planting_evidence::PlantingEvidence;
use crate::state::token_pool::TokenPool;
use crate::state::HeritageType;

verus! {

/// Sets up the pool with `authority` as the one who may verify evidence.
pub fn initialize(authority: Identity, params: InitializeParams, bump: u8) -> (pool: TokenPool)
    ensures
        pool == initial_pool(authority, params, bump),
        pool.wf() <==> params.valid(),
{
    instructions::initialize::handler(authority, params, bump)
}

/// Books a purchase of `amount` tokens by `buyer` and returns its cost in
/// lamports. Where a number would leave its range nothing is booked.
pub fn purchase_tokens(
    token_pool: &mut TokenPool,
    family_account: &mut FamilyAccount,
    buyer: Identity,
    amount: u64,
    now: i64,
    bump: u8,
) -> (r: Result<u64, PyebwaError>)
    ensures
        match purchase_refusal(*old(token_pool), *old(family_account), amount) {
            Some(e) => {
                &&& r == Err::<u64, PyebwaError>(e)
                &&& *final(token_pool) == *old(token_pool)
                &&& *final(family_account) == *old(family_account)
            },
            None => {
                &&& r == Ok::<u64, PyebwaError>(
                    cost_of(old(token_pool).token_price, amount) as u64,
                )
                &&& *final(token_pool) == pool_after_purchase(*old(token_pool), amount)
                &&& *final(family_account) == family_after_purchase(
                    *old(family_account),
                    buyer,
                    amount,
                    now,
                    bump,
                )
            },
        },
        final(token_pool).token_price >= old(token_pool).token_price,
        old(token_pool).wf() ==> final(token_pool).wf(),
{
    instructions::purchase_tokens::handler(token_pool, family_account, buyer, amount, now, bump)
}

/// Spends `token_cost` of the family's tokens on preserving one heritage
/// item and returns the number of whole trees that the spend funds.
pub fn preserve_heritage(
    token_pool: &mut TokenPool,
    family_account: &mut FamilyAccount,
    ipfs_hash: String,
    heritage_type: HeritageType,
    token_cost: u64,
) -> (r: Result<u64, PyebwaError>)
    ensures
        match preservation_refusal(
            *old(token_pool),
            *old(family_account),
            ipfs_hash@,
            token_cost,
        ) {
            Some(e) => {
                &&& r == Err::<u64, PyebwaError>(e)
                &&& *final(token_pool) == *old(token_pool)
                &&& *final(family_account) == *old(family_account)
            },
            None => {
                &&& r == Ok::<u64, PyebwaError>(
                    trees_funded_by(*old(token_pool), token_cost) as u64,
                )
                &&& *final(token_pool) == pool_after_preservation(*old(token_pool), token_cost)
                &&& *final(family_account) == family_after_preservation(
                    *old(token_pool),
                    *old(family_account),
                    token_cost,
                )
            },
        },
        r is Ok ==> old(family_account).token_balance - final(family_account).token_balance
            == token_cost,
        r is Ok ==> final(family_account).total_spent - old(family_account).total_spent
            == token_cost,
        old(token_pool).wf() ==> final(token_pool).wf(),
{
    instructions::preserve_heritage::handler(
        token_pool,
        family_account,
        ipfs_hash,
        heritage_type,
        token_cost,
    )
}

/// Takes in evidence of `tree_count` trees planted at `gps_coordinates` and
/// returns the record of it. A refused submission makes no record, but the
/// first well-formed one of a planter opens the planter's account.
pub fn submit_planting(
    planter_account: &mut PlanterAccount,
    planter: Identity,
    tree_count: u16,
    gps_coordinates: [u64; 2],
    evidence_hash: String,
    now: i64,
    planter_bump: u8,
    evidence_bump: u8,
) -> (r: Result<PlantingEvidence, PyebwaError>)
    ensures
        match submission_refusal(*old(planter_account), tree_count, gps_coordinates, evidence_hash@)
        {
            Some(e) => r == Err::<PlantingEvidence, PyebwaError>(e),
            None => r == Ok::<PlantingEvidence, PyebwaError>(
                submitted_evidence(
                    planter,
                    tree_count,
                    gps_coordinates,
                    evidence_hash,
                    now,
                    evidence_bump,
                ),
            ),
        },
        *final(planter_account) == planter_after_submission(
            *old(planter_account),
            planter,
            tree_count,
            gps_coordinates,
            evidence_hash@,
            now,
            planter_bump,
        ),
        submission_well_formed(tree_count, gps_coordinates, evidence_hash@) && !old(
            planter_account,
        ).created() ==> {
            &&& r == Err::<PlantingEvidence, PyebwaError>(PyebwaError::PlanterNotVerified)
            &&& final(planter_account).owner == planter
            &&& !final(planter_account).verified
        },
        r matches Ok(evidence) ==> evidence.wf(),
        old(planter_account).wf() ==> final(planter_account).wf(),
        r matches Ok(evidence) ==> (old(planter_account).wf() ==> consistent(
            evidence,
            *final(planter_account),
        )),
{
    instructions::submit_planting::handler(
        planter_account,
        planter,
        tree_count,
        gps_coordinates,
        evidence_hash,
        now,
        planter_bump,
        evidence_bump,
    )
}

/// Verifies a record of planting evidence on behalf of `verifier`, books the
/// payment for it in the planter's account, and returns that payment.
pub fn verify_planting(
    token_pool: &TokenPool,
    planting_evidence: &mut PlantingEvidence,
    planter_account: &mut PlanterAccount,
    verifier: Identity,
    now: i64,
) -> (r: Result<u64, PyebwaError>)
    requires
        consistent(*old(planting_evidence), *old(planter_account)),
    ensures
        match verification_refusal(
            *token_pool,
            *old(planting_evidence),
            *old(planter_account),
            verifier,
        ) {
            Some(e) => {
                &&& r == Err::<u64, PyebwaError>(e)
                &&& *final(planting_evidence) == *old(planting_evidence)
                &&& *final(planter_account) == *old(planter_account)
            },
            None => {
                &&& r == Ok::<u64, PyebwaError>(
                    payment_for(*token_pool, *old(planting_evidence)) as u64,
                )
                &&& *final(planting_evidence) == verified_evidence(
                    *old(planting_evidence),
                    verifier,
                    now,
                )
                &&& *final(planter_account) == planter_after_verification(
                    *token_pool,
                    *old(planting_evidence),
                    *old(planter_account),
                )
            },
        },
        r is Ok ==> final(planter_account).reputation_score <= MAX_REPUTATION,
        r is Ok ==> final(planter_account).trees_verified <= final(planter_account).trees_planted,
        old(planter_account).wf() ==> final(planter_account).wf(),
        old(planting_evidence).wf() ==> final(planting_evidence).wf(),
        consistent(*final(planting_evidence), *final(planter_account)),
{
    instructions::verify_planting::handler(
        token_pool,
        planting_evidence,
        planter_account,
        verifier,
        now,
    )
}

} // verus!
