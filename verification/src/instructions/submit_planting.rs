use crate::errors::PyebwaError;
use crate::gps::{is_within_bounds, within_bounds};
use crate::identity::Identity;
use crate::instructions::verify_planting::consistent;
use crate::state::planter_account::PlanterAccount;
use crate::state::planting_evidence::{
    hash_len, stored_len, PlantingEvidence, MAX_HASH_LEN, MAX_TREE_COUNT,
};
use vstd::prelude::*;

verus! {

/// Whether a submission says nothing that is refused on its face: the tree
/// count, the length of the hash and the site are all accepted.
pub open spec fn submission_well_formed(
    tree_count: u16,
    gps_coordinates: [u64; 2],
    evidence_hash: Seq<char>,
) -> bool {
    &&& 1 <= tree_count <= MAX_TREE_COUNT
    &&& hash_len(evidence_hash) <= MAX_HASH_LEN
    &&& within_bounds(gps_coordinates[0], gps_coordinates[1])
}

/// Why a submission is refused, if it is. The tree count is looked at first,
/// then the hash, then the site, then the planter, then the arithmetic.
pub open spec fn submission_refusal(
    planter_account: PlanterAccount,
    tree_count: u16,
    gps_coordinates: [u64; 2],
    evidence_hash: Seq<char>,
) -> Option<PyebwaError> {
    if !(1 <= tree_count <= MAX_TREE_COUNT) {
        Some(PyebwaError::InvalidTreeCount)
    } else if hash_len(evidence_hash) > MAX_HASH_LEN {
        Some(PyebwaError::IPFSHashTooLong)
    } else if !within_bounds(gps_coordinates[0], gps_coordinates[1]) {
        Some(PyebwaError::InvalidGPSCoordinates)
    } else if !planter_account.created() || !planter_account.verified {
        Some(PyebwaError::PlanterNotVerified)
    } else if planter_account.trees_planted + tree_count > u32::MAX {
        Some(PyebwaError::MathOverflow)
    } else {
        None
    }
}

/// A planter's account right after it was opened: owned by the planter,
/// placed at the site of this submission, and not verified.
pub open spec fn opened_account(
    planter_account: PlanterAccount,
    planter: Identity,
    gps_coordinates: [u64; 2],
    now: i64,
    bump: u8,
) -> PlanterAccount {
    PlanterAccount {
        owner: planter,
        created_at: now,
        bump,
        gps_lat: gps_coordinates[0],
        gps_lon: gps_coordinates[1],
        verified: false,
        ..planter_account
    }
}

/// The planter's account after a submission, accepted or refused.
///
/// A well-formed submission of a planter who has no account yet opens one,
/// though the submission itself is then refused: the account is opened
/// before the planter is asked for verification. In every other refusal the
/// account stays as it was.
pub open spec fn planter_after_submission(
    planter_account: PlanterAccount,
    planter: Identity,
    tree_count: u16,
    gps_coordinates: [u64; 2],
    evidence_hash: Seq<char>,
    now: i64,
    bump: u8,
) -> PlanterAccount {
    if !submission_well_formed(tree_count, gps_coordinates, evidence_hash) {
        planter_account
    } else if !planter_account.created() {
        opened_account(planter_account, planter, gps_coordinates, now, bump)
    } else if submission_refusal(planter_account, tree_count, gps_coordinates, evidence_hash)
        is Some {
        planter_account
    } else {
        PlanterAccount {
            trees_planted: (planter_account.trees_planted + tree_count) as u32,
            ..planter_account
        }
    }
}

/// The record that an accepted submission makes.
pub open spec fn submitted_evidence(
    planter: Identity,
    tree_count: u16,
    gps_coordinates: [u64; 2],
    evidence_hash: String,
    now: i64,
    bump: u8,
) -> PlantingEvidence {
    PlantingEvidence {
        planter,
        tree_count,
        gps_lat: gps_coordinates[0],
        gps_lon: gps_coordinates[1],
        ipfs_hash: evidence_hash,
        submitted_at: now,
        verified: false,
        verified_by: None,
        verified_at: None,
        payment_released: false,
        bump,
    }
}

/// The number under which the planter's next record is filed: the trees
/// planted before it.
pub fn next_sequence(planter_account: &PlanterAccount) -> (sequence: u32)
    ensures
        sequence == planter_account.trees_planted,
{
    planter_account.trees_planted
}

/// Takes in evidence of `tree_count` trees planted at `gps_coordinates`
/// (latitude, then longitude) and returns the record of it.
///
/// A refused submission makes no record.
pub fn handler(
    planter_account: &mut PlanterAccount,
    planter: Identity,
    tree_count: u16,
    gps_coordinates: [u64; 2],
    evidence_hash: String,
    now: i64,
    planter_bump: u8,
    evidence_bump: u8,
) -> (r: Result<PlantingEvidence, PyebwaError>)
    ensures
        match submission_refusal(*old(planter_account), tree_count, gps_coordinates, evidence_hash@)
        {
            Some(e) => r == Err::<PlantingEvidence, PyebwaError>(e),
            None => r == Ok::<PlantingEvidence, PyebwaError>(
                submitted_evidence(
                    planter,
                    tree_count,
                    gps_coordinates,
                    evidence_hash,
                    now,
                    evidence_bump,
                ),
            ),
        },
        *final(planter_account) == planter_after_submission(
            *old(planter_account),
            planter,
            tree_count,
            gps_coordinates,
            evidence_hash@,
            now,
            planter_bump,
        ),
        // The first submission of a planter opens the account and is refused.
        submission_well_formed(tree_count, gps_coordinates, evidence_hash@) && !old(
            planter_account,
        ).created() ==> {
            &&& r == Err::<PlantingEvidence, PyebwaError>(PyebwaError::PlanterNotVerified)
            &&& final(planter_account).owner == planter
            &&& !final(planter_account).verified
        },
        r matches Ok(evidence) ==> evidence.wf(),
        old(planter_account).wf() ==> final(planter_account).wf(),
        // The record can be put to verification with the account as it now is.
        r matches Ok(evidence) ==> (old(planter_account).wf() ==> consistent(
            evidence,
            *final(planter_account),
        )),
{
    if tree_count == 0 || tree_count > MAX_TREE_COUNT {
        return Err(PyebwaError::InvalidTreeCount);
    }
    if stored_len(&evidence_hash) > MAX_HASH_LEN {
        return Err(PyebwaError::IPFSHashTooLong);
    }
    let lat = gps_coordinates[0];
    let lon = gps_coordinates[1];
    if !is_within_bounds(lat, lon) {
        return Err(PyebwaError::InvalidGPSCoordinates);
    }
    if planter_account.owner.is_unset() {
        planter_account.owner = planter;
        planter_account.created_at = now;
        planter_account.bump = planter_bump;
        planter_account.gps_lat = lat;
        planter_account.gps_lon = lon;
        planter_account.verified = false;
        return Err(PyebwaError::PlanterNotVerified);
    }
    if !planter_account.verified {
        return Err(PyebwaError::PlanterNotVerified);
    }
    let planted = match planter_account.trees_planted.checked_add(tree_count as u32) {
        Some(planted) => planted,
        None => {
            return Err(PyebwaError::MathOverflow);
        },
    };
    planter_account.trees_planted = planted;
    Ok(
        PlantingEvidence {
            planter,
            tree_count,
            gps_lat: lat,
            gps_lon: lon,
            ipfs_hash: evidence_hash,
            submitted_at: now,
            verified: false,
            verified_by: None,
            verified_at: None,
            payment_released: false,
            bump: evidence_bump,
        },
    )
}

} // verus!
