use crate::errors::PyebwaError;
use crate::identity::Identity;
use crate::instructions::submit_planting::{
    planter_after_submission, submission_refusal, submitted_evidence,
};
use crate::instructions::verify_planting::{
    consistent, filed_under, planter_after_verification, raised_reputation,
    verification_refusal, verified_evidence, REPUTATION_STEP,
};
use crate::state::planter_account::{PlanterAccount, MAX_REPUTATION};
use crate::state::planting_evidence::PlantingEvidence;
use crate::state::token_pool::TokenPool;
use vstd::prelude::*;

verus! {

/// A planter's account together with every record the planter has had
/// accepted, in the order of submission.
pub struct PlanterFile {
    pub account: PlanterAccount,
    pub records: Seq<PlantingEvidence>,
}

/// Something that happens to a planter's file.
pub enum Event {
    /// The planter submits evidence.
    Submission {
        tree_count: u16,
        gps_coordinates: [u64; 2],
        evidence_hash: String,
        now: i64,
        planter_bump: u8,
        evidence_bump: u8,
    },
    /// `verifier` asks for the record at `index` to be verified.
    Verification { index: int, verifier: Identity, now: i64 },
}

/// Trees named in the records.
pub open spec fn trees_in(records: Seq<PlantingEvidence>) -> int
    decreases records.len(),
{
    if records.len() == 0 {
        0
    } else {
        trees_in(records.drop_last()) + records.last().tree_count
    }
}

/// Trees named in those of the records that have been verified.
pub open spec fn verified_trees_in(records: Seq<PlantingEvidence>) -> int
    decreases records.len(),
{
    if records.len() == 0 {
        0
    } else {
        verified_trees_in(records.drop_last()) + if records.last().verified {
            records.last().tree_count as int
        } else {
            0
        }
    }
}

/// How many of the records have been verified.
pub open spec fn verified_count(records: Seq<PlantingEvidence>) -> int
    decreases records.len(),
{
    if records.len() == 0 {
        0
    } else {
        verified_count(records.drop_last()) + if records.last().verified {
            1int
        } else {
            0
        }
    }
}

/// A reputation after so many verifications.
pub open spec fn reputation_after(score: u16, verifications: nat) -> u16
    decreases verifications,
{
    if verifications == 0 {
        score
    } else {
        raised_reputation(reputation_after(score, (verifications - 1) as nat))
    }
}

/// The reputation that so many verifications give a planter who started
/// with none: ten for each, and 1000 at most.
pub open spec fn earned_reputation(verifications: int) -> int {
    if REPUTATION_STEP * verifications < MAX_REPUTATION {
        REPUTATION_STEP * verifications
    } else {
        MAX_REPUTATION as int
    }
}

/// The account says of the planter what the records add up to: the trees
/// planted are those of all the records, the trees verified those of the
/// verified records, the earnings the pool's payment for the verified
/// trees, and the reputation what the verifications have earned.
pub open spec fn in_order(pool: TokenPool, file: PlanterFile) -> bool {
    &&& file.account.trees_planted == trees_in(file.records)
    &&& file.account.trees_verified == verified_trees_in(file.records)
    &&& file.account.earnings == verified_trees_in(file.records) * pool.tree_payment_rate
    &&& file.account.reputation_score == earned_reputation(verified_count(file.records))
    &&& forall|i: int| 0 <= i < file.records.len() ==> (#[trigger] file.records[i]).wf()
}

/// The file after the planter has submitted evidence. An accepted
/// submission files its record behind the others.
pub open spec fn after_submission(
    file: PlanterFile,
    planter: Identity,
    tree_count: u16,
    gps_coordinates: [u64; 2],
    evidence_hash: String,
    now: i64,
    planter_bump: u8,
    evidence_bump: u8,
) -> PlanterFile {
    PlanterFile {
        account: planter_after_submission(
            file.account,
            planter,
            tree_count,
            gps_coordinates,
            evidence_hash@,
            now,
            planter_bump,
        ),
        records: if submission_refusal(file.account, tree_count, gps_coordinates, evidence_hash@)
            is None {
            file.records.push(
                submitted_evidence(
                    planter,
                    tree_count,
                    gps_coordinates,
                    evidence_hash,
                    now,
                    evidence_bump,
                ),
            )
        } else {
            file.records
        },
    }
}

/// The file after `verifier` has asked for the record at `index` to be
/// verified. A refused verification, or one of a record that is not there,
/// leaves the file as it was.
pub open spec fn after_verification(
    pool: TokenPool,
    file: PlanterFile,
    index: int,
    verifier: Identity,
    now: i64,
) -> PlanterFile {
    if 0 <= index < file.records.len() && verification_refusal(
        pool,
        file.records[index],
        file.account,
        verifier,
    ) is None {
        PlanterFile {
            account: planter_after_verification(pool, file.records[index], file.account),
            records: file.records.update(
                index,
                verified_evidence(file.records[index], verifier, now),
            ),
        }
    } else {
        file
    }
}

/// The file after one event.
pub open spec fn after_event(pool: TokenPool, file: PlanterFile, planter: Identity, event: Event)
    -> PlanterFile {
    match event {
        Event::Submission {
            tree_count,
            gps_coordinates,
            evidence_hash,
            now,
            planter_bump,
            evidence_bump,
        } => after_submission(
            file,
            planter,
            tree_count,
            gps_coordinates,
            evidence_hash,
            now,
            planter_bump,
            evidence_bump,
        ),
        Event::Verification { index, verifier, now } => after_verification(
            pool,
            file,
            index,
            verifier,
            now,
        ),
    }
}

/// The file after a run of events, the first of them first.
pub open spec fn after_events(
    pool: TokenPool,
    file: PlanterFile,
    planter: Identity,
    events: Seq<Event>,
) -> PlanterFile
    decreases events.len(),
{
    if events.len() == 0 {
        file
    } else {
        after_event(pool, after_events(pool, file, planter, events.drop_last()), planter, events.last())
    }
}

proof fn lemma_verified_part(records: Seq<PlantingEvidence>)
    ensures
        0 <= verified_trees_in(records) <= trees_in(records),
        0 <= verified_count(records) <= records.len(),
    decreases records.len(),
{
    if records.len() > 0 {
        lemma_verified_part(records.drop_last());
    }
}

proof fn lemma_pending_record(records: Seq<PlantingEvidence>, index: int)
    requires
        0 <= index < records.len(),
        !records[index].verified,
    ensures
        verified_trees_in(records) + records[index].tree_count <= trees_in(records),
    decreases records.len(),
{
    if index == records.len() - 1 {
        lemma_verified_part(records.drop_last());
    } else {
        lemma_pending_record(records.drop_last(), index);
    }
}

proof fn lemma_record_verified(
    records: Seq<PlantingEvidence>,
    index: int,
    verifier: Identity,
    now: i64,
)
    requires
        0 <= index < records.len(),
        !records[index].verified,
    ensures
        ({
            let after = records.update(index, verified_evidence(records[index], verifier, now));
            &&& trees_in(after) == trees_in(records)
            &&& verified_trees_in(after) == verified_trees_in(records) + records[index].tree_count
            &&& verified_count(after) == verified_count(records) + 1
        }),
    decreases records.len(),
{
    let after = records.update(index, verified_evidence(records[index], verifier, now));
    if index == records.len() - 1 {
        assert(after.drop_last() =~= records.drop_last());
    } else {
        lemma_record_verified(records.drop_last(), index, verifier, now);
        assert(after.drop_last() =~= records.drop_last().update(
            index,
            verified_evidence(records[index], verifier, now),
        ));
    }
}

/// Every record of a file in order can be put to verification: a pending
/// one names trees that are planted and not yet verified.
pub proof fn lemma_records_are_consistent(pool: TokenPool, file: PlanterFile, index: int)
    requires
        in_order(pool, file),
        0 <= index < file.records.len(),
    ensures
        consistent(file.records[index], file.account),
{
    if !file.records[index].verified {
        lemma_pending_record(file.records, index);
    }
}

/// A submission, accepted or refused, leaves a file in order.
pub proof fn lemma_submission_keeps_order(
    pool: TokenPool,
    file: PlanterFile,
    planter: Identity,
    tree_count: u16,
    gps_coordinates: [u64; 2],
    evidence_hash: String,
    now: i64,
    planter_bump: u8,
    evidence_bump: u8,
)
    requires
        in_order(pool, file),
    ensures
        in_order(
            pool,
            after_submission(
                file,
                planter,
                tree_count,
                gps_coordinates,
                evidence_hash,
                now,
                planter_bump,
                evidence_bump,
            ),
        ),
{
    let after = after_submission(
        file,
        planter,
        tree_count,
        gps_coordinates,
        evidence_hash,
        now,
        planter_bump,
        evidence_bump,
    );
    if submission_refusal(file.account, tree_count, gps_coordinates, evidence_hash@) is None {
        assert(after.records.drop_last() =~= file.records);
    }
}

/// A verification, carried out or refused, leaves a file in order.
pub proof fn lemma_verification_keeps_order(
    pool: TokenPool,
    file: PlanterFile,
    index: int,
    verifier: Identity,
    now: i64,
)
    requires
        in_order(pool, file),
    ensures
        in_order(pool, after_verification(pool, file, index, verifier, now)),
{
    if 0 <= index < file.records.len() && verification_refusal(
        pool,
        file.records[index],
        file.account,
        verifier,
    ) is None {
        let record = file.records[index];
        lemma_record_verified(file.records, index, verifier, now);
        lemma_pending_record(file.records, index);
        lemma_verified_part(file.records);
        let trees = verified_trees_in(file.records);
        let rate = pool.tree_payment_rate as int;
        assert((trees + record.tree_count) * rate == trees * rate + record.tree_count * rate)
            by (nonlinear_arith);
    }
}

/// Whatever happens to a file in order, it stays in order. So no more
/// trees are ever verified than were planted, the earnings are the payment
/// for the verified trees, and the reputation never passes 1000.
pub proof fn lemma_events_keep_order(
    pool: TokenPool,
    file: PlanterFile,
    planter: Identity,
    events: Seq<Event>,
)
    requires
        in_order(pool, file),
    ensures
        ({
            let after = after_events(pool, file, planter, events);
            &&& in_order(pool, after)
            &&& after.account.trees_verified <= after.account.trees_planted
            &&& after.account.reputation_score <= MAX_REPUTATION
        }),
    decreases events.len(),
{
    if events.len() > 0 {
        let before = after_events(pool, file, planter, events.drop_last());
        lemma_events_keep_order(pool, file, planter, events.drop_last());
        match events.last() {
            Event::Submission {
                tree_count,
                gps_coordinates,
                evidence_hash,
                now,
                planter_bump,
                evidence_bump,
            } => {
                lemma_submission_keeps_order(
                    pool,
                    before,
                    planter,
                    tree_count,
                    gps_coordinates,
                    evidence_hash,
                    now,
                    planter_bump,
                    evidence_bump,
                );
            },
            Event::Verification { index, verifier, now } => {
                lemma_verification_keeps_order(pool, before, index, verifier, now);
            },
        }
    }
    lemma_verified_part(after_events(pool, file, planter, events).records);
}

/// A blank account with no records is a file in order.
pub proof fn lemma_blank_file_in_order(pool: TokenPool, account: PlanterAccount)
    requires
        account.blank(),
    ensures
        in_order(pool, PlanterFile { account, records: Seq::empty() }),
{
}

/// The record that was submitted last is found again under the number it
/// was filed under: the trees the planter had planted before it.
pub proof fn lemma_latest_record_is_found(
    planter_account: PlanterAccount,
    planter: Identity,
    tree_count: u16,
    gps_coordinates: [u64; 2],
    evidence_hash: String,
    now: i64,
    planter_bump: u8,
    evidence_bump: u8,
)
    requires
        submission_refusal(planter_account, tree_count, gps_coordinates, evidence_hash@) is None,
    ensures
        filed_under(
            planter_after_submission(
                planter_account,
                planter,
                tree_count,
                gps_coordinates,
                evidence_hash@,
                now,
                planter_bump,
            ),
            submitted_evidence(
                planter,
                tree_count,
                gps_coordinates,
                evidence_hash,
                now,
                evidence_bump,
            ),
        ) == Some(planter_account.trees_planted),
{
}

/// A record is verified once. After a verification that was carried out,
/// the same verifier asking again is told that the record is verified
/// already, and nobody else is let through either: the record and the
/// account stay as the verification left them.
pub proof fn lemma_verified_once(
    pool: TokenPool,
    evidence: PlantingEvidence,
    planter_account: PlanterAccount,
    verifier: Identity,
    now: i64,
    other: Identity,
)
    requires
        verification_refusal(pool, evidence, planter_account, verifier) is None,
    ensures
        verification_refusal(
            pool,
            verified_evidence(evidence, verifier, now),
            planter_after_verification(pool, evidence, planter_account),
            verifier,
        ) == Some(PyebwaError::AlreadyVerified),
        verification_refusal(
            pool,
            verified_evidence(evidence, verifier, now),
            planter_after_verification(pool, evidence, planter_account),
            other,
        ) is Some,
        consistent(
            verified_evidence(evidence, verifier, now),
            planter_after_verification(pool, evidence, planter_account),
        ),
{
}

/// One verification never takes a reputation past 1000, wherever it
/// started.
pub proof fn lemma_raised_reputation_in_range(score: u16)
    ensures
        raised_reputation(score) <= MAX_REPUTATION,
        score <= MAX_REPUTATION ==> raised_reputation(score) >= score,
{
}

/// However many verifications a planter has had, the reputation is at most
/// 1000. For a planter who started within the range it is ten for each
/// verification on top of the start, up to 1000.
pub proof fn lemma_reputation_clamped(score: u16, verifications: nat)
    ensures
        verifications > 0 ==> reputation_after(score, verifications) <= MAX_REPUTATION,
        score <= MAX_REPUTATION ==> reputation_after(score, verifications) == if score
            + REPUTATION_STEP * verifications < MAX_REPUTATION {
            score + REPUTATION_STEP * verifications
        } else {
            MAX_REPUTATION as int
        },
    decreases verifications,
{
    if verifications > 0 {
        lemma_reputation_clamped(score, (verifications - 1) as nat);
    }
}

} // verus!
