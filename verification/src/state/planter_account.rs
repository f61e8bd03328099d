use crate::identity::Identity;
use vstd::prelude::*;

verus! {

/// The highest reputation a planter can reach.
pub const MAX_REPUTATION: u16 = 1000;

/// What one planter has planted, had verified and earned. It comes into
/// being with the planter's first submission.
#[derive(Clone, Copy, Debug, PartialEq, Eq)]
pub struct PlanterAccount {
    /// The planter; unset until the first submission.
    pub owner: Identity,
    /// Whether the planter's identity has been verified. Nothing in this
    /// crate sets it: that is the authority's business elsewhere.
    pub verified: bool,
    /// Trees in all the evidence the planter has submitted.
    pub trees_planted: u32,
    /// Trees in the evidence that has been verified.
    pub trees_verified: u32,
    /// Tokens earned through verified evidence.
    pub earnings: u64,
    /// Standing of the planter, from 0 to 1000.
    pub reputation_score: u16,
    /// Latitude of the first submission, as the bit pattern of a binary64.
    pub gps_lat: u64,
    /// Longitude of the first submission, as the bit pattern of a binary64.
    pub gps_lon: u64,
    /// When the first submission was made.
    pub created_at: i64,
    /// Bump seed of the address under which the record is stored.
    pub bump: u8,
}

impl PlanterAccount {
    /// Bytes the record takes in storage, discriminator included.
    pub const SIZE: usize = 8 + 32 + 1 + 4 + 4 + 8 + 2 + 8 + 8 + 8 + 1;

    /// Whether the account has had its first submission.
    pub open spec fn created(&self) -> bool {
        !self.owner.unset()
    }

    /// No more trees are verified than were planted, and the reputation is
    /// within its range.
    pub open spec fn wf(&self) -> bool {
        &&& self.trees_verified <= self.trees_planted
        &&& self.reputation_score <= MAX_REPUTATION
    }

    /// The account as storage hands it out before its first submission.
    pub open spec fn blank(&self) -> bool {
        &&& self.owner.unset()
        &&& !self.verified
        &&& self.trees_planted == 0
        &&& self.trees_verified == 0
        &&& self.earnings == 0
        &&& self.reputation_score == 0
        &&& self.gps_lat == 0
        &&& self.gps_lon == 0
        &&& self.created_at == 0
        &&& self.bump == 0
    }
}

impl Default for PlanterAccount {
    fn default() -> (r: PlanterAccount)
        ensures
            r.blank(),
    {
        PlanterAccount {
            owner: Identity::default(),
            verified: false,
            trees_planted: 0,
            trees_verified: 0,
            earnings: 0,
            reputation_score: 0,
            gps_lat: 0,
            gps_lon: 0,
            created_at: 0,
            bump: 0,
        }
    }
}

} // verus!
