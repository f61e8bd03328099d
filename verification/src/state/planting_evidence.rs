use crate::identity::Identity;
use vstd::prelude::*;
use vstd::utf8::{encode_scalar, encode_utf8, is_ascii_chars, is_ascii_chars_encode_utf8};

verus! {

/// The most trees one submission may name.
pub const MAX_TREE_COUNT: u16 = 1000;

/// The most bytes a content hash may take.
pub const MAX_HASH_LEN: usize = 64;

/// Bytes that a string takes in storage: the length of its UTF-8 encoding.
pub open spec fn hash_len(hash: Seq<char>) -> nat {
    encode_utf8(hash).len()
}

/// Every character takes at least one byte and at most four: a hash of more
/// than 64 characters never fits, and one of 16 characters always does.
pub proof fn lemma_hash_len_bounds(hash: Seq<char>)
    ensures
        hash.len() <= hash_len(hash) <= 4 * hash.len(),
    decreases hash.len(),
{
    if hash.len() > 0 {
        lemma_hash_len_bounds(hash.drop_first());
        assert(1 <= encode_scalar(hash[0] as u32).len() <= 4);
    }
}

/// A hash in ASCII, as content hashes are, takes one byte for each of its
/// characters: it fits exactly when it has 64 characters at most.
pub proof fn lemma_ascii_hash_len(hash: Seq<char>)
    requires
        is_ascii_chars(hash),
    ensures
        hash_len(hash) == hash.len(),
{
    is_ascii_chars_encode_utf8(hash);
}

/// The number of bytes that `hash` takes in storage.
pub fn stored_len(hash: &String) -> (n: usize)
    ensures
        n == hash_len(hash@),
{
    hash.as_str().as_bytes().len()
}

/// One submission of planting evidence. It is either submitted or verified,
/// and once verified it stays so.
#[derive(Clone, Debug, PartialEq, Eq)]
pub struct PlantingEvidence {
    /// The planter who submitted it.
    pub planter: Identity,
    /// Trees the submission names, from 1 to 1000.
    pub tree_count: u16,
    /// Latitude of the site, as the bit pattern of a binary64.
    pub gps_lat: u64,
    /// Longitude of the site, as the bit pattern of a binary64.
    pub gps_lon: u64,
    /// Content hash of the evidence, 64 bytes at most.
    pub ipfs_hash: String,
    /// When it was submitted.
    pub submitted_at: i64,
    /// Whether the authority has verified it.
    pub verified: bool,
    /// Who verified it, once it is verified.
    pub verified_by: Option<Identity>,
    /// When it was verified, once it is verified.
    pub verified_at: Option<i64>,
    /// Set together with `verified`: a book entry, no transfer.
    pub payment_released: bool,
    /// Bump seed of the address under which the record is stored.
    pub bump: u8,
}

impl PlantingEvidence {
    /// Bytes the record takes in storage, discriminator included.
    pub const SIZE: usize = 8 + 32 + 2 + 8 + 8 + 4 + 64 + 8 + 1 + 1 + 32 + 1 + 8 + 1 + 1;

    /// The record is awaiting verification.
    pub open spec fn submitted(&self) -> bool {
        &&& !self.verified
        &&& self.verified_by is None
        &&& self.verified_at is None
        &&& !self.payment_released
    }

    /// The record has been verified and its payment booked.
    pub open spec fn closed(&self) -> bool {
        &&& self.verified
        &&& self.verified_by is Some
        &&& self.verified_at is Some
        &&& self.payment_released
    }

    /// The record names an accepted number of trees, its hash fits, and it
    /// is in one of its two states.
    pub open spec fn wf(&self) -> bool {
        &&& 1 <= self.tree_count <= MAX_TREE_COUNT
        &&& hash_len(self.ipfs_hash@) <= MAX_HASH_LEN
        &&& (self.submitted() || self.closed())
    }
}

} // verus!
