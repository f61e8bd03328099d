use vstd::prelude::*;

pub mod family_account;
pub mod planter_account;
pub mod planting_evidence;
pub mod token_pool;

pub use family_account::FamilyAccount;
pub use planter_account::PlanterAccount;
pub use planting_evidence::PlantingEvidence;
pub use token_pool::TokenPool;

verus! {

/// What kind of medium a preserved heritage item is.
#[derive(Clone, Copy, Debug, PartialEq, Eq, Structural)]
pub enum HeritageType {
    Photo,
    Document,
    Audio,
    Video,
}

impl HeritageType {
    /// The name of the medium in a report of the preservation.
    pub open spec fn label_spec(self) -> Seq<char> {
        match self {
            HeritageType::Photo => "photo"@,
            HeritageType::Document => "document"@,
            HeritageType::Audio => "audio"@,
            HeritageType::Video => "video"@,
        }
    }

    pub fn label(&self) -> (r: &'static str)
        ensures
            r@ == self.label_spec(),
    {
        match self {
            HeritageType::Photo => "photo",
            HeritageType::Document => "document",
            HeritageType::Audio => "audio",
            HeritageType::Video => "video",
        }
    }
}

} // verus!
