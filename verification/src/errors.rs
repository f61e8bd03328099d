use vstd::prelude::*;

verus! {

/// Every way an operation on the ledger can be refused.
#[derive(Clone, Copy, Debug, PartialEq, Eq, Structural)]
pub enum PyebwaError {
    /// A spend exceeds the tokens the family holds.
    InsufficientBalance,
    /// A planting site lies outside the accepted bounding box.
    InvalidGPSCoordinates,
    /// An evidence or media reference is longer than 64 bytes.
    IPFSHashTooLong,
    /// The evidence record has already been verified.
    AlreadyVerified,
    /// The planter's identity has not been verified yet.
    PlanterNotVerified,
    /// A submission names no trees, or more than 1000.
    InvalidTreeCount,
    /// The caller is not the pool's authority.
    Unauthorized,
    /// A checked arithmetic step left its integer range.
    MathOverflow,
    /// Reserved; no operation reports it.
    InvalidHeritageType,
    /// Reserved; no operation reports it.
    PaymentAlreadyReleased,
}

impl PyebwaError {
    /// The error in words.
    pub open spec fn message_spec(self) -> Seq<char> {
        match self {
            PyebwaError::InsufficientBalance => "Insufficient token balance"@,
            PyebwaError::InvalidGPSCoordinates => "Invalid GPS coordinates"@,
            PyebwaError::IPFSHashTooLong => "IPFS hash too long"@,
            PyebwaError::AlreadyVerified => "Evidence already verified"@,
            PyebwaError::PlanterNotVerified => "Planter not verified"@,
            PyebwaError::InvalidTreeCount => "Invalid tree count"@,
            PyebwaError::Unauthorized => "Unauthorized"@,
            PyebwaError::MathOverflow => "Math overflow"@,
            PyebwaError::InvalidHeritageType => "Invalid heritage type"@,
            PyebwaError::PaymentAlreadyReleased => "Payment already released"@,
        }
    }

    pub fn message(&self) -> (r: &'static str)
        ensures
            r@ == self.message_spec(),
    {
        match self {
            PyebwaError::InsufficientBalance => "Insufficient token balance",
            PyebwaError::InvalidGPSCoordinates => "Invalid GPS coordinates",
            PyebwaError::IPFSHashTooLong => "IPFS hash too long",
            PyebwaError::AlreadyVerified => "Evidence already verified",
            PyebwaError::PlanterNotVerified => "Planter not verified",
            PyebwaError::InvalidTreeCount => "Invalid tree count",
            PyebwaError::Unauthorized => "Unauthorized",
            PyebwaError::MathOverflow => "Math overflow",
            PyebwaError::InvalidHeritageType => "Invalid heritage type",
            PyebwaError::PaymentAlreadyReleased => "Payment already released",
        }
    }
}

} // verus!
