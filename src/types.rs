use vstd::prelude::*;

verus! {

/// A verified actor or account identity: 32 bytes held as four words.
#[derive(PartialEq, Eq, Structural, Clone, Copy, Debug)]
pub struct Address {
    pub w0: u64,
    pub w1: u64,
    pub w2: u64,
    pub w3: u64,
}

impl Address {
    /// The identity made of these four words, lowest first.
    pub fn new(w0: u64, w1: u64, w2: u64, w3: u64) -> (r: Address)
        ensures
            r == (Address { w0, w1, w2, w3 }),
    {
        Address { w0, w1, w2, w3 }
    }
}

/// The category of data a listing offers.
#[derive(Clone, Debug)]
pub enum DataType {
    LocationHistory,
    AppUsage,
    PurchaseHistory,
    HealthData,
    SocialMediaActivity,
    SearchHistory,
    Custom(String),
}

/// The failures an operation reports to its caller.
#[derive(PartialEq, Eq, Structural, Clone, Copy, Debug)]
pub enum ErrorCode {
    AlreadyInitialized,
    DuplicateListing,
    ListingNotActive,
    InvalidListingId,
    Unauthorized,
    ArithmeticOverflow,
    TransferFailed,
    NotFound,
    InsufficientFunds,
    InvalidPrice,
}

} // verus!
