use vstd::prelude::*;
use crate::types::{Address, DataType, ErrorCode};

verus! {

/// Where a listing stands in its life.
pub enum ListingState {
    Active,
    Sold,
    Cancelled,
}

/// One data listing: born active, it ends either sold or cancelled, once.
#[derive(Clone, Debug)]
pub struct DataListing {
    pub id: u64,
    pub owner: Address,
    pub price: u64,
    pub data_type: DataType,
    pub description: String,
    pub is_active: bool,
    pub created_at: i64,
    pub sold_at: Option<i64>,
    pub cancelled_at: Option<i64>,
    pub buyer: Option<Address>,
    pub bump: u8,
}

impl DataListing {
    /// The terminal fields agree with the active flag: an active listing has
    /// none set, a sold one has a buyer and a sale time, a cancelled one only
    /// a cancellation time.
    pub open spec fn wf(self) -> bool {
        if self.is_active {
            self.sold_at is None && self.cancelled_at is None && self.buyer is None
        } else {
            ||| (self.sold_at is Some && self.buyer is Some && self.cancelled_at is None)
            ||| (self.cancelled_at is Some && self.sold_at is None && self.buyer is None)
        }
    }

    /// Active, or the terminal state that the listing reached.
    pub open spec fn state(self) -> ListingState {
        if self.is_active {
            ListingState::Active
        } else if self.sold_at is Some {
            ListingState::Sold
        } else {
            ListingState::Cancelled
        }
    }

    /// Why a purchase naming `expected_id` is refused, if it is.
    pub open spec fn purchase_error(self, expected_id: u64) -> Option<ErrorCode> {
        if !self.is_active {
            Some(ErrorCode::ListingNotActive)
        } else if self.id != expected_id {
            Some(ErrorCode::InvalidListingId)
        } else {
            None
        }
    }

    /// Why a change by `caller` (a new price or a cancellation) is refused,
    /// if it is. Only the owner may make one, whatever the state.
    pub open spec fn owner_action_error(self, caller: Address) -> Option<ErrorCode> {
        if caller != self.owner {
            Some(ErrorCode::Unauthorized)
        } else if !self.is_active {
            Some(ErrorCode::ListingNotActive)
        } else {
            None
        }
    }

    /// This listing at `new_price`, all else kept.
    pub open spec fn repriced(self, new_price: u64) -> DataListing {
        DataListing { price: new_price, ..self }
    }

    /// This listing sold to `buyer` at time `now`.
    pub open spec fn sold(self, buyer: Address, now: i64) -> DataListing {
        DataListing { is_active: false, buyer: Some(buyer), sold_at: Some(now), ..self }
    }

    /// This listing cancelled at time `now`.
    pub open spec fn cancelled(self, now: i64) -> DataListing {
        DataListing { is_active: false, cancelled_at: Some(now), ..self }
    }

    /// A new active listing.
    pub fn create(
        id: u64,
        owner: Address,
        price: u64,
        data_type: DataType,
        description: String,
        now: i64,
        bump: u8,
    ) -> (r: DataListing)
        ensures
            r == (DataListing {
                id,
                owner,
                price,
                data_type,
                description,
                is_active: true,
                created_at: now,
                sold_at: None,
                cancelled_at: None,
                buyer: None,
                bump,
            }),
            r.wf(),
            r.state() is Active,
    {
        DataListing {
            id,
            owner,
            price,
            data_type,
            description,
            is_active: true,
            created_at: now,
            sold_at: None,
            cancelled_at: None,
            buyer: None,
            bump,
        }
    }

    /// Sets a new price, when `caller` owns this listing and it is still active.
    pub fn reprice(&mut self, new_price: u64, caller: Address) -> (r: Result<(), ErrorCode>)
        ensures
            old(self).wf() ==> final(self).wf(),
            match r {
                Ok(()) => old(self).owner_action_error(caller) is None
                    && *final(self) == old(self).repriced(new_price),
                Err(e) => old(self).owner_action_error(caller) == Some(e)
                    && *final(self) == *old(self),
            },
    {
        if caller != self.owner {
            return Err(ErrorCode::Unauthorized);
        }
        if !self.is_active {
            return Err(ErrorCode::ListingNotActive);
        }
        self.price = new_price;
        Ok(())
    }

    /// Cancels this listing at time `now`, when `caller` owns it and it is
    /// still active.
    pub fn cancel(&mut self, caller: Address, now: i64) -> (r: Result<(), ErrorCode>)
        ensures
            old(self).wf() ==> final(self).wf(),
            match r {
                Ok(()) => old(self).owner_action_error(caller) is None
                    && *final(self) == old(self).cancelled(now),
                Err(e) => old(self).owner_action_error(caller) == Some(e)
                    && *final(self) == *old(self),
            },
    {
        if caller != self.owner {
            return Err(ErrorCode::Unauthorized);
        }
        if !self.is_active {
            return Err(ErrorCode::ListingNotActive);
        }
        self.is_active = false;
        self.cancelled_at = Some(now);
        Ok(())
    }

    /// Sells this listing to `buyer` at time `now` and returns the gross
    /// price, when it is active and its id is `expected_id`.
    pub fn purchase(&mut self, expected_id: u64, buyer: Address, now: i64) -> (r: Result<u64, ErrorCode>)
        ensures
            old(self).wf() ==> final(self).wf(),
            match r {
                Ok(price) => old(self).purchase_error(expected_id) is None
                    && price == old(self).price
                    && *final(self) == old(self).sold(buyer, now),
                Err(e) => old(self).purchase_error(expected_id) == Some(e)
                    && *final(self) == *old(self),
            },
    {
        if !self.is_active {
            return Err(ErrorCode::ListingNotActive);
        }
        if self.id != expected_id {
            return Err(ErrorCode::InvalidListingId);
        }
        self.is_active = false;
        self.buyer = Some(buyer);
        self.sold_at = Some(now);
        Ok(self.price)
    }
}

} // verus!
