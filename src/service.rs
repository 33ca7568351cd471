use vstd::prelude::*;
use crate::types::{Address, DataType, ErrorCode};
use crate::marketplace::{compute_fee_split, fee_of, Marketplace};
use crate::listing::DataListing;

verus! {

/// What lets a transfer move value out of its source account.
#[derive(PartialEq, Eq, Structural, Clone, Copy, Debug)]
pub enum TransferAuthority {
    /// The owner of the source account, who signed the operation.
    Signer(Address),
    /// The marketplace's own capability over the fees it holds, derived
    /// from its record's bump.
    Marketplace(u8),
}

/// One debit and credit for the value-transfer service to carry out.
#[derive(PartialEq, Eq, Structural, Clone, Copy, Debug)]
pub struct Transfer {
    pub from: Address,
    pub to: Address,
    pub authority: TransferAuthority,
    pub amount: u64,
}

/// What a purchase moves: the split of the price and the transfers, in the
/// order in which they are to be made.
#[derive(Debug)]
pub struct Settlement {
    pub fee_amount: u64,
    pub owner_amount: u64,
    pub transfers: Vec<Transfer>,
}

/// The records and identities that creating the marketplace involves. An
/// occupied `marketplace` slot means the record exists already.
pub struct InitializeMarketplace {
    pub marketplace: Option<Marketplace>,
    pub authority: Address,
    pub marketplace_bump: u8,
}

/// The records and identities that creating a listing involves. An occupied
/// `listing` slot means a record exists already under the listing's key.
pub struct CreateDataListing {
    pub listing: Option<DataListing>,
    pub marketplace: Marketplace,
    pub owner: Address,
    pub listing_bump: u8,
}

/// The records and accounts that a purchase involves.
pub struct PurchaseData {
    pub listing: DataListing,
    pub marketplace: Marketplace,
    pub buyer: Address,
    pub buyer_token_account: Address,
    pub owner_token_account: Address,
    pub marketplace_token_account: Address,
}

/// The listing and the identity that asks for a new price.
pub struct UpdateListingPrice {
    pub listing: DataListing,
    pub owner: Address,
}

/// The listing and the identity that asks for its cancellation.
pub struct CancelListing {
    pub listing: DataListing,
    pub owner: Address,
}

/// The marketplace, the identity that asks for its fees, and the accounts
/// between which they move.
pub struct WithdrawFees {
    pub marketplace: Marketplace,
    pub authority: Address,
    pub marketplace_token_account: Address,
    pub authority_token_account: Address,
}

/// Creates the marketplace record with zeroed counters, unless it exists.
/// Any rate is accepted; a rate above ten thousand basis points makes later
/// sales whose fee would exceed their price fail.
pub fn initialize_marketplace(ctx: &mut InitializeMarketplace, marketplace_fee_basis_points: u16) -> (r:
    Result<(), ErrorCode>)
    ensures
        r is Ok <==> old(ctx).marketplace is None,
        r is Ok ==> final(ctx).marketplace == Some(
            Marketplace {
                authority: old(ctx).authority,
                fee_basis_points: marketplace_fee_basis_points,
                total_listings: 0,
                total_volume: 0,
                bump: old(ctx).marketplace_bump,
            },
        ),
        final(ctx).authority == old(ctx).authority,
        final(ctx).marketplace_bump == old(ctx).marketplace_bump,
        r matches Err(e) ==> e == ErrorCode::AlreadyInitialized && final(ctx).marketplace
            == old(ctx).marketplace,
{
    if ctx.marketplace.is_some() {
        return Err(ErrorCode::AlreadyInitialized);
    }
    ctx.marketplace = Some(
        Marketplace::new(ctx.authority, marketplace_fee_basis_points, ctx.marketplace_bump),
    );
    Ok(())
}

/// The transfer of the seller's share from the buyer.
pub open spec fn owner_transfer(ctx: PurchaseData, amount: u64) -> Transfer {
    Transfer {
        from: ctx.buyer_token_account,
        to: ctx.owner_token_account,
        authority: TransferAuthority::Signer(ctx.buyer),
        amount,
    }
}

/// The transfer of the marketplace fee from the buyer.
pub open spec fn fee_transfer(ctx: PurchaseData, amount: u64) -> Transfer {
    Transfer {
        from: ctx.buyer_token_account,
        to: ctx.marketplace_token_account,
        authority: TransferAuthority::Signer(ctx.buyer),
        amount,
    }
}

/// Why a purchase of `listing_id` is refused, if it is: the listing's own
/// checks first, then the arithmetic of the fee and of the volume.
pub open spec fn purchase_failure(ctx: PurchaseData, listing_id: u64) -> Option<ErrorCode> {
    let price = ctx.listing.price;
    if ctx.listing.purchase_error(listing_id) is Some {
        ctx.listing.purchase_error(listing_id)
    } else if fee_of(price as int, ctx.marketplace.fee_basis_points as int) > price
        || ctx.marketplace.total_volume + price > u64::MAX {
        Some(ErrorCode::ArithmeticOverflow)
    } else {
        None
    }
}

/// Sells the listing to the buyer at time `now`.
///
/// On success the listing is sold, the volume grows by the price, and the
/// settlement lists the transfers to make: the seller's share first, then
/// the fee, which is left out when it is zero. The caller makes them and
/// keeps the new records only if all of them succeed. On failure nothing
/// changes and nothing is to be transferred.
pub fn purchase_data(ctx: &mut PurchaseData, listing_id: u64, now: i64) -> (r: Result<Settlement, ErrorCode>)
    ensures
        match r {
            Ok(s) => {
                let price = old(ctx).listing.price;
                let fee = fee_of(price as int, old(ctx).marketplace.fee_basis_points as int);
                &&& purchase_failure(*old(ctx), listing_id) is None
                &&& s.fee_amount == fee
                &&& s.owner_amount == price - fee
                &&& final(ctx).listing == old(ctx).listing.sold(old(ctx).buyer, now)
                &&& old(ctx).marketplace.records_sale(final(ctx).marketplace, price)
                &&& final(ctx).buyer == old(ctx).buyer
                &&& final(ctx).buyer_token_account == old(ctx).buyer_token_account
                &&& final(ctx).owner_token_account == old(ctx).owner_token_account
                &&& final(ctx).marketplace_token_account == old(ctx).marketplace_token_account
                &&& s.transfers@ == if fee > 0 {
                    seq![
                        owner_transfer(*old(ctx), s.owner_amount),
                        fee_transfer(*old(ctx), s.fee_amount),
                    ]
                } else {
                    seq![owner_transfer(*old(ctx), s.owner_amount)]
                }
            },
            Err(e) => purchase_failure(*old(ctx), listing_id) == Some(e) && *final(ctx) == *old(ctx),
        },
{
    if !ctx.listing.is_active {
        return Err(ErrorCode::ListingNotActive);
    }
    if ctx.listing.id != listing_id {
        return Err(ErrorCode::InvalidListingId);
    }
    let price: u64 = ctx.listing.price;
    let split = match compute_fee_split(price, ctx.marketplace.fee_basis_points) {
        Ok(split) => split,
        Err(e) => {
            return Err(e);
        },
    };
    if ctx.marketplace.total_volume.checked_add(price).is_none() {
        return Err(ErrorCode::ArithmeticOverflow);
    }
    let mut transfers: Vec<Transfer> = Vec::new();
    transfers.push(
        Transfer {
            from: ctx.buyer_token_account,
            to: ctx.owner_token_account,
            authority: TransferAuthority::Signer(ctx.buyer),
            amount: split.owner_amount,
        },
    );
    if split.fee_amount > 0 {
        transfers.push(
            Transfer {
                from: ctx.buyer_token_account,
                to: ctx.marketplace_token_account,
                authority: TransferAuthority::Signer(ctx.buyer),
                amount: split.fee_amount,
            },
        );
    }
    let buyer = ctx.buyer;
    match ctx.listing.purchase(listing_id, buyer, now) {
        Ok(_) => {},
        Err(e) => {
            return Err(e);
        },
    }
    match ctx.marketplace.record_sale(price) {
        Ok(()) => {},
        Err(e) => {
            return Err(e);
        },
    }
    Ok(Settlement { fee_amount: split.fee_amount, owner_amount: split.owner_amount, transfers })
}

/// Hands the marketplace's collected fees to its authority: returns the
/// transfer of `amount` from the marketplace's account, made under the
/// marketplace's own capability, when the caller is the authority. The
/// marketplace record is not changed either way.
pub fn withdraw_fees(ctx: &WithdrawFees, amount: u64) -> (r: Result<Transfer, ErrorCode>)
    ensures
        r is Ok <==> ctx.authority == ctx.marketplace.authority,
        r matches Ok(t) ==> t == (Transfer {
            from: ctx.marketplace_token_account,
            to: ctx.authority_token_account,
            authority: TransferAuthority::Marketplace(ctx.marketplace.bump),
            amount,
        }),
        r matches Err(e) ==> e == ErrorCode::Unauthorized,
{
    if ctx.marketplace.authority != ctx.authority {
        return Err(ErrorCode::Unauthorized);
    }
    Ok(
        Transfer {
            from: ctx.marketplace_token_account,
            to: ctx.authority_token_account,
            authority: TransferAuthority::Marketplace(ctx.marketplace.bump),
            amount,
        },
    )
}

/// Why creating a listing is refused, if it is: a record already under its
/// key, or a listing counter with no room left.
pub open spec fn create_failure(ctx: CreateDataListing) -> Option<ErrorCode> {
    if ctx.listing is Some {
        Some(ErrorCode::DuplicateListing)
    } else if ctx.marketplace.total_listings == u64::MAX {
        Some(ErrorCode::ArithmeticOverflow)
    } else {
        None
    }
}

/// Creates an active listing owned by the caller at time `now` and counts
/// it, both or neither.
pub fn create_data_listing(
    ctx: &mut CreateDataListing,
    listing_id: u64,
    price: u64,
    data_type: DataType,
    description: String,
    now: i64,
) -> (r: Result<(), ErrorCode>)
    ensures
        match r {
            Ok(()) => {
                &&& create_failure(*old(ctx)) is None
                &&& final(ctx).listing == Some(
                    DataListing {
                        id: listing_id,
                        owner: old(ctx).owner,
                        price,
                        data_type,
                        description,
                        is_active: true,
                        created_at: now,
                        sold_at: None,
                        cancelled_at: None,
                        buyer: None,
                        bump: old(ctx).listing_bump,
                    },
                )
                &&& old(ctx).marketplace.records_listing(final(ctx).marketplace)
                &&& final(ctx).owner == old(ctx).owner
                &&& final(ctx).listing_bump == old(ctx).listing_bump
            },
            Err(e) => create_failure(*old(ctx)) == Some(e) && *final(ctx) == *old(ctx),
        },
{
    if ctx.listing.is_some() {
        return Err(ErrorCode::DuplicateListing);
    }
    match ctx.marketplace.record_listing_created() {
        Ok(()) => {},
        Err(e) => {
            return Err(e);
        },
    }
    ctx.listing = Some(
        DataListing::create(listing_id, ctx.owner, price, data_type, description, now, ctx.listing_bump),
    );
    Ok(())
}

/// Sets a new price on the listing, for its owner, while it is active.
pub fn update_listing_price(ctx: &mut UpdateListingPrice, new_price: u64) -> (r: Result<(), ErrorCode>)
    ensures
        final(ctx).owner == old(ctx).owner,
        match r {
            Ok(()) => old(ctx).listing.owner_action_error(old(ctx).owner) is None
                && final(ctx).listing == old(ctx).listing.repriced(new_price),
            Err(e) => old(ctx).listing.owner_action_error(old(ctx).owner) == Some(e)
                && final(ctx).listing == old(ctx).listing,
        },
{
    let caller = ctx.owner;
    ctx.listing.reprice(new_price, caller)
}

/// Cancels the listing at time `now`, for its owner, while it is active.
pub fn cancel_listing(ctx: &mut CancelListing, now: i64) -> (r: Result<(), ErrorCode>)
    ensures
        final(ctx).owner == old(ctx).owner,
        match r {
            Ok(()) => old(ctx).listing.owner_action_error(old(ctx).owner) is None
                && final(ctx).listing == old(ctx).listing.cancelled(now),
            Err(e) => old(ctx).listing.owner_action_error(old(ctx).owner) == Some(e)
                && final(ctx).listing == old(ctx).listing,
        },
{
    let caller = ctx.owner;
    ctx.listing.cancel(caller, now)
}

} // verus!
