use datasov::listing::DataListing;
use datasov::marketplace::{compute_fee_split, Marketplace};
use datasov::service::{
    cancel_listing, create_data_listing, initialize_marketplace, purchase_data, update_listing_price,
    withdraw_fees, CancelListing, CreateDataListing, InitializeMarketplace, PurchaseData, TransferAuthority,
    UpdateListingPrice, WithdrawFees,
};
use datasov::types::{Address, DataType, ErrorCode};

fn addr(n: u64) -> Address {
    Address::new(n, 0, 0, n)
}

fn fresh_marketplace(fee_bps: u16) -> Marketplace {
    let mut ctx = InitializeMarketplace { marketplace: None, authority: addr(1), marketplace_bump: 254 };
    assert_eq!(initialize_marketplace(&mut ctx, fee_bps), Ok(()));
    ctx.marketplace.unwrap()
}

fn list(marketplace: Marketplace, id: u64, price: u64) -> (DataListing, Marketplace) {
    let mut ctx = CreateDataListing { listing: None, marketplace, owner: addr(2), listing_bump: 7 };
    let r = create_data_listing(&mut ctx, id, price, DataType::HealthData, String::from("steps"), 100);
    assert_eq!(r, Ok(()));
    (ctx.listing.unwrap(), ctx.marketplace)
}

fn purchase_ctx(listing: DataListing, marketplace: Marketplace) -> PurchaseData {
    PurchaseData {
        listing,
        marketplace,
        buyer: addr(3),
        buyer_token_account: addr(30),
        owner_token_account: addr(20),
        marketplace_token_account: addr(10),
    }
}

fn same_listing(a: &DataListing, b: &DataListing) -> bool {
    a.id == b.id
        && a.owner == b.owner
        && a.price == b.price
        && a.description == b.description
        && a.is_active == b.is_active
        && a.created_at == b.created_at
        && a.sold_at == b.sold_at
        && a.cancelled_at == b.cancelled_at
        && a.buyer == b.buyer
        && a.bump == b.bump
}

#[test]
fn purchase_splits_fee_and_sells_listing() {
    let m = fresh_marketplace(250);
    assert_eq!(m.fee_basis_points, 250);
    assert_eq!(m.total_listings, 0);
    assert_eq!(m.total_volume, 0);
    let (l, m) = list(m, 1, 1_000_000);
    assert_eq!(m.total_listings, 1);
    let mut ctx = purchase_ctx(l, m);
    let s = purchase_data(&mut ctx, 1, 500).unwrap();
    assert_eq!(s.fee_amount, 25000);
    assert_eq!(s.owner_amount, 975000);
    assert!(!ctx.listing.is_active);
    assert_eq!(ctx.listing.buyer, Some(addr(3)));
    assert_eq!(ctx.listing.sold_at, Some(500));
    assert_eq!(ctx.listing.cancelled_at, None);
    assert_eq!(ctx.marketplace.total_volume, 1_000_000);
    assert_eq!(s.transfers.len(), 2);
    assert_eq!(s.transfers[0].from, addr(30));
    assert_eq!(s.transfers[0].to, addr(20));
    assert_eq!(s.transfers[0].amount, 975000);
    assert_eq!(s.transfers[0].authority, TransferAuthority::Signer(addr(3)));
    assert_eq!(s.transfers[1].to, addr(10));
    assert_eq!(s.transfers[1].amount, 25000);
}

#[test]
fn second_purchase_fails_and_changes_nothing() {
    let (l, m) = list(fresh_marketplace(250), 1, 1_000_000);
    let mut ctx = purchase_ctx(l, m);
    assert!(purchase_data(&mut ctx, 1, 500).is_ok());
    let before_listing = ctx.listing.clone();
    let before_marketplace = ctx.marketplace;
    ctx.buyer = addr(4);
    let r = purchase_data(&mut ctx, 1, 900);
    assert_eq!(r.unwrap_err(), ErrorCode::ListingNotActive);
    assert!(same_listing(&ctx.listing, &before_listing));
    assert_eq!(ctx.listing.buyer, Some(addr(3)));
    assert_eq!(ctx.marketplace, before_marketplace);
    assert_eq!(ctx.marketplace.total_volume, 1_000_000);
}

#[test]
fn reprice_of_cancelled_listing_is_refused() {
    let (l, _) = list(fresh_marketplace(250), 1, 1_000_000);
    let mut cancel = CancelListing { listing: l, owner: addr(2) };
    assert_eq!(cancel_listing(&mut cancel, 300), Ok(()));
    assert!(!cancel.listing.is_active);
    assert_eq!(cancel.listing.cancelled_at, Some(300));
    let mut update = UpdateListingPrice { listing: cancel.listing, owner: addr(2) };
    assert_eq!(update_listing_price(&mut update, 5), Err(ErrorCode::ListingNotActive));
    assert_eq!(update.listing.price, 1_000_000);
}

#[test]
fn withdraw_by_stranger_is_unauthorized() {
    let m = fresh_marketplace(250);
    let ctx = WithdrawFees {
        marketplace: m,
        authority: addr(9),
        marketplace_token_account: addr(10),
        authority_token_account: addr(11),
    };
    assert_eq!(withdraw_fees(&ctx, 100), Err(ErrorCode::Unauthorized));
}

#[test]
fn withdraw_by_authority_uses_marketplace_capability() {
    let m = fresh_marketplace(250);
    let ctx = WithdrawFees {
        marketplace: m,
        authority: addr(1),
        marketplace_token_account: addr(10),
        authority_token_account: addr(11),
    };
    let t = withdraw_fees(&ctx, 100).unwrap();
    assert_eq!(t.from, addr(10));
    assert_eq!(t.to, addr(11));
    assert_eq!(t.amount, 100);
    assert_eq!(t.authority, TransferAuthority::Marketplace(254));
}

#[test]
fn failed_operations_leave_listing_unchanged() {
    let (l, m) = list(fresh_marketplace(250), 1, 1_000_000);
    let before = l.clone();
    let mut update = UpdateListingPrice { listing: l, owner: addr(5) };
    assert_eq!(update_listing_price(&mut update, 1), Err(ErrorCode::Unauthorized));
    assert!(same_listing(&update.listing, &before));
    let mut cancel = CancelListing { listing: update.listing, owner: addr(5) };
    assert_eq!(cancel_listing(&mut cancel, 9), Err(ErrorCode::Unauthorized));
    assert!(same_listing(&cancel.listing, &before));
    let mut ctx = purchase_ctx(cancel.listing, m);
    assert_eq!(purchase_data(&mut ctx, 2, 9).unwrap_err(), ErrorCode::InvalidListingId);
    assert!(same_listing(&ctx.listing, &before));
    assert_eq!(ctx.marketplace, m);
}

#[test]
fn fee_split_values() {
    let s = compute_fee_split(1_000_000, 250).unwrap();
    assert_eq!((s.fee_amount, s.owner_amount), (25000, 975000));
    let s = compute_fee_split(9999, 1).unwrap();
    assert_eq!((s.fee_amount, s.owner_amount), (0, 9999));
    let s = compute_fee_split(u64::MAX, 10000).unwrap();
    assert_eq!((s.fee_amount, s.owner_amount), (u64::MAX, 0));
    let s = compute_fee_split(u64::MAX, 9999).unwrap();
    assert_eq!(s.fee_amount + s.owner_amount, u64::MAX);
    assert_eq!(s.fee_amount as u128, (u64::MAX as u128) * 9999 / 10000);
    let s = compute_fee_split(0, 65535).unwrap();
    assert_eq!((s.fee_amount, s.owner_amount), (0, 0));
}

#[test]
fn fee_above_price_is_overflow() {
    assert_eq!(compute_fee_split(10000, 10001), Err(ErrorCode::ArithmeticOverflow));
    let (l, m) = list(fresh_marketplace(20000), 1, 100);
    let mut ctx = purchase_ctx(l, m);
    assert_eq!(purchase_data(&mut ctx, 1, 9).unwrap_err(), ErrorCode::ArithmeticOverflow);
    assert!(ctx.listing.is_active);
}

#[test]
fn zero_fee_skips_fee_transfer() {
    let (l, m) = list(fresh_marketplace(0), 4, 777);
    let mut ctx = purchase_ctx(l, m);
    let s = purchase_data(&mut ctx, 4, 9).unwrap();
    assert_eq!(s.fee_amount, 0);
    assert_eq!(s.owner_amount, 777);
    assert_eq!(s.transfers.len(), 1);
    assert_eq!(s.transfers[0].amount, 777);
}

#[test]
fn cancelled_listing_cannot_be_bought_or_cancelled_again() {
    let (l, m) = list(fresh_marketplace(250), 1, 50);
    let mut cancel = CancelListing { listing: l, owner: addr(2) };
    assert_eq!(cancel_listing(&mut cancel, 1), Ok(()));
    assert_eq!(cancel_listing(&mut cancel, 2), Err(ErrorCode::ListingNotActive));
    assert_eq!(cancel.listing.cancelled_at, Some(1));
    let mut ctx = purchase_ctx(cancel.listing, m);
    assert_eq!(purchase_data(&mut ctx, 1, 3).unwrap_err(), ErrorCode::ListingNotActive);
    assert_eq!(ctx.listing.buyer, None);
}

#[test]
fn stranger_is_unauthorized_on_sold_listing() {
    let (l, m) = list(fresh_marketplace(250), 1, 50);
    let mut ctx = purchase_ctx(l, m);
    assert!(purchase_data(&mut ctx, 1, 3).is_ok());
    let mut update = UpdateListingPrice { listing: ctx.listing, owner: addr(8) };
    assert_eq!(update_listing_price(&mut update, 1), Err(ErrorCode::Unauthorized));
    let mut cancel = CancelListing { listing: update.listing, owner: addr(8) };
    assert_eq!(cancel_listing(&mut cancel, 1), Err(ErrorCode::Unauthorized));
    let mut cancel = CancelListing { listing: cancel.listing, owner: addr(2) };
    assert_eq!(cancel_listing(&mut cancel, 1), Err(ErrorCode::ListingNotActive));
}

#[test]
fn counters_follow_listings_and_sales() {
    let mut m = fresh_marketplace(100);
    let prices = [10u64, 2000, 345];
    let mut listings = Vec::new();
    for (i, p) in prices.iter().enumerate() {
        let (l, next) = list(m, i as u64 + 1, *p);
        m = next;
        listings.push(l);
    }
    assert_eq!(m.total_listings, 3);
    for (i, l) in listings.into_iter().enumerate() {
        let mut ctx = purchase_ctx(l, m);
        assert!(purchase_data(&mut ctx, i as u64 + 1, 7).is_ok());
        m = ctx.marketplace;
    }
    assert_eq!(m.total_volume, 10 + 2000 + 345);
    assert_eq!(m.total_listings, 3);
}

#[test]
fn reprice_by_owner_changes_only_price() {
    let (l, _) = list(fresh_marketplace(250), 6, 50);
    let before = l.clone();
    let mut update = UpdateListingPrice { listing: l, owner: addr(2) };
    assert_eq!(update_listing_price(&mut update, 75), Ok(()));
    assert_eq!(update.listing.price, 75);
    assert!(update.listing.is_active);
    update.listing.price = 50;
    assert!(same_listing(&update.listing, &before));
}

#[test]
fn second_initialization_is_refused() {
    let m = fresh_marketplace(250);
    let mut ctx = InitializeMarketplace { marketplace: Some(m), authority: addr(6), marketplace_bump: 1 };
    assert_eq!(initialize_marketplace(&mut ctx, 999), Err(ErrorCode::AlreadyInitialized));
    assert_eq!(ctx.marketplace, Some(m));
}

#[test]
fn duplicate_listing_is_refused() {
    let (l, m) = list(fresh_marketplace(250), 1, 50);
    let mut ctx = CreateDataListing { listing: Some(l), marketplace: m, owner: addr(6), listing_bump: 1 };
    let r = create_data_listing(&mut ctx, 1, 99, DataType::Custom(String::from("x")), String::new(), 5);
    assert_eq!(r, Err(ErrorCode::DuplicateListing));
    assert_eq!(ctx.marketplace.total_listings, 1);
    assert_eq!(ctx.listing.as_ref().unwrap().price, 50);
    assert_eq!(ctx.listing.unwrap().owner, addr(2));
}

#[test]
fn full_listing_counter_is_overflow() {
    let mut m = fresh_marketplace(250);
    m.total_listings = u64::MAX;
    let mut ctx = CreateDataListing { listing: None, marketplace: m, owner: addr(2), listing_bump: 1 };
    let r = create_data_listing(&mut ctx, 1, 99, DataType::AppUsage, String::new(), 5);
    assert_eq!(r, Err(ErrorCode::ArithmeticOverflow));
    assert!(ctx.listing.is_none());
    assert_eq!(ctx.marketplace.total_listings, u64::MAX);
}

#[test]
fn volume_overflow_is_refused() {
    let (l, mut m) = list(fresh_marketplace(250), 1, 50);
    m.total_volume = u64::MAX - 49 + 1;
    let mut ctx = purchase_ctx(l, m);
    assert_eq!(purchase_data(&mut ctx, 1, 3).unwrap_err(), ErrorCode::ArithmeticOverflow);
    assert!(ctx.listing.is_active);
    assert_eq!(ctx.marketplace.total_volume, u64::MAX - 48);
}

#[test]
fn created_listing_fields() {
    let m = fresh_marketplace(250);
    let mut ctx = CreateDataListing { listing: None, marketplace: m, owner: addr(2), listing_bump: 3 };
    let r = create_data_listing(&mut ctx, 42, 1234, DataType::Custom(String::from("gps")), String::from("d"), 77);
    assert_eq!(r, Ok(()));
    let l = ctx.listing.unwrap();
    assert_eq!((l.id, l.price, l.created_at, l.bump), (42, 1234, 77, 3));
    assert_eq!(l.owner, addr(2));
    assert!(l.is_active);
    assert!(matches!(l.data_type, DataType::Custom(ref s) if s == "gps"));
    assert_eq!(l.description, "d");
    assert_eq!((l.sold_at, l.cancelled_at, l.buyer), (None, None, None));
}
