use vstd::prelude::*;
use crate::types::{Address, ErrorCode};

verus! {

/// Parts per ten thousand.
pub const BASIS_POINTS_DENOMINATOR: u128 = 10000;

/// The fee taken from a sale of `price` at `fee_basis_points`, rounded down.
pub open spec fn fee_of(price: int, fee_basis_points: int) -> int {
    price * fee_basis_points / 10000
}

/// How a sale price is divided between the marketplace and the seller.
#[derive(PartialEq, Eq, Structural, Clone, Copy, Debug)]
pub struct FeeSplit {
    pub fee_amount: u64,
    pub owner_amount: u64,
}

/// Splits `price` into the marketplace fee and the seller's remainder.
///
/// The product is formed in 128 bits, so it never overflows; the split fails
/// only when the fee would exceed the price, which a rate above ten thousand
/// basis points can cause.
pub fn compute_fee_split(price: u64, fee_basis_points: u16) -> (r: Result<FeeSplit, ErrorCode>)
    ensures
        r is Ok <==> fee_of(price as int, fee_basis_points as int) <= price,
        r matches Ok(s) ==> s.fee_amount == fee_of(price as int, fee_basis_points as int)
            && s.owner_amount == price - s.fee_amount,
        r matches Err(e) ==> e == ErrorCode::ArithmeticOverflow,
{
    let wide_price: u128 = price as u128;
    let wide_rate: u128 = fee_basis_points as u128;
    assert(wide_price * wide_rate <= u64::MAX as int * u16::MAX as int) by (nonlinear_arith)
        requires
            wide_price <= u64::MAX,
            wide_rate <= u16::MAX,
    ;
    let product: u128 = match wide_price.checked_mul(wide_rate) {
        Some(p) => p,
        None => {
            return Err(ErrorCode::ArithmeticOverflow);
        },
    };
    let fee_wide: u128 = product / BASIS_POINTS_DENOMINATOR;
    if fee_wide > wide_price {
        return Err(ErrorCode::ArithmeticOverflow);
    }
    let fee_amount: u64 = fee_wide as u64;
    Ok(FeeSplit { fee_amount, owner_amount: price - fee_amount })
}

/// The singleton marketplace record: its operator, its fee rate and the
/// running totals of listings created and volume sold.
#[derive(PartialEq, Eq, Structural, Clone, Copy, Debug)]
pub struct Marketplace {
    pub authority: Address,
    pub fee_basis_points: u16,
    pub total_listings: u64,
    pub total_volume: u64,
    pub bump: u8,
}

impl Marketplace {
    /// `next` is this record with one more listing counted, and nothing else changed.
    pub open spec fn records_listing(self, next: Marketplace) -> bool {
        &&& self.total_listings < u64::MAX
        &&& next == (Marketplace { total_listings: (self.total_listings + 1) as u64, ..self })
    }

    /// `next` is this record with a sale of `price` added to the volume, and nothing else changed.
    pub open spec fn records_sale(self, next: Marketplace, price: u64) -> bool {
        &&& self.total_volume + price <= u64::MAX
        &&& next == (Marketplace { total_volume: (self.total_volume + price) as u64, ..self })
    }

    /// A fresh record with zeroed counters.
    pub fn new(authority: Address, fee_basis_points: u16, bump: u8) -> (r: Marketplace)
        ensures
            r == (Marketplace { authority, fee_basis_points, total_listings: 0, total_volume: 0, bump }),
    {
        Marketplace { authority, fee_basis_points, total_listings: 0, total_volume: 0, bump }
    }

    /// Counts one more listing; fails, leaving the record as it was, when the
    /// counter is at its largest value.
    pub fn record_listing_created(&mut self) -> (r: Result<(), ErrorCode>)
        ensures
            r is Ok <==> old(self).total_listings < u64::MAX,
            r is Ok ==> old(self).records_listing(*final(self)),
            r matches Err(e) ==> e == ErrorCode::ArithmeticOverflow && *final(self) == *old(self),
    {
        match self.total_listings.checked_add(1) {
            Some(n) => {
                self.total_listings = n;
                Ok(())
            },
            None => Err(ErrorCode::ArithmeticOverflow),
        }
    }

    /// Adds a sale of `price` to the volume; fails, leaving the record as it
    /// was, when the sum does not fit.
    pub fn record_sale(&mut self, price: u64) -> (r: Result<(), ErrorCode>)
        ensures
            r is Ok <==> old(self).total_volume + price <= u64::MAX,
            r is Ok ==> old(self).records_sale(*final(self), price),
            r matches Err(e) ==> e == ErrorCode::ArithmeticOverflow && *final(self) == *old(self),
    {
        match self.total_volume.checked_add(price) {
            Some(v) => {
                self.total_volume = v;
                Ok(())
            },
            None => Err(ErrorCode::ArithmeticOverflow),
        }
    }
}

} // verus!
