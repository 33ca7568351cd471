use vstd::prelude::*;
use crate::types::{Address, ErrorCode};
use crate::marketplace::{fee_of, Marketplace};
use crate::listing::DataListing;

verus! {

/// The sum of a sequence of prices.
pub open spec fn sum_prices(prices: Seq<u64>) -> int
    decreases prices.len(),
{
    if prices.len() == 0 {
        0
    } else {
        sum_prices(prices.drop_last()) + prices.last()
    }
}

/// At a rate of at most ten thousand basis points the fee never exceeds the
/// price, so the split succeeds, and the fee and the seller's share add up to
/// the price.
pub proof fn lemma_fee_split_exact(price: u64, fee_basis_points: u16)
    requires
        fee_basis_points <= 10000,
    ensures
        0 <= fee_of(price as int, fee_basis_points as int) <= price,
        fee_of(price as int, fee_basis_points as int) + (price - fee_of(
            price as int,
            fee_basis_points as int,
        )) == price,
{
    let p = price as int;
    let b = fee_basis_points as int;
    assert(0 <= p * b <= p * 10000) by (nonlinear_arith)
        requires
            0 <= p,
            0 <= b <= 10000,
    ;
    assert(p * b / 10000 <= p) by (nonlinear_arith)
        requires
            0 <= p * b <= p * 10000,
    ;
    assert(0 <= p * b / 10000) by (nonlinear_arith)
        requires
            0 <= p * b,
    ;
}

/// An active listing leaves for exactly one terminal state: a sale ends it
/// sold, a cancellation ends it cancelled, and from either a further
/// purchase, or a new price or a cancellation by its owner, is refused as
/// not active.
pub proof fn lemma_single_terminal_transition(
    listing: DataListing,
    buyer: Address,
    now: i64,
    expected_id: u64,
)
    requires
        listing.wf(),
        listing.is_active,
    ensures
        listing.sold(buyer, now).wf(),
        listing.sold(buyer, now).state() is Sold,
        listing.sold(buyer, now).purchase_error(expected_id) == Some(ErrorCode::ListingNotActive),
        listing.sold(buyer, now).owner_action_error(listing.owner) == Some(
            ErrorCode::ListingNotActive,
        ),
        listing.cancelled(now).wf(),
        listing.cancelled(now).state() is Cancelled,
        listing.cancelled(now).purchase_error(expected_id) == Some(ErrorCode::ListingNotActive),
        listing.cancelled(now).owner_action_error(listing.owner) == Some(
            ErrorCode::ListingNotActive,
        ),
{
}

/// Anyone but the owner is refused a new price or a cancellation as
/// unauthorized, whatever state the listing is in.
pub proof fn lemma_only_owner_changes(listing: DataListing, caller: Address)
    requires
        caller != listing.owner,
    ensures
        listing.owner_action_error(caller) == Some(ErrorCode::Unauthorized),
{
}

/// Starting from zero, a run of successful listing creations leaves the
/// counter at the number of listings created.
pub proof fn lemma_listing_count(states: Seq<Marketplace>)
    requires
        states.len() >= 1,
        states[0].total_listings == 0,
        forall|i: int| 0 <= i < states.len() - 1 ==> #[trigger] states[i].records_listing(states[i + 1]),
    ensures
        states.last().total_listings == states.len() - 1,
    decreases states.len(),
{
    if states.len() > 1 {
        let prefix = states.drop_last();
        assert forall|i: int| 0 <= i < prefix.len() - 1 implies #[trigger] prefix[i].records_listing(
            prefix[i + 1],
        ) by {
            assert(states[i].records_listing(states[i + 1]));
        }
        lemma_listing_count(prefix);
        let k = states.len() - 2;
        assert(states[k].records_listing(states[k + 1]));
    }
}

/// Starting from zero, a run of successful purchases at the given prices
/// leaves the volume at the sum of those prices.
pub proof fn lemma_volume_sum(states: Seq<Marketplace>, prices: Seq<u64>)
    requires
        states.len() == prices.len() + 1,
        states[0].total_volume == 0,
        forall|i: int| 0 <= i < prices.len() ==> #[trigger] states[i].records_sale(states[i + 1], prices[i]),
    ensures
        states.last().total_volume == sum_prices(prices),
    decreases prices.len(),
{
    if prices.len() > 0 {
        let prefix = states.drop_last();
        let earlier = prices.drop_last();
        assert forall|i: int| 0 <= i < earlier.len() implies #[trigger] prefix[i].records_sale(
            prefix[i + 1],
            earlier[i],
        ) by {
            assert(states[i].records_sale(states[i + 1], prices[i]));
        }
        lemma_volume_sum(prefix, earlier);
        let k = prices.len() - 1;
        assert(states[k].records_sale(states[k + 1], prices[k]));
    }
}

} // verus!
