//! The laws of the escrow engine: properties that relate several operations,
//! stated over the spec-level transitions and proved once for all inputs.

use crate::error::ShapelyError;
use crate::fees::{fee_amount, lemma_fee_amount_bounds};
use crate::market::{
    buy_transition, delist_transition, list_transition, map_balance, market_inv, MarketModel,
};
use crate::state::{spec_collection_membership, AssetMetadata, Holder};
use vstd::prelude::*;

verus! {

/// Listing an asset and immediately delisting it returns the marketplace to
/// exactly its previous state: the artist holds the unit again, the listing
/// and its vault no longer exist, and no balance has moved.
pub proof fn lemma_list_delist_round_trip(
    m: MarketModel,
    artist: u64,
    asset: u64,
    collection: u64,
    accessory_metadata: AssetMetadata,
    price: u64,
    bump: u8,
)
    requires
        market_inv(m),
        list_transition(m, artist, asset, collection, accessory_metadata, price, bump) is Ok,
    ensures
        ({
            let listed = list_transition(
                m,
                artist,
                asset,
                collection,
                accessory_metadata,
                price,
                bump,
            )->Ok_0;
            &&& delist_transition(listed, artist, asset, artist) is Ok
            &&& delist_transition(listed, artist, asset, artist)->Ok_0 == m
        }),
{
    let listed = list_transition(m, artist, asset, collection, accessory_metadata, price, bump)->Ok_0;
    assert(m.owners.contains_key(asset) && m.owners[asset] == Holder::Wallet(artist));
    assert(!m.listings.contains_key(asset)) by {
        if m.listings.contains_key(asset) {
            assert(m.owners[asset] == (Holder::Escrow {
                asset,
                artist: m.listings[asset].artist,
            }));
        }
    }
    let returned = delist_transition(listed, artist, asset, artist)->Ok_0;
    assert(returned.owners =~= m.owners);
    assert(returned.listings =~= m.listings);
    assert(returned =~= m);
}

/// A sale settles exactly: the treasury gains the commission, the artist
/// gains the price less the commission, the collector pays the full price,
/// and commission and payout sum to the price — no value is created or
/// destroyed. (Stated for a collector distinct from the artist; an artist
/// buying from itself nets the two balance movements on one account.)
pub proof fn lemma_buy_pays_fee_split(
    m: MarketModel,
    collector: u64,
    avatar_metadata: AssetMetadata,
    asset: u64,
    artist: u64,
)
    requires
        market_inv(m),
        collector != artist,
        buy_transition(m, collector, avatar_metadata, asset, artist) is Ok,
    ensures
        ({
            let bought = buy_transition(m, collector, avatar_metadata, asset, artist)->Ok_0;
            let price = m.listings[asset].listing.price;
            let fee = fee_amount(price, m.config.fee);
            &&& bought.treasury == m.treasury + fee
            &&& map_balance(bought.balances, artist) == map_balance(m.balances, artist) + (
            price - fee)
            &&& map_balance(bought.balances, collector) == map_balance(m.balances, collector)
                - price
            &&& fee + (price - fee) == price
            &&& 0 <= fee <= price
        }),
{
    let price = m.listings[asset].listing.price;
    lemma_fee_amount_bounds(price, m.config.fee);
}

/// At most one listing can be active per (asset, artist) pair: while any
/// listing for an asset is active, every further attempt to list that asset
/// fails, and an attempt for the very pair that is listed fails with
/// `ListingAlreadyExists`.
pub proof fn lemma_second_list_fails(
    m: MarketModel,
    artist: u64,
    asset: u64,
    collection: u64,
    accessory_metadata: AssetMetadata,
    price: u64,
    bump: u8,
)
    requires
        market_inv(m),
        m.listings.contains_key(asset),
    ensures
        list_transition(m, artist, asset, collection, accessory_metadata, price, bump) is Err,
        m.listings[asset].artist == artist && collection == m.config.accessory_collection
            && spec_collection_membership(accessory_metadata, collection) ==> list_transition(
            m,
            artist,
            asset,
            collection,
            accessory_metadata,
            price,
            bump,
        ) == Err::<MarketModel, ShapelyError>(ShapelyError::ListingAlreadyExists),
{
    assert(m.owners[asset] == (Holder::Escrow { asset, artist: m.listings[asset].artist }));
}

} // verus!
