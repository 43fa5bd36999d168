use shapely::error::ShapelyError;
use shapely::market::{InitializeBumps, Marketplace};
use shapely::state::{AssetMetadata, Holder, Listing, ListingEntry};

const SEED: u64 = 1;
const RATE: u16 = 1000;
const AVATAR_COLLECTION: u64 = 7;
const ACCESSORY_COLLECTION: u64 = 8;
const ARTIST: u64 = 100;
const COLLECTOR: u64 = 200;
const ASSET: u64 = 50;
const PRICE: u64 = 100_000;

fn bumps() -> InitializeBumps {
    InitializeBumps { config: 1, treasury: 2, avatar_collection: 3, accessory_collection: 4 }
}

fn new_market(rate: u16) -> Marketplace {
    Marketplace::initialize(SEED, rate, AVATAR_COLLECTION, ACCESSORY_COLLECTION, bumps())
}

fn verified_accessory() -> AssetMetadata {
    AssetMetadata { collection: ACCESSORY_COLLECTION, verified: true }
}

fn verified_avatar() -> AssetMetadata {
    AssetMetadata { collection: AVATAR_COLLECTION, verified: true }
}

/// A marketplace with the asset minted to the artist, the collector funded,
/// and the asset listed at `price`.
fn market_with_listing(rate: u16, price: u64, collector_funds: u64) -> Marketplace {
    let mut m = new_market(rate);
    assert_eq!(m.mint_accessory(ARTIST, ASSET), Ok(()));
    assert_eq!(m.fund_account(COLLECTOR, collector_funds), Ok(()));
    let meta = verified_accessory();
    assert_eq!(m.list_accessory(ARTIST, ASSET, ACCESSORY_COLLECTION, &meta, price, 0), Ok(()));
    m
}

#[test]
fn initialize_records_configuration() {
    let m = new_market(RATE);
    let config = m.config();
    assert_eq!(config.seed, SEED);
    assert_eq!(config.fee, RATE);
    assert_eq!(config.avatar_collection, AVATAR_COLLECTION);
    assert_eq!(config.accessory_collection, ACCESSORY_COLLECTION);
    assert_eq!(config.bump, 1);
    assert_eq!(config.treasury_bump, 2);
    assert_eq!(config.avatar_collection_bump, 3);
    assert_eq!(config.accessory_collection_bump, 4);
    assert_eq!(m.treasury_balance(), 0);
}

#[test]
fn mint_hands_unit_to_artist() {
    let mut m = new_market(RATE);
    assert_eq!(m.mint_accessory(ARTIST, ASSET), Ok(()));
    assert_eq!(m.owner_of(ASSET), Some(Holder::Wallet(ARTIST)));
}

#[test]
fn mint_same_asset_twice_fails() {
    let mut m = new_market(RATE);
    assert_eq!(m.mint_accessory(ARTIST, ASSET), Ok(()));
    assert_eq!(m.mint_accessory(COLLECTOR, ASSET), Err(ShapelyError::AssetAlreadyMinted));
    assert_eq!(m.owner_of(ASSET), Some(Holder::Wallet(ARTIST)));
}

#[test]
fn fund_overflow_fails() {
    let mut m = new_market(RATE);
    assert_eq!(m.fund_account(COLLECTOR, u64::MAX), Ok(()));
    assert_eq!(m.fund_account(COLLECTOR, 1), Err(ShapelyError::BalanceOverflow));
    assert_eq!(m.balance_of(COLLECTOR), u64::MAX);
}

#[test]
fn list_creates_listing_and_escrows_asset() {
    let m = market_with_listing(RATE, PRICE, PRICE);
    let entry = m.get_listing(ASSET).unwrap();
    assert_eq!(
        entry,
        ListingEntry {
            artist: ARTIST,
            listing: Listing { bump: 0, units: 1, price: PRICE, accessory_mint: ASSET },
        }
    );
    assert_eq!(m.owner_of(ASSET), Some(Holder::Escrow { asset: ASSET, artist: ARTIST }));
}

#[test]
fn list_unverified_accessory_fails() {
    let mut m = new_market(RATE);
    assert_eq!(m.mint_accessory(ARTIST, ASSET), Ok(()));
    let meta = AssetMetadata { collection: ACCESSORY_COLLECTION, verified: false };
    assert_eq!(
        m.list_accessory(ARTIST, ASSET, ACCESSORY_COLLECTION, &meta, PRICE, 0),
        Err(ShapelyError::AccessoryNotVerified)
    );
    assert_eq!(m.get_listing(ASSET), None);
    assert_eq!(m.owner_of(ASSET), Some(Holder::Wallet(ARTIST)));
}

#[test]
fn list_accessory_of_other_collection_fails() {
    let mut m = new_market(RATE);
    assert_eq!(m.mint_accessory(ARTIST, ASSET), Ok(()));
    let meta = AssetMetadata { collection: AVATAR_COLLECTION, verified: true };
    assert_eq!(
        m.list_accessory(ARTIST, ASSET, ACCESSORY_COLLECTION, &meta, PRICE, 0),
        Err(ShapelyError::AccessoryNotVerified)
    );
    assert_eq!(m.get_listing(ASSET), None);
}

#[test]
fn list_against_wrong_collection_fails() {
    let mut m = new_market(RATE);
    assert_eq!(m.mint_accessory(ARTIST, ASSET), Ok(()));
    let meta = verified_accessory();
    assert_eq!(
        m.list_accessory(ARTIST, ASSET, AVATAR_COLLECTION, &meta, PRICE, 0),
        Err(ShapelyError::InvalidCollectionMint)
    );
    assert_eq!(m.get_listing(ASSET), None);
}

#[test]
fn list_unminted_asset_fails() {
    let mut m = new_market(RATE);
    let meta = verified_accessory();
    assert_eq!(
        m.list_accessory(ARTIST, ASSET, ACCESSORY_COLLECTION, &meta, PRICE, 0),
        Err(ShapelyError::AssetNotHeld)
    );
    assert_eq!(m.get_listing(ASSET), None);
}

#[test]
fn list_by_non_holder_fails() {
    let mut m = new_market(RATE);
    assert_eq!(m.mint_accessory(ARTIST, ASSET), Ok(()));
    let meta = verified_accessory();
    assert_eq!(
        m.list_accessory(COLLECTOR, ASSET, ACCESSORY_COLLECTION, &meta, PRICE, 0),
        Err(ShapelyError::AssetNotHeld)
    );
    assert_eq!(m.owner_of(ASSET), Some(Holder::Wallet(ARTIST)));
}

#[test]
fn second_list_for_same_pair_fails() {
    let mut m = market_with_listing(RATE, PRICE, PRICE);
    let meta = verified_accessory();
    assert_eq!(
        m.list_accessory(ARTIST, ASSET, ACCESSORY_COLLECTION, &meta, PRICE + 1, 0),
        Err(ShapelyError::ListingAlreadyExists)
    );
    let entry = m.get_listing(ASSET).unwrap();
    assert_eq!(entry.listing.price, PRICE);
}

#[test]
fn list_then_delist_restores_pre_list_state() {
    let mut m = market_with_listing(RATE, PRICE, PRICE);
    assert_eq!(m.delist_accessory(ARTIST, ASSET, ARTIST), Ok(()));
    assert_eq!(m.owner_of(ASSET), Some(Holder::Wallet(ARTIST)));
    assert_eq!(m.get_listing(ASSET), None);
    assert_eq!(m.balance_of(ARTIST), 0);
    assert_eq!(m.balance_of(COLLECTOR), PRICE);
    assert_eq!(m.treasury_balance(), 0);
}

#[test]
fn delist_by_non_artist_fails() {
    let mut m = market_with_listing(RATE, PRICE, PRICE);
    assert_eq!(
        m.delist_accessory(COLLECTOR, ASSET, ARTIST),
        Err(ShapelyError::UnauthorizedArtist)
    );
    assert_eq!(m.owner_of(ASSET), Some(Holder::Escrow { asset: ASSET, artist: ARTIST }));
    assert!(m.get_listing(ASSET).is_some());
}

#[test]
fn delist_without_listing_fails() {
    let mut m = new_market(RATE);
    assert_eq!(m.mint_accessory(ARTIST, ASSET), Ok(()));
    assert_eq!(m.delist_accessory(ARTIST, ASSET, ARTIST), Err(ShapelyError::ListingNotFound));
}

#[test]
fn buy_splits_payment_and_transfers_asset() {
    let mut m = market_with_listing(RATE, PRICE, 1_000_000);
    let avatar = verified_avatar();
    assert_eq!(m.buy_accessory(COLLECTOR, &avatar, ASSET, ARTIST), Ok(()));
    // rate 1000 (10%) on a price of 100_000: fee 10_000, payout 90_000
    assert_eq!(m.treasury_balance(), 10_000);
    assert_eq!(m.balance_of(ARTIST), 90_000);
    assert_eq!(m.balance_of(COLLECTOR), 900_000);
    assert_eq!(m.owner_of(ASSET), Some(Holder::Wallet(COLLECTOR)));
    assert_eq!(m.get_listing(ASSET), None);
}

#[test]
fn buy_with_unverified_avatar_fails() {
    let mut m = market_with_listing(RATE, PRICE, PRICE);
    let avatar = AssetMetadata { collection: AVATAR_COLLECTION, verified: false };
    assert_eq!(
        m.buy_accessory(COLLECTOR, &avatar, ASSET, ARTIST),
        Err(ShapelyError::AvatarNotVerified)
    );
    assert_eq!(m.owner_of(ASSET), Some(Holder::Escrow { asset: ASSET, artist: ARTIST }));
    assert!(m.get_listing(ASSET).is_some());
    assert_eq!(m.balance_of(COLLECTOR), PRICE);
    assert_eq!(m.treasury_balance(), 0);
}

#[test]
fn buy_with_avatar_of_wrong_collection_fails() {
    let mut m = market_with_listing(RATE, PRICE, PRICE);
    let avatar = AssetMetadata { collection: ACCESSORY_COLLECTION, verified: true };
    assert_eq!(
        m.buy_accessory(COLLECTOR, &avatar, ASSET, ARTIST),
        Err(ShapelyError::AvatarNotVerified)
    );
    assert_eq!(m.balance_of(COLLECTOR), PRICE);
}

#[test]
fn buy_already_bought_listing_fails() {
    let mut m = market_with_listing(RATE, PRICE, PRICE);
    let avatar = verified_avatar();
    assert_eq!(m.buy_accessory(COLLECTOR, &avatar, ASSET, ARTIST), Ok(()));
    assert_eq!(
        m.buy_accessory(COLLECTOR, &avatar, ASSET, ARTIST),
        Err(ShapelyError::ListingNotFound)
    );
    assert_eq!(m.owner_of(ASSET), Some(Holder::Wallet(COLLECTOR)));
}

#[test]
fn buy_with_wrong_artist_fails() {
    let mut m = market_with_listing(RATE, PRICE, PRICE);
    let avatar = verified_avatar();
    assert_eq!(
        m.buy_accessory(COLLECTOR, &avatar, ASSET, COLLECTOR),
        Err(ShapelyError::ListingNotFound)
    );
}

#[test]
fn buy_with_insufficient_funds_fails() {
    let mut m = market_with_listing(RATE, PRICE, PRICE - 1);
    let avatar = verified_avatar();
    assert_eq!(
        m.buy_accessory(COLLECTOR, &avatar, ASSET, ARTIST),
        Err(ShapelyError::InsufficientFunds)
    );
    assert_eq!(m.balance_of(COLLECTOR), PRICE - 1);
    assert_eq!(m.owner_of(ASSET), Some(Holder::Escrow { asset: ASSET, artist: ARTIST }));
    assert!(m.get_listing(ASSET).is_some());
    assert_eq!(m.treasury_balance(), 0);
}

#[test]
fn buy_overflowing_artist_balance_fails() {
    let mut m = market_with_listing(0, 10, 10);
    assert_eq!(m.fund_account(ARTIST, u64::MAX), Ok(()));
    let avatar = verified_avatar();
    assert_eq!(
        m.buy_accessory(COLLECTOR, &avatar, ASSET, ARTIST),
        Err(ShapelyError::BalanceOverflow)
    );
    assert_eq!(m.balance_of(COLLECTOR), 10);
    assert_eq!(m.balance_of(ARTIST), u64::MAX);
    assert!(m.get_listing(ASSET).is_some());
}

#[test]
fn artist_buying_own_listing_pays_only_the_fee() {
    let mut m = market_with_listing(RATE, PRICE, 0);
    assert_eq!(m.fund_account(ARTIST, PRICE), Ok(()));
    let avatar = verified_avatar();
    assert_eq!(m.buy_accessory(ARTIST, &avatar, ASSET, ARTIST), Ok(()));
    assert_eq!(m.balance_of(ARTIST), PRICE - 10_000);
    assert_eq!(m.treasury_balance(), 10_000);
    assert_eq!(m.owner_of(ASSET), Some(Holder::Wallet(ARTIST)));
    assert_eq!(m.get_listing(ASSET), None);
}
