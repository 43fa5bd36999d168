//! The escrow engine: one marketplace instance, its invariant, and the
//! `list` / `delist` / `buy` operations over it.
//!
//! The marketplace is modelled as a state machine. The spec-level
//! `MarketModel` carries the configuration, the treasury balance, the
//! native-currency balance of every account, the holder of every minted
//! asset, and the active listings keyed by asset. Each operation has a
//! spec-level transition function that says exactly which model (or which
//! error) it produces, and the executable operation is proved to agree with
//! its transition. Every operation is atomic: on any error the marketplace
//! is unchanged.

use crate::error::ShapelyError;
use crate::fees::{compute_fee, fee_amount, lemma_fee_amount_bounds, BASIS_POINT_SCALE};
use crate::state::{spec_collection_membership, verify_collection_membership};
use crate::state::{AssetMetadata, Config, Holder, Listing, ListingEntry};
use vstd::hash_map::HashMapWithView;
use vstd::prelude::*;

verus! {

/// The bump values recorded when a marketplace instance is created: one for
/// each deterministically derived address of the instance.
#[derive(Clone, Copy, Debug, PartialEq, Eq, Structural)]
pub struct InitializeBumps {
    pub config: u8,
    pub treasury: u8,
    pub avatar_collection: u8,
    pub accessory_collection: u8,
}

/// The mathematical state of one marketplace instance.
#[verifier::ext_equal]
pub struct MarketModel {
    /// The immutable configuration.
    pub config: Config,
    /// Native currency accumulated by the treasury as commission.
    pub treasury: u64,
    /// Native-currency balance of each funded account.
    pub balances: Map<u64, u64>,
    /// The holder of each minted asset's single unit.
    pub owners: Map<u64, Holder>,
    /// The active listings, keyed by the listed asset.
    pub listings: Map<u64, ListingEntry>,
}

/// The native-currency balance of `account`: an account that was never
/// funded holds nothing.
pub open spec fn map_balance(balances: Map<u64, u64>, account: u64) -> u64 {
    if balances.contains_key(account) {
        balances[account]
    } else {
        0
    }
}

/// The well-formedness invariant of a marketplace.
///
/// The commission rate is a share of the basis-point scale, and a listing
/// exists for an asset if and only if that asset's single unit sits in the
/// escrow vault derived from the listing's (asset, artist) seed tuple. This
/// makes at most one active listing possible per asset — and so per
/// (asset, artist) pair — at any time.
pub open spec fn market_inv(m: MarketModel) -> bool {
    &&& m.config.fee <= BASIS_POINT_SCALE
    &&& forall|asset: u64| #[trigger] m.listings.contains_key(asset) ==> {
        let entry = m.listings[asset];
        &&& entry.listing.accessory_mint == asset
        &&& entry.listing.units == 1
        &&& entry.listing.price >= 1
        &&& m.owners.contains_key(asset)
        &&& m.owners[asset] == (Holder::Escrow { asset, artist: entry.artist })
    }
    &&& forall|asset: u64| #[trigger] m.owners.contains_key(asset)
        ==> match m.owners[asset] {
            Holder::Escrow { asset: vault_asset, artist } => {
                &&& vault_asset == asset
                &&& m.listings.contains_key(asset)
                &&& m.listings[asset].artist == artist
            },
            Holder::Wallet(_) => true,
        }
}

/// What minting an accessory does: the asset registry hands the single unit
/// of a fresh asset to the artist. An identifier can be minted only once.
pub open spec fn mint_transition(m: MarketModel, artist: u64, asset: u64) -> Result<
    MarketModel,
    ShapelyError,
> {
    if m.owners.contains_key(asset) {
        Err(ShapelyError::AssetAlreadyMinted)
    } else {
        Ok(
            MarketModel {
                owners: m.owners.insert(asset, Holder::Wallet(artist)),
                ..m
            },
        )
    }
}

/// What funding an account does: `amount` native currency arrives from
/// outside the marketplace.
pub open spec fn fund_transition(m: MarketModel, account: u64, amount: u64) -> Result<
    MarketModel,
    ShapelyError,
> {
    if map_balance(m.balances, account) + amount > u64::MAX {
        Err(ShapelyError::BalanceOverflow)
    } else {
        Ok(
            MarketModel {
                balances: m.balances.insert(
                    account,
                    (map_balance(m.balances, account) + amount) as u64,
                ),
                ..m
            },
        )
    }
}

/// What listing an accessory does.
///
/// The presented collection must be the configured accessory collection, the
/// asset's membership in it must be verified, no listing may already exist
/// for the (asset, artist) pair, and the artist must hold the unit. On
/// success the listing record is created and the unit moves into the escrow
/// vault in one atomic step.
pub open spec fn list_transition(
    m: MarketModel,
    artist: u64,
    asset: u64,
    collection: u64,
    accessory_metadata: AssetMetadata,
    price: u64,
    bump: u8,
) -> Result<MarketModel, ShapelyError> {
    if collection != m.config.accessory_collection {
        Err(ShapelyError::InvalidCollectionMint)
    } else if !spec_collection_membership(accessory_metadata, collection) {
        Err(ShapelyError::AccessoryNotVerified)
    } else if m.listings.contains_key(asset) && m.listings[asset].artist == artist {
        Err(ShapelyError::ListingAlreadyExists)
    } else if !(m.owners.contains_key(asset) && m.owners[asset] == Holder::Wallet(artist)) {
        Err(ShapelyError::AssetNotHeld)
    } else {
        Ok(
            MarketModel {
                owners: m.owners.insert(asset, Holder::Escrow { asset, artist }),
                listings: m.listings.insert(
                    asset,
                    ListingEntry {
                        artist,
                        listing: Listing { bump, units: 1, price, accessory_mint: asset },
                    },
                ),
                ..m
            },
        )
    }
}

/// What delisting does.
///
/// Only the artist the listing was derived from may delist; the unit moves
/// back to the artist's wallet and the listing record — and with it the
/// vault — is destroyed.
pub open spec fn delist_transition(m: MarketModel, caller: u64, asset: u64, artist: u64) -> Result<
    MarketModel,
    ShapelyError,
> {
    if caller != artist {
        Err(ShapelyError::UnauthorizedArtist)
    } else if !(m.listings.contains_key(asset) && m.listings[asset].artist == artist) {
        Err(ShapelyError::ListingNotFound)
    } else {
        Ok(
            MarketModel {
                owners: m.owners.insert(asset, Holder::Wallet(artist)),
                listings: m.listings.remove(asset),
                ..m
            },
        )
    }
}

/// What payment settlement does: the collector pays the commission to the
/// treasury and the payout to the artist, atomically.
///
/// The collector must cover the full price, and no balance may overflow.
/// The artist may be the collector; the payout then lands on the balance
/// the price was already deducted from.
pub open spec fn payment_transition(m: MarketModel, collector: u64, artist: u64, price: u64) -> Result<
    MarketModel,
    ShapelyError,
> {
    let fee = fee_amount(price, m.config.fee);
    let payout = price - fee;
    if map_balance(m.balances, collector) < price {
        Err(ShapelyError::InsufficientFunds)
    } else if m.treasury + fee > u64::MAX {
        Err(ShapelyError::BalanceOverflow)
    } else {
        let debited = m.balances.insert(
            collector,
            (map_balance(m.balances, collector) - price) as u64,
        );
        if map_balance(debited, artist) + payout > u64::MAX {
            Err(ShapelyError::BalanceOverflow)
        } else {
            Ok(
                MarketModel {
                    treasury: (m.treasury + fee) as u64,
                    balances: debited.insert(
                        artist,
                        (map_balance(debited, artist) + payout) as u64,
                    ),
                    ..m
                },
            )
        }
    }
}

/// What buying does.
///
/// The collector must hold verified membership in the avatar collection and
/// an active listing must exist for the (asset, artist) pair. The three
/// sub-steps — payment settlement, asset withdrawal, vault teardown — happen
/// atomically: either the model moves to the settled state or an error
/// leaves it untouched.
pub open spec fn buy_transition(
    m: MarketModel,
    collector: u64,
    avatar_metadata: AssetMetadata,
    asset: u64,
    artist: u64,
) -> Result<MarketModel, ShapelyError> {
    if !spec_collection_membership(avatar_metadata, m.config.avatar_collection) {
        Err(ShapelyError::AvatarNotVerified)
    } else if !(m.listings.contains_key(asset) && m.listings[asset].artist == artist) {
        Err(ShapelyError::ListingNotFound)
    } else {
        match payment_transition(m, collector, artist, m.listings[asset].listing.price) {
            Err(e) => Err(e),
            Ok(paid) => Ok(
                MarketModel {
                    owners: paid.owners.insert(asset, Holder::Wallet(collector)),
                    listings: paid.listings.remove(asset),
                    ..paid
                },
            ),
        }
    }
}

/// One marketplace instance: the escrow engine's entire mutable state.
pub struct Marketplace {
    config: Config,
    treasury: u64,
    balances: HashMapWithView<u64, u64>,
    owners: HashMapWithView<u64, Holder>,
    listings: HashMapWithView<u64, ListingEntry>,
}

impl View for Marketplace {
    type V = MarketModel;

    closed spec fn view(&self) -> MarketModel {
        MarketModel {
            config: self.config,
            treasury: self.treasury,
            balances: self.balances@,
            owners: self.owners@,
            listings: self.listings@,
        }
    }
}

impl Marketplace {
    /// The marketplace's well-formedness invariant; every operation
    /// requires and preserves it.
    pub open spec fn inv(&self) -> bool {
        market_inv(self@)
    }

    /// Creates the marketplace instance for `seed`: records the commission
    /// rate, the two collection identifiers and the derivation bumps, and
    /// creates the empty treasury. Runs once per seed, before any listing
    /// can exist.
    pub fn initialize(
        seed: u64,
        fee: u16,
        avatar_collection: u64,
        accessory_collection: u64,
        bumps: InitializeBumps,
    ) -> (market: Marketplace)
        requires
            fee <= BASIS_POINT_SCALE,
        ensures
            market.inv(),
            market@.config == (Config {
                bump: bumps.config,
                treasury_bump: bumps.treasury,
                avatar_collection_bump: bumps.avatar_collection,
                accessory_collection_bump: bumps.accessory_collection,
                avatar_collection,
                accessory_collection,
                fee,
                seed,
            }),
            market@.treasury == 0,
            market@.balances == Map::<u64, u64>::empty(),
            market@.owners == Map::<u64, Holder>::empty(),
            market@.listings == Map::<u64, ListingEntry>::empty(),
    {
        Marketplace {
            config: Config {
                bump: bumps.config,
                treasury_bump: bumps.treasury,
                avatar_collection_bump: bumps.avatar_collection,
                accessory_collection_bump: bumps.accessory_collection,
                avatar_collection,
                accessory_collection,
                fee,
                seed,
            },
            treasury: 0,
            balances: HashMapWithView::new(),
            owners: HashMapWithView::new(),
            listings: HashMapWithView::new(),
        }
    }

    /// Records a freshly minted accessory: the asset registry has created
    /// the asset and handed its single unit to `artist`.
    pub fn mint_accessory(&mut self, artist: u64, asset: u64) -> (r: Result<(), ShapelyError>)
        requires
            old(self).inv(),
        ensures
            final(self).inv(),
            (match mint_transition(old(self)@, artist, asset) {
                Ok(next) => r is Ok && final(self)@ == next,
                Err(e) => r == Err::<(), ShapelyError>(e) && final(self)@ == old(self)@,
            }),
    {
        if self.owners.contains_key(&asset) {
            return Err(ShapelyError::AssetAlreadyMinted);
        }
        self.owners.insert(asset, Holder::Wallet(artist));
        Ok(())
    }

    /// Credits `amount` native currency to `account` from outside the
    /// marketplace.
    pub fn fund_account(&mut self, account: u64, amount: u64) -> (r: Result<(), ShapelyError>)
        requires
            old(self).inv(),
        ensures
            final(self).inv(),
            (match fund_transition(old(self)@, account, amount) {
                Ok(next) => r is Ok && final(self)@ == next,
                Err(e) => r == Err::<(), ShapelyError>(e) && final(self)@ == old(self)@,
            }),
    {
        let held = self.balance_of(account);
        if amount > u64::MAX - held {
            return Err(ShapelyError::BalanceOverflow);
        }
        self.balances.insert(account, held + amount);
        Ok(())
    }

    /// Lists `asset` at `price`: creates the listing record derived from the
    /// (asset, artist) pair and moves the asset's single unit from the
    /// artist's wallet into the listing's escrow vault, atomically.
    ///
    /// Fails with `InvalidCollectionMint` if `collection` is not the
    /// configured accessory collection, with `AccessoryNotVerified` if the
    /// asset's membership in it is not verified, with `ListingAlreadyExists`
    /// if the pair is already listed, and with `AssetNotHeld` if the artist
    /// does not hold the unit. No error changes any state.
    pub fn list_accessory(
        &mut self,
        artist: u64,
        asset: u64,
        collection: u64,
        accessory_metadata: &AssetMetadata,
        price: u64,
        bump: u8,
    ) -> (r: Result<(), ShapelyError>)
        requires
            old(self).inv(),
            price >= 1,
        ensures
            final(self).inv(),
            (match list_transition(
                old(self)@,
                artist,
                asset,
                collection,
                *accessory_metadata,
                price,
                bump,
            ) {
                Ok(next) => r is Ok && final(self)@ == next,
                Err(e) => r == Err::<(), ShapelyError>(e) && final(self)@ == old(self)@,
            }),
            !spec_collection_membership(*accessory_metadata, old(self)@.config.accessory_collection)
                ==> r is Err && final(self)@ == old(self)@,
    {
        if collection != self.config.accessory_collection {
            return Err(ShapelyError::InvalidCollectionMint);
        }
        if !verify_collection_membership(accessory_metadata, collection) {
            return Err(ShapelyError::AccessoryNotVerified);
        }
        let already_listed = match self.listings.get(&asset) {
            Some(entry) => entry.artist == artist,
            None => false,
        };
        if already_listed {
            return Err(ShapelyError::ListingAlreadyExists);
        }
        let held = match self.owners.get(&asset) {
            Some(holder) => *holder == Holder::Wallet(artist),
            None => false,
        };
        if !held {
            return Err(ShapelyError::AssetNotHeld);
        }
        self.initialize_listing(artist, asset, price, bump);
        self.deposit_nft(artist, asset);
        Ok(())
    }

    /// Tears down the listing for the (asset, artist) pair and returns the
    /// asset to the artist's wallet, atomically. Only the artist the listing
    /// was derived from may call this; the asset is withdrawn from the vault
    /// before the vault is destroyed.
    pub fn delist_accessory(&mut self, caller: u64, asset: u64, artist: u64) -> (r: Result<
        (),
        ShapelyError,
    >)
        requires
            old(self).inv(),
        ensures
            final(self).inv(),
            (match delist_transition(old(self)@, caller, asset, artist) {
                Ok(next) => r is Ok && final(self)@ == next,
                Err(e) => r == Err::<(), ShapelyError>(e) && final(self)@ == old(self)@,
            }),
            caller != artist ==> r == Err::<(), ShapelyError>(ShapelyError::UnauthorizedArtist)
                && final(self)@ == old(self)@,
    {
        if caller != artist {
            return Err(ShapelyError::UnauthorizedArtist);
        }
        let found = match self.listings.get(&asset) {
            Some(entry) => entry.artist == artist,
            None => false,
        };
        if !found {
            return Err(ShapelyError::ListingNotFound);
        }
        self.withdraw_nft(asset, artist);
        self.close_vault(asset);
        Ok(())
    }

    /// Buys the asset listed by `artist`: settles the payment split, moves
    /// the asset from the escrow vault to the collector's wallet, and tears
    /// the listing and vault down — all atomically.
    ///
    /// Fails with `AvatarNotVerified` if the collector's membership in the
    /// avatar collection is unverified or claims a different collection,
    /// with `ListingNotFound` if no listing exists for the pair (in
    /// particular after the listing was already bought), and with
    /// `InsufficientFunds` or `BalanceOverflow` if settlement cannot move
    /// the money. No error changes any state.
    pub fn buy_accessory(
        &mut self,
        collector: u64,
        avatar_metadata: &AssetMetadata,
        asset: u64,
        artist: u64,
    ) -> (r: Result<(), ShapelyError>)
        requires
            old(self).inv(),
        ensures
            final(self).inv(),
            (match buy_transition(old(self)@, collector, *avatar_metadata, asset, artist) {
                Ok(next) => r is Ok && final(self)@ == next,
                Err(e) => r == Err::<(), ShapelyError>(e) && final(self)@ == old(self)@,
            }),
            !spec_collection_membership(*avatar_metadata, old(self)@.config.avatar_collection)
                ==> r == Err::<(), ShapelyError>(ShapelyError::AvatarNotVerified) && final(self)@
                == old(self)@,
            r is Ok ==> {
                let price = old(self)@.listings[asset].listing.price;
                &&& final(self)@.treasury == old(self)@.treasury + fee_amount(
                    price,
                    old(self)@.config.fee,
                )
                &&& final(self)@.owners[asset] == Holder::Wallet(collector)
                &&& !final(self)@.listings.contains_key(asset)
            },
    {
        if !verify_collection_membership(avatar_metadata, self.config.avatar_collection) {
            return Err(ShapelyError::AvatarNotVerified);
        }
        let price = match self.listings.get(&asset) {
            Some(entry) => {
                if entry.artist != artist {
                    return Err(ShapelyError::ListingNotFound);
                }
                entry.listing.price
            },
            None => {
                return Err(ShapelyError::ListingNotFound);
            },
        };
        match self.process_payment(collector, artist, price) {
            Ok(()) => {},
            Err(e) => {
                return Err(e);
            },
        }
        self.withdraw_nft(asset, collector);
        self.close_vault(asset);
        Ok(())
    }

    /// Native currency held by the treasury.
    pub fn treasury_balance(&self) -> (r: u64)
        ensures
            r == self@.treasury,
    {
        self.treasury
    }

    /// Native-currency balance of `account`.
    pub fn balance_of(&self, account: u64) -> (r: u64)
        ensures
            r == map_balance(self@.balances, account),
    {
        match self.balances.get(&account) {
            Some(held) => *held,
            None => 0,
        }
    }

    /// The holder of `asset`'s single unit, or `None` if no such asset was
    /// minted.
    pub fn owner_of(&self, asset: u64) -> (r: Option<Holder>)
        ensures
            r == (if self@.owners.contains_key(asset) {
                Some(self@.owners[asset])
            } else {
                None::<Holder>
            }),
    {
        match self.owners.get(&asset) {
            Some(holder) => Some(*holder),
            None => None,
        }
    }

    /// The active listing for `asset`, together with the artist it was
    /// derived from, or `None` if the asset is not listed.
    pub fn get_listing(&self, asset: u64) -> (r: Option<ListingEntry>)
        ensures
            r == (if self@.listings.contains_key(asset) {
                Some(self@.listings[asset])
            } else {
                None::<ListingEntry>
            }),
    {
        match self.listings.get(&asset) {
            Some(entry) => Some(*entry),
            None => None,
        }
    }

    /// The instance's immutable configuration.
    pub fn config(&self) -> (r: Config)
        ensures
            r == self@.config,
    {
        self.config
    }

    /// Creates the listing record for the (asset, artist) pair.
    fn initialize_listing(&mut self, artist: u64, asset: u64, price: u64, bump: u8)
        ensures
            final(self)@ == (MarketModel {
                listings: old(self)@.listings.insert(
                    asset,
                    ListingEntry {
                        artist,
                        listing: Listing { bump, units: 1, price, accessory_mint: asset },
                    },
                ),
                ..old(self)@
            }),
    {
        self.listings.insert(
            asset,
            ListingEntry {
                artist,
                listing: Listing { bump, units: 1, price, accessory_mint: asset },
            },
        );
    }

    /// Moves the asset's unit from the artist's wallet into the escrow vault
    /// of the listing derived from the (asset, artist) pair.
    fn deposit_nft(&mut self, artist: u64, asset: u64)
        ensures
            final(self)@ == (MarketModel {
                owners: old(self)@.owners.insert(asset, Holder::Escrow { asset, artist }),
                ..old(self)@
            }),
    {
        self.owners.insert(asset, Holder::Escrow { asset, artist });
    }

    /// Moves the asset's unit out of the escrow vault into `recipient`'s
    /// wallet, under the authority recomputed from the listing's seed tuple.
    fn withdraw_nft(&mut self, asset: u64, recipient: u64)
        ensures
            final(self)@ == (MarketModel {
                owners: old(self)@.owners.insert(asset, Holder::Wallet(recipient)),
                ..old(self)@
            }),
    {
        self.owners.insert(asset, Holder::Wallet(recipient));
    }

    /// Destroys the emptied vault together with its listing record. The
    /// asset must already have been withdrawn.
    fn close_vault(&mut self, asset: u64)
        ensures
            final(self)@ == (MarketModel {
                listings: old(self)@.listings.remove(asset),
                ..old(self)@
            }),
    {
        self.listings.remove(&asset);
    }

    /// Settles the payment for a sale of `price`: collects the commission
    /// into the treasury, then pays the artist the remainder — atomically,
    /// and only if the collector can cover the whole price without any
    /// balance overflowing.
    fn process_payment(&mut self, collector: u64, artist: u64, price: u64) -> (r: Result<
        (),
        ShapelyError,
    >)
        requires
            old(self)@.config.fee <= BASIS_POINT_SCALE,
        ensures
            (match payment_transition(old(self)@, collector, artist, price) {
                Ok(next) => r is Ok && final(self)@ == next,
                Err(e) => r == Err::<(), ShapelyError>(e) && final(self)@ == old(self)@,
            }),
    {
        proof {
            lemma_fee_amount_bounds(price, self.config.fee);
        }
        let fee = compute_fee(price, self.config.fee);
        let payout = price - fee;
        let collector_held = self.balance_of(collector);
        if collector_held < price {
            return Err(ShapelyError::InsufficientFunds);
        }
        if fee > u64::MAX - self.treasury {
            return Err(ShapelyError::BalanceOverflow);
        }
        let collector_after = collector_held - price;
        let artist_held = if artist == collector {
            collector_after
        } else {
            self.balance_of(artist)
        };
        if payout > u64::MAX - artist_held {
            return Err(ShapelyError::BalanceOverflow);
        }
        self.balances.insert(collector, collector_after);
        self.treasury = self.treasury + fee;
        self.balances.insert(artist, artist_held + payout);
        Ok(())
    }
}

} // verus!
