//! The records the escrow engine persists and the plain values it reads.
//!
//! Accounts, mints and wallets are identified by `u64` identifiers. The
//! authority over an escrow vault is not an identifier with a secret behind
//! it but a capability derived from the listing's own seed tuple: the
//! `Holder::Escrow` variant carries that tuple, and authority is proven by
//! recomputing and comparing it, never by a key.

use vstd::prelude::*;

verus! {

/// The immutable-after-creation configuration of one marketplace instance.
///
/// Exactly one configuration exists per `seed`; the bump fields record the
/// derivation of the configuration's, the treasury's and the two collection
/// mints' deterministic addresses.
#[derive(Clone, Copy, Debug, PartialEq, Eq, Structural)]
pub struct Config {
    pub bump: u8,
    pub treasury_bump: u8,
    pub avatar_collection_bump: u8,
    pub accessory_collection_bump: u8,
    /// Identifier of the avatar collection that gates purchases.
    pub avatar_collection: u64,
    /// Identifier of the accessory collection that listed assets belong to.
    pub accessory_collection: u64,
    /// Accessory sales commission in basis points (1000 = 10%).
    pub fee: u16,
    /// Seed distinguishing independent marketplace instances.
    pub seed: u64,
}

/// A marketplace record pairing a priced asset with the artist offering it.
///
/// Created by `list_accessory`, destroyed by `delist_accessory` or
/// `buy_accessory`; the price cannot be changed while listed.
#[derive(Clone, Copy, Debug, PartialEq, Eq, Structural)]
pub struct Listing {
    /// Bump of the listing's deterministically derived address.
    pub bump: u8,
    /// Unit count; every asset is a unique token, so this is always 1.
    pub units: u16,
    /// Sale price in the smallest native-currency unit; always positive.
    pub price: u64,
    /// Identifier of the listed asset.
    pub accessory_mint: u64,
}

/// An active listing together with the artist it was derived from.
///
/// The marketplace keys its listings by asset identifier; the pair
/// (accessory mint, artist) is the seed tuple the listing's address — and
/// with it the vault's authority — is derived from.
#[derive(Clone, Copy, Debug, PartialEq, Eq, Structural)]
pub struct ListingEntry {
    /// The artist who created the listing.
    pub artist: u64,
    /// The listing record itself.
    pub listing: Listing,
}

/// Who holds the single unit of an asset.
#[derive(Clone, Copy, Debug, PartialEq, Eq, Structural)]
pub enum Holder {
    /// The unit sits in an ordinary wallet.
    Wallet(u64),
    /// The unit sits in the escrow vault of the listing derived from
    /// (`asset`, `artist`). No wallet can sign for this holder: authority is
    /// proven only by recomputing the same seed tuple.
    Escrow { asset: u64, artist: u64 },
}

/// What the engine reads from an asset's metadata: the collection the asset
/// claims to belong to, and whether that membership has been
/// cryptographically verified by the asset registry.
#[derive(Clone, Copy, Debug, PartialEq, Eq, Structural)]
pub struct AssetMetadata {
    /// Identifier of the collection the asset claims membership in.
    pub collection: u64,
    /// True once the registry has verified the membership.
    pub verified: bool,
}

/// The membership check consumed from the asset registry: an asset's
/// metadata confirms membership in `expected_collection` exactly when the
/// metadata is verified and names that collection.
pub open spec fn spec_collection_membership(
    metadata: AssetMetadata,
    expected_collection: u64,
) -> bool {
    metadata.verified && metadata.collection == expected_collection
}

/// Decides whether `metadata` proves verified membership in
/// `expected_collection`.
pub fn verify_collection_membership(metadata: &AssetMetadata, expected_collection: u64) -> (r:
    bool)
    ensures
        r == spec_collection_membership(*metadata, expected_collection),
{
    metadata.verified && metadata.collection == expected_collection
}

} // verus!
