//! The error taxonomy of the escrow engine.
//!
//! Every operation checks all of its preconditions before it mutates any
//! state, so an error is always terminal for the triggering operation and
//! never leaves a partial state change behind.

use vstd::prelude::*;

verus! {

/// The errors an escrow-engine operation can report.
///
/// They fall into four classes:
/// - verification failures (`InvalidCollectionMint`, `AccessoryNotVerified`,
///   `AvatarNotVerified`): an asset's claimed collection membership could not
///   be confirmed;
/// - authorization failures (`UnauthorizedArtist`): the caller's identity
///   does not match the identity the listing was derived from;
/// - resource-state failures (`ListingNotFound`, `ListingAlreadyExists`,
///   `AssetNotHeld`, `AssetAlreadyMinted`): the operation targets a listing
///   or holding that does not exist or is in the wrong state;
/// - payment failures (`InsufficientFunds`, `BalanceOverflow`): settlement
///   cannot move the required amount of native currency.
#[derive(Clone, Copy, Debug, PartialEq, Eq, Structural)]
pub enum ShapelyError {
    /// The collection presented to the operation is not the collection
    /// recorded in the marketplace configuration.
    InvalidCollectionMint,
    /// The listed asset's membership in the accessory collection is not
    /// verified, or is verified against a different collection.
    AccessoryNotVerified,
    /// The collector's membership in the avatar collection is not verified,
    /// or is verified against a different collection.
    AvatarNotVerified,
    /// The caller of a delist is not the artist the listing belongs to.
    UnauthorizedArtist,
    /// No active listing exists for the given (asset, artist) pair.
    ListingNotFound,
    /// An active listing already exists for the given (asset, artist) pair.
    ListingAlreadyExists,
    /// The artist does not currently hold the single unit of the asset.
    AssetNotHeld,
    /// An asset with this identifier has already been minted.
    AssetAlreadyMinted,
    /// The collector's native-currency balance does not cover the price.
    InsufficientFunds,
    /// A credit would push a native-currency balance past its maximum.
    BalanceOverflow,
}

} // verus!
