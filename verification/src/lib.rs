//! A verified escrow engine for a peer-to-peer marketplace of unique
//! single-unit digital assets ("accessories").
//!
//! An artist lists an asset at a price; the asset is custodied in an escrow
//! vault tied to the listing while it is on sale. The artist may delist it,
//! or a collector — gated on membership in a companion "avatar" collection —
//! may buy it, in which case the sale price is split between a flat
//! marketplace commission (paid to the treasury) and the artist's payout,
//! and the asset moves to the collector. Listing, delisting and buying are
//! atomic: an operation that fails leaves the marketplace exactly as it was.

pub mod error;
pub mod fees;
pub mod laws;
pub mod market;
pub mod state;
