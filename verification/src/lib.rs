//! Rarity classification for individual units of a fixed-supply currency.
//!
//! Every unit of the currency occupies one position in a deterministic
//! emission schedule: block rewards halve at fixed era boundaries, and
//! mining difficulty is recalculated at fixed period boundaries. This
//! crate assigns each unit one of ten scarcity tiers from its position
//! alone, and provides the canonical textual and (partial) numeric
//! encodings of those tiers.

pub mod derivation;
pub mod rarity;

pub use derivation::Coordinate;
pub use derivation::derive_rarity;
pub use rarity::InvalidRarity;
pub use rarity::Rarity;
