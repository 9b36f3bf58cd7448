//! A registry of kitties: uniquely identified records, each owned by one
//! account, with a per-owner index of bounded length and identifiers derived
//! from a nonce and an injected source of randomness.

pub mod types;
pub mod nonce;
pub mod owned;
pub mod pallet;
pub mod laws;

pub use types::{AccountId, Config, Error, Event, Gender, Dna, Kitty, KittyState, Moment};
pub use pallet::Pallet;
