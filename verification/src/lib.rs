//! A verified record store for per-user favorites.
//!
//! Every caller owns exactly one record, kept at an address derived from the
//! tag `"favorites"` and the caller's key. A call to [`set_favorites`] either
//! replaces that record in full or is rejected and changes nothing.

pub mod address;
pub mod laws;
pub mod ledger;
pub mod program;
pub mod record;

pub use crate::address::{favorites_address, Address, PROGRAM_ID};
pub use crate::ledger::Ledger;
pub use crate::program::{
    favorites_of, set_favorites, set_favorites_at, Caller, FavoritesError, SetFavorites,
};
pub use crate::record::{Favorites, ACCOUNT_SPACE, ANCHOR_DISCRIMINATOR_SIZE, INIT_SPACE};
