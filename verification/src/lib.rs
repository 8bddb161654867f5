//! An ownership registry for uniquely numbered digital assets.
//!
//! The registry keeps one record per asset, an optional sale offer per asset
//! and the counter that numbers new assets. Four operations change it: an
//! asset is created, listed for sale, handed to another account, or burned.
//! Only the account that owns an asset may list, hand over or burn it.

pub mod account;
pub mod laws;
pub mod model;
pub mod pallet;
pub mod rules;
pub mod store;
pub mod trace;
pub mod types;

pub use account::{eq_is_exact, same_account};
pub use model::State;
pub use pallet::Pallet;
pub use rules::{check_owner, plan_burn, plan_create, plan_list, plan_transfer, Minted};
pub use store::{AssetStore, OfferStore};
pub use types::{copy_bytes, Config, Error, Event, Nft, NftOf, NftRecord, Offer, OfferOf};
