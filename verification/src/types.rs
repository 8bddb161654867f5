//! The records that the registry keeps, the events that its operations
//! announce and the reasons for which they fail.

use vstd::prelude::*;

verus! {

/// What the host supplies: the type of an account and the type of an amount.
///
/// Accounts are only ever compared and copied; amounts are only ever stored.
/// A host whose accounts are costly to copy hands them over by reference.
pub trait Config {
    type AccountId: Copy + PartialEq;

    type Balance: Copy;
}

/// One asset: three byte strings that describe it, and the account that owns it.
#[derive(Clone, Debug, PartialEq, Eq)]
pub struct Nft<AccountId, Body> {
    pub name: Body,
    pub description: Body,
    pub img_url: Body,
    pub owner: AccountId,
}

/// A sale offer: the account that listed the asset, and the price it asks.
#[derive(Clone, Copy, Debug, PartialEq, Eq)]
pub struct Offer<AccountId, Value> {
    pub owner: AccountId,
    pub price: Value,
}

/// The asset record that the registry stores.
pub type NftOf<T> = Nft<<T as Config>::AccountId, Vec<u8>>;

/// The offer record that the registry stores.
pub type OfferOf<T> = Offer<<T as Config>::AccountId, <T as Config>::Balance>;

/// An asset record as a mathematical value: its byte strings as sequences.
pub type NftRecord<T> = Nft<<T as Config>::AccountId, Seq<u8>>;

impl<AccountId> View for Nft<AccountId, Vec<u8>> {
    type V = Nft<AccountId, Seq<u8>>;

    open spec fn view(&self) -> Nft<AccountId, Seq<u8>> {
        Nft {
            name: self.name@,
            description: self.description@,
            img_url: self.img_url@,
            owner: self.owner,
        }
    }
}

/// What a successful operation announces.
#[derive(Clone, Debug, PartialEq, Eq)]
pub enum Event<T: Config> {
    NewNftMinted {
        id: u128,
        name: Vec<u8>,
        description: Vec<u8>,
        img_url: Vec<u8>,
        owner: T::AccountId,
    },
    ListNft { id: u128, owner: T::AccountId, value: T::Balance },
    Transfer { id: u128, from: T::AccountId, to: T::AccountId },
    Burned { owner: T::AccountId, id: u128 },
}

/// Why an operation was refused.
#[derive(Clone, Copy, Debug, PartialEq, Eq)]
pub enum Error {
    /// The caller is not the account that owns the asset.
    NotTheOwner,
    /// Reserved for hosts that settle sales: no operation gives it.
    BalanceToLow,
    /// No asset is recorded under the id.
    NftNotExist,
    /// The asset already has an offer.
    AlreadyListedForSale,
    /// Reserved for hosts that settle sales: no operation gives it.
    NftNotForSale,
    /// Reserved for hosts that settle sales: no operation gives it.
    NftOwnerSoldNft,
}

/// A copy of a byte string.
pub fn copy_bytes(v: &Vec<u8>) -> (r: Vec<u8>)
    ensures
        r@ == v@,
{
    let r = v.clone();
    assert(r@ =~= v@);
    r
}

} // verus!
