//! The decisions of the four operations, from what the stores hold to what
//! is to be written and announced. They touch no store: whoever keeps the
//! records reads them, asks here, and writes what comes back.

use vstd::prelude::*;
use crate::account::{eq_is_exact, same_account};
use crate::types::{copy_bytes, Config, Error, Event, Nft, NftOf, NftRecord, Offer, OfferOf};

verus! {

/// The record behind an optional reference, as a mathematical value.
pub open spec fn record_of<T: Config>(record: Option<&NftOf<T>>) -> Option<NftRecord<T>> {
    match record {
        Some(nft) => Some(nft@),
        None => None,
    }
}

/// The id that the next new asset gets: the counter, or 0 while it is absent.
pub open spec fn id_after(counter: Option<u128>) -> u128 {
    match counter {
        Some(n) => n,
        None => 0,
    }
}

/// What stands in the way of `who` changing an asset with this record:
/// nothing, that there is no record, or that another account owns it.
pub open spec fn owner_verdict<T: Config>(
    record: Option<NftRecord<T>>,
    who: T::AccountId,
) -> Result<(), Error> {
    match record {
        None => Err(Error::NftNotExist),
        Some(nft) => if nft.owner == who {
            Ok(())
        } else {
            Err(Error::NotTheOwner)
        },
    }
}

/// What stands in the way of `who` listing an asset with this record: what
/// stands in the way of changing it, or else that it has an offer already.
pub open spec fn listing_verdict<T: Config>(
    record: Option<NftRecord<T>>,
    listed: bool,
    who: T::AccountId,
) -> Result<(), Error> {
    match owner_verdict::<T>(record, who) {
        Err(e) => Err(e),
        Ok(()) => if listed {
            Err(Error::AlreadyListedForSale)
        } else {
            Ok(())
        },
    }
}

/// The record `nft` with `to` as its owner and nothing else changed.
pub open spec fn with_owner<T: Config>(nft: NftRecord<T>, to: T::AccountId) -> NftRecord<T> {
    Nft { name: nft.name, description: nft.description, img_url: nft.img_url, owner: to }
}

/// What a creation writes and announces.
pub struct Minted<T: Config> {
    /// The id of the new asset.
    pub id: u128,
    /// The record to store under that id.
    pub record: NftOf<T>,
    /// The value to store as the counter.
    pub counter: u128,
    /// The announcement.
    pub event: Event<T>,
}

/// Decides whether `who` may change the asset whose record is `record`.
pub fn check_owner<T: Config>(record: Option<&NftOf<T>>, who: T::AccountId) -> (r: Result<
    (),
    Error,
>)
    requires
        eq_is_exact::<T::AccountId>(),
    ensures
        r == owner_verdict::<T>(record_of::<T>(record), who),
{
    match record {
        None => Err(Error::NftNotExist),
        Some(nft) => if same_account(who, nft.owner) {
            Ok(())
        } else {
            Err(Error::NotTheOwner)
        },
    }
}

/// Plans a creation: the new asset gets the id that the counter holds, 0
/// if the counter is absent; its record names `who` as the owner; the
/// counter becomes that id and one.
///
/// The counter must not have reached the last id.
pub fn plan_create<T: Config>(
    counter: Option<u128>,
    who: T::AccountId,
    name: Vec<u8>,
    description: Vec<u8>,
    img_url: Vec<u8>,
) -> (r: Minted<T>)
    requires
        id_after(counter) < u128::MAX,
    ensures
        r.id == id_after(counter),
        r.counter == r.id + 1,
        r.record@ == (Nft { name: name@, description: description@, img_url: img_url@, owner: who }),
        r.event matches Event::NewNftMinted { id, name: n, description: d, img_url: u, owner }
            && id == r.id && n@ == name@ && d@ == description@ && u@ == img_url@ && owner == who,
{
    let id: u128 = match counter {
        Some(n) => n,
        None => 0,
    };
    let event = Event::NewNftMinted {
        id,
        name: copy_bytes(&name),
        description: copy_bytes(&description),
        img_url: copy_bytes(&img_url),
        owner: who,
    };
    Minted { id, record: Nft { name, description, img_url, owner: who }, counter: id + 1, event }
}

/// Plans a listing of the asset `id`, whose record is `record` and which
/// has an offer already if `listed`: the offer to store, and the
/// announcement.
///
/// Refused if there is no record, else if `who` does not own the asset,
/// else if it is listed.
pub fn plan_list<T: Config>(
    record: Option<&NftOf<T>>,
    listed: bool,
    who: T::AccountId,
    id: u128,
    value: T::Balance,
) -> (r: Result<(OfferOf<T>, Event<T>), Error>)
    requires
        eq_is_exact::<T::AccountId>(),
    ensures
        match listing_verdict::<T>(record_of::<T>(record), listed, who) {
            Ok(()) => r == Ok::<(OfferOf<T>, Event<T>), Error>(
                (Offer { owner: who, price: value }, Event::ListNft { id, owner: who, value }),
            ),
            Err(e) => r == Err::<(OfferOf<T>, Event<T>), Error>(e),
        },
{
    match check_owner::<T>(record, who) {
        Err(e) => Err(e),
        Ok(()) => if listed {
            Err(Error::AlreadyListedForSale)
        } else {
            Ok((Offer { owner: who, price: value }, Event::ListNft { id, owner: who, value }))
        },
    }
}

/// Plans a handover of the asset `id`, whose record is `record`, to the
/// account `to`: the record to store in its place, which differs in the
/// owner only, and the announcement.
///
/// Refused if there is no record, else if `who` does not own the asset.
pub fn plan_transfer<T: Config>(
    record: Option<&NftOf<T>>,
    who: T::AccountId,
    id: u128,
    to: T::AccountId,
) -> (r: Result<(NftOf<T>, Event<T>), Error>)
    requires
        eq_is_exact::<T::AccountId>(),
    ensures
        match owner_verdict::<T>(record_of::<T>(record), who) {
            Ok(()) => r matches Ok((nft, event)) && nft@ == with_owner::<T>(
                record_of::<T>(record)->0,
                to,
            ) && event == (Event::<T>::Transfer { id, from: who, to }),
            Err(e) => r == Err::<(NftOf<T>, Event<T>), Error>(e),
        },
{
    match record {
        None => Err(Error::NftNotExist),
        Some(nft) => if same_account(who, nft.owner) {
            Ok(
                (
                    Nft {
                        name: copy_bytes(&nft.name),
                        description: copy_bytes(&nft.description),
                        img_url: copy_bytes(&nft.img_url),
                        owner: to,
                    },
                    Event::Transfer { id, from: who, to },
                ),
            )
        } else {
            Err(Error::NotTheOwner)
        },
    }
}

/// Plans a burn of the asset `id`, whose record is `record`: the
/// announcement; the record is to be deleted.
///
/// Refused if there is no record, else if `who` does not own the asset.
pub fn plan_burn<T: Config>(record: Option<&NftOf<T>>, who: T::AccountId, id: u128) -> (r: Result<
    Event<T>,
    Error,
>)
    requires
        eq_is_exact::<T::AccountId>(),
    ensures
        match owner_verdict::<T>(record_of::<T>(record), who) {
            Ok(()) => r == Ok::<Event<T>, Error>(Event::Burned { owner: who, id }),
            Err(e) => r == Err::<Event<T>, Error>(e),
        },
{
    match check_owner::<T>(record, who) {
        Err(e) => Err(e),
        Ok(()) => Ok(Event::Burned { owner: who, id }),
    }
}

} // verus!
