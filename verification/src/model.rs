//! The registry as a mathematical value, and what each operation makes of it.
//!
//! The contracts of the operations are stated over these functions.

use vstd::prelude::*;
use crate::rules::{listing_verdict, owner_verdict, with_owner};
use crate::types::{Config, Error, Nft, NftRecord, Offer, OfferOf};

verus! {

/// The contents of a registry: the asset records and the offers, each by
/// asset id, and the id that the next new asset gets.
pub struct State<T: Config> {
    pub nfts: Map<u128, NftRecord<T>>,
    pub offers: Map<u128, OfferOf<T>>,
    pub next_id: u128,
}

impl<T: Config> State<T> {
    /// A registry in which nothing has happened yet.
    pub open spec fn empty() -> Self {
        State { nfts: Map::empty(), offers: Map::empty(), next_id: 0 }
    }

    /// Every id that is in use was handed out by the counter: it lies below
    /// the next id.
    pub open spec fn wf(self) -> bool {
        &&& forall|k: u128| #[trigger] self.nfts.contains_key(k) ==> k < self.next_id
        &&& forall|k: u128| #[trigger] self.offers.contains_key(k) ==> k < self.next_id
    }

    /// Whether the counter can still hand out an id.
    pub open spec fn can_create(self) -> bool {
        self.next_id < u128::MAX
    }

    /// What stands in the way of `who` changing the asset `id`: nothing,
    /// that there is no such asset, or that another account owns it.
    pub open spec fn owner_check(self, who: T::AccountId, id: u128) -> Result<(), Error> {
        owner_verdict::<T>(self.nfts.get(id), who)
    }

    /// What stands in the way of `who` listing the asset `id`: what stands
    /// in the way of changing it, or else that it has an offer already.
    pub open spec fn list_check(self, who: T::AccountId, id: u128) -> Result<(), Error> {
        listing_verdict::<T>(self.nfts.get(id), self.offers.contains_key(id), who)
    }

    /// The registry after a new asset of `who` was recorded under the next id.
    pub open spec fn create(
        self,
        who: T::AccountId,
        name: Seq<u8>,
        description: Seq<u8>,
        img_url: Seq<u8>,
    ) -> Self {
        State {
            nfts: self.nfts.insert(
                self.next_id,
                Nft { name, description, img_url, owner: who },
            ),
            offers: self.offers,
            next_id: (self.next_id + 1) as u128,
        }
    }

    /// The registry after `who` offered the asset `id` at the price `value`.
    pub open spec fn list(self, who: T::AccountId, id: u128, value: T::Balance) -> Self {
        State {
            nfts: self.nfts,
            offers: self.offers.insert(id, Offer { owner: who, price: value }),
            next_id: self.next_id,
        }
    }

    /// The registry after the asset `id` went to the account `to`: only the
    /// owner of that one record differs.
    pub open spec fn transfer(self, id: u128, to: T::AccountId) -> Self {
        State {
            nfts: self.nfts.insert(id, with_owner::<T>(self.nfts[id], to)),
            offers: self.offers,
            next_id: self.next_id,
        }
    }

    /// The registry after the asset `id` was burned: its record is gone, an
    /// offer for it stays.
    pub open spec fn burn(self, id: u128) -> Self {
        State { nfts: self.nfts.remove(id), offers: self.offers, next_id: self.next_id }
    }
}

/// Creating an asset keeps every id in use below the next id.
pub proof fn create_keeps_wf<T: Config>(
    s: State<T>,
    who: T::AccountId,
    name: Seq<u8>,
    description: Seq<u8>,
    img_url: Seq<u8>,
)
    requires
        s.wf(),
        s.can_create(),
    ensures
        s.create(who, name, description, img_url).wf(),
{
    let t = s.create(who, name, description, img_url);
    assert forall|k: u128| #[trigger] t.nfts.contains_key(k) implies k < t.next_id by {
        if k != s.next_id {
            assert(s.nfts.contains_key(k));
        }
    }
    assert forall|k: u128| #[trigger] t.offers.contains_key(k) implies k < t.next_id by {
        assert(s.offers.contains_key(k));
    }
}

/// Listing an asset that exists keeps every id in use below the next id.
pub proof fn list_keeps_wf<T: Config>(s: State<T>, who: T::AccountId, id: u128, value: T::Balance)
    requires
        s.wf(),
        s.nfts.contains_key(id),
    ensures
        s.list(who, id, value).wf(),
{
    let t = s.list(who, id, value);
    assert forall|k: u128| #[trigger] t.offers.contains_key(k) implies k < t.next_id by {
        if k != id {
            assert(s.offers.contains_key(k));
        }
    }
}

/// Handing over an asset that exists keeps every id in use below the next id.
pub proof fn transfer_keeps_wf<T: Config>(s: State<T>, id: u128, to: T::AccountId)
    requires
        s.wf(),
        s.nfts.contains_key(id),
    ensures
        s.transfer(id, to).wf(),
{
    let t = s.transfer(id, to);
    assert forall|k: u128| #[trigger] t.nfts.contains_key(k) implies k < t.next_id by {
        if k != id {
            assert(s.nfts.contains_key(k));
        }
    }
}

/// Burning an asset keeps every id in use below the next id.
pub proof fn burn_keeps_wf<T: Config>(s: State<T>, id: u128)
    requires
        s.wf(),
    ensures
        s.burn(id).wf(),
{
    let t = s.burn(id);
    assert forall|k: u128| #[trigger] t.nfts.contains_key(k) implies k < t.next_id by {
        assert(s.nfts.contains_key(k));
    }
}

} // verus!
