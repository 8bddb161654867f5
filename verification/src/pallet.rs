//! The registry and its four operations.

use vstd::prelude::*;
use crate::account::eq_is_exact;
use crate::model::State;
use crate::store::{AssetStore, OfferStore};
use crate::rules::{plan_burn, plan_create, plan_list, plan_transfer};
use crate::trace::{run, run_after_push, Call};
use crate::types::{Config, Error, Event, NftOf, OfferOf};

verus! {

/// The registry: the asset store and the offer store. Only the four
/// operations write to them. It remembers, for the proofs alone, every call
/// that was made on it.
pub struct Pallet<T: Config> {
    nfts: AssetStore<T>,
    marketplace: OfferStore<T>,
    history: Ghost<Seq<Call<T>>>,
}

impl<T: Config> View for Pallet<T> {
    type V = State<T>;

    closed spec fn view(&self) -> State<T> {
        State {
            nfts: self.nfts.records(),
            offers: self.marketplace.offers(),
            next_id: self.nfts.spec_next_id(),
        }
    }
}

impl<T: Config> Pallet<T> {
    /// The counter as it is kept: absent until the first asset was created.
    pub closed spec fn counter(&self) -> Option<u128> {
        self.nfts.counter()
    }

    /// The calls that were made on the registry since it was new, in order,
    /// the refused ones too.
    pub closed spec fn history(&self) -> Seq<Call<T>> {
        self.history@
    }

    /// The registry's invariant: its contents are what its history leads
    /// to, and the counter is present exactly when an id was handed out.
    pub open spec fn wf(&self) -> bool {
        &&& self@ == run(self.history())
        &&& self.counter() == if self@.next_id == 0 {
            None
        } else {
            Some(self@.next_id)
        }
    }

    /// A registry in which nothing has happened yet.
    pub fn new() -> (p: Self)
        ensures
            p@ == State::<T>::empty(),
            p.history() == Seq::<Call<T>>::empty(),
            p.wf(),
    {
        Pallet {
            nfts: AssetStore::new(),
            marketplace: OfferStore::new(),
            history: Ghost(Seq::empty()),
        }
    }

    /// The record of the asset `id`, if it exists.
    pub fn nfts(&self, id: u128) -> (r: Option<&NftOf<T>>)
        ensures
            r is Some == self@.nfts.contains_key(id),
            r is Some ==> r->0@ == self@.nfts[id],
    {
        self.nfts.get(id)
    }

    /// The offer for the asset `id`, if it has one.
    pub fn marketplace(&self, id: u128) -> (r: Option<OfferOf<T>>)
        ensures
            r == if self@.offers.contains_key(id) {
                Some(self@.offers[id])
            } else {
                None
            },
    {
        self.marketplace.get(id)
    }

    /// The counter as it is kept: nothing before the first asset was
    /// created, then the id that the next new asset gets.
    pub fn nft_id(&self) -> (r: Option<u128>)
        requires
            self.wf(),
        ensures
            r == if self@.next_id == 0 {
                None
            } else {
                Some(self@.next_id)
            },
    {
        self.nfts.raw_counter()
    }

    /// The id that the next new asset gets.
    pub fn next_id(&self) -> (r: u128)
        ensures
            r == self@.next_id,
    {
        self.nfts.next_id()
    }

    /// Records a new asset that `who` owns, under the next id, and moves the
    /// counter on by one. Announces the asset with its id.
    ///
    /// The counter must not have reached the last id.
    pub fn create_nft(
        &mut self,
        who: T::AccountId,
        name: Vec<u8>,
        description: Vec<u8>,
        img_url: Vec<u8>,
    ) -> (r: Result<Event<T>, Error>)
        requires
            old(self).wf(),
            old(self)@.can_create(),
        ensures
            final(self).wf(),
            final(self)@ == old(self)@.create(who, name@, description@, img_url@),
            final(self).history() == old(self).history().push(
                Call::Create { who, name: name@, description: description@, img_url: img_url@ },
            ),
            r matches Ok(Event::NewNftMinted { id, name: n, description: d, img_url: u, owner })
                && id == old(self)@.next_id && n@ == name@ && d@ == description@ && u@
                == img_url@ && owner == who,
    {
        let ghost call = Call::<T>::Create {
            who,
            name: name@,
            description: description@,
            img_url: img_url@,
        };
        let minted = plan_create::<T>(self.nfts.raw_counter(), who, name, description, img_url);
        self.nfts.put(minted.id, minted.record);
        self.nfts.advance_id();
        self.history = Ghost(self.history@.push(call));
        proof {
            run_after_push(old(self).history(), call);
        }
        Ok(minted.event)
    }

    /// Offers the asset `nft_id` for sale at the price `value`.
    ///
    /// Refused, with the registry left as it was, if there is no such asset,
    /// else if `who` does not own it, else if it has an offer already.
    pub fn list_nft(&mut self, who: T::AccountId, nft_id: u128, value: T::Balance) -> (r: Result<
        Event<T>,
        Error,
    >)
        requires
            eq_is_exact::<T::AccountId>(),
            old(self).wf(),
        ensures
            final(self).wf(),
            match old(self)@.list_check(who, nft_id) {
                Ok(()) => r == Ok::<Event<T>, Error>(
                    Event::ListNft { id: nft_id, owner: who, value },
                ) && final(self)@ == old(self)@.list(who, nft_id, value),
                Err(e) => r == Err::<Event<T>, Error>(e) && final(self)@ == old(self)@,
            },
            final(self).history() == old(self).history().push(
                Call::List { who, id: nft_id, value },
            ),
    {
        let ghost call = Call::<T>::List { who, id: nft_id, value };
        self.history = Ghost(self.history@.push(call));
        proof {
            run_after_push(old(self).history(), call);
        }
        let listed = self.marketplace.contains(nft_id);
        match plan_list::<T>(self.nfts.get(nft_id), listed, who, nft_id, value) {
            Err(e) => Err(e),
            Ok((offer, event)) => {
                self.marketplace.put(nft_id, offer);
                Ok(event)
            },
        }
    }

    /// Hands the asset `nft_id` to the account `to`. Only the owner in its
    /// record changes; an offer for it stays as it is.
    ///
    /// Refused, with the registry left as it was, if there is no such asset,
    /// else if `who` does not own it.
    pub fn transfer_nft(&mut self, who: T::AccountId, nft_id: u128, to: T::AccountId) -> (r:
        Result<Event<T>, Error>)
        requires
            eq_is_exact::<T::AccountId>(),
            old(self).wf(),
        ensures
            final(self).wf(),
            match old(self)@.owner_check(who, nft_id) {
                Ok(()) => r == Ok::<Event<T>, Error>(
                    Event::Transfer { id: nft_id, from: who, to },
                ) && final(self)@ == old(self)@.transfer(nft_id, to),
                Err(e) => r == Err::<Event<T>, Error>(e) && final(self)@ == old(self)@,
            },
            final(self).history() == old(self).history().push(
                Call::Transfer { who, id: nft_id, to },
            ),
    {
        let ghost call = Call::<T>::Transfer { who, id: nft_id, to };
        self.history = Ghost(self.history@.push(call));
        proof {
            run_after_push(old(self).history(), call);
        }
        match plan_transfer::<T>(self.nfts.get(nft_id), who, nft_id, to) {
            Err(e) => Err(e),
            Ok((record, event)) => {
                self.nfts.put(nft_id, record);
                Ok(event)
            },
        }
    }

    /// Burns the asset `id`: its record leaves the registry, and its id is
    /// not given out again. An offer for it stays as it is.
    ///
    /// Refused, with the registry left as it was, if there is no such asset,
    /// else if `who` does not own it.
    pub fn burn_nft(&mut self, who: T::AccountId, id: u128) -> (r: Result<Event<T>, Error>)
        requires
            eq_is_exact::<T::AccountId>(),
            old(self).wf(),
        ensures
            final(self).wf(),
            match old(self)@.owner_check(who, id) {
                Ok(()) => r == Ok::<Event<T>, Error>(Event::Burned { owner: who, id })
                    && final(self)@ == old(self)@.burn(id),
                Err(e) => r == Err::<Event<T>, Error>(e) && final(self)@ == old(self)@,
            },
            final(self).history() == old(self).history().push(Call::Burn { who, id }),
    {
        let ghost call = Call::<T>::Burn { who, id };
        self.history = Ghost(self.history@.push(call));
        proof {
            run_after_push(old(self).history(), call);
        }
        match plan_burn::<T>(self.nfts.get(id), who, id) {
            Err(e) => Err(e),
            Ok(event) => {
                self.nfts.remove(id);
                Ok(event)
            },
        }
    }
}

} // verus!
