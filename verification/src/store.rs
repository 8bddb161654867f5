//! The two stores of the registry: asset records with the id counter, and
//! sale offers. A store keeps what it is given; the operations of the
//! registry decide what may be written.

use std::collections::HashMap;
use vstd::prelude::*;
use crate::rules::id_after;
use crate::types::{Config, NftOf, NftRecord, OfferOf};

verus! {

/// The asset records by id, and the counter that numbers new assets.
pub struct AssetStore<T: Config> {
    records: HashMap<u128, NftOf<T>>,
    counter: Option<u128>,
}

impl<T: Config> AssetStore<T> {
    /// The records, each as a mathematical value.
    pub closed spec fn records(&self) -> Map<u128, NftRecord<T>> {
        Map::new(|k: u128| self.records@.contains_key(k), |k: u128| self.records@[k]@)
    }

    /// The counter as it is kept: absent until the first asset was created.
    pub closed spec fn counter(&self) -> Option<u128> {
        self.counter
    }

    /// The id that the next new asset gets: 0 while the counter is absent.
    pub open spec fn spec_next_id(&self) -> u128 {
        id_after(self.counter())
    }

    /// An empty store whose counter is absent.
    pub fn new() -> (s: Self)
        ensures
            s.records() == Map::<u128, NftRecord<T>>::empty(),
            s.counter() == None::<u128>,
    {
        let s = AssetStore { records: HashMap::new(), counter: None };
        assert(s.records() =~= Map::<u128, NftRecord<T>>::empty());
        s
    }

    /// The record under `id`, if there is one.
    pub fn get(&self, id: u128) -> (r: Option<&NftOf<T>>)
        ensures
            r is Some == self.records().contains_key(id),
            r is Some ==> r->0@ == self.records()[id],
    {
        self.records.get(&id)
    }

    /// Puts `record` under `id`, in place of what was there.
    pub fn put(&mut self, id: u128, record: NftOf<T>)
        ensures
            final(self).records() == old(self).records().insert(id, record@),
            final(self).counter() == old(self).counter(),
    {
        self.records.insert(id, record);
        assert(self.records() =~= old(self).records().insert(id, record@));
    }

    /// Takes the record under `id` out of the store and hands it back; a
    /// store without one stays as it is.
    pub fn remove(&mut self, id: u128) -> (r: Option<NftOf<T>>)
        ensures
            final(self).records() == old(self).records().remove(id),
            final(self).counter() == old(self).counter(),
            r is Some == old(self).records().contains_key(id),
            r is Some ==> r->0@ == old(self).records()[id],
    {
        let r = self.records.remove(&id);
        assert(self.records() =~= old(self).records().remove(id));
        r
    }

    /// The id that the next new asset gets.
    #[verifier::when_used_as_spec(spec_next_id)]
    pub fn next_id(&self) -> (r: u128)
        ensures
            r == self.spec_next_id(),
    {
        match self.counter {
            Some(n) => n,
            None => 0,
        }
    }

    /// The counter as it is kept.
    pub fn raw_counter(&self) -> (r: Option<u128>)
        ensures
            r == self.counter(),
    {
        self.counter
    }

    /// Moves the counter on by one.
    pub fn advance_id(&mut self)
        requires
            old(self).spec_next_id() < u128::MAX,
        ensures
            final(self).counter() == Some((old(self).spec_next_id() + 1) as u128),
            final(self).records() == old(self).records(),
    {
        let current: u128 = self.next_id();
        self.counter = Some(current + 1);
    }
}

/// The sale offers by asset id. Nothing takes an offer out again.
pub struct OfferStore<T: Config> {
    offers: HashMap<u128, OfferOf<T>>,
}

impl<T: Config> OfferStore<T> {
    /// The offers by asset id.
    pub closed spec fn offers(&self) -> Map<u128, OfferOf<T>> {
        self.offers@
    }

    /// A store without offers.
    pub fn new() -> (s: Self)
        ensures
            s.offers() == Map::<u128, OfferOf<T>>::empty(),
    {
        OfferStore { offers: HashMap::new() }
    }

    /// The offer for the asset `id`, if there is one.
    pub fn get(&self, id: u128) -> (r: Option<OfferOf<T>>)
        ensures
            r is Some == self.offers().contains_key(id),
            r is Some ==> r->0 == self.offers()[id],
    {
        match self.offers.get(&id) {
            Some(o) => Some(*o),
            None => None,
        }
    }

    /// Whether the asset `id` has an offer.
    pub fn contains(&self, id: u128) -> (r: bool)
        ensures
            r == self.offers().contains_key(id),
    {
        self.offers.contains_key(&id)
    }

    /// Puts `offer` under `id`, in place of what was there.
    pub fn put(&mut self, id: u128, offer: OfferOf<T>)
        ensures
            final(self).offers() == old(self).offers().insert(id, offer),
    {
        self.offers.insert(id, offer);
    }
}

} // verus!
