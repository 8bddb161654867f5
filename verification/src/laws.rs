//! What holds of the registry whatever is done with it.

use vstd::prelude::*;
use crate::model::{burn_keeps_wf, create_keeps_wf, list_keeps_wf, transfer_keeps_wf, State};
use crate::pallet::Pallet;
use crate::trace::{accepts, burned_at, created, minted_and_kept, minted_at, run, step, Call};
use crate::types::{Config, Error};

verus! {

/// A history without its last call agrees with the history on every earlier
/// position: the same calls, made in the same states.
proof fn earlier_positions_agree<T: Config>(calls: Seq<Call<T>>, i: int)
    requires
        0 <= i < calls.len(),
    ensures
        calls.take(i) == calls.drop_last().take(i),
        calls.take(calls.len() - 1) == calls.drop_last(),
        i < calls.len() - 1 ==> calls[i] == calls.drop_last()[i],
{
    assert(calls.take(i) =~= calls.drop_last().take(i));
    assert(calls.take(calls.len() - 1) =~= calls.drop_last());
}

/// After any history every id in use lies below the next id.
pub proof fn law_ids_in_use_were_handed_out<T: Config>(calls: Seq<Call<T>>)
    ensures
        run(calls).wf(),
    decreases calls.len(),
{
    if calls.len() > 0 {
        let s = run(calls.drop_last());
        law_ids_in_use_were_handed_out(calls.drop_last());
        if accepts(s, calls.last()) {
            match calls.last() {
                Call::Create { who, name, description, img_url } => {
                    create_keeps_wf(s, who, name, description, img_url);
                },
                Call::List { who, id, value } => {
                    list_keeps_wf(s, who, id, value);
                },
                Call::Transfer { id, to, .. } => {
                    transfer_keeps_wf(s, id, to);
                },
                Call::Burn { id, .. } => {
                    burn_keeps_wf(s, id);
                },
            }
        }
    }
}

/// After any history a record exists under the id `k` exactly if some call
/// created `k` and no later call burned it.
pub proof fn law_record_iff_minted_and_not_burned<T: Config>(calls: Seq<Call<T>>, k: u128)
    ensures
        run(calls).nfts.contains_key(k) <==> minted_and_kept(calls, k),
    decreases calls.len(),
{
    if calls.len() == 0 {
        assert forall|i: int| !#[trigger] minted_at(calls, i, k) by {}
    } else {
        let n = calls.len() - 1;
        let prev = calls.drop_last();
        let s = run(prev);
        let c = calls.last();
        let t = run(calls);
        law_record_iff_minted_and_not_burned(prev, k);
        earlier_positions_agree(calls, n);
        assert forall|i: int| 0 <= i < n implies (#[trigger] minted_at(calls, i, k) == minted_at(
            prev,
            i,
            k,
        )) by {
            earlier_positions_agree(calls, i);
        }
        assert forall|j: int| 0 <= j < n implies (#[trigger] burned_at(calls, j, k) == burned_at(
            prev,
            j,
            k,
        )) by {
            earlier_positions_agree(calls, j);
        }
        if t.nfts.contains_key(k) {
            if minted_at(calls, n, k) {
                assert(minted_and_kept(calls, k));
            } else {
                let i0 = choose|i: int|
                    {
                        &&& #[trigger] minted_at(prev, i, k)
                        &&& forall|j: int| i < j < prev.len() ==> !#[trigger] burned_at(prev, j, k)
                    };
                assert(minted_at(calls, i0, k));
                assert forall|j: int| i0 < j < calls.len() implies !#[trigger] burned_at(
                    calls,
                    j,
                    k,
                ) by {
                    if j < n {
                        assert(!burned_at(prev, j, k));
                    }
                }
                assert(minted_and_kept(calls, k));
            }
        }
        if minted_and_kept(calls, k) {
            let i0 = choose|i: int|
                {
                    &&& #[trigger] minted_at(calls, i, k)
                    &&& forall|j: int| i < j < calls.len() ==> !#[trigger] burned_at(calls, j, k)
                };
            if i0 != n {
                assert(minted_at(prev, i0, k));
                assert forall|j: int| i0 < j < prev.len() implies !#[trigger] burned_at(
                    prev,
                    j,
                    k,
                ) by {
                    assert(!burned_at(calls, j, k));
                }
                assert(minted_and_kept(prev, k));
                assert(!burned_at(calls, n, k));
            }
        }
    }
}

/// In a registry, whatever was done with it, a record exists under the id
/// `k` exactly if some call created `k` and no later call burned it.
pub proof fn law_registry_holds_what_was_minted_and_not_burned<T: Config>(p: &Pallet<T>, k: u128)
    requires
        p.wf(),
    ensures
        p@.nfts.contains_key(k) <==> minted_and_kept(p.history(), k),
{
    law_record_iff_minted_and_not_burned(p.history(), k);
}

/// In a registry, whatever was done with it, every id in use lies below the
/// next id, and the next id is the number of creations carried out on it.
pub proof fn law_registry_counts_creations<T: Config>(p: &Pallet<T>)
    requires
        p.wf(),
    ensures
        p@.wf(),
        p@.next_id == created(p.history()),
{
    law_ids_in_use_were_handed_out(p.history());
    law_next_id_counts_creations(p.history());
}

/// After any history the next id is the number of creations carried out:
/// burning gives no id back.
pub proof fn law_next_id_counts_creations<T: Config>(calls: Seq<Call<T>>)
    ensures
        run(calls).next_id == created(calls),
    decreases calls.len(),
{
    if calls.len() > 0 {
        law_next_id_counts_creations(calls.drop_last());
    }
}

/// The id that a creation hands out is the number of creations carried out
/// before it: ids come as 0, 1, 2, and so on, whatever was burned meanwhile.
pub proof fn law_ids_in_order<T: Config>(calls: Seq<Call<T>>, i: int, k: u128)
    requires
        minted_at(calls, i, k),
    ensures
        k == created(calls.take(i)),
        created(calls.take(i + 1)) == k + 1,
{
    law_next_id_counts_creations(calls.take(i));
    assert(calls.take(i + 1).drop_last() =~= calls.take(i));
    assert(calls.take(i + 1).last() == calls[i]);
}

/// No id is handed out twice: two creations of one history that gave the
/// same id are the same call.
pub proof fn law_ids_are_not_reused<T: Config>(calls: Seq<Call<T>>, i: int, j: int, k: u128)
    requires
        minted_at(calls, i, k),
        minted_at(calls, j, k),
    ensures
        i == j,
{
    if i < j {
        created_grows(calls.take(j), i + 1);
        assert(calls.take(j).take(i + 1) =~= calls.take(i + 1));
        law_ids_in_order(calls, i, k);
        law_ids_in_order(calls, j, k);
    } else if j < i {
        created_grows(calls.take(i), j + 1);
        assert(calls.take(i).take(j + 1) =~= calls.take(j + 1));
        law_ids_in_order(calls, i, k);
        law_ids_in_order(calls, j, k);
    }
}

/// A longer history has carried out no fewer creations than its beginning.
proof fn created_grows<T: Config>(calls: Seq<Call<T>>, n: int)
    requires
        0 <= n <= calls.len(),
    ensures
        created(calls.take(n)) <= created(calls),
    decreases calls.len(),
{
    if n == calls.len() {
        assert(calls.take(n) =~= calls);
    } else {
        created_grows(calls.drop_last(), n);
        assert(calls.drop_last().take(n) =~= calls.take(n));
    }
}

/// A handover is carried out exactly if the asset exists and the caller
/// owns it. It then changes the owner of that record to `to` and nothing
/// else: the record's byte strings, every other record, the offers and the
/// counter stay.
pub proof fn law_transfer_changes_owner_only<T: Config>(
    s: State<T>,
    who: T::AccountId,
    id: u128,
    to: T::AccountId,
)
    ensures
        s.owner_check(who, id) is Ok <==> s.nfts.contains_key(id) && s.nfts[id].owner == who,
        s.transfer(id, to).nfts[id].owner == to,
        s.transfer(id, to).nfts[id].name == s.nfts[id].name,
        s.transfer(id, to).nfts[id].description == s.nfts[id].description,
        s.transfer(id, to).nfts[id].img_url == s.nfts[id].img_url,
        s.transfer(id, to).nfts.remove(id) == s.nfts.remove(id),
        s.nfts.contains_key(id) ==> s.transfer(id, to).nfts.dom() == s.nfts.dom(),
        s.transfer(id, to).offers == s.offers,
        s.transfer(id, to).next_id == s.next_id,
{
    assert(s.transfer(id, to).nfts.remove(id) =~= s.nfts.remove(id));
    if s.nfts.contains_key(id) {
        assert(s.transfer(id, to).nfts.dom() =~= s.nfts.dom());
    }
}

/// A burn is carried out exactly if the asset exists and the caller owns
/// it. No record is under the id afterwards, and every other record stays.
pub proof fn law_burn_removes_record<T: Config>(s: State<T>, who: T::AccountId, id: u128)
    ensures
        s.owner_check(who, id) is Ok <==> s.nfts.contains_key(id) && s.nfts[id].owner == who,
        !s.burn(id).nfts.contains_key(id),
        forall|k: u128|
            k != id ==> (#[trigger] s.burn(id).nfts.contains_key(k) == s.nfts.contains_key(k)),
        forall|k: u128|
            k != id && s.nfts.contains_key(k) ==> #[trigger] s.burn(id).nfts[k] == s.nfts[k],
{
}

/// Listing an asset that does not exist is refused for that reason, whoever
/// the caller is.
pub proof fn law_list_needs_record<T: Config>(s: State<T>, who: T::AccountId, id: u128)
    requires
        !s.nfts.contains_key(id),
    ensures
        s.list_check(who, id) == Err::<(), Error>(Error::NftNotExist),
{
}

/// An asset that was burned cannot be burned again: whoever tries is told
/// that there is no such asset.
pub proof fn law_second_burn_is_refused<T: Config>(
    s: State<T>,
    who: T::AccountId,
    again: T::AccountId,
    id: u128,
)
    requires
        s.owner_check(who, id) is Ok,
    ensures
        step(s, Call::Burn { who, id }) == s.burn(id),
        s.burn(id).owner_check(again, id) == Err::<(), Error>(Error::NftNotExist),
        step(s.burn(id), Call::Burn { who: again, id }) == s.burn(id),
{
}

} // verus!
