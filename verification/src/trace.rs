//! Histories of a registry: the calls made on it, one after another, and the
//! state that they lead to.

use vstd::prelude::*;
use crate::model::State;
use crate::types::Config;

verus! {

/// One call of an operation, with its arguments as mathematical values.
pub enum Call<T: Config> {
    Create { who: T::AccountId, name: Seq<u8>, description: Seq<u8>, img_url: Seq<u8> },
    List { who: T::AccountId, id: u128, value: T::Balance },
    Transfer { who: T::AccountId, id: u128, to: T::AccountId },
    Burn { who: T::AccountId, id: u128 },
}

/// Whether the registry in state `s` carries the call out. A creation is
/// carried out while the counter can hand out an id; each of the others
/// unless its operation refuses it.
pub open spec fn accepts<T: Config>(s: State<T>, c: Call<T>) -> bool {
    match c {
        Call::Create { .. } => s.can_create(),
        Call::List { who, id, .. } => s.list_check(who, id) is Ok,
        Call::Transfer { who, id, .. } => s.owner_check(who, id) is Ok,
        Call::Burn { who, id } => s.owner_check(who, id) is Ok,
    }
}

/// The state after the call: the operation's effect if the call is carried
/// out, the state as it was if not.
pub open spec fn step<T: Config>(s: State<T>, c: Call<T>) -> State<T> {
    if !accepts(s, c) {
        s
    } else {
        match c {
            Call::Create { who, name, description, img_url } => s.create(
                who,
                name,
                description,
                img_url,
            ),
            Call::List { who, id, value } => s.list(who, id, value),
            Call::Transfer { id, to, .. } => s.transfer(id, to),
            Call::Burn { id, .. } => s.burn(id),
        }
    }
}

/// The state that a fresh registry is in after the calls, made in order.
pub open spec fn run<T: Config>(calls: Seq<Call<T>>) -> State<T>
    decreases calls.len(),
{
    if calls.len() == 0 {
        State::empty()
    } else {
        step(run(calls.drop_last()), calls.last())
    }
}

/// One more call takes the state that the history leads to one step on.
pub proof fn run_after_push<T: Config>(calls: Seq<Call<T>>, c: Call<T>)
    ensures
        run(calls.push(c)) == step(run(calls), c),
{
    assert(calls.push(c).drop_last() =~= calls);
}

/// The number of creations that were carried out in the history.
pub open spec fn created<T: Config>(calls: Seq<Call<T>>) -> nat
    decreases calls.len(),
{
    if calls.len() == 0 {
        0
    } else {
        let before = created(calls.drop_last());
        if calls.last() is Create && accepts(run(calls.drop_last()), calls.last()) {
            before + 1
        } else {
            before
        }
    }
}

/// The call at position `i` of the history created the asset `k`.
pub open spec fn minted_at<T: Config>(calls: Seq<Call<T>>, i: int, k: u128) -> bool {
    &&& 0 <= i < calls.len()
    &&& calls[i] is Create
    &&& accepts(run(calls.take(i)), calls[i])
    &&& run(calls.take(i)).next_id == k
}

/// The call at position `j` of the history burned the asset `k`.
pub open spec fn burned_at<T: Config>(calls: Seq<Call<T>>, j: int, k: u128) -> bool {
    &&& 0 <= j < calls.len()
    &&& calls[j] matches Call::Burn { id, .. } && id == k
    &&& accepts(run(calls.take(j)), calls[j])
}

/// Some call of the history created the asset `k`, and no later call of it
/// burned `k`.
pub open spec fn minted_and_kept<T: Config>(calls: Seq<Call<T>>, k: u128) -> bool {
    exists|i: int|
        {
            &&& #[trigger] minted_at(calls, i, k)
            &&& forall|j: int| i < j < calls.len() ==> !#[trigger] burned_at(calls, j, k)
        }
}

} // verus!
