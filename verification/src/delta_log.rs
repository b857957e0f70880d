//! The delta log: where each room's edit history is kept, and what the
//! broker relies on when it writes to the log and reads it back.
//!
//! The log itself lives in an outside store that keeps one list under each
//! key. This module decides under which key a room's history goes, and
//! states, over a model of such a store, what a late joiner gets to see.

use vstd::prelude::*;
use vstd::string::*;
use crate::models::delta::Delta;

verus! {

/// The key under which the history of `room_id` is kept.
pub open spec fn key_of(room_id: Seq<char>) -> Seq<char> {
    room_id + "_delta"@
}

/// The key under which the history of `room_id` is kept: the room's name
/// followed by `_delta`.
pub fn room_key(room_id: &str) -> (key: String)
    ensures
        key@ == key_of(room_id@),
{
    let mut key: String = room_id.to_owned();
    key.append("_delta");
    key
}

/// Two rooms never share a key.
pub proof fn lemma_keys_differ(room_a: Seq<char>, room_b: Seq<char>)
    requires
        room_a != room_b,
    ensures
        key_of(room_a) != key_of(room_b),
{
    let suffix = "_delta"@;
    if key_of(room_a) == key_of(room_b) {
        assert((room_a + suffix).len() == (room_b + suffix).len());
        assert(room_a =~= (room_a + suffix).subrange(0, room_a.len() as int));
        assert(room_b =~= (room_b + suffix).subrange(0, room_b.len() as int));
    }
}

/// A store of lists: what is kept under each key, oldest entry first.
pub type LogStore = Map<Seq<char>, Seq<Delta>>;

/// What the store holds for `room_id`. A room of which nothing was ever
/// written has an empty history.
pub open spec fn history(store: LogStore, room_id: Seq<char>) -> Seq<Delta> {
    if store.contains_key(key_of(room_id)) {
        store[key_of(room_id)]
    } else {
        Seq::empty()
    }
}

/// The store after `batch` was appended to the history of `room_id`, one
/// delta after the other.
pub open spec fn appended(store: LogStore, room_id: Seq<char>, batch: Seq<Delta>) -> LogStore {
    store.insert(key_of(room_id), history(store, room_id) + batch)
}

/// The store after each of `batches` was appended to the history of
/// `room_id`, in turn.
pub open spec fn appended_all(store: LogStore, room_id: Seq<char>, batches: Seq<Seq<Delta>>) -> LogStore
    decreases batches.len(),
{
    if batches.len() == 0 {
        store
    } else {
        appended(appended_all(store, room_id, batches.drop_last()), room_id, batches.last())
    }
}

/// Appending adds to the end of a room's history and changes nothing that
/// was there.
pub proof fn lemma_append_extends(store: LogStore, room_id: Seq<char>, batch: Seq<Delta>)
    ensures
        history(appended(store, room_id, batch), room_id) == history(store, room_id) + batch,
{
}

/// Appending to one room leaves the history of every other room as it was.
pub proof fn lemma_append_keeps_others(
    store: LogStore,
    room_id: Seq<char>,
    batch: Seq<Delta>,
    other: Seq<char>,
)
    requires
        other != room_id,
    ensures
        history(appended(store, room_id, batch), other) == history(store, other),
{
    lemma_keys_differ(other, room_id);
}

/// After any number of batches the history of a room is what it was before,
/// followed by every delta of every batch, in the order of arrival: nothing
/// is missing, nothing is there twice.
pub proof fn lemma_history_is_batches_in_order(
    store: LogStore,
    room_id: Seq<char>,
    batches: Seq<Seq<Delta>>,
)
    ensures
        history(appended_all(store, room_id, batches), room_id) == history(store, room_id)
            + batches.flatten(),
    decreases batches.len(),
{
    if batches.len() == 0 {
        assert(batches.flatten() =~= Seq::<Delta>::empty());
        assert(history(store, room_id) + batches.flatten() =~= history(store, room_id));
    } else {
        let earlier = batches.drop_last();
        lemma_history_is_batches_in_order(store, room_id, earlier);
        assert(batches =~= earlier.push(batches.last()));
        earlier.lemma_flatten_push(batches.last());
        assert(history(store, room_id) + (earlier.flatten() + batches.last()) =~= (history(store, room_id)
            + earlier.flatten()) + batches.last());
    }
}

} // verus!
