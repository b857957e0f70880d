//! Questions asked of one room's members.

use vstd::prelude::*;
use vstd::std_specs::iter::IteratorSpec;
use crate::code_server::registry::CodeRoom;

verus! {

broadcast use vstd::std_specs::hash::group_hash_axioms;

/// `recipients` names every id of `targets` exactly once, and no other id.
pub open spec fn each_once(recipients: Seq<usize>, targets: Set<usize>) -> bool {
    &&& recipients.no_duplicates()
    &&& recipients.to_set() == targets
}

/// The ids among `members` that a message reaches when `skip` is left out.
pub open spec fn all_but(members: Set<usize>, skip: Option<usize>) -> Set<usize> {
    match skip {
        Some(id) => members.remove(id),
        None => members,
    }
}

spec fn collected(out: Seq<usize>, keys: Seq<usize>, n: int, skip: Option<usize>) -> bool {
    &&& out.no_duplicates()
    &&& forall|i: int|
        0 <= i < out.len() ==> Some(out[i]) != skip && exists|j: int| 0 <= j < n && keys[j] == #[trigger] out[i]
    &&& forall|j: int| 0 <= j < n && Some(keys[j]) != skip ==> out.contains(#[trigger] keys[j])
}

proof fn lemma_collected_step(out: Seq<usize>, keys: Seq<usize>, n: int, skip: Option<usize>)
    requires
        0 <= n < keys.len(),
        keys.no_duplicates(),
        collected(out, keys, n, skip),
    ensures
        Some(keys[n]) == skip ==> collected(out, keys, n + 1, skip),
        Some(keys[n]) != skip ==> collected(out.push(keys[n]), keys, n + 1, skip),
{
    if Some(keys[n]) == skip {
        assert forall|i: int| 0 <= i < out.len() implies Some(out[i]) != skip && exists|j: int|
            0 <= j < n + 1 && keys[j] == #[trigger] out[i] by {
            let j = choose|j: int| 0 <= j < n && keys[j] == out[i];
            assert(0 <= j < n + 1 && keys[j] == out[i]);
        }
    } else {
        let next = out.push(keys[n]);
        if out.contains(keys[n]) {
            let i = choose|i: int| 0 <= i < out.len() && out[i] == keys[n];
            let j = choose|j: int| 0 <= j < n && keys[j] == out[i];
            assert(keys[j] == keys[n]);
        }
        assert forall|i: int| 0 <= i < next.len() implies Some(next[i]) != skip && exists|j: int|
            0 <= j < n + 1 && keys[j] == #[trigger] next[i] by {
            if i < out.len() {
                let j = choose|j: int| 0 <= j < n && keys[j] == out[i];
                assert(0 <= j < n + 1 && keys[j] == next[i]);
            } else {
                assert(0 <= n < n + 1 && keys[n] == next[i]);
            }
        }
        assert forall|j: int| 0 <= j < n + 1 && Some(keys[j]) != skip implies next.contains(
            #[trigger] keys[j],
        ) by {
            if j < n {
                let i = choose|i: int| 0 <= i < out.len() && out[i] == keys[j];
                assert(next[i] == keys[j]);
            } else {
                assert(next[out.len() as int] == keys[j]);
            }
        }
    }
}

proof fn lemma_collected_all(out: Seq<usize>, keys: Seq<usize>, n: int, skip: Option<usize>)
    requires
        collected(out, keys, n, skip),
    ensures
        n == keys.len() ==> each_once(out, all_but(keys.to_set(), skip)),
{
    if n == keys.len() {
        assert forall|x: usize| out.to_set().contains(x) <==> all_but(keys.to_set(), skip).contains(x) by {
            if out.contains(x) {
                let i = choose|i: int| 0 <= i < out.len() && out[i] == x;
                let j = choose|j: int| 0 <= j < keys.len() && keys[j] == out[i];
                assert(keys.contains(x));
            }
            if keys.contains(x) && Some(x) != skip {
                let j = choose|j: int| 0 <= j < keys.len() && keys[j] == x;
                assert(out.contains(keys[j]));
            }
        }
        assert(out.to_set() =~= all_but(keys.to_set(), skip));
    }
}

/// The ids of the members of `room`, each once, without `skip`. They come in
/// no particular order.
pub fn member_ids<H>(room: &CodeRoom<H>, skip: Option<usize>) -> (ids: Vec<usize>)
    ensures
        each_once(ids@, all_but(room@.dom(), skip)),
{
    let mut ids: Vec<usize> = Vec::new();
    proof {
        if room@.dom().len() == 0 {
            room@.dom().lemma_len0_is_empty();
            assert(ids@.to_set() =~= all_but(room@.dom(), skip));
        }
    }
    for id in it: room.keys()
        invariant
            it.seq().no_duplicates(),
            it.seq().len() == room@.dom().len(),
            it.seq().unref().to_set() == room@.dom(),
            collected(ids@, it.seq().unref(), it.index() as int, skip),
            it.index() == it.seq().len() ==> each_once(ids@, all_but(room@.dom(), skip)),
    {
        proof {
            lemma_collected_step(ids@, it.seq().unref(), it.index() as int, skip);
        }
        let spared = match skip {
            Some(left_out) => *id == left_out,
            None => false,
        };
        if !spared {
            ids.push(*id);
        }
        proof {
            lemma_collected_all(ids@, it.seq().unref(), it.index() + 1, skip);
        }
    }
    ids
}

proof fn lemma_prefix_fits(ids: Set<usize>, n: nat)
    requires
        ids.finite(),
        n <= usize::MAX + 1,
        forall|j: usize| j < n ==> ids.contains(j),
    ensures
        n <= ids.len(),
    decreases n,
{
    if n > 0 {
        let top = (n - 1) as usize;
        assert(ids.contains(top));
        lemma_prefix_fits(ids.remove(top), (n - 1) as nat);
    }
}

/// The smallest id that no member of `room` holds. There always is one: a
/// room cannot have as many members as there are ids.
pub fn lowest_vacant_id<H>(room: &CodeRoom<H>) -> (id: usize)
    ensures
        !room@.contains_key(id),
        forall|j: usize| j < id ==> room@.contains_key(j),
{
    let mut id: usize = 0;
    while room.contains_key(&id)
        invariant
            forall|j: usize| j < id ==> room@.contains_key(j),
        decreases usize::MAX - id,
    {
        proof {
            assert forall|j: usize| j < id + 1 implies room@.dom().contains(j) by {}
            lemma_prefix_fits(room@.dom(), (id + 1) as nat);
            assert(room@.dom().len() == room.len());
        }
        id = id + 1;
    }
    id
}

} // verus!
