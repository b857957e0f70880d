//! The room registry: which sessions are in which room.

use vstd::prelude::*;
use std::collections::HashMap;

verus! {

broadcast use vstd::std_specs::hash::group_hash_axioms;

/// The members of one room: each session id with the handle on which that
/// session receives messages.
pub type CodeRoom<H> = HashMap<usize, H>;

/// What a registry holds: for each room, the members.
pub type Rooms<H> = Map<Seq<char>, Map<usize, H>>;

/// The members of `room` in `rooms`. A room that is not held has no members.
pub open spec fn members_of<H>(rooms: Rooms<H>, room: Seq<char>) -> Map<usize, H> {
    if rooms.contains_key(room) {
        rooms[room]
    } else {
        Map::empty()
    }
}

struct RoomEntry<H> {
    name: String,
    members: CodeRoom<H>,
}

/// Every room with its members. Rooms come into being when they are first
/// asked for and are never destroyed: an empty room is a valid state.
pub struct RoomRegistry<H> {
    rooms: Vec<RoomEntry<H>>,
}

spec fn distinct_names<H>(rooms: Seq<RoomEntry<H>>) -> bool {
    forall|i: int, j: int| 0 <= i < j < rooms.len() ==> rooms[i].name@ != rooms[j].name@
}

spec fn held<H>(rooms: Seq<RoomEntry<H>>, name: Seq<char>) -> bool {
    exists|i: int| 0 <= i < rooms.len() && #[trigger] rooms[i].name@ == name
}

spec fn slot<H>(rooms: Seq<RoomEntry<H>>, name: Seq<char>) -> int {
    choose|i: int| 0 <= i < rooms.len() && #[trigger] rooms[i].name@ == name
}

spec fn model<H>(rooms: Seq<RoomEntry<H>>) -> Rooms<H> {
    Map::new(|name: Seq<char>| held(rooms, name), |name: Seq<char>| rooms[slot(rooms, name)].members@)
}

proof fn lemma_model_at<H>(rooms: Seq<RoomEntry<H>>, i: int)
    requires
        distinct_names(rooms),
        0 <= i < rooms.len(),
    ensures
        model(rooms).contains_key(rooms[i].name@),
        model(rooms)[rooms[i].name@] == rooms[i].members@,
{
    let name = rooms[i].name@;
    assert(held(rooms, name));
    let k = slot(rooms, name);
    assert(k == i);
}

proof fn lemma_model_push<H>(rooms: Seq<RoomEntry<H>>, entry: RoomEntry<H>)
    requires
        distinct_names(rooms),
        !held(rooms, entry.name@),
    ensures
        distinct_names(rooms.push(entry)),
        model(rooms.push(entry)) == model(rooms).insert(entry.name@, entry.members@),
{
    let after = rooms.push(entry);
    assert forall|a: int, b: int| 0 <= a < b < after.len() implies after[a].name@ != after[b].name@ by {
        if b == rooms.len() {
            assert(rooms[a].name@ != entry.name@);
        }
    }
    assert forall|n: Seq<char>| #[trigger] held(after, n) <==> held(rooms, n) || n == entry.name@ by {
        if held(after, n) {
            let a = slot(after, n);
            if a < rooms.len() {
                assert(rooms[a].name@ == n);
            }
        }
        if held(rooms, n) {
            let a = slot(rooms, n);
            assert(after[a].name@ == n);
        }
        if n == entry.name@ {
            assert(after[rooms.len() as int].name@ == n);
        }
    }
    assert forall|n: Seq<char>| held(after, n) implies #[trigger] model(after)[n] == model(rooms).insert(
        entry.name@,
        entry.members@,
    )[n] by {
        let a = slot(after, n);
        lemma_model_at(after, a);
        if a < rooms.len() {
            assert(after[a] == rooms[a]);
            lemma_model_at(rooms, a);
        }
    }
    assert(model(after) =~= model(rooms).insert(entry.name@, entry.members@));
}

proof fn lemma_model_swap_remove<H>(before: Seq<RoomEntry<H>>, after: Seq<RoomEntry<H>>, i: int)
    requires
        distinct_names(before),
        0 <= i < before.len(),
        after.len() == before.len() - 1,
        forall|a: int| 0 <= a < after.len() ==> #[trigger] after[a] == before[if a == i {
            before.len() - 1
        } else {
            a
        }],
    ensures
        distinct_names(after),
        model(after) == model(before).remove(before[i].name@),
{
    let name = before[i].name@;
    let last = before.len() - 1;
    assert forall|a: int, b: int| 0 <= a < b < after.len() implies after[a].name@ != after[b].name@ by {
        assert(after[a] == before[if a == i { last } else { a }]);
        assert(after[b] == before[if b == i { last } else { b }]);
    }
    assert forall|n: Seq<char>| #[trigger] held(after, n) <==> held(before, n) && n != name by {
        if held(after, n) {
            let a = slot(after, n);
            assert(after[a] == before[if a == i { last } else { a }]);
            assert(before[if a == i { last } else { a }].name@ == n);
        }
        if held(before, n) && n != name {
            let a0 = slot(before, n);
            let a = if a0 == last { i } else { a0 };
            assert(after[a] == before[if a == i { last } else { a }]);
            assert(after[a].name@ == n);
        }
    }
    assert forall|n: Seq<char>| held(after, n) implies #[trigger] model(after)[n] == model(before)[n] by {
        let a = slot(after, n);
        let a0 = if a == i { last } else { a };
        assert(after[a] == before[a0]);
        lemma_model_at(after, a);
        lemma_model_at(before, a0);
    }
    assert(model(after) =~= model(before).remove(name));
}

impl<H> View for RoomRegistry<H> {
    type V = Rooms<H>;

    closed spec fn view(&self) -> Rooms<H> {
        model(self.rooms@)
    }
}

impl<H> RoomRegistry<H> {
    #[verifier::type_invariant]
    spec fn well_formed(self) -> bool {
        distinct_names(self.rooms@)
    }

    /// A registry without rooms.
    pub fn new() -> (registry: RoomRegistry<H>)
        ensures
            registry@ == Map::<Seq<char>, Map<usize, H>>::empty(),
    {
        let registry = RoomRegistry { rooms: Vec::new() };
        assert(registry@ =~= Map::<Seq<char>, Map<usize, H>>::empty());
        registry
    }

    /// The members of `room`; none if the registry does not hold it.
    pub open spec fn members(&self, room: Seq<char>) -> Map<usize, H> {
        members_of(self@, room)
    }

    fn position(&self, name: &String) -> (found: Option<usize>)
        ensures
            match found {
                Some(i) => i < self.rooms@.len() && self.rooms@[i as int].name@ == name@,
                None => !held(self.rooms@, name@),
            },
    {
        let mut i: usize = 0;
        while i < self.rooms.len()
            invariant
                i <= self.rooms@.len(),
                forall|j: int| 0 <= j < i ==> self.rooms@[j].name@ != name@,
            decreases self.rooms@.len() - i,
        {
            if self.rooms[i].name == *name {
                return Some(i);
            }
            i = i + 1;
        }
        None
    }

    /// Checks the room `room_id` out: hands over its members and holds the
    /// room no longer. A room that was not held comes out empty.
    pub fn take_room(&mut self, room_id: &str) -> (room: CodeRoom<H>)
        ensures
            room@ == old(self).members(room_id@),
            final(self)@ == old(self)@.remove(room_id@),
    {
        proof {
            use_type_invariant(&*self);
        }
        let name: String = room_id.to_owned();
        match self.position(&name) {
            Some(i) => {
                let mut rooms: Vec<RoomEntry<H>> = Vec::new();
                core::mem::swap(&mut self.rooms, &mut rooms);
                let ghost before = rooms@;
                let entry = rooms.swap_remove(i);
                proof {
                    lemma_model_at(before, i as int);
                    lemma_model_swap_remove(before, rooms@, i as int);
                }
                core::mem::swap(&mut self.rooms, &mut rooms);
                entry.members
            },
            None => {
                assert(self@ =~= old(self)@.remove(room_id@));
                HashMap::new()
            },
        }
    }

    /// Checks a room back in: from now on `room_id` has exactly the members
    /// in `room`, whatever the registry held for it before.
    pub fn restore(&mut self, room_id: &str, room: CodeRoom<H>)
        ensures
            final(self)@ == old(self)@.insert(room_id@, room@),
    {
        let _ = self.take_room(room_id);
        proof {
            use_type_invariant(&*self);
            assert(!self@.contains_key(room_id@));
            assert(!held(self.rooms@, room_id@));
        }
        let entry = RoomEntry { name: room_id.to_owned(), members: room };
        let mut rooms: Vec<RoomEntry<H>> = Vec::new();
        core::mem::swap(&mut self.rooms, &mut rooms);
        proof {
            lemma_model_push(rooms@, entry);
        }
        rooms.push(entry);
        core::mem::swap(&mut self.rooms, &mut rooms);
        assert(self@ =~= old(self)@.insert(room_id@, room@));
    }

    /// Makes `id` a member of `room_id`, reachable on `handle`. Whoever held
    /// `id` in that room before is replaced.
    pub fn insert_member(&mut self, room_id: &str, id: usize, handle: H)
        ensures
            final(self)@ == old(self)@.insert(room_id@, old(self).members(room_id@).insert(id, handle)),
    {
        let mut room = self.take_room(room_id);
        room.insert(id, handle);
        self.restore(room_id, room);
        assert(self@ =~= old(self)@.insert(room_id@, old(self).members(room_id@).insert(id, handle)));
    }

    /// Takes `id` out of `room_id`. Nothing is lost if it was not a member.
    pub fn remove_member(&mut self, room_id: &str, id: usize)
        ensures
            final(self)@ == old(self)@.insert(room_id@, old(self).members(room_id@).remove(id)),
    {
        let mut room = self.take_room(room_id);
        room.remove(&id);
        self.restore(room_id, room);
        assert(self@ =~= old(self)@.insert(room_id@, old(self).members(room_id@).remove(id)));
    }

    /// The handle of member `id` of `room_id`, if there is such a member.
    pub fn client(&self, room_id: &str, id: usize) -> (handle: Option<&H>)
        ensures
            match handle {
                Some(h) => self.members(room_id@).contains_key(id) && self.members(room_id@)[id] == *h,
                None => !self.members(room_id@).contains_key(id),
            },
    {
        proof {
            use_type_invariant(self);
        }
        let name: String = room_id.to_owned();
        match self.position(&name) {
            Some(i) => {
                proof {
                    lemma_model_at(self.rooms@, i as int);
                }
                self.rooms[i].members.get(&id)
            },
            None => None,
        }
    }
}

} // verus!
