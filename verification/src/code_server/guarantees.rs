//! What the broker guarantees to the members of its rooms, stated over the
//! registry's model and proved from the contracts of its operations.

use vstd::prelude::*;
use crate::code_server::code_server::{compile_recipients, edit_recipients, touched};
use crate::code_server::handlers::{joined, left};
use crate::code_server::registry::{members_of, Rooms};
use crate::code_server::room::each_once;

verus! {

/// How many copies of a message go to `id` when the message is sent to each
/// of `recipients` in turn.
pub open spec fn copies(recipients: Seq<usize>, id: usize) -> nat {
    recipients.to_multiset().count(id)
}

proof fn lemma_copies(recipients: Seq<usize>, targets: Set<usize>)
    requires
        each_once(recipients, targets),
    ensures
        forall|id: usize| targets.contains(id) ==> #[trigger] copies(recipients, id) == 1,
        forall|id: usize| !targets.contains(id) ==> #[trigger] copies(recipients, id) == 0,
{
    recipients.lemma_multiset_has_no_duplicates();
    assert forall|id: usize| targets.contains(id) implies #[trigger] copies(recipients, id) == 1 by {
        assert(recipients.to_set().contains(id));
        vstd::seq_lib::to_multiset_contains(recipients, id);
        assert(recipients.to_multiset().contains(id));
    }
    assert forall|id: usize| !targets.contains(id) implies #[trigger] copies(recipients, id) == 0 by {
        assert(!recipients.to_set().contains(id));
        vstd::seq_lib::to_multiset_contains(recipients, id);
    }
}

/// An edit reaches every other member of the sender's room exactly once.
/// The sender gets no copy, and neither does anybody outside the room.
pub proof fn lemma_edit_excludes_sender<H>(
    rooms: Rooms<H>,
    room: Seq<char>,
    sender: usize,
    recipients: Seq<usize>,
)
    requires
        each_once(recipients, edit_recipients(rooms, room, sender)),
    ensures
        copies(recipients, sender) == 0,
        forall|id: usize|
            members_of(rooms, room).contains_key(id) && id != sender ==> #[trigger] copies(recipients, id)
                == 1,
        forall|id: usize| !members_of(rooms, room).contains_key(id) ==> #[trigger] copies(recipients, id) == 0,
{
    lemma_copies(recipients, edit_recipients(rooms, room, sender));
}

/// The result of an execution reaches every member that was in the room
/// when the request left, the one who asked included, exactly once. Nobody
/// else gets a copy.
pub proof fn lemma_result_reaches_all<H>(rooms: Rooms<H>, room: Seq<char>, recipients: Seq<usize>)
    requires
        each_once(recipients, compile_recipients(rooms, room)),
    ensures
        forall|id: usize| members_of(rooms, room).contains_key(id) ==> #[trigger] copies(recipients, id) == 1,
        forall|id: usize| !members_of(rooms, room).contains_key(id) ==> #[trigger] copies(recipients, id) == 0,
{
    lemma_copies(recipients, compile_recipients(rooms, room));
}

/// The sessions of `room`. An id means something within its room only, so
/// a session is known by its room and its id together.
pub open spec fn sessions_of<H>(rooms: Rooms<H>, room: Seq<char>) -> Set<(Seq<char>, usize)> {
    Set::new(|session: (Seq<char>, usize)| session.0 == room && members_of(rooms, room).contains_key(session.1))
}

/// The sessions that a broadcast for `room` to `recipients` is sent to.
pub open spec fn addressees(room: Seq<char>, recipients: Seq<usize>) -> Set<(Seq<char>, usize)> {
    Set::new(|session: (Seq<char>, usize)| session.0 == room && recipients.contains(session.1))
}

/// Rooms are isolated from each other. An edit made in a room is sent to
/// sessions of that room and to no session of any other room. Who receives
/// it depends on the members of that room alone, whatever the other rooms
/// hold, and the edit leaves the members of every other room as they were.
pub proof fn lemma_rooms_are_isolated<H>(
    rooms: Rooms<H>,
    room: Seq<char>,
    other: Seq<char>,
    sender: usize,
    recipients: Seq<usize>,
)
    requires
        room != other,
        each_once(recipients, edit_recipients(rooms, room, sender)),
    ensures
        addressees(room, recipients).subset_of(sessions_of(rooms, room)),
        addressees(room, recipients).disjoint(sessions_of(rooms, other)),
        forall|id: usize|
            members_of(rooms, other).contains_key(id) && !members_of(rooms, room).contains_key(id)
                ==> #[trigger] copies(recipients, id) == 0,
        forall|elsewhere: Rooms<H>|
            members_of(elsewhere, room) == members_of(rooms, room) ==> #[trigger] edit_recipients(
                elsewhere,
                room,
                sender,
            ) == edit_recipients(rooms, room, sender),
        members_of(touched(rooms, room), other) == members_of(rooms, other),
{
    lemma_copies(recipients, edit_recipients(rooms, room, sender));
    assert forall|session: (Seq<char>, usize)| addressees(room, recipients).contains(session) implies sessions_of(
        rooms,
        room,
    ).contains(session) by {
        assert(recipients.to_set().contains(session.1));
    }
}

/// A session that joins under an id that was vacant takes nobody's place:
/// every member keeps its id and its handle, the room has one member more,
/// and no other room changes. So no two connections ever hold the same id
/// in one room.
pub proof fn lemma_join_takes_no_place<H>(rooms: Rooms<H>, room: Seq<char>, id: usize, handle: H)
    requires
        !members_of(rooms, room).contains_key(id),
        members_of(rooms, room).dom().finite(),
    ensures
        members_of(joined(rooms, room, id, handle), room)[id] == handle,
        forall|member: usize| #[trigger]
            members_of(rooms, room).contains_key(member) ==> member != id && members_of(
                joined(rooms, room, id, handle),
                room,
            ).contains_key(member) && members_of(joined(rooms, room, id, handle), room)[member]
                == members_of(rooms, room)[member],
        members_of(joined(rooms, room, id, handle), room).dom().len() == members_of(rooms, room).dom().len()
            + 1,
        forall|other: Seq<char>|
            other != room ==> #[trigger] members_of(joined(rooms, room, id, handle), other) == members_of(
                rooms,
                other,
            ),
{
}

/// Once a session has left its room, no broadcast in that room is sent to
/// it: not an edit, whoever made it, and not the result of an execution.
/// The members that stay keep their handles.
pub proof fn lemma_gone_after_leaving<H>(rooms: Rooms<H>, room: Seq<char>, id: usize, sender: usize)
    ensures
        !members_of(left(rooms, room, id), room).contains_key(id),
        !edit_recipients(left(rooms, room, id), room, sender).contains(id),
        !compile_recipients(left(rooms, room, id), room).contains(id),
        forall|member: usize|
            member != id && members_of(rooms, room).contains_key(member) ==> #[trigger] members_of(
                left(rooms, room, id),
                room,
            ).contains_key(member) && members_of(left(rooms, room, id), room)[member] == members_of(
                rooms,
                room,
            )[member],
        forall|other: Seq<char>|
            other != room ==> #[trigger] members_of(left(rooms, room, id), other) == members_of(rooms, other),
{
}

/// Checking a room out and in again loses no member and adds none.
pub proof fn lemma_checkout_keeps_members<H>(rooms: Rooms<H>, room: Seq<char>, any: Seq<char>)
    ensures
        members_of(touched(rooms, room), any) == members_of(rooms, any),
        members_of(rooms.remove(room).insert(room, members_of(rooms, room)), any) == members_of(rooms, any),
{
}

} // verus!
