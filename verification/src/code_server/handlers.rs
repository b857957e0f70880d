//! What the broker does with each command that a session sends to it.

use vstd::prelude::*;
use crate::code_server::code_server::{
    compile_recipients,
    edit_recipients,
    touched,
    Broadcast,
    CodeServer,
    CompileDispatch,
};
use crate::code_server::registry::{members_of, Rooms};
use crate::code_server::room::{each_once, lowest_vacant_id};
use crate::delta_log::{key_of, room_key};
use crate::models::event::{CodeUpdate, CodeUpdateOutput, CompileCode, Connect, Disconnect, WsMessage};
use crate::random::random_id;

verus! {

broadcast use vstd::std_specs::hash::group_hash_axioms;

/// How many random ids the broker draws for a new session before it stops
/// drawing and takes the smallest id that is vacant.
pub const ID_DRAWS: usize = 8;

/// An edit on its way out: the key of the log to which its deltas are to be
/// appended, and the update with the members that are to receive it. The
/// deltas to append are those of the update, in their order. The update is
/// sent whether or not the log took them.
pub struct EditBroadcast {
    pub log_key: String,
    pub update: Broadcast<WsMessage>,
}

/// The registry after a session joined `room` under `id`, reachable on
/// `handle`.
pub open spec fn joined<H>(rooms: Rooms<H>, room: Seq<char>, id: usize, handle: H) -> Rooms<H> {
    rooms.insert(room, members_of(rooms, room).insert(id, handle))
}

/// The registry after the session `id` left `room`.
pub open spec fn left<H>(rooms: Rooms<H>, room: Seq<char>, id: usize) -> Rooms<H> {
    rooms.insert(room, members_of(rooms, room).remove(id))
}

impl<H> CodeServer<H> {
    /// Lets the connection behind `event` join its room under `id`, if no
    /// member of that room holds `id`. If one does, nothing changes and the
    /// event comes back for another try.
    pub fn join(&mut self, event: Connect<H>, id: usize) -> (outcome: Result<usize, Connect<H>>)
        ensures
            match outcome {
                Ok(given) => {
                    &&& given == id
                    &&& !old(self).members(event.room_id@).contains_key(id)
                    &&& final(self)@ == joined(old(self)@, event.room_id@, id, event.addr)
                },
                Err(back) => {
                    &&& old(self).members(event.room_id@).contains_key(id)
                    &&& back == event
                    &&& final(self)@ == old(self)@
                },
            },
    {
        let mut room = self.rooms.take_room(event.room_id.as_str());
        if room.contains_key(&id) {
            self.rooms.restore(event.room_id.as_str(), room);
            assert(self@ =~= old(self)@);
            Err(event)
        } else {
            room.insert(id, event.addr);
            self.rooms.restore(event.room_id.as_str(), room);
            assert(self@ =~= joined(old(self)@, event.room_id@, id, event.addr));
            Ok(id)
        }
    }

    /// A new connection joins its room. It gets an id that no member of the
    /// room holds: a random one, drawn again when it is taken. Every other
    /// member, and every other room, stays as it was.
    pub fn handle_connect(&mut self, event: Connect<H>) -> (id: usize)
        ensures
            !old(self).members(event.room_id@).contains_key(id),
            final(self)@ == joined(old(self)@, event.room_id@, id, event.addr),
    {
        let mut pending = event;
        let mut draws: usize = 0;
        while draws < ID_DRAWS
            invariant
                self@ == old(self)@,
                pending == event,
            decreases ID_DRAWS - draws,
        {
            let candidate = random_id(&mut self.rng);
            match self.join(pending, candidate) {
                Ok(id) => {
                    return id;
                },
                Err(back) => {
                    pending = back;
                },
            }
            draws = draws + 1;
        }
        let mut room = self.rooms.take_room(pending.room_id.as_str());
        let id = lowest_vacant_id(&room);
        room.insert(id, pending.addr);
        self.rooms.restore(pending.room_id.as_str(), room);
        assert(self@ =~= joined(old(self)@, event.room_id@, id, event.addr));
        id
    }

    /// A session has closed: it is a member of its room no longer.
    pub fn handle_disconnect(&mut self, msg: Disconnect)
        ensures
            final(self)@ == left(old(self)@, msg.room_id@, msg.id),
    {
        self.rooms.remove_member(msg.room_id.as_str(), msg.id);
    }

    /// A session submits edits. They go to the log of the room and, as one
    /// update, to every member of the room but the session that made them.
    pub fn handle_code_update(&mut self, msg: CodeUpdate) -> (edit: EditBroadcast)
        ensures
            edit.log_key@ == key_of(msg.room_id@),
            edit.update.room_id == msg.room_id,
            edit.update.message == WsMessage::CodeUpdate(
                (CodeUpdateOutput { user: msg.user, content: msg.code }),
            ),
            each_once(edit.update.recipients@, edit_recipients(old(self)@, msg.room_id@, msg.id)),
            final(self)@ == touched(old(self)@, msg.room_id@),
    {
        let log_key = room_key(msg.room_id.as_str());
        let recipients = self.recipients(msg.room_id.as_str(), Some(msg.id));
        let message = WsMessage::CodeUpdate(CodeUpdateOutput { user: msg.user, content: msg.code });
        EditBroadcast { log_key, update: Broadcast { room_id: msg.room_id, message, recipients } }
    }

    /// A session asks for an execution. The broker does not wait for it: it
    /// notes who is in the room now and hands the request on.
    pub fn handle_compile(&mut self, msg: CompileCode) -> (dispatch: CompileDispatch)
        ensures
            dispatch.room_id@ == msg.room_id@,
            dispatch.request.stdin == msg.code,
            dispatch.request.language == msg.language,
            each_once(dispatch.recipients@, compile_recipients(old(self)@, msg.room_id@)),
            final(self)@ == touched(old(self)@, msg.room_id@),
    {
        self.execute_code(msg.code, msg.room_id.as_str(), msg.language)
    }
}

} // verus!
