//! The broker's state and the two kinds of broadcast that it computes.

use vstd::prelude::*;
use rand::rngs::ThreadRng;
use crate::code_server::registry::{members_of, CodeRoom, RoomRegistry, Rooms};
use crate::code_server::room::{all_but, each_once, member_ids};
use crate::models::event::{CompilationEvent, CompilationState, Language, WsMessage};
use crate::models::program_dto::{ProgramRequest, ProgramResponse};

verus! {

/// A message with the room it is meant for and the ids of the members that
/// are to receive it. Sending is left to whoever holds the connections: a
/// send that fails is dropped and nobody is told.
pub struct Broadcast<M> {
    pub room_id: String,
    pub message: M,
    pub recipients: Vec<usize>,
}

/// A request that is on its way to the execution service, with the members
/// that were in the room when it left. They, and only they, get the answer.
pub struct CompileDispatch {
    pub room_id: String,
    pub request: ProgramRequest,
    pub recipients: Vec<usize>,
}

/// The members of `room` that receive an edit made by `sender`: everybody in
/// the room but the sender.
pub open spec fn edit_recipients<H>(rooms: Rooms<H>, room: Seq<char>, sender: usize) -> Set<usize> {
    members_of(rooms, room).dom().remove(sender)
}

/// The members of `room` that receive the result of an execution: everybody
/// in the room, the one who asked for it included.
pub open spec fn compile_recipients<H>(rooms: Rooms<H>, room: Seq<char>) -> Set<usize> {
    members_of(rooms, room).dom()
}

/// The registry after `room` went through a checkout: the room is held,
/// with the members it had. A room that was not held is held empty.
pub open spec fn touched<H>(rooms: Rooms<H>, room: Seq<char>) -> Rooms<H> {
    rooms.insert(room, members_of(rooms, room))
}

/// The broker: every room with its members, and the generator from which
/// session ids are drawn. All changes of membership go through it, one at a
/// time.
pub struct CodeServer<H> {
    pub rooms: RoomRegistry<H>,
    pub rng: ThreadRng,
}

impl<H> View for CodeServer<H> {
    type V = Rooms<H>;

    open spec fn view(&self) -> Rooms<H> {
        self.rooms@
    }
}

impl<H> CodeServer<H> {
    /// A broker without rooms.
    pub fn new() -> (server: CodeServer<H>)
        ensures
            server@ == Map::<Seq<char>, Map<usize, H>>::empty(),
    {
        CodeServer { rooms: RoomRegistry::new(), rng: rand::thread_rng() }
    }

    /// The members of `room`; none if the broker does not hold it.
    pub open spec fn members(&self, room: Seq<char>) -> Map<usize, H> {
        members_of(self@, room)
    }

    /// Checks the room `room_id` out: hands over its members and holds the
    /// room no longer. A room that was not held comes out empty. Whoever
    /// takes a room has to put it back, or its members are lost.
    pub fn take_room(&mut self, room_id: &str) -> (room: Option<CodeRoom<H>>)
        ensures
            room is Some,
            room->0@ == old(self).members(room_id@),
            final(self)@ == old(self)@.remove(room_id@),
    {
        Some(self.rooms.take_room(room_id))
    }

    /// Works out who gets `message`, an edit that `skip_id` made in
    /// `room_id`: every member of the room once, but not `skip_id`.
    pub fn send_update_code(&mut self, message: &str, skip_id: usize, room_id: &str) -> (sent:
        Broadcast<String>)
        ensures
            sent.room_id@ == room_id@,
            sent.message@ == message@,
            each_once(sent.recipients@, edit_recipients(old(self)@, room_id@, skip_id)),
            final(self)@ == touched(old(self)@, room_id@),
    {
        let recipients = self.recipients(room_id, Some(skip_id));
        Broadcast { room_id: room_id.to_owned(), message: message.to_owned(), recipients }
    }

    /// Prepares the execution of `code`: the request for the service, and
    /// the members of `room_id` at this moment, each once. The answer goes
    /// to them, whoever has joined or left by the time it arrives.
    pub fn execute_code(&mut self, code: String, room_id: &str, language: Language) -> (dispatch:
        CompileDispatch)
        ensures
            dispatch.room_id@ == room_id@,
            dispatch.request.stdin == code,
            dispatch.request.language == language,
            each_once(dispatch.recipients@, compile_recipients(old(self)@, room_id@)),
            final(self)@ == touched(old(self)@, room_id@),
    {
        let request = ProgramRequest { stdin: code, language };
        let recipients = self.recipients(room_id, None);
        CompileDispatch { room_id: room_id.to_owned(), request, recipients }
    }

    /// Takes the room, reads off who is in it, and puts it back.
    pub(crate) fn recipients(&mut self, room_id: &str, skip: Option<usize>) -> (ids: Vec<usize>)
        ensures
            each_once(ids@, all_but(old(self).members(room_id@).dom(), skip)),
            final(self)@ == touched(old(self)@, room_id@),
    {
        let room = self.rooms.take_room(room_id);
        let ids = member_ids(&room, skip);
        self.rooms.restore(room_id, room);
        assert(self@ =~= touched(old(self)@, room_id@));
        ids
    }
}

impl CompileDispatch {
    /// What to send once the execution service has answered. A program's
    /// output goes to everybody who was in the room when the request left;
    /// when the service failed, nothing is sent to anybody.
    pub fn finish(self, response: Option<ProgramResponse>) -> (sent: Option<Broadcast<WsMessage>>)
        ensures
            response is None ==> sent is None,
            response matches Some(answer) ==> sent == Some(
                (Broadcast {
                    room_id: self.room_id,
                    message: WsMessage::CompilationEvent(
                        (CompilationEvent { state: CompilationState::END, stdout: Some(answer.stdout) }),
                    ),
                    recipients: self.recipients,
                }),
            ),
    {
        match response {
            Some(answer) => {
                let execution = WsMessage::CompilationEvent(
                    CompilationEvent { state: CompilationState::END, stdout: Some(answer.stdout) },
                );
                Some(Broadcast { room_id: self.room_id, message: execution, recipients: self.recipients })
            },
            None => None,
        }
    }
}

} // verus!
