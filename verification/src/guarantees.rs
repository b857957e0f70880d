//! What sessions and the broker guarantee together: that a client which
//! falls silent leaves its room in time, that the broker is told of each
//! ending once, and that a new member is brought up to date completely.

use vstd::prelude::*;
use crate::code_server::code_server::{compile_recipients, edit_recipients};
use crate::code_server::handlers::left;
use crate::code_server::registry::{members_of, Rooms};
use crate::code_session::{caught_up, timed_out, CodeSession, SessionState, CLIENT_TIMEOUT, HEARTBEAT_INTERVAL};
use crate::delta_log::{appended_all, history, lemma_history_is_batches_in_order, LogStore};
use crate::models::delta::Delta;

verus! {

/// A session checks its client's heartbeat once in every interval. If the
/// check at `previous` found the client alive and the next check does not,
/// then the next check comes no later than one interval after the moment
/// the client's time ran out. Any check after that moment finds it out.
pub proof fn lemma_silence_is_noticed_in_time(last: u64, previous: u64, next: u64)
    requires
        next == previous + HEARTBEAT_INTERVAL,
        !timed_out(last, previous),
    ensures
        timed_out(last, next) ==> next <= last + CLIENT_TIMEOUT + HEARTBEAT_INTERVAL,
        forall|now: u64| now > last + CLIENT_TIMEOUT ==> timed_out(last, now),
{
}

/// When the heartbeat of a session that has not ended runs out, the broker
/// is told that the session leaves, under the id and for the room that the
/// session holds. Once the broker has acted on that, the session is no
/// member of the room, and no later broadcast in the room goes to it.
pub proof fn lemma_silent_session_leaves<H>(session: CodeSession, now: u64, rooms: Rooms<H>, sender: usize)
    requires
        session.state != SessionState::Closed,
        timed_out(session.hb, now),
    ensures
        session.parting() matches Some(told) && told.id == session.id && told.room_id == session.room
            && !members_of(left(rooms, told.room_id@, told.id), session.room@).contains_key(session.id)
            && !edit_recipients(left(rooms, told.room_id@, told.id), session.room@, sender).contains(
            session.id,
        ) && !compile_recipients(left(rooms, told.room_id@, told.id), session.room@).contains(session.id),
{
}

/// The broker is told of a session's end once. Whatever starts the end
/// leaves the message still to be sent; once it has been sent, there is
/// none left, however often the session is stopped again.
pub proof fn lemma_end_is_told_once(session: CodeSession)
    ensures
        session.state != SessionState::Closed ==> session.parting() is Some,
        (CodeSession { state: session.state.closing(), ..session }).parting() is Some
            <==> session.parting() is Some,
        session.parted().parting() is None,
        session.parted().parted() == session.parted(),
{
}

/// A session that joins a room after some batches of deltas were appended
/// to the room's log, and before any further edit, is sent exactly those
/// deltas: all of them, each once, in the order in which they were appended.
/// This holds of a log that keeps what it is given as `appended` says.
pub proof fn lemma_catch_up_is_complete(
    store: LogStore,
    room: Seq<char>,
    batches: Seq<Seq<Delta>>,
    read: Vec<Delta>,
)
    requires
        history(store, room) == Seq::<Delta>::empty(),
        read@ == history(appended_all(store, room, batches), room),
    ensures
        caught_up(Some(read)) == batches.flatten(),
{
    lemma_history_is_batches_in_order(store, room, batches);
    assert(Seq::<Delta>::empty() + batches.flatten() =~= batches.flatten());
}

} // verus!
