//! One connection as the server sees it: its identity, its heartbeat, and
//! what it makes of the commands that its client sends.

use vstd::prelude::*;
use vstd::string::*;
use crate::delta_log::{key_of, room_key};
use crate::models::delta::Delta;
use crate::models::event::{
    CodeUpdate,
    CodeUpdateOutput,
    CompileCode,
    Connect,
    Disconnect,
    Language,
    Message,
    WsMessage,
};
use crate::models::user::User;
use crate::text::{after_space, before_space, split_at_space};

verus! {

/// How often a session checks that its client is alive, in milliseconds.
pub const HEARTBEAT_INTERVAL: u64 = 5000;

/// How long a client may stay silent before its session gives it up, in
/// milliseconds.
pub const CLIENT_TIMEOUT: u64 = 10000;

/// Where a session stands between the handshake and the end.
#[derive(Debug, Clone, Copy, PartialEq, Eq, Hash, Structural)]
pub enum SessionState {
    /// The broker has not answered the request to join yet.
    Connecting,
    /// The session is a member of its room.
    Active,
    /// The connection is going down; the broker has not been told yet.
    Closing,
    /// The broker has been told. Nothing more comes from this session.
    Closed,
}

/// One connection's state on the server.
#[derive(Debug, Clone, PartialEq, Eq, Hash)]
pub struct CodeSession {
    /// The id under which the session is a member of its room.
    pub id: usize,
    /// When the client last gave a sign of life, in milliseconds on the
    /// server's clock.
    pub hb: u64,
    pub room: String,
    pub user: String,
    /// The name that the client chose for itself, if it chose one.
    pub name: Option<String>,
    pub state: SessionState,
}

/// What a session does about a line of text from its client.
#[derive(Debug, Clone, PartialEq, Eq)]
pub enum Reaction {
    /// The line is no command. It is dropped.
    Ignored,
    /// A line of text goes back to the client, and to nobody else.
    Reply(String),
    /// A request for an execution goes to the broker.
    Compile(CompileCode),
    /// The client sent a batch of deltas. This is the batch as the client
    /// wrote it; once it has been read, `submit_changes` says what follows.
    CodeUpdates(String),
}

/// A `Reaction`, with its texts as sequences of characters.
pub enum ReactionView {
    Ignored,
    Reply(Seq<char>),
    Compile { id: usize, language: Language, code: Seq<char>, room_id: Seq<char> },
    CodeUpdates(Seq<char>),
}

impl View for Reaction {
    type V = ReactionView;

    open spec fn view(&self) -> ReactionView {
        match *self {
            Reaction::Ignored => ReactionView::Ignored,
            Reaction::Reply(text) => ReactionView::Reply(text@),
            Reaction::Compile(request) => ReactionView::Compile {
                id: request.id,
                language: request.language,
                code: request.code@,
                room_id: request.room_id@,
            },
            Reaction::CodeUpdates(batch) => ReactionView::CodeUpdates(batch@),
        }
    }
}

/// What follows once a batch of deltas has been read.
#[derive(Debug, Clone, PartialEq, Eq)]
pub enum Submission {
    /// The batch goes to the broker.
    Forward(CodeUpdate),
    /// The batch could not be read. The client is told; nobody else
    /// notices.
    Reply(String),
}

/// What a heartbeat check finds.
#[derive(Debug, Clone, PartialEq, Eq)]
pub enum Heartbeat {
    /// The client was heard of in time. It is pinged again.
    Ping,
    /// The client has been silent for too long. The connection is ended
    /// from the server's side, and the broker is told if it has not been
    /// told already.
    Expired(Option<Disconnect>),
}

/// What the session `id` of `room` does about the arguments of `/compile`.
/// A request needs a language that the service runs, a space, and the code.
pub open spec fn compile_reaction(id: usize, room: Seq<char>, args: Option<Seq<char>>) -> ReactionView {
    match args {
        None => ReactionView::Reply("!!! language is required"@),
        Some(args) => match after_space(args) {
            None => ReactionView::Reply("!!! code is required"@),
            Some(code) => match Language::named(before_space(args)) {
                Some(language) => ReactionView::Compile { id, language, code, room_id: room },
                None => ReactionView::Reply("!!! language is required"@),
            },
        },
    }
}

/// What a session does about the argument of `/code_updates`.
pub open spec fn code_updates_reaction(batch: Option<Seq<char>>) -> ReactionView {
    match batch {
        None => ReactionView::Reply("!!! code is required"@),
        Some(batch) => ReactionView::CodeUpdates(batch),
    }
}

/// Whether a client that was last heard of at `last` counts as gone at
/// `now`. A clock that reads earlier than `last` has not run out.
pub open spec fn timed_out(last: u64, now: u64) -> bool {
    now - last > CLIENT_TIMEOUT
}

/// The deltas of a catch-up message: the history as it was read, or none
/// if it could not be read.
pub open spec fn caught_up(history: Option<Vec<Delta>>) -> Seq<Delta> {
    match history {
        Some(deltas) => deltas@,
        None => Seq::empty(),
    }
}

impl CodeSession {
    /// The session of a connection that was opened at `now` by `user` for
    /// `room`. Until the broker assigns one, `id` stands in as its id.
    pub fn new(id: usize, room: String, user: String, now: u64) -> (session: CodeSession)
        ensures
            session.id == id,
            session.hb == now,
            session.room == room,
            session.user == user,
            session.name is None,
            session.state == SessionState::Connecting,
    {
        CodeSession { id, hb: now, room, user, name: None, state: SessionState::Connecting }
    }

    /// The request to join, for the broker. `addr` is the handle on which
    /// this connection receives messages.
    pub fn started<H>(&self, addr: H) -> (request: Connect<H>)
        ensures
            request.addr == addr,
            request.room_id == self.room,
            request.user_id.user_id == self.user,
    {
        Connect { addr, room_id: self.room.clone(), user_id: User::new(self.user.clone()) }
    }

    /// Takes the broker's answer to the request to join. With an id the
    /// session is a member of its room: the result is the key of the log
    /// from which to read the room's history. Without an answer the session
    /// is over before it began, and there is nothing to read.
    pub fn connected(&mut self, reply: Option<usize>) -> (log_key: Option<String>)
        ensures
            final(self).hb == old(self).hb,
            final(self).room == old(self).room,
            final(self).user == old(self).user,
            final(self).name == old(self).name,
            match reply {
                Some(id) => {
                    &&& final(self).id == id
                    &&& final(self).state == if old(self).state == SessionState::Connecting {
                        SessionState::Active
                    } else {
                        old(self).state
                    }
                },
                None => {
                    &&& final(self).id == old(self).id
                    &&& final(self).state == if old(self).state == SessionState::Closed {
                        SessionState::Closed
                    } else {
                        SessionState::Closing
                    }
                },
            },
            match log_key {
                Some(key) => final(self).state == SessionState::Active && key@ == key_of(old(self).room@),
                None => final(self).state != SessionState::Active,
            },
    {
        match reply {
            Some(id) => {
                self.id = id;
                if self.state == SessionState::Connecting {
                    self.state = SessionState::Active;
                }
            },
            None => {
                self.close();
            },
        }
        if self.state == SessionState::Active {
            Some(room_key(self.room.as_str()))
        } else {
            None
        }
    }

    /// The message that brings a new member up to date: the room's history
    /// as it was read from the log, every delta in its place. A log that
    /// could not be read counts as an empty history.
    pub fn send_current_state(&self, history: Option<Vec<Delta>>) -> (message: WsMessage)
        ensures
            (message matches WsMessage::CodeUpdate(update) && update.user.user_id == self.user
                && update.content@ == caught_up(history)),
    {
        let content = match history {
            Some(deltas) => deltas,
            None => Vec::new(),
        };
        WsMessage::CodeUpdate(CodeUpdateOutput { user: User::new(self.user.clone()), content })
    }

    /// The heartbeat check at `now`.
    pub fn hb(&mut self, now: u64) -> (found: Heartbeat)
        ensures
            !timed_out(old(self).hb, now) ==> found is Ping && *final(self) == *old(self),
            timed_out(old(self).hb, now) ==> found == Heartbeat::Expired(old(self).parting())
                && *final(self) == old(self).parted(),
    {
        if now > self.hb && now - self.hb > CLIENT_TIMEOUT {
            Heartbeat::Expired(self.stopping())
        } else {
            Heartbeat::Ping
        }
    }

    /// The client gave a sign of life at `now`.
    pub fn refresh(&mut self, now: u64)
        ensures
            *final(self) == (CodeSession { hb: now, ..*old(self) }),
    {
        self.hb = now;
    }

    /// The connection is going down: the client closed it, or it broke.
    pub fn close(&mut self)
        ensures
            *final(self) == (CodeSession { state: old(self).state.closing(), ..*old(self) }),
    {
        match self.state {
            SessionState::Connecting => {
                self.state = SessionState::Closing;
            },
            SessionState::Active => {
                self.state = SessionState::Closing;
            },
            _ => {},
        }
    }

    /// What the broker is told when this session ends: that it leaves its
    /// room. A session that is closed has said so already.
    pub open spec fn parting(&self) -> Option<Disconnect> {
        if self.state == SessionState::Closed {
            None
        } else {
            Some(Disconnect { id: self.id, room_id: self.room })
        }
    }

    /// This session, closed.
    pub open spec fn parted(&self) -> CodeSession {
        CodeSession { state: SessionState::Closed, ..*self }
    }

    /// The session ends. Whatever brought the end about, the broker is told
    /// once: the first call hands out the message, later calls nothing.
    pub fn stopping(&mut self) -> (told: Option<Disconnect>)
        ensures
            told == old(self).parting(),
            *final(self) == old(self).parted(),
    {
        if self.state == SessionState::Closed {
            None
        } else {
            self.state = SessionState::Closed;
            Some(Disconnect { id: self.id, room_id: self.room.clone() })
        }
    }

    /// Reads the arguments of `/compile`: a language, a space and the code.
    pub fn compile_code(&self, args: Option<&str>) -> (reaction: Reaction)
        ensures
            reaction@ == compile_reaction(
                self.id,
                self.room@,
                match args {
                    Some(text) => Some(text@),
                    None => None,
                },
            ),
    {
        let args = match args {
            Some(args) => args,
            None => {
                return Reaction::Reply("!!! language is required".to_owned());
            },
        };
        let (language, code) = split_at_space(args);
        let code = match code {
            Some(code) => code,
            None => {
                return Reaction::Reply("!!! code is required".to_owned());
            },
        };
        match Language::from_name(language) {
            Some(language) => Reaction::Compile(
                CompileCode::new(self.id, language, code.to_owned(), self.room.clone()),
            ),
            None => Reaction::Reply("!!! language is required".to_owned()),
        }
    }

    /// Reads the argument of `/code_updates`: a batch of deltas as text.
    pub fn code_updates(&self, batch: Option<&str>) -> (reaction: Reaction)
        ensures
            reaction@ == code_updates_reaction(
                match batch {
                    Some(text) => Some(text@),
                    None => None,
                },
            ),
    {
        match batch {
            Some(batch) => Reaction::CodeUpdates(batch.to_owned()),
            None => Reaction::Reply("!!! code is required".to_owned()),
        }
    }

    /// What follows once a batch of deltas has been read. A batch that was
    /// read goes to the broker as this session's edit, its deltas in their
    /// order. Of one that could not be read the client is told the reason.
    pub fn submit_changes(&self, change: Result<Vec<Delta>, String>) -> (submission: Submission)
        ensures
            match change {
                Ok(deltas) => submission == Submission::Forward(
                    (CodeUpdate {
                        id: self.id,
                        code: deltas,
                        user: (User { user_id: self.user }),
                        room_id: self.room,
                    }),
                ),
                Err(reason) => (submission matches Submission::Reply(text) && text@
                    == "!!! failed to parse changes: "@ + reason@),
            },
    {
        match change {
            Ok(deltas) => Submission::Forward(
                CodeUpdate::new(self.id, deltas, self.room.clone(), User::new(self.user.clone())),
            ),
            Err(reason) => {
                let mut text: String = "!!! failed to parse changes: ".to_owned();
                text.append(reason.as_str());
                Submission::Reply(text)
            },
        }
    }

    /// A message from the broker arrives: its text goes to the client. The
    /// session answers with its id.
    pub fn handle(&self, msg: Message) -> (out: (String, usize))
        ensures
            out.0 == msg.0,
            out.1 == self.id,
    {
        (msg.0, self.id)
    }
}

impl SessionState {
    /// The state after the connection started to go down.
    pub open spec fn closing(self) -> SessionState {
        match self {
            SessionState::Connecting => SessionState::Closing,
            SessionState::Active => SessionState::Closing,
            other => other,
        }
    }
}

} // verus!
