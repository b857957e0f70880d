//! What a session does about each frame that arrives on its connection.

use vstd::prelude::*;
use vstd::string::*;
use crate::code_session::{
    code_updates_reaction,
    compile_reaction,
    CodeSession,
    Reaction,
    ReactionView,
};
use crate::text::{after_space, before_space, same_text, split_at_space, trim, trimmed};

verus! {

/// A frame as it comes off a connection.
#[derive(Debug, Clone, PartialEq, Eq)]
pub enum Frame {
    Text(String),
    Binary(Vec<u8>),
    Continuation,
    Ping(Vec<u8>),
    Pong(Vec<u8>),
    Close,
    Nop,
    /// The connection broke, or the peer did not keep to the protocol.
    Failed,
}

/// What a session does about a frame.
#[derive(Debug, Clone, PartialEq, Eq)]
pub enum FrameOutcome {
    /// Nothing is sent.
    Nothing,
    /// A pong goes back, with the bytes of the ping.
    Pong(Vec<u8>),
    /// The frame was text. This is what the session does about it.
    Text(Reaction),
    /// The connection is to be ended.
    Stop,
}

/// Whether `msg` is a command: whether it starts with a slash.
pub open spec fn is_command(msg: Seq<char>) -> bool {
    msg.len() > 0 && msg[0] == '/'
}

/// What the session `id` of `room` does about the line `text`. White space
/// around the line does not count. A line that starts with a slash is a
/// command: its verb ends at the first space, and what follows that space is
/// its argument.
pub open spec fn text_reaction(id: usize, room: Seq<char>, text: Seq<char>) -> ReactionView {
    let msg = trimmed(text);
    let verb = before_space(msg);
    let rest = after_space(msg);
    if !is_command(msg) {
        ReactionView::Ignored
    } else if verb == "/name"@ {
        match rest {
            Some(name) => ReactionView::Reply("name changed to: "@ + name),
            None => ReactionView::Reply("!!! name is required"@),
        }
    } else if verb == "/compile"@ {
        compile_reaction(id, room, rest)
    } else if verb == "/code_updates"@ {
        code_updates_reaction(rest)
    } else {
        ReactionView::Reply("!!! unknown command: "@ + msg)
    }
}

/// The name that a client goes by after the line `text`, if it went by
/// `name` before: `/name` with an argument changes it, nothing else does.
pub open spec fn name_after(name: Option<Seq<char>>, text: Seq<char>) -> Option<Seq<char>> {
    let msg = trimmed(text);
    if is_command(msg) && before_space(msg) == "/name"@ && after_space(msg) is Some {
        after_space(msg)
    } else {
        name
    }
}

/// The name that a session goes by, as a sequence of characters.
pub open spec fn name_of(session: CodeSession) -> Option<Seq<char>> {
    match session.name {
        Some(name) => Some(name@),
        None => None,
    }
}

impl CodeSession {
    /// A line of text from the client.
    pub fn handle_text_message(&mut self, text: &str) -> (reaction: Reaction)
        ensures
            reaction@ == text_reaction(old(self).id, old(self).room@, text@),
            name_of(*final(self)) == name_after(name_of(*old(self)), text@),
            final(self).id == old(self).id,
            final(self).hb == old(self).hb,
            final(self).room == old(self).room,
            final(self).user == old(self).user,
            final(self).state == old(self).state,
    {
        let msg = trim(text);
        if msg.unicode_len() == 0 || msg.get_char(0) != '/' {
            return Reaction::Ignored;
        }
        let (verb, rest) = split_at_space(msg);
        if same_text(verb, "/name") {
            match rest {
                Some(name) => {
                    self.name = Some(name.to_owned());
                    let mut reply: String = "name changed to: ".to_owned();
                    reply.append(name);
                    Reaction::Reply(reply)
                },
                None => Reaction::Reply("!!! name is required".to_owned()),
            }
        } else if same_text(verb, "/compile") {
            self.compile_code(rest)
        } else if same_text(verb, "/code_updates") {
            self.code_updates(rest)
        } else {
            let mut reply: String = "!!! unknown command: ".to_owned();
            reply.append(msg);
            Reaction::Reply(reply)
        }
    }

    /// A frame from the client, arriving at `now`. Pings and pongs are signs
    /// of life. A close frame or a broken connection ends the session.
    pub fn handle_frame(&mut self, frame: Frame, now: u64) -> (outcome: FrameOutcome)
        ensures
            final(self).id == old(self).id,
            final(self).room == old(self).room,
            final(self).user == old(self).user,
            match frame {
                Frame::Ping(bytes) => outcome == FrameOutcome::Pong(bytes) && *final(self) == (CodeSession {
                    hb: now,
                    ..*old(self)
                }),
                Frame::Pong(_) => outcome == FrameOutcome::Nothing && *final(self) == (CodeSession {
                    hb: now,
                    ..*old(self)
                }),
                Frame::Text(text) => {
                    &&& outcome matches FrameOutcome::Text(reaction) && reaction@ == text_reaction(
                        old(self).id,
                        old(self).room@,
                        text@,
                    )
                    &&& name_of(*final(self)) == name_after(name_of(*old(self)), text@)
                    &&& final(self).hb == old(self).hb
                    &&& final(self).state == old(self).state
                },
                Frame::Close | Frame::Failed => outcome == FrameOutcome::Stop && *final(self) == (CodeSession {
                    state: old(self).state.closing(),
                    ..*old(self)
                }),
                Frame::Binary(_) | Frame::Continuation | Frame::Nop => outcome == FrameOutcome::Nothing
                    && *final(self) == *old(self),
            },
    {
        match frame {
            Frame::Ping(bytes) => {
                self.refresh(now);
                FrameOutcome::Pong(bytes)
            },
            Frame::Pong(_) => {
                self.refresh(now);
                FrameOutcome::Nothing
            },
            Frame::Text(text) => FrameOutcome::Text(self.handle_text_message(text.as_str())),
            Frame::Close => {
                self.close();
                FrameOutcome::Stop
            },
            Frame::Failed => {
                self.close();
                FrameOutcome::Stop
            },
            _ => FrameOutcome::Nothing,
        }
    }
}

} // verus!
