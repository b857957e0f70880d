//! Commands that sessions send to the broker, and messages that the broker
//! sends to clients.

use vstd::prelude::*;
use crate::models::delta::Delta;
use crate::models::user::User;

verus! {

/// A language that the execution service can run.
#[allow(non_camel_case_types)]
#[derive(Debug, Clone, Copy, PartialEq, Eq, Structural)]
pub enum Language {
    DART,
    PYTHON,
    C,
}

impl Language {
    /// The language that a client names by `name`, if it names one. Names are
    /// matched exactly, in upper case.
    pub open spec fn named(name: Seq<char>) -> Option<Language> {
        if name == "DART"@ {
            Some(Language::DART)
        } else if name == "PYTHON"@ {
            Some(Language::PYTHON)
        } else if name == "C"@ {
            Some(Language::C)
        } else {
            None
        }
    }

    /// Reads a language from the name a client gave.
    pub fn from_name(name: &str) -> (language: Option<Language>)
        ensures
            language == Language::named(name@),
    {
        let name: String = name.to_owned();
        if name == "DART".to_owned() {
            Some(Language::DART)
        } else if name == "PYTHON".to_owned() {
            Some(Language::PYTHON)
        } else if name == "C".to_owned() {
            Some(Language::C)
        } else {
            None
        }
    }
}

/// A serialized message on its way to one client.
#[derive(Debug, Clone, PartialEq, Eq)]
pub struct Message(pub String);

/// A batch of edits that the session `id` of room `room_id` submits on behalf
/// of `user`.
#[derive(Debug, Clone, PartialEq, Eq)]
pub struct CodeUpdate {
    pub id: usize,
    pub code: Vec<Delta>,
    pub user: User,
    pub room_id: String,
}

impl CodeUpdate {
    pub fn new(id: usize, code: Vec<Delta>, room_id: String, user: User) -> (update: CodeUpdate)
        ensures
            update.id == id,
            update.code == code,
            update.user == user,
            update.room_id == room_id,
    {
        CodeUpdate { id, user, code, room_id }
    }
}

/// A request of the session `id` of room `room_id` to run `code`.
#[derive(Debug, Clone, PartialEq, Eq)]
pub struct CompileCode {
    pub id: usize,
    pub code: String,
    pub language: Language,
    pub room_id: String,
}

impl CompileCode {
    pub fn new(id: usize, language: Language, code: String, room_id: String) -> (request:
        CompileCode)
        ensures
            request.id == id,
            request.language == language,
            request.code == code,
            request.room_id == room_id,
    {
        CompileCode { id, code, language, room_id }
    }
}

/// A new connection asks to join `room_id`. `addr` is the handle on which the
/// connection receives messages; the broker stores it and never looks inside.
pub struct Connect<H> {
    pub addr: H,
    pub room_id: String,
    pub user_id: User,
}

/// The session `id` of room `room_id` has closed. Session ids are unique
/// within a room only, so leaving names the room as well.
#[derive(Debug, Clone, PartialEq, Eq)]
pub struct Disconnect {
    pub id: usize,
    pub room_id: String,
}

/// Where a remote execution stands.
#[allow(non_camel_case_types)]
#[derive(Debug, Clone, Copy, PartialEq, Eq, Structural)]
pub enum CompilationState {
    START,
    END,
}

/// Everything the server sends to a client.
#[derive(Debug, Clone, PartialEq, Eq)]
pub enum WsMessage {
    Message(ChatMessage),
    CodeUpdate(CodeUpdateOutput),
    CompilationEvent(CompilationEvent),
}

/// A chat line.
#[derive(Debug, Clone, PartialEq, Eq)]
pub struct ChatMessage {
    pub user: User,
    pub content: String,
    pub room_id: String,
}

/// Edits made by `user`, in the order in which they apply.
#[derive(Debug, Clone, PartialEq, Eq)]
pub struct CodeUpdateOutput {
    pub user: User,
    pub content: Vec<Delta>,
}

/// A step of a remote execution, with what the program printed once it has
/// ended.
#[derive(Debug, Clone, PartialEq, Eq)]
pub struct CompilationEvent {
    pub state: CompilationState,
    pub stdout: Option<String>,
}

} // verus!
