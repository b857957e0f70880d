//! What is exchanged with the code-execution service.

use vstd::prelude::*;
use crate::models::event::Language;

verus! {

/// A request to run `stdin` as a program written in `language`.
#[derive(Debug, Clone, PartialEq, Eq)]
pub struct ProgramRequest {
    pub stdin: String,
    pub language: Language,
}

/// What a program printed.
#[derive(Debug, Clone, PartialEq, Eq)]
pub struct ProgramResponse {
    pub stdout: String,
}

} // verus!
