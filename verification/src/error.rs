//! The errors of the engine.

use vstd::prelude::*;

verus! {

/// What went wrong.
#[derive(Clone, Copy, Debug, PartialEq, Eq, Structural)]
pub enum ErrorKind {
    /// The configuration is malformed or lacks what is needed.
    Config,
    /// An alias cannot be expanded.
    Alias,
    /// The arguments name no command or are invalid for it.
    Argument,
    /// The external shell could not be started.
    Spawn,
    /// A command failed while it ran.
    Command,
}

/// An error with the text shown to the user.
#[derive(Debug)]
pub struct Error {
    pub kind: ErrorKind,
    pub message: String,
}

impl Error {
    /// This error is of kind `kind` and reads `message`.
    pub open spec fn is(&self, kind: ErrorKind, message: Seq<char>) -> bool {
        self.kind == kind && self.message@ == message
    }

    pub fn new(kind: ErrorKind, message: &str) -> (e: Error)
        ensures
            e.is(kind, message@),
    {
        Error { kind, message: String::from_str(message) }
    }

    pub fn config(message: &str) -> (e: Error)
        ensures
            e.is(ErrorKind::Config, message@),
    {
        Error::new(ErrorKind::Config, message)
    }

    pub fn alias(message: &str) -> (e: Error)
        ensures
            e.is(ErrorKind::Alias, message@),
    {
        Error::new(ErrorKind::Alias, message)
    }

    pub fn argument(message: &str) -> (e: Error)
        ensures
            e.is(ErrorKind::Argument, message@),
    {
        Error::new(ErrorKind::Argument, message)
    }

    pub fn spawn(message: &str) -> (e: Error)
        ensures
            e.is(ErrorKind::Spawn, message@),
    {
        Error::new(ErrorKind::Spawn, message)
    }

    pub fn command(message: &str) -> (e: Error)
        ensures
            e.is(ErrorKind::Command, message@),
    {
        Error::new(ErrorKind::Command, message)
    }

    /// The text shown to the user.
    pub fn to_string(&self) -> (s: String)
        ensures
            s@ == self.message@,
    {
        self.message.clone()
    }

    /// The exit code of a process that ends with this error.
    pub fn exit_code(&self) -> (code: i32)
        ensures
            code == 1,
    {
        1
    }
}

} // verus!
