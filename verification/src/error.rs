//! The error taxonomy shared by every operation of the session layer.

use vstd::prelude::*;

verus! {

/// What went wrong. Only `ExitStatus` carries data of its own.
#[derive(Debug, Clone, PartialEq, Eq)]
pub enum ErrorKind {
    /// An uncategorised failure described by the message alone.
    Message,
    Unimplemented,
    /// The transport link behind a connection or shell is gone.
    NeedsReconnect,
    /// A credential or trust failure.
    Authorization,
    /// An unknown token or connection key.
    NotFound,
    EmptyData,
    /// The result of a remote command that ran to completion.
    ExitStatus { status: u32, output: Vec<u8> },
}

/// A failure reported to the caller: human-readable text plus its kind.
#[derive(Debug, Clone, PartialEq, Eq)]
pub struct Error {
    pub message: String,
    pub kind: ErrorKind,
}

impl Error {
    /// Whether this is the condition raised when a shell has no live channel
    /// or outbound sender.
    pub open spec fn is_disconnected(&self) -> bool {
        self.kind is NeedsReconnect && self.message@ == "disconnected"@
    }

    /// Whether this reports an unknown token or connection key.
    pub open spec fn is_not_found(&self) -> bool {
        self.kind is NotFound && self.message@ == "not found"@
    }

    /// Whether this reports a terminal size that the mirror cannot take.
    pub open spec fn is_invalid_size(&self) -> bool {
        self.kind is Message && self.message@ == "invalid terminal size"@
    }

    /// An error of the given kind with the given text.
    pub fn new(message: &str, kind: ErrorKind) -> (e: Error)
        ensures
            e.message@ == message@,
            e.kind == kind,
    {
        Error { message: message.to_owned(), kind }
    }

    /// The uniform "disconnected" condition.
    pub fn disconnected() -> (e: Error)
        ensures
            e.is_disconnected(),
    {
        Error { message: "disconnected".to_owned(), kind: ErrorKind::NeedsReconnect }
    }

    /// The condition raised for an unknown token or connection key.
    pub fn not_found() -> (e: Error)
        ensures
            e.is_not_found(),
    {
        Error { message: "not found".to_owned(), kind: ErrorKind::NotFound }
    }

    /// The failure raised for a terminal size that the mirror cannot take.
    pub fn invalid_size() -> (e: Error)
        ensures
            e.is_invalid_size(),
    {
        Error { message: "invalid terminal size".to_owned(), kind: ErrorKind::Message }
    }

    /// The error as the holder of a shell meets it. A shell that is no
    /// longer filed was closed, so to the one who still holds it the
    /// not-found condition is the disconnected one; any other error stays as
    /// it is.
    pub fn seen_by_holder(self) -> (e: Error)
        ensures
            self.kind is NotFound ==> e.is_disconnected(),
            !(self.kind is NotFound) ==> e == self,
    {
        match self.kind {
            ErrorKind::NotFound => Error::disconnected(),
            _ => self,
        }
    }
}

} // verus!
