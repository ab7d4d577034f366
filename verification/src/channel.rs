//! The vocabulary shared with the transport: what a channel delivers, and
//! what the caller is asked to perform on it.

use vstd::prelude::*;

use crate::error::Error;
use crate::token::ShellToken;

verus! {

/// One message delivered by the transport channel.
#[derive(Debug, PartialEq, Eq)]
pub enum ChannelEvent {
    /// Primary output.
    Data { data: Vec<u8> },
    /// Output on an extension stream; code 1 is the error stream.
    ExtendedData { data: Vec<u8>, ext: u32 },
    /// The remote command's exit status.
    ExitStatus { exit_status: u32 },
    /// The remote end will send no more data.
    Eof,
    /// The remote end closed the channel.
    Close,
    /// Any message this layer has no use for.
    Other,
}

/// A request to perform on the transport channel.
#[derive(Debug, PartialEq, Eq)]
pub enum ChannelRequest {
    /// Negotiate a pseudo-terminal. No terminal modes are sent.
    Pty {
        want_reply: bool,
        term: String,
        col_width: u32,
        row_height: u32,
        pix_width: u32,
        pix_height: u32,
    },
    /// Start an interactive shell.
    Shell { want_reply: bool },
    /// Tell the remote end the new window size.
    WindowChange { col_width: u32, row_height: u32, pix_width: u32, pix_height: u32 },
    /// Write these bytes, unchanged.
    Data(Vec<u8>),
    /// Close the channel.
    Close,
}

/// How the PTY request ended.
#[derive(Debug, PartialEq, Eq)]
pub enum PtyOutcome {
    /// The remote end granted the PTY.
    Granted,
    /// The request was turned away with the transport's "send not permitted"
    /// condition.
    SendRejected,
    /// Any other failure.
    Failed(Error),
}

/// A chunk of shell output on its way to the caller's sink. Descriptor 0 is
/// primary output, descriptor 1 is error output.
#[derive(Debug, Clone, PartialEq, Eq, Hash)]
pub struct ShellData {
    pub token: ShellToken,
    pub fd: u32,
    pub data: Vec<u8>,
}

/// A chunk of output of a non-interactive command, with its running number.
#[derive(Debug, Clone, PartialEq, Eq)]
pub struct ProcData {
    pub index: u64,
    pub data: Vec<u8>,
}

impl ChannelRequest {
    /// Whether this is the PTY request for a terminal of the given size: a
    /// reply is wanted, the terminal type is `xterm`, and no pixel size is
    /// given.
    pub open spec fn is_pty(&self, cols: u16, rows: u16) -> bool {
        &&& *self matches ChannelRequest::Pty {
            want_reply,
            term,
            col_width,
            row_height,
            pix_width,
            pix_height,
        }
        &&& want_reply
        &&& term@ == "xterm"@
        &&& col_width == cols
        &&& row_height == rows
        &&& pix_width == 0
        &&& pix_height == 0
    }

    /// The PTY request for a terminal of the given size.
    pub fn pty(cols: u16, rows: u16) -> (request: ChannelRequest)
        ensures
            request.is_pty(cols, rows),
    {
        ChannelRequest::Pty {
            want_reply: true,
            term: "xterm".to_owned(),
            col_width: cols as u32,
            row_height: rows as u32,
            pix_width: 0,
            pix_height: 0,
        }
    }

    /// The window-change request for the given size, without a pixel size.
    pub fn window_change(cols: u16, rows: u16) -> (request: ChannelRequest)
        ensures
            request == (ChannelRequest::WindowChange {
                col_width: cols as u32,
                row_height: rows as u32,
                pix_width: 0,
                pix_height: 0,
            }),
    {
        ChannelRequest::WindowChange {
            col_width: cols as u32,
            row_height: rows as u32,
            pix_width: 0,
            pix_height: 0,
        }
    }
}

} // verus!
