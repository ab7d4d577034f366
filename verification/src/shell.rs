//! One PTY-backed shell: its activation, its terminal mirror, and the
//! streaming loop's handling of what the transport channel delivers.
//!
//! A shell never touches the transport itself. Each operation decides, from
//! the shell's state and what happened, what the caller must perform on the
//! channel, and records what that changes.

use vstd::prelude::*;

use crate::channel::{ChannelEvent, ChannelRequest, PtyOutcome, ShellData};
use crate::error::Error;
use crate::gate::{Admission, Gate};
use crate::lifecycle::{Activation, Lifecycle, StreamAction, StreamEvent};
use crate::mirror::{
    MirrorInput, ShellBuffer, TerminalMirror, geometry_valid, last_geometry, resized,
    size_is_usable, snapshot_cursor, snapshot_rows, usable,
};
use crate::token::ShellToken;

verus! {

/// What a request for the screen leads to.
#[derive(Debug, PartialEq, Eq)]
pub enum ScreenStep {
    /// The shell needs no activation: here is its screen.
    Ready(ShellBuffer),
    /// The shell has to be activated first, beginning with this PTY request.
    Activate(ChannelRequest),
}

/// One interactive shell on a connection.
pub struct Shell {
    token: ShellToken,
    connection: String,
    state: Lifecycle,
    parser: TerminalMirror,
}

impl Shell {
    /// The token that addresses the shell.
    pub closed spec fn address(&self) -> ShellToken {
        self.token
    }

    /// The registry key of the connection the shell runs on. The shell only
    /// names its connection; it does not keep it alive.
    pub closed spec fn connection(&self) -> Seq<char> {
        self.connection@
    }

    /// Where the shell stands.
    pub closed spec fn state(&self) -> Lifecycle {
        self.state
    }

    /// What the terminal mirror has absorbed.
    pub closed spec fn mirror(&self) -> Seq<MirrorInput> {
        self.parser@
    }

    /// The mirror is well formed: its grid has only ever had usable
    /// geometries and has never shrunk.
    pub closed spec fn wf(&self) -> bool {
        self.parser.wf()
    }

    /// A well-formed shell has a mirror with a valid history.
    pub proof fn lemma_wf(&self)
        requires
            self.wf(),
        ensures
            geometry_valid(self.mirror()),
            usable(last_geometry(self.mirror()).0, last_geometry(self.mirror()).1),
    {
        self.parser.lemma_wf();
    }

    /// A shell on a freshly opened channel of the connection filed under
    /// `connection`, with a mirror of 24 rows and 80 columns.
    pub fn new(token: ShellToken, connection: String) -> (shell: Shell)
        ensures
            shell.wf(),
            shell.address() == token,
            shell.connection() == connection@,
            shell.state() == Lifecycle::created(),
            shell.mirror() == seq![MirrorInput::Resize { rows: 24, cols: 80 }],
    {
        Shell {
            token,
            connection,
            state: Lifecycle {
                channel: true,
                sender: false,
                ready: Gate::NotActivated,
                status: None,
                eof: false,
            },
            parser: TerminalMirror::new(24, 80),
        }
    }

    /// The token that addresses the shell.
    pub fn token(&self) -> (token: &ShellToken)
        ensures
            *token == self.address(),
    {
        &self.token
    }

    /// The registry key of the connection the shell runs on.
    pub fn connection_key(&self) -> (key: &String)
        ensures
            key@ == self.connection(),
    {
        &self.connection
    }

    /// The size of the mirror's grid, as `(rows, columns)`.
    pub fn mirror_size(&self) -> (size: (u16, u16))
        requires
            self.wf(),
        ensures
            size == last_geometry(self.mirror()),
            usable(size.0, size.1),
    {
        self.parser.size()
    }

    /// Where the shell stands.
    pub fn lifecycle(&self) -> (state: Lifecycle)
        ensures
            state == self.state(),
    {
        self.state
    }

    /// Accepts bytes for the outbound queue. Succeeds, with the bytes to
    /// queue, when the outbound sender is installed; otherwise the shell is
    /// disconnected.
    pub fn write(&self, data: &[u8]) -> (queued: Result<Vec<u8>, Error>)
        ensures
            self.state().sender ==> (queued matches Ok(bytes) && bytes@ == data@),
            !self.state().sender ==> (queued matches Err(e) && e.is_disconnected()),
    {
        if self.state.sender {
            Ok(vstd::slice::slice_to_vec(data))
        } else {
            Err(Error::disconnected())
        }
    }

    /// Decides a resize. Once the channel was taken the shell is
    /// disconnected, whatever the size. A size that the mirror cannot take is
    /// refused before anything is asked of the remote end. Otherwise the
    /// window-change request is handed out; the mirror follows through
    /// `window_changed`, once the request has been performed.
    pub fn resize(&self, cols: u16, rows: u16) -> (request: Result<ChannelRequest, Error>)
        ensures
            !self.state().channel ==> (request matches Err(e) && e.is_disconnected()),
            self.state().channel && !usable(rows, cols) ==> (request matches Err(e)
                && e.is_invalid_size()),
            self.state().channel && usable(rows, cols) ==> request == Ok::<ChannelRequest, Error>(
                ChannelRequest::WindowChange {
                    col_width: cols as u32,
                    row_height: rows as u32,
                    pix_width: 0,
                    pix_height: 0,
                },
            ),
    {
        if !self.state.channel {
            Err(Error::disconnected())
        } else if !size_is_usable(rows, cols) {
            Err(Error::invalid_size())
        } else {
            Ok(ChannelRequest::window_change(cols, rows))
        }
    }

    /// Ends a resize with the outcome of the window-change request. When the
    /// request went through, the mirror takes the size the remote end was
    /// told. When it failed, the mirror stays as it was and the error is
    /// handed on. A size that the mirror cannot take changes nothing either.
    pub fn window_changed(&mut self, outcome: Result<(), Error>, cols: u16, rows: u16) -> (done:
        Result<(), Error>)
        requires
            old(self).wf(),
        ensures
            final(self).wf(),
            final(self).address() == old(self).address(),
            final(self).connection() == old(self).connection(),
            final(self).state() == old(self).state(),
            match outcome {
                Ok(_) => if usable(rows, cols) {
                    done is Ok && final(self).mirror() == resized(old(self).mirror(), rows, cols)
                } else {
                    &&& done matches Err(e)
                    &&& e.is_invalid_size()
                    &&& final(self).mirror() == old(self).mirror()
                },
                Err(e) => done == Err::<(), Error>(e) && final(self).mirror() == old(
                    self,
                ).mirror(),
            },
    {
        match outcome {
            Ok(()) => {
                if size_is_usable(rows, cols) {
                    self.parser.set_size(rows, cols);
                    Ok(())
                } else {
                    Err(Error::invalid_size())
                }
            },
            Err(e) => Err(e),
        }
    }

    /// The mirror's screen as it is, each row formatted up to `cols` columns.
    pub fn snapshot(&self, cols: u16) -> (buffer: ShellBuffer)
        requires
            self.wf(),
        ensures
            buffer.lines() == snapshot_rows(self.mirror(), cols),
            buffer.cursor == snapshot_cursor(self.mirror()),
            buffer.lines().len() <= last_geometry(self.mirror()).0,
            buffer.cursor.1 < last_geometry(self.mirror()).0,
            buffer.cursor.0 <= last_geometry(self.mirror()).1,
    {
        self.parser.snapshot(cols)
    }

    /// Asks for the screen of a terminal of `cols` columns and `rows` rows.
    /// This begins activation first. Where none is needed, the screen comes
    /// back at once, whatever the size. Without a channel the shell is
    /// disconnected, whatever the size. Where the shell has to be activated,
    /// the PTY request comes back instead, and the screen is to be asked for
    /// again once activation has gone through; a size that the mirror cannot
    /// take is refused there, and nothing changes.
    pub fn screen(&mut self, cols: u16, rows: u16) -> (step: Result<ScreenStep, Error>)
        requires
            old(self).wf(),
        ensures
            final(self).wf(),
            final(self).address() == old(self).address(),
            final(self).connection() == old(self).connection(),
            final(self).state() == old(self).state(),
            match old(self).state().activation() {
                Activation::NotNeeded => {
                    &&& step matches Ok(ScreenStep::Ready(buffer))
                    &&& buffer.lines() == snapshot_rows(old(self).mirror(), cols)
                    &&& buffer.cursor == snapshot_cursor(old(self).mirror())
                    &&& buffer.lines().len() <= last_geometry(old(self).mirror()).0
                    &&& buffer.cursor.1 < last_geometry(old(self).mirror()).0
                    &&& buffer.cursor.0 <= last_geometry(old(self).mirror()).1
                    &&& final(self).mirror() == old(self).mirror()
                },
                Activation::Negotiate => if usable(rows, cols) {
                    &&& step matches Ok(ScreenStep::Activate(request))
                    &&& request.is_pty(cols, rows)
                    &&& final(self).mirror() == resized(old(self).mirror(), rows, cols)
                } else {
                    &&& step matches Err(e)
                    &&& e.is_invalid_size()
                    &&& final(self).mirror() == old(self).mirror()
                },
                Activation::Disconnected => {
                    &&& step matches Err(e)
                    &&& e.is_disconnected()
                    &&& final(self).mirror() == old(self).mirror()
                },
            },
    {
        match self.activate(cols, rows) {
            Ok(None) => Ok(ScreenStep::Ready(self.parser.snapshot(cols))),
            Ok(Some(request)) => Ok(ScreenStep::Activate(request)),
            Err(e) => Err(e),
        }
    }

    /// Gives up the channel and the outbound sender. Returns the
    /// channel-close to issue when the channel was still owned, and nothing
    /// when it was taken before.
    pub fn close(&mut self) -> (request: Option<ChannelRequest>)
        ensures
            final(self).wf() == old(self).wf(),
            final(self).address() == old(self).address(),
            final(self).connection() == old(self).connection(),
            final(self).mirror() == old(self).mirror(),
            final(self).state() == old(self).state().closed(),
            request == if old(self).state().channel {
                Some(ChannelRequest::Close)
            } else {
                None
            },
    {
        if self.state.channel {
            self.state.channel = false;
            self.state.sender = false;
            Some(ChannelRequest::Close)
        } else {
            None
        }
    }

    /// Begins activation. With the sender installed, or on a shell that was
    /// activated before, this is a no-op, whatever the size. Without a channel
    /// the shell is disconnected, whatever the size. Otherwise the mirror takes
    /// the requested size and the PTY request is handed out; a size that the
    /// mirror cannot take is refused instead, and nothing changes.
    pub fn activate(&mut self, cols: u16, rows: u16) -> (plan: Result<Option<ChannelRequest>, Error>)
        requires
            old(self).wf(),
        ensures
            final(self).wf(),
            final(self).address() == old(self).address(),
            final(self).connection() == old(self).connection(),
            final(self).state() == old(self).state(),
            match old(self).state().activation() {
                Activation::NotNeeded => plan == Ok::<Option<ChannelRequest>, Error>(None)
                    && final(self).mirror() == old(self).mirror(),
                Activation::Negotiate => if usable(rows, cols) {
                    &&& plan matches Ok(Some(request))
                    &&& request.is_pty(cols, rows)
                    &&& final(self).mirror() == resized(old(self).mirror(), rows, cols)
                } else {
                    &&& plan matches Err(e)
                    &&& e.is_invalid_size()
                    &&& final(self).mirror() == old(self).mirror()
                },
                Activation::Disconnected => plan matches Err(e) && e.is_disconnected()
                    && final(self).mirror() == old(self).mirror(),
            },
    {
        if self.state.sender {
            Ok(None)
        } else if !self.state.channel {
            Err(Error::disconnected())
        } else if self.state.ready.is_activated() {
            Ok(None)
        } else if !size_is_usable(rows, cols) {
            Err(Error::invalid_size())
        } else {
            self.parser.set_size(rows, cols);
            Ok(Some(ChannelRequest::pty(cols, rows)))
        }
    }

    /// Continues activation with the outcome of the PTY request. A granted
    /// PTY and a request that the remote end would not let through both lead
    /// on to the shell request; the second simply goes on without a PTY. Any
    /// other failure ends activation with that error.
    pub fn pty_outcome(&self, outcome: PtyOutcome) -> (request: Result<ChannelRequest, Error>)
        ensures
            match outcome {
                PtyOutcome::Granted => request == Ok::<ChannelRequest, Error>(
                    ChannelRequest::Shell { want_reply: true },
                ),
                PtyOutcome::SendRejected => request == Ok::<ChannelRequest, Error>(
                    ChannelRequest::Shell { want_reply: true },
                ),
                PtyOutcome::Failed(e) => request == Err::<ChannelRequest, Error>(e),
            },
    {
        match outcome {
            PtyOutcome::Granted => Ok(ChannelRequest::Shell { want_reply: true }),
            PtyOutcome::SendRejected => Ok(ChannelRequest::Shell { want_reply: true }),
            PtyOutcome::Failed(e) => Err(e),
        }
    }

    /// Ends activation with the outcome of the shell request: on success the
    /// permit is issued, on failure nothing changes and the error is handed
    /// on.
    pub fn shell_outcome(&mut self, outcome: Result<(), Error>) -> (done: Result<(), Error>)
        ensures
            final(self).wf() == old(self).wf(),
            final(self).address() == old(self).address(),
            final(self).connection() == old(self).connection(),
            final(self).mirror() == old(self).mirror(),
            match outcome {
                Ok(_) => done is Ok && final(self).state() == old(self).state().activated(),
                Err(e) => done == Err::<(), Error>(e) && final(self).state() == old(self).state(),
            },
    {
        match outcome {
            Ok(()) => {
                self.state.ready.grant();
                Ok(())
            },
            Err(e) => Err(e),
        }
    }

    /// Asks for the permit on behalf of a streaming loop. With the permit out
    /// and the channel owned, the outbound sender is installed and the loop
    /// may run. Before activation, and while another loop runs, the loop has
    /// to wait. It is refused once the latch is closed, and also when the
    /// channel was taken before any loop began, which ends streaming there
    /// and then.
    pub fn start(&mut self) -> (answer: Admission)
        ensures
            final(self).wf() == old(self).wf(),
            final(self).address() == old(self).address(),
            final(self).connection() == old(self).connection(),
            final(self).mirror() == old(self).mirror(),
            final(self).state() == old(self).state().started(),
            answer == old(self).state().admission(),
    {
        match self.state.ready.acquire() {
            Admission::Enter => {
                if self.state.sender {
                    Admission::Wait
                } else if self.state.channel {
                    self.state.sender = true;
                    self.state.status = None;
                    self.state.eof = false;
                    Admission::Enter
                } else {
                    self.finish();
                    Admission::Refused
                }
            },
            answer => answer,
        }
    }

    /// Decides a write to the transport: the data request while the channel
    /// is owned, the disconnected condition once it was taken.
    pub fn send(&self, data: Vec<u8>) -> (request: Result<ChannelRequest, Error>)
        ensures
            self.state().channel ==> request == Ok::<ChannelRequest, Error>(
                ChannelRequest::Data(data),
            ),
            !self.state().channel ==> (request matches Err(e) && e.is_disconnected()),
    {
        if self.state.channel {
            Ok(ChannelRequest::Data(data))
        } else {
            Err(Error::disconnected())
        }
    }

    /// Judges what waiting on the channel gave: the message, or the
    /// disconnected condition where the channel has ended or was taken.
    pub fn wait(&self, delivered: Option<ChannelEvent>) -> (message: Result<ChannelEvent, Error>)
        ensures
            self.state().channel && delivered is Some ==> message == Ok::<ChannelEvent, Error>(
                delivered->0,
            ),
            !(self.state().channel && delivered is Some) ==> (message matches Err(e)
                && e.is_disconnected()),
    {
        if self.state.channel {
            match delivered {
                Some(message) => Ok(message),
                None => Err(Error::disconnected()),
            }
        } else {
            Err(Error::disconnected())
        }
    }

    /// Handles one event of the streaming loop.
    ///
    /// Outbound bytes go to the channel unchanged; the closed queue closes
    /// the channel and ends the loop. Primary output and error output are fed
    /// to the mirror and handed on with descriptor 0 and 1. The loop ends
    /// once both end-of-file and an exit status were seen, in either order.
    /// Whenever the loop ends, the latch is closed for good and the sender is
    /// gone. While the latch is not open nothing is sent and nothing is fed to
    /// the mirror.
    pub fn step(&mut self, event: StreamEvent) -> (action: StreamAction)
        requires
            old(self).wf(),
        ensures
            final(self).wf(),
            final(self).address() == old(self).address(),
            final(self).connection() == old(self).connection(),
            final(self).state() == old(self).state().next(event),
            old(self).state().answers(old(self).address(), event, action),
            final(self).mirror() == match old(self).state().mirrored(event) {
                Some(bytes) => old(self).mirror().push(MirrorInput::Bytes(bytes)),
                None => old(self).mirror(),
            },
    {
        if !self.state.ready.is_open() {
            return StreamAction::Fail(Error::disconnected());
        }
        match event {
            StreamEvent::Outbound(Some(data)) => match self.send(data) {
                Ok(request) => StreamAction::Send(request),
                Err(e) => {
                    self.finish();
                    StreamAction::Fail(e)
                },
            },
            StreamEvent::Outbound(None) => {
                let request = self.close();
                self.finish();
                StreamAction::Finish(request)
            },
            StreamEvent::Inbound(delivered) => match self.wait(delivered) {
                Err(e) => {
                    self.finish();
                    StreamAction::Fail(e)
                },
                Ok(ChannelEvent::Data { data }) => {
                    self.parser.process(data.as_slice());
                    StreamAction::Deliver(ShellData { token: self.token.duplicate(), fd: 0, data })
                },
                Ok(ChannelEvent::ExtendedData { data, ext }) => {
                    if ext == 1 {
                        self.parser.process(data.as_slice());
                        StreamAction::Deliver(
                            ShellData { token: self.token.duplicate(), fd: 1, data },
                        )
                    } else {
                        StreamAction::Idle
                    }
                },
                Ok(ChannelEvent::ExitStatus { exit_status }) => {
                    self.state.status = Some(exit_status);
                    if self.state.eof {
                        self.finish();
                        StreamAction::Finish(None)
                    } else {
                        StreamAction::Idle
                    }
                },
                Ok(ChannelEvent::Eof) => {
                    self.state.eof = true;
                    if self.state.status.is_some() {
                        self.finish();
                        StreamAction::Finish(None)
                    } else {
                        StreamAction::Idle
                    }
                },
                Ok(ChannelEvent::Close) => StreamAction::Idle,
                Ok(ChannelEvent::Other) => StreamAction::Idle,
            },
            StreamEvent::Fault(e) => {
                self.finish();
                StreamAction::Fail(e)
            },
        }
    }

    /// Records that the streaming loop has ended.
    fn finish(&mut self)
        ensures
            final(self).wf() == old(self).wf(),
            final(self).address() == old(self).address(),
            final(self).connection() == old(self).connection(),
            final(self).mirror() == old(self).mirror(),
            final(self).state() == old(self).state().finished(),
    {
        self.state.sender = false;
        self.state.ready.close();
    }
}

} // verus!
