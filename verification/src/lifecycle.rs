//! The lifecycle of a shell as a state machine: what each event of the
//! streaming loop changes and asks for, and what holds of every run.

use vstd::prelude::*;

use crate::channel::{ChannelEvent, ChannelRequest, ShellData};
use crate::error::Error;
use crate::gate::{Admission, Gate};
use crate::token::ShellToken;

verus! {

/// Where a shell stands in its life.
#[derive(Clone, Copy, Debug, PartialEq, Eq)]
pub struct Lifecycle {
    /// The transport channel handle is still owned; `close` takes it.
    pub channel: bool,
    /// The outbound sender is installed; writes can be queued.
    pub sender: bool,
    /// The readiness latch.
    pub ready: Gate,
    /// The exit status the channel reported, if any.
    pub status: Option<u32>,
    /// Whether the channel reported end-of-file.
    pub eof: bool,
}

/// What a call for activation finds.
#[derive(Clone, Copy, Debug, PartialEq, Eq, Structural)]
pub enum Activation {
    /// Nothing to do: the outbound sender exists already, or activation has
    /// run to its end before.
    NotNeeded,
    /// The PTY and shell requests are to be made.
    Negotiate,
    /// The channel is gone.
    Disconnected,
}

/// What the streaming loop woke up for.
#[derive(Debug, PartialEq, Eq)]
pub enum StreamEvent {
    /// An item from the outbound queue: bytes to send, or `None` once the
    /// queue is closed.
    Outbound(Option<Vec<u8>>),
    /// What waiting on the transport channel gave: a message, or `None` where
    /// the channel has ended or there is none to wait on.
    Inbound(Option<ChannelEvent>),
    /// The transport failed while it performed the last action.
    Fault(Error),
}

/// What the streaming loop does next.
#[derive(Debug, PartialEq, Eq)]
pub enum StreamAction {
    /// Nothing; wait for the next event.
    Idle,
    /// Perform this request on the channel, then wait for the next event.
    Send(ChannelRequest),
    /// Hand this chunk to the sink, then wait for the next event.
    Deliver(ShellData),
    /// Leave the loop successfully, after performing the request if there is
    /// one.
    Finish(Option<ChannelRequest>),
    /// Leave the loop with this error.
    Fail(Error),
}

impl StreamEvent {
    /// The outbound queue was closed.
    pub open spec fn is_queue_closed(&self) -> bool {
        *self matches StreamEvent::Outbound(None)
    }

    /// The channel reported end-of-file.
    pub open spec fn is_eof(&self) -> bool {
        *self matches StreamEvent::Inbound(Some(ChannelEvent::Eof))
    }

    /// The channel reported an exit status.
    pub open spec fn is_exit_status(&self) -> bool {
        *self matches StreamEvent::Inbound(Some(ChannelEvent::ExitStatus { .. }))
    }

    /// The channel ended, or the transport failed.
    pub open spec fn is_failure(&self) -> bool {
        *self is Fault || *self matches StreamEvent::Inbound(None)
    }

    /// The bytes this event carries to the transport, if it is an outbound
    /// item.
    pub open spec fn outbound_payload(&self) -> Option<Seq<u8>> {
        match *self {
            StreamEvent::Outbound(Some(data)) => Some(data@),
            _ => None,
        }
    }

    /// The output this event carries, with its descriptor: primary output is
    /// 0, extended data with code 1 is 1. Extended data with another code
    /// carries none.
    pub open spec fn output(&self) -> Option<(u32, Seq<u8>)> {
        match *self {
            StreamEvent::Inbound(Some(ChannelEvent::Data { data })) => Some((0u32, data@)),
            StreamEvent::Inbound(Some(ChannelEvent::ExtendedData { data, ext })) => if ext == 1 {
                Some((1u32, data@))
            } else {
                None
            },
            _ => None,
        }
    }
}

impl Lifecycle {
    /// A shell that was just created: it owns its channel, and nothing else
    /// has happened.
    pub open spec fn created() -> Lifecycle {
        Lifecycle { channel: true, sender: false, ready: Gate::NotActivated, status: None, eof: false }
    }

    /// What a call for activation finds in this state. With the sender
    /// installed there is nothing to do. Without the channel the shell is
    /// disconnected. Otherwise the requests are made if the shell was never
    /// activated; a shell that was, whether it streams, waits for its loop or
    /// has ended, is not activated again.
    pub open spec fn activation(self) -> Activation {
        if self.sender {
            Activation::NotNeeded
        } else if !self.channel {
            Activation::Disconnected
        } else if self.ready != Gate::NotActivated {
            Activation::NotNeeded
        } else {
            Activation::Negotiate
        }
    }

    /// The state once the shell request has gone through: the permit is out.
    pub open spec fn activated(self) -> Lifecycle {
        Lifecycle { ready: self.ready.granted(), ..self }
    }

    /// What a streaming loop is told when it asks for the permit. It waits
    /// while the shell was never activated, and while another loop holds the
    /// permit. It enters when the permit is out and the channel is owned. It
    /// is refused once the latch is closed, and when the channel was taken
    /// before any loop began.
    pub open spec fn admission(self) -> Admission {
        match self.ready {
            Gate::NotActivated => Admission::Wait,
            Gate::Closed => Admission::Refused,
            Gate::Open => if self.sender {
                Admission::Wait
            } else if self.channel {
                Admission::Enter
            } else {
                Admission::Refused
            },
        }
    }

    /// The state once a streaming loop has asked for the permit. Where it
    /// may enter, the outbound sender is installed and the loop starts with
    /// no exit status and no end-of-file seen. Where the permit is out but
    /// the channel was taken, streaming is over before it began. Otherwise
    /// nothing changes.
    pub open spec fn started(self) -> Lifecycle {
        if self.ready != Gate::Open || self.sender {
            self
        } else if self.channel {
            Lifecycle { sender: true, status: None, eof: false, ..self }
        } else {
            self.finished()
        }
    }

    /// The state once `close` has run: the channel and the sender are given
    /// up.
    pub open spec fn closed(self) -> Lifecycle {
        if self.channel {
            Lifecycle { channel: false, sender: false, ..self }
        } else {
            self
        }
    }

    /// The state once the streaming loop has ended: the latch is closed for
    /// good and the sender is gone.
    pub open spec fn finished(self) -> Lifecycle {
        Lifecycle { sender: false, ready: Gate::Closed, ..self }
    }

    /// Whether the streaming loop may run: the latch is open.
    pub open spec fn streaming(self) -> bool {
        self.ready == Gate::Open
    }

    /// The state after the streaming loop has handled one event.
    pub open spec fn next(self, event: StreamEvent) -> Lifecycle {
        if !self.streaming() {
            self
        } else {
            match event {
                StreamEvent::Outbound(Some(_)) => if self.channel {
                    self
                } else {
                    self.finished()
                },
                StreamEvent::Outbound(None) => self.closed().finished(),
                StreamEvent::Inbound(None) => self.finished(),
                StreamEvent::Inbound(Some(message)) => if !self.channel {
                    self.finished()
                } else {
                    match message {
                        ChannelEvent::ExitStatus { exit_status } => {
                            let seen = Lifecycle { status: Some(exit_status), ..self };
                            if self.eof {
                                seen.finished()
                            } else {
                                seen
                            }
                        },
                        ChannelEvent::Eof => {
                            let seen = Lifecycle { eof: true, ..self };
                            if self.status is Some {
                                seen.finished()
                            } else {
                                seen
                            }
                        },
                        _ => self,
                    }
                },
                StreamEvent::Fault(_) => self.finished(),
            }
        }
    }

    /// Whether `action` is what the streaming loop does for `event` in this
    /// state, for the shell addressed by `token`.
    pub open spec fn answers(self, token: ShellToken, event: StreamEvent, action: StreamAction) -> bool {
        if !self.streaming() {
            action matches StreamAction::Fail(e) && e.is_disconnected()
        } else {
            match event {
                StreamEvent::Outbound(Some(data)) => if self.channel {
                    action == StreamAction::Send(ChannelRequest::Data(data))
                } else {
                    action matches StreamAction::Fail(e) && e.is_disconnected()
                },
                StreamEvent::Outbound(None) => action == StreamAction::Finish(
                    if self.channel {
                        Some(ChannelRequest::Close)
                    } else {
                        None
                    },
                ),
                StreamEvent::Inbound(None) => action matches StreamAction::Fail(e)
                    && e.is_disconnected(),
                StreamEvent::Inbound(Some(message)) => if !self.channel {
                    action matches StreamAction::Fail(e) && e.is_disconnected()
                } else {
                    match message {
                        ChannelEvent::Data { data } => action == StreamAction::Deliver(
                            ShellData { token, fd: 0, data },
                        ),
                        ChannelEvent::ExtendedData { data, ext } => if ext == 1 {
                            action == StreamAction::Deliver(ShellData { token, fd: 1, data })
                        } else {
                            action == StreamAction::Idle
                        },
                        ChannelEvent::ExitStatus { .. } => if self.eof {
                            action == StreamAction::Finish(None)
                        } else {
                            action == StreamAction::Idle
                        },
                        ChannelEvent::Eof => if self.status is Some {
                            action == StreamAction::Finish(None)
                        } else {
                            action == StreamAction::Idle
                        },
                        ChannelEvent::Close => action == StreamAction::Idle,
                        ChannelEvent::Other => action == StreamAction::Idle,
                    }
                },
                StreamEvent::Fault(e) => action == StreamAction::Fail(e),
            }
        }
    }

    /// The bytes fed to the terminal mirror when `event` is handled in this
    /// state: the output the event carries, provided the loop may run and the
    /// channel is there.
    pub open spec fn mirrored(self, event: StreamEvent) -> Option<Seq<u8>> {
        if self.streaming() && self.channel {
            match event.output() {
                Some((_, bytes)) => Some(bytes),
                None => None,
            }
        } else {
            None
        }
    }

    /// The bytes written to the transport when `event` is handled in this
    /// state.
    pub open spec fn transmitted(self, event: StreamEvent) -> Option<Seq<u8>> {
        if self.streaming() && self.channel {
            event.outbound_payload()
        } else {
            None
        }
    }

    /// The state after the streaming loop has handled the events in order.
    pub open spec fn after(self, events: Seq<StreamEvent>) -> Lifecycle
        decreases events.len(),
    {
        if events.len() == 0 {
            self
        } else {
            self.after(events.drop_last()).next(events.last())
        }
    }

    /// The byte strings written to the transport while the streaming loop
    /// handles the events in order.
    pub open spec fn sent(self, events: Seq<StreamEvent>) -> Seq<Seq<u8>>
        decreases events.len(),
    {
        if events.len() == 0 {
            Seq::empty()
        } else {
            let before = self.sent(events.drop_last());
            match self.after(events.drop_last()).transmitted(events.last()) {
                Some(bytes) => before.push(bytes),
                None => before,
            }
        }
    }
}

/// The run holds a closed outbound queue, an ended channel or a transport
/// failure.
pub open spec fn saw_stop(events: Seq<StreamEvent>) -> bool {
    exists|i: int|
        0 <= i < events.len() && ((#[trigger] events[i]).is_queue_closed()
            || events[i].is_failure())
}

/// The run holds an end-of-file.
pub open spec fn saw_eof(events: Seq<StreamEvent>) -> bool {
    exists|i: int| 0 <= i < events.len() && (#[trigger] events[i]).is_eof()
}

/// The run holds an exit status.
pub open spec fn saw_exit_status(events: Seq<StreamEvent>) -> bool {
    exists|i: int| 0 <= i < events.len() && (#[trigger] events[i]).is_exit_status()
}

/// The byte strings of the outbound items in a run, in order.
pub open spec fn outbound_payloads(events: Seq<StreamEvent>) -> Seq<Seq<u8>>
    decreases events.len(),
{
    if events.len() == 0 {
        Seq::empty()
    } else {
        match events.last().outbound_payload() {
            Some(bytes) => outbound_payloads(events.drop_last()).push(bytes),
            None => outbound_payloads(events.drop_last()),
        }
    }
}

/// A state in which the streaming loop has just started on a live channel.
pub open spec fn fresh_stream(state: Lifecycle) -> bool {
    state.streaming() && state.channel && state.status is None && !state.eof
}

proof fn lemma_saw_push(events: Seq<StreamEvent>)
    requires
        events.len() > 0,
    ensures
        saw_stop(events) <==> saw_stop(events.drop_last()) || events.last().is_queue_closed()
            || events.last().is_failure(),
        saw_eof(events) <==> saw_eof(events.drop_last()) || events.last().is_eof(),
        saw_exit_status(events) <==> saw_exit_status(events.drop_last())
            || events.last().is_exit_status(),
{
    let prefix = events.drop_last();
    let end = events.len() - 1;
    assert(events[end] == events.last());
    assert forall|i: int| 0 <= i < prefix.len() implies #[trigger] prefix[i] == events[i] by {}
    if saw_stop(prefix) {
        let i = choose|i: int|
            0 <= i < prefix.len() && ((#[trigger] prefix[i]).is_queue_closed()
                || prefix[i].is_failure());
        assert(events[i].is_queue_closed() || events[i].is_failure());
    }
    if saw_eof(prefix) {
        let i = choose|i: int| 0 <= i < prefix.len() && (#[trigger] prefix[i]).is_eof();
        assert(events[i].is_eof());
    }
    if saw_exit_status(prefix) {
        let i = choose|i: int| 0 <= i < prefix.len() && (#[trigger] prefix[i]).is_exit_status();
        assert(events[i].is_exit_status());
    }
    if saw_stop(events) {
        let i = choose|i: int|
            0 <= i < events.len() && ((#[trigger] events[i]).is_queue_closed()
                || events[i].is_failure());
        if i < end {
            assert(prefix[i].is_queue_closed() || prefix[i].is_failure());
        }
    }
    if saw_eof(events) {
        let i = choose|i: int| 0 <= i < events.len() && (#[trigger] events[i]).is_eof();
        if i < end {
            assert(prefix[i].is_eof());
        }
    }
    if saw_exit_status(events) {
        let i = choose|i: int| 0 <= i < events.len() && (#[trigger] events[i]).is_exit_status();
        if i < end {
            assert(prefix[i].is_exit_status());
        }
    }
}

proof fn lemma_run(state: Lifecycle, events: Seq<StreamEvent>)
    requires
        fresh_stream(state),
    ensures
        ({
            let end = state.after(events);
            let over = saw_stop(events) || (saw_eof(events) && saw_exit_status(events));
            &&& end.ready == if over {
                Gate::Closed
            } else {
                Gate::Open
            }
            &&& !over ==> end.channel && end.sender == state.sender && end.eof == saw_eof(events)
                && (end.status is Some <==> saw_exit_status(events))
            &&& !over ==> state.sent(events) == outbound_payloads(events)
        }),
    decreases events.len(),
{
    if events.len() > 0 {
        lemma_run(state, events.drop_last());
        lemma_saw_push(events);
    }
}

/// The streaming loop has ended after a run of events exactly when the run
/// holds both an end-of-file and an exit status, in either order, or the
/// closed outbound queue, or a failure of the channel or the transport.
pub proof fn lemma_stream_ends_exactly(state: Lifecycle, events: Seq<StreamEvent>)
    requires
        fresh_stream(state),
    ensures
        state.after(events).ready == Gate::Closed <==> saw_stop(events) || (saw_eof(events)
            && saw_exit_status(events)),
        state.after(events).ready != Gate::Closed ==> state.after(events).streaming(),
{
    lemma_run(state, events);
}

/// While the streaming loop runs, what it has written to the transport is
/// what it took from the outbound queue: every byte string, unchanged, in
/// queue order.
pub proof fn lemma_outbound_order(state: Lifecycle, events: Seq<StreamEvent>)
    requires
        fresh_stream(state),
        state.after(events).streaming(),
    ensures
        state.sent(events) == outbound_payloads(events),
{
    lemma_run(state, events);
}

/// Activation happens once. When it has run to its end, a further call for
/// it asks for no requests, before the streaming loop has started and after;
/// and were the permit issued again, the latch would stay as it is: one
/// request pair and one permit in all.
pub proof fn lemma_activation_once(state: Lifecycle)
    ensures
        state.activated().activation() != Activation::Negotiate,
        state.activated().started().activation() != Activation::Negotiate,
        state.activated().activated() == state.activated(),
        state.ready == Gate::NotActivated ==> state.activated().ready == Gate::Open,
{
}

/// The outbound sender is installed only while the latch is open and the
/// channel is owned.
pub open spec fn coherent(state: Lifecycle) -> bool {
    state.sender ==> state.channel && state.ready == Gate::Open
}

/// A write is accepted only while the shell streams on a live channel: a new
/// shell is coherent, and every step of its life keeps it so.
pub proof fn lemma_sender_means_streaming(state: Lifecycle, event: StreamEvent)
    ensures
        coherent(Lifecycle::created()),
        coherent(state) ==> coherent(state.activated()) && coherent(state.started()) && coherent(
            state.closed(),
        ) && coherent(state.next(event)),
{
}

/// A shell with neither channel nor outbound sender: every write finds it
/// disconnected.
pub open spec fn shut(state: Lifecycle) -> bool {
    !state.channel && !state.sender
}

/// After `close` has taken the channel the shell is shut, and it stays shut
/// whatever follows: no activation, loop start, event or further `close`
/// brings the channel or the sender back. A second `close` changes nothing.
pub proof fn lemma_closed_shell_rejects_writes(state: Lifecycle, event: StreamEvent)
    ensures
        state.channel ==> shut(state.closed()),
        state.closed().closed() == state.closed(),
        shut(state) ==> shut(state.closed()) && shut(state.activated()) && shut(state.started())
            && shut(state.next(event)) && state.activation() != Activation::Negotiate,
{
}

/// While the latch is not open, the streaming loop writes nothing to the
/// transport, feeds nothing to the mirror, and changes nothing.
pub proof fn lemma_latch_guards_stream(state: Lifecycle, event: StreamEvent)
    requires
        !state.streaming(),
    ensures
        state.transmitted(event) is None,
        state.mirrored(event) is None,
        state.next(event) == state,
{
}

/// The end of the streaming loop is final: the latch is closed, no event,
/// permit or new loop opens it again, and a call for activation asks for no
/// new requests.
pub proof fn lemma_finished_is_terminal(state: Lifecycle, event: StreamEvent)
    ensures
        state.finished().ready == Gate::Closed,
        !state.finished().sender,
        state.finished().next(event) == state.finished(),
        state.finished().activated() == state.finished(),
        state.finished().started() == state.finished(),
        state.finished().activation() != Activation::Negotiate,
{
}

} // verus!
