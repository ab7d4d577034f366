use session_manager::{
    Admission, ChannelEvent, ChannelRequest, Error, ErrorKind, Gate, Lifecycle,
    PtyOutcome, ScreenStep, Shell, ShellBuffer, ShellData, ShellToken, StreamAction, StreamEvent,
};

fn token() -> ShellToken {
    ShellToken { connection_id: 0x550e8400_e29b_41d4_a716_446655440000, channel_id: String::from("2") }
}

fn disconnected() -> Error {
    Error { message: String::from("disconnected"), kind: ErrorKind::NeedsReconnect }
}

fn activated_shell() -> Shell {
    let mut shell = Shell::new(token(), String::from("tv"));
    assert!(matches!(shell.activate(80, 24), Ok(Some(_))));
    assert!(shell.pty_outcome(PtyOutcome::Granted).is_ok());
    assert_eq!(shell.shell_outcome(Ok(())), Ok(()));
    shell
}

fn streaming_shell() -> Shell {
    let mut shell = activated_shell();
    assert_eq!(shell.start(), Admission::Enter);
    shell
}

fn inbound(message: ChannelEvent) -> StreamEvent {
    StreamEvent::Inbound(Some(message))
}

#[test]
fn new_shell_is_created() {
    let shell = Shell::new(token(), String::from("tv"));
    assert_eq!(shell.token(), &token());
    assert_eq!(shell.connection_key(), "tv");
    assert_eq!(
        shell.lifecycle(),
        Lifecycle { channel: true, sender: false, ready: Gate::NotActivated, status: None, eof: false }
    );
}

#[test]
fn activation_hands_out_the_pty_request() {
    let mut shell = Shell::new(token(), String::from("tv"));
    let plan = shell.activate(132, 43);
    assert_eq!(
        plan,
        Ok(Some(ChannelRequest::Pty {
            want_reply: true,
            term: String::from("xterm"),
            col_width: 132,
            row_height: 43,
            pix_width: 0,
            pix_height: 0,
        }))
    );
    assert_eq!(shell.lifecycle().ready, Gate::NotActivated);
}

#[test]
fn pty_rejection_goes_on_without_pty() {
    let shell = Shell::new(token(), String::from("tv"));
    let shell_request = ChannelRequest::Shell { want_reply: true };
    assert_eq!(shell.pty_outcome(PtyOutcome::Granted), Ok(ChannelRequest::Shell { want_reply: true }));
    assert_eq!(shell.pty_outcome(PtyOutcome::SendRejected), Ok(shell_request));
    let failure = Error { message: String::from("channel failure"), kind: ErrorKind::Message };
    assert_eq!(shell.pty_outcome(PtyOutcome::Failed(failure.clone())), Err(failure));
}

#[test]
fn shell_request_failure_issues_no_permit() {
    let mut shell = Shell::new(token(), String::from("tv"));
    let failure = Error { message: String::from("refused"), kind: ErrorKind::Authorization };
    assert_eq!(shell.shell_outcome(Err(failure.clone())), Err(failure));
    assert_eq!(shell.lifecycle().ready, Gate::NotActivated);
    assert_eq!(shell.start(), Admission::Wait);
    assert!(!shell.lifecycle().sender);
}

#[test]
fn activation_is_idempotent_once_streaming() {
    let mut shell = streaming_shell();
    let before = shell.lifecycle();
    assert_eq!(before.ready, Gate::Open);
    assert_eq!(shell.activate(80, 24), Ok(None));
    assert_eq!(shell.activate(10, 10), Ok(None));
    assert_eq!(shell.lifecycle(), before);
}

#[test]
fn second_permit_changes_nothing() {
    let mut shell = activated_shell();
    assert_eq!(shell.lifecycle().ready, Gate::Open);
    assert_eq!(shell.shell_outcome(Ok(())), Ok(()));
    assert_eq!(shell.lifecycle().ready, Gate::Open);
}

#[test]
fn activation_without_channel_is_disconnected() {
    let mut shell = Shell::new(token(), String::from("tv"));
    assert_eq!(shell.close(), Some(ChannelRequest::Close));
    assert_eq!(shell.activate(80, 24), Err(disconnected()));
}

#[test]
fn start_waits_before_activation() {
    let mut shell = Shell::new(token(), String::from("tv"));
    assert_eq!(shell.start(), Admission::Wait);
    assert_eq!(shell.lifecycle(), Shell::new(token(), String::from("tv")).lifecycle());
}

#[test]
fn eof_alone_never_terminates() {
    let mut shell = streaming_shell();
    assert_eq!(shell.step(inbound(ChannelEvent::Eof)), StreamAction::Idle);
    assert_eq!(shell.step(inbound(ChannelEvent::Eof)), StreamAction::Idle);
    assert_eq!(shell.step(inbound(ChannelEvent::Close)), StreamAction::Idle);
    assert_eq!(shell.step(inbound(ChannelEvent::Other)), StreamAction::Idle);
    let state = shell.lifecycle();
    assert_eq!(state.ready, Gate::Open);
    assert!(state.eof);
    assert_eq!(state.status, None);
    assert!(state.sender);
}

#[test]
fn exit_status_alone_never_terminates() {
    let mut shell = streaming_shell();
    assert_eq!(shell.step(inbound(ChannelEvent::ExitStatus { exit_status: 3 })), StreamAction::Idle);
    assert_eq!(shell.step(inbound(ChannelEvent::ExitStatus { exit_status: 4 })), StreamAction::Idle);
    assert_eq!(shell.lifecycle().status, Some(4));
    assert_eq!(shell.lifecycle().ready, Gate::Open);
}

#[test]
fn exit_status_then_eof_terminates() {
    let mut shell = streaming_shell();
    assert_eq!(shell.step(inbound(ChannelEvent::ExitStatus { exit_status: 0 })), StreamAction::Idle);
    assert_eq!(shell.step(inbound(ChannelEvent::Eof)), StreamAction::Finish(None));
    let state = shell.lifecycle();
    assert_eq!(state.ready, Gate::Closed);
    assert_eq!(state.status, Some(0));
    assert!(state.eof);
    assert!(!state.sender);
    assert!(state.channel);
}

#[test]
fn eof_then_exit_status_terminates() {
    let mut shell = streaming_shell();
    assert_eq!(shell.step(inbound(ChannelEvent::Eof)), StreamAction::Idle);
    assert_eq!(
        shell.step(inbound(ChannelEvent::ExitStatus { exit_status: 0 })),
        StreamAction::Finish(None)
    );
    assert_eq!(shell.lifecycle().ready, Gate::Closed);
}

#[test]
fn close_message_is_not_terminal() {
    let mut shell = streaming_shell();
    assert_eq!(shell.step(inbound(ChannelEvent::Close)), StreamAction::Idle);
    assert_eq!(shell.lifecycle().ready, Gate::Open);
    assert_eq!(shell.write(b"x"), Ok(b"x".to_vec()));
}

#[test]
fn closed_queue_closes_channel_and_ends_loop() {
    let mut shell = streaming_shell();
    assert_eq!(
        shell.step(StreamEvent::Outbound(None)),
        StreamAction::Finish(Some(ChannelRequest::Close))
    );
    let state = shell.lifecycle();
    assert_eq!(state.ready, Gate::Closed);
    assert!(!state.channel);
    assert!(!state.sender);
}

#[test]
fn closed_queue_after_close_issues_nothing() {
    let mut shell = streaming_shell();
    assert_eq!(shell.close(), Some(ChannelRequest::Close));
    assert_eq!(shell.step(StreamEvent::Outbound(None)), StreamAction::Finish(None));
    assert_eq!(shell.lifecycle().ready, Gate::Closed);
}

#[test]
fn data_is_mirrored_and_delivered_on_descriptor_zero() {
    let mut shell = streaming_shell();
    let action = shell.step(inbound(ChannelEvent::Data { data: b"abc\r\n".to_vec() }));
    assert_eq!(
        action,
        StreamAction::Deliver(ShellData { token: token(), fd: 0, data: b"abc\r\n".to_vec() })
    );
    let buffer = shell.snapshot(80);
    assert_eq!(buffer.rows, vec![b"abc".to_vec()]);
    assert_eq!(buffer.cursor, (0, 1));
}

#[test]
fn stderr_is_mirrored_and_delivered_on_descriptor_one() {
    let mut shell = streaming_shell();
    let action = shell.step(inbound(ChannelEvent::ExtendedData { data: b"oops".to_vec(), ext: 1 }));
    assert_eq!(
        action,
        StreamAction::Deliver(ShellData { token: token(), fd: 1, data: b"oops".to_vec() })
    );
    assert_eq!(shell.snapshot(80).rows, vec![b"oops".to_vec()]);
}

#[test]
fn other_extension_codes_are_ignored() {
    let mut shell = streaming_shell();
    for ext in [0u32, 2, 3, u32::MAX] {
        let action = shell.step(inbound(ChannelEvent::ExtendedData { data: b"hidden".to_vec(), ext }));
        assert_eq!(action, StreamAction::Idle);
    }
    assert!(shell.snapshot(80).rows.is_empty());
    assert_eq!(shell.lifecycle().ready, Gate::Open);
}

#[test]
fn outbound_bytes_are_sent_verbatim_in_order() {
    let mut shell = streaming_shell();
    let mut sent: Vec<Vec<u8>> = Vec::new();
    for number in 0..50u32 {
        let payload = format!("payload {}", number).into_bytes();
        let queued = shell.write(&payload).unwrap();
        match shell.step(StreamEvent::Outbound(Some(queued))) {
            StreamAction::Send(ChannelRequest::Data(bytes)) => sent.push(bytes),
            other => panic!("unexpected action {:?}", other),
        }
    }
    let expected: Vec<Vec<u8>> =
        (0..50u32).map(|number| format!("payload {}", number).into_bytes()).collect();
    assert_eq!(sent, expected);
    assert!(shell.snapshot(80).rows.is_empty());
}

#[test]
fn nothing_streams_before_activation() {
    let mut shell = Shell::new(token(), String::from("tv"));
    let before = shell.lifecycle();
    assert_eq!(
        shell.step(inbound(ChannelEvent::Data { data: b"early".to_vec() })),
        StreamAction::Fail(disconnected())
    );
    assert_eq!(
        shell.step(StreamEvent::Outbound(Some(b"early".to_vec()))),
        StreamAction::Fail(disconnected())
    );
    assert_eq!(shell.lifecycle(), before);
    assert!(shell.snapshot(80).rows.is_empty());
}

#[test]
fn nothing_streams_after_the_loop_has_ended() {
    let mut shell = streaming_shell();
    shell.step(inbound(ChannelEvent::Eof));
    shell.step(inbound(ChannelEvent::ExitStatus { exit_status: 1 }));
    let ended = shell.lifecycle();
    assert_eq!(
        shell.step(inbound(ChannelEvent::Data { data: b"late".to_vec() })),
        StreamAction::Fail(disconnected())
    );
    assert_eq!(shell.lifecycle(), ended);
    assert!(shell.snapshot(80).rows.is_empty());
    assert_eq!(shell.start(), Admission::Refused);
    assert_eq!(shell.shell_outcome(Ok(())), Ok(()));
    assert_eq!(shell.lifecycle().ready, Gate::Closed);
}

#[test]
fn ended_channel_fails_the_loop() {
    let mut shell = streaming_shell();
    assert_eq!(shell.step(StreamEvent::Inbound(None)), StreamAction::Fail(disconnected()));
    assert_eq!(shell.lifecycle().ready, Gate::Closed);
    assert!(!shell.lifecycle().sender);
}

#[test]
fn transport_fault_fails_the_loop_with_its_error() {
    let mut shell = streaming_shell();
    let fault = Error { message: String::from("broken pipe"), kind: ErrorKind::Message };
    assert_eq!(shell.step(StreamEvent::Fault(fault.clone())), StreamAction::Fail(fault));
    assert_eq!(shell.lifecycle().ready, Gate::Closed);
}

#[test]
fn events_after_close_fail_disconnected() {
    let mut shell = streaming_shell();
    shell.close();
    assert_eq!(
        shell.step(inbound(ChannelEvent::Data { data: b"x".to_vec() })),
        StreamAction::Fail(disconnected())
    );
    assert_eq!(shell.lifecycle().ready, Gate::Closed);
    assert!(shell.snapshot(80).rows.is_empty());
}

#[test]
fn write_needs_the_sender() {
    let shell = Shell::new(token(), String::from("tv"));
    assert_eq!(shell.write(b"ls\n"), Err(disconnected()));
    let shell = activated_shell();
    assert_eq!(shell.write(b"ls\n"), Err(disconnected()));
    let shell = streaming_shell();
    assert_eq!(shell.write(b"ls\n"), Ok(b"ls\n".to_vec()));
    assert_eq!(shell.write(b""), Ok(Vec::new()));
}

#[test]
fn write_after_close_is_disconnected_every_time() {
    let mut shell = streaming_shell();
    assert_eq!(shell.close(), Some(ChannelRequest::Close));
    for _ in 0..5 {
        let refused = shell.write(b"ls\n").unwrap_err();
        assert_eq!(refused.kind, ErrorKind::NeedsReconnect);
        assert_eq!(refused, disconnected());
    }
}

#[test]
fn second_loop_waits_for_the_permit() {
    let mut shell = streaming_shell();
    shell.step(inbound(ChannelEvent::Eof));
    let running = shell.lifecycle();
    assert_eq!(shell.start(), Admission::Wait);
    assert_eq!(shell.lifecycle(), running);
    shell.step(inbound(ChannelEvent::ExitStatus { exit_status: 0 }));
    assert_eq!(shell.start(), Admission::Refused);
}

#[test]
fn loop_cannot_start_on_a_closed_shell() {
    let mut shell = activated_shell();
    assert_eq!(shell.close(), Some(ChannelRequest::Close));
    assert_eq!(shell.start(), Admission::Refused);
    assert_eq!(shell.lifecycle().ready, Gate::Closed);
    assert_eq!(shell.write(b"x"), Err(disconnected()));
    assert_eq!(shell.start(), Admission::Refused);
    assert_eq!(shell.write(b"x"), Err(disconnected()));
    assert_eq!(shell.activate(80, 24), Err(disconnected()));
}

#[test]
fn close_is_idempotent() {
    let mut shell = Shell::new(token(), String::from("tv"));
    assert_eq!(shell.close(), Some(ChannelRequest::Close));
    let closed = shell.lifecycle();
    assert!(!closed.channel);
    assert_eq!(shell.close(), None);
    assert_eq!(shell.close(), None);
    assert_eq!(shell.lifecycle(), closed);
}

#[test]
fn resize_asks_for_window_change() {
    let mut shell = Shell::new(token(), String::from("tv"));
    assert_eq!(
        shell.resize(100, 30),
        Ok(ChannelRequest::WindowChange { col_width: 100, row_height: 30, pix_width: 0, pix_height: 0 })
    );
    assert_eq!(shell.window_changed(Ok(()), 4, 2), Ok(()));
    let mut shell = streaming_shell();
    assert_eq!(shell.window_changed(Ok(()), 4, 2), Ok(()));
    shell.step(inbound(ChannelEvent::Data { data: b"abcdefgh".to_vec() }));
    assert_eq!(shell.snapshot(4).rows, vec![b"abcd".to_vec(), b"efgh".to_vec()]);
    shell.close();
    assert_eq!(shell.resize(100, 30), Err(disconnected()));
}

#[test]
fn screen_before_any_output_is_empty() {
    let mut shell = Shell::new(token(), String::from("tv"));
    let request = match shell.screen(80, 24) {
        Ok(ScreenStep::Activate(request)) => request,
        other => panic!("unexpected step {:?}", other),
    };
    assert_eq!(
        request,
        ChannelRequest::Pty {
            want_reply: true,
            term: String::from("xterm"),
            col_width: 80,
            row_height: 24,
            pix_width: 0,
            pix_height: 0,
        }
    );
    assert!(shell.pty_outcome(PtyOutcome::Granted).is_ok());
    assert!(shell.shell_outcome(Ok(())).is_ok());
    let empty = ShellBuffer { rows: Vec::new(), cursor: (0, 0) };
    assert_eq!(shell.screen(80, 24), Ok(ScreenStep::Ready(empty)));
}

#[test]
fn screen_after_one_line_of_output_has_one_row() {
    let mut shell = streaming_shell();
    shell.step(inbound(ChannelEvent::Data { data: b"abc\r\n".to_vec() }));
    shell.step(inbound(ChannelEvent::Data { data: Vec::new() }));
    let expected = ShellBuffer { rows: vec![b"abc".to_vec()], cursor: (0, 1) };
    assert_eq!(shell.screen(80, 24), Ok(ScreenStep::Ready(expected)));
}

#[test]
fn screen_of_a_closed_shell_is_disconnected() {
    let mut shell = Shell::new(token(), String::from("tv"));
    shell.close();
    assert_eq!(shell.screen(80, 24), Err(disconnected()));
    assert!(shell.snapshot(80).rows.is_empty());
}

#[test]
fn send_and_wait_need_the_channel() {
    let mut shell = Shell::new(token(), String::from("tv"));
    assert_eq!(shell.send(b"abc".to_vec()), Ok(ChannelRequest::Data(b"abc".to_vec())));
    assert_eq!(shell.wait(Some(ChannelEvent::Eof)), Ok(ChannelEvent::Eof));
    assert_eq!(shell.wait(None), Err(disconnected()));
    shell.close();
    assert_eq!(shell.send(b"abc".to_vec()), Err(disconnected()));
    assert_eq!(shell.wait(Some(ChannelEvent::Eof)), Err(disconnected()));
}

#[test]
fn activation_is_idempotent_before_streaming() {
    let mut shell = activated_shell();
    let before = shell.lifecycle();
    assert_eq!(shell.activate(80, 24), Ok(None));
    assert_eq!(shell.activate(100, 50), Ok(None));
    assert_eq!(shell.lifecycle(), before);
    assert_eq!(shell.start(), Admission::Enter);
}

#[test]
fn failed_activation_can_be_tried_again() {
    let mut shell = Shell::new(token(), String::from("tv"));
    assert!(matches!(shell.activate(80, 24), Ok(Some(_))));
    let failure = Error { message: String::from("refused"), kind: ErrorKind::Message };
    assert_eq!(shell.pty_outcome(PtyOutcome::Failed(failure.clone())), Err(failure));
    assert!(matches!(shell.activate(80, 24), Ok(Some(_))));
    assert!(shell.pty_outcome(PtyOutcome::Granted).is_ok());
    assert!(shell.shell_outcome(Ok(())).is_ok());
    assert_eq!(shell.activate(80, 24), Ok(None));
}

#[test]
fn ended_shell_does_not_start_again() {
    let mut shell = streaming_shell();
    shell.step(inbound(ChannelEvent::Data { data: b"bye\r\n".to_vec() }));
    shell.step(inbound(ChannelEvent::Eof));
    shell.step(inbound(ChannelEvent::ExitStatus { exit_status: 0 }));
    assert_eq!(shell.lifecycle().ready, Gate::Closed);
    assert_eq!(shell.activate(80, 24), Ok(None));
    assert_eq!(shell.snapshot(80).rows, vec![b"bye".to_vec()]);
    assert_eq!(shell.write(b"x"), Err(disconnected()));
    assert_eq!(shell.close(), Some(ChannelRequest::Close));
    assert_eq!(shell.activate(80, 24), Err(disconnected()));
}

fn invalid_size() -> Error {
    Error { message: String::from("invalid terminal size"), kind: ErrorKind::Message }
}

#[test]
fn activation_with_sender_installed_ignores_the_size() {
    let mut shell = streaming_shell();
    let before = shell.lifecycle();
    for (cols, rows) in [(0u16, 0u16), (1, 1), (1, 24), (80, 1), (u16::MAX, u16::MAX)] {
        assert_eq!(shell.activate(cols, rows), Ok(None));
        assert!(matches!(shell.screen(cols, rows), Ok(ScreenStep::Ready(_))));
    }
    assert_eq!(shell.lifecycle(), before);
    assert_eq!(shell.mirror_size(), (24, 80));
}

#[test]
fn activation_without_channel_is_disconnected_for_every_size() {
    let mut shell = Shell::new(token(), String::from("tv"));
    shell.close();
    for (cols, rows) in [(0u16, 0u16), (1, 1), (80, 24), (u16::MAX, u16::MAX)] {
        assert_eq!(shell.activate(cols, rows), Err(disconnected()));
        assert_eq!(shell.screen(cols, rows), Err(disconnected()));
        assert_eq!(shell.resize(cols, rows), Err(disconnected()));
    }
}

#[test]
fn negotiation_refuses_a_size_the_mirror_cannot_take() {
    let mut shell = Shell::new(token(), String::from("tv"));
    let before = shell.lifecycle();
    for (cols, rows) in [(0u16, 0u16), (1, 24), (80, 1), (65528, 24), (u16::MAX, 2)] {
        assert_eq!(shell.activate(cols, rows), Err(invalid_size()));
        assert_eq!(shell.screen(cols, rows), Err(invalid_size()));
        assert_eq!(shell.resize(cols, rows), Err(invalid_size()));
        assert_eq!(shell.window_changed(Ok(()), cols, rows), Err(invalid_size()));
    }
    assert_eq!(shell.lifecycle(), before);
    assert_eq!(shell.mirror_size(), (24, 80));
    assert!(matches!(shell.activate(2, 2), Ok(Some(_))));
    assert_eq!(shell.mirror_size(), (2, 2));
}

#[test]
fn failed_window_change_leaves_the_mirror_as_it_was() {
    let mut shell = streaming_shell();
    shell.step(inbound(ChannelEvent::Data { data: b"abc".to_vec() }));
    let before = shell.snapshot(80);
    let failure = Error { message: String::from("channel failure"), kind: ErrorKind::Message };
    assert_eq!(shell.window_changed(Err(failure.clone()), 100, 50), Err(failure));
    assert_eq!(shell.mirror_size(), (24, 80));
    assert_eq!(shell.snapshot(80), before);
    assert_eq!(shell.window_changed(Ok(()), 100, 50), Ok(()));
    assert_eq!(shell.mirror_size(), (50, 100));
    assert_eq!(shell.snapshot(80), before);
}

#[test]
fn two_snapshots_in_a_row_are_equal() {
    let mut shell = streaming_shell();
    shell.step(inbound(ChannelEvent::Data { data: b"one\r\n\r\ntwo".to_vec() }));
    for width in [0u16, 1, 2, 80, u16::MAX] {
        let first = shell.screen(width, 24);
        let second = shell.screen(width, 24);
        assert_eq!(first, second);
        assert_eq!(shell.snapshot(width), shell.snapshot(width));
    }
}

#[test]
fn snapshot_fits_the_grid() {
    let mut shell = streaming_shell();
    assert_eq!(shell.window_changed(Ok(()), 100, 30), Ok(()));
    let mut output = Vec::new();
    for line in 0..100 {
        output.extend_from_slice(format!("line {}\r\n", line).as_bytes());
    }
    output.extend_from_slice(&[b'x'; 100]);
    shell.step(inbound(ChannelEvent::Data { data: output }));
    let buffer = shell.snapshot(100);
    assert_eq!(buffer.rows.len(), 30);
    assert_eq!(buffer.cursor, (100, 29));
}

#[test]
fn shrinking_redraws_on_a_fresh_grid() {
    let mut shell = streaming_shell();
    shell.step(inbound(ChannelEvent::Data { data: b"\x1b[24;1H\x1b7".to_vec() }));
    assert_eq!(shell.window_changed(Ok(()), 2, 2), Ok(()));
    assert_eq!(shell.mirror_size(), (2, 2));
    shell.step(inbound(ChannelEvent::Data { data: b"\x1b8a".to_vec() }));
    let buffer = shell.snapshot(2);
    assert!(buffer.rows.len() <= 2);
    assert!(buffer.cursor.1 < 2);
}

#[test]
fn a_reaped_shell_is_disconnected_to_its_holder() {
    let not_found = Error { message: String::from("not found"), kind: ErrorKind::NotFound };
    assert_eq!(not_found.seen_by_holder(), disconnected());
    assert_eq!(disconnected().seen_by_holder(), disconnected());
    assert_eq!(invalid_size().seen_by_holder(), invalid_size());
    assert_eq!(Error::invalid_size(), invalid_size());
}
