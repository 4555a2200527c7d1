use ostrich_client::codec::{encode, CodecError};
use ostrich_client::{Action, Client, Command, Error, Message, Report, PCK_SIZE};

fn online() -> Client<u32> {
    let mut client = Client::new(
        Some("alice".to_string()),
        Some("secret".to_string()),
        Some("127.0.0.1:9000".to_string()),
    );
    client.connect(Ok(1)).unwrap();
    client.conclude_login(Ok(Command::Ack)).unwrap();
    client
}

fn message(from: &str, body: &str) -> Command {
    Command::Deliver(from.to_string(), "alice".to_string(), body.to_string())
}

/// Drives the stream as a transport would, against a wire that records what
/// is written and a list of frames that the server has sent. Returns the
/// events, and where the stream stopped.
fn drive(
    client: &mut Client<u32>,
    wire: &mut Vec<[u8; PCK_SIZE]>,
    incoming: &mut Vec<Option<[u8; PCK_SIZE]>>,
) -> (Vec<Message>, Action) {
    let mut events = Vec::new();
    let mut report = Report::Wake;
    loop {
        report = match client.advance(report) {
            Action::Write(frame) => {
                wire.push(frame);
                Report::Written
            },
            Action::Read => {
                if incoming.is_empty() {
                    Report::Quiet
                } else {
                    match incoming.remove(0) {
                        Some(frame) => Report::Read(PCK_SIZE, frame),
                        None => Report::Read(0, [0u8; PCK_SIZE]),
                    }
                }
            },
            Action::Emit(event) => {
                events.push(event);
                Report::Wake
            },
            stop => return (events, stop),
        };
    }
}

#[test]
fn queue_before_socket_ordering() {
    let mut client = online();
    let outgoing = message("alice", "out");
    let arriving = message("bob", "in");
    client.enqueue(outgoing.clone());
    let mut wire = Vec::new();
    let mut incoming = vec![Some(encode(&arriving).unwrap())];

    let (events, stop) = drive(&mut client, &mut wire, &mut incoming);
    assert_eq!(events, vec![Message::ToSend(outgoing.clone()), Message::Received(arriving)]);
    assert_eq!(stop, Action::Suspend);
    assert_eq!(wire, vec![encode(&outgoing).unwrap()]);
}

#[test]
fn wake_with_a_waiting_command_never_reads() {
    let mut client = online();
    client.enqueue(Command::FetchRequest);
    assert_eq!(client.advance(Report::Wake), Action::Write(encode(&Command::FetchRequest).unwrap()));
    assert_eq!(client.pending(), 0);
    assert_eq!(client.advance(Report::Written), Action::Emit(Message::ToSend(Command::FetchRequest)));
    assert_eq!(client.advance(Report::Wake), Action::Read);
}

#[test]
fn fifo_outbound_order() {
    let mut client = online();
    let first = message("alice", "A");
    let second = message("alice", "B");
    client.enqueue(first.clone());
    client.enqueue(second.clone());
    assert_eq!(client.pending(), 2);
    let mut wire = Vec::new();
    let mut incoming = Vec::new();

    let (events, stop) = drive(&mut client, &mut wire, &mut incoming);
    assert_eq!(wire, vec![encode(&first).unwrap(), encode(&second).unwrap()]);
    assert_eq!(events, vec![Message::ToSend(first), Message::ToSend(second)]);
    assert_eq!(stop, Action::Suspend);
    assert_eq!(client.pending(), 0);
}

#[test]
fn commands_queued_later_follow_those_queued_earlier() {
    let mut client = online();
    let first = message("alice", "A");
    let second = message("alice", "B");
    let third = message("alice", "C");
    client.enqueue(first.clone());
    let frame = match client.advance(Report::Wake) {
        Action::Write(frame) => frame,
        other => panic!("expected a frame to write, got {:?}", other),
    };
    assert_eq!(frame, encode(&first).unwrap());
    // Commands arrive while the first frame is on its way.
    client.enqueue(second.clone());
    client.enqueue(third.clone());
    assert_eq!(client.advance(Report::Written), Action::Emit(Message::ToSend(first)));
    assert_eq!(client.advance(Report::Wake), Action::Write(encode(&second).unwrap()));
    assert_eq!(client.advance(Report::Written), Action::Emit(Message::ToSend(second)));
    assert_eq!(client.advance(Report::Wake), Action::Write(encode(&third).unwrap()));
    assert_eq!(client.advance(Report::Written), Action::Emit(Message::ToSend(third)));
}

#[test]
fn clean_termination() {
    let mut client = online();
    let first = message("alice", "A");
    let second = message("alice", "B");
    client.enqueue(first.clone());
    client.enqueue(second.clone());
    let mut wire = Vec::new();
    // The peer has closed: the next read returns no bytes.
    let mut incoming = vec![None];

    let (events, stop) = drive(&mut client, &mut wire, &mut incoming);
    assert_eq!(events, vec![Message::ToSend(first), Message::ToSend(second)]);
    assert_eq!(wire.len(), 2);
    assert_eq!(stop, Action::End);
    assert!(client.finished());
    assert_eq!(client.advance(Report::Wake), Action::End);
    assert_eq!(client.advance(Report::Read(PCK_SIZE, [0u8; PCK_SIZE])), Action::End);
    // Ending the stream does not give up the connection.
    assert!(client.connected());
    assert!(client.authenticated());
}

#[test]
fn decode_failure_propagation() {
    let mut client = online();
    let mut garbage = [0u8; PCK_SIZE];
    garbage[0] = 200;
    let mut wire = Vec::new();
    let mut incoming = vec![Some(garbage), Some(encode(&Command::Ack).unwrap())];

    let (events, stop) = drive(&mut client, &mut wire, &mut incoming);
    assert_eq!(events, Vec::new());
    assert_eq!(stop, Action::Abort(Error::Codec(CodecError::UnknownCode(200))));
    assert!(client.finished());
    // The frame behind the bad one is never read.
    assert_eq!(incoming.len(), 1);
    assert_eq!(client.advance(Report::Wake), Action::End);
}

#[test]
fn malformed_frame_aborts_the_stream() {
    let mut client = online();
    let mut frame = [0u8; PCK_SIZE];
    frame[0] = 3;
    frame[16] = 15;
    assert_eq!(client.advance(Report::Wake), Action::Read);
    assert_eq!(
        client.advance(Report::Read(PCK_SIZE, frame)),
        Action::Abort(Error::Codec(CodecError::Malformed)),
    );
    assert!(client.finished());
}

#[test]
fn received_frames_become_events_in_order() {
    let mut client = online();
    let mut wire = Vec::new();
    let first = message("bob", "one");
    let second = message("carol", "two");
    let mut incoming = vec![
        Some(encode(&first).unwrap()),
        Some(encode(&Command::Ack).unwrap()),
        Some(encode(&second).unwrap()),
    ];
    let (events, stop) = drive(&mut client, &mut wire, &mut incoming);
    assert_eq!(
        events,
        vec![
            Message::Received(first),
            Message::Received(Command::Ack),
            Message::Received(second),
        ],
    );
    assert_eq!(stop, Action::Suspend);
    assert!(wire.is_empty());
}

#[test]
fn suspended_stream_resumes_with_the_queue_first() {
    let mut client = online();
    assert_eq!(client.advance(Report::Wake), Action::Read);
    assert_eq!(client.advance(Report::Quiet), Action::Suspend);
    assert!(!client.finished());
    client.enqueue(Command::FetchRequest);
    assert_eq!(client.advance(Report::Wake), Action::Write(encode(&Command::FetchRequest).unwrap()));
}

#[test]
fn a_short_read_is_decoded_as_one_frame() {
    let mut client = online();
    assert_eq!(client.advance(Report::Wake), Action::Read);
    let frame = encode(&Command::FetchRequest).unwrap();
    assert_eq!(
        client.advance(Report::Read(1, frame)),
        Action::Emit(Message::Received(Command::FetchRequest)),
    );
}

#[test]
fn write_failure_aborts_and_does_not_requeue() {
    let mut client = online();
    client.enqueue(Command::FetchRequest);
    client.enqueue(Command::Ack);
    assert!(matches!(client.advance(Report::Wake), Action::Write(_)));
    assert_eq!(
        client.advance(Report::WriteFailed("broken pipe".to_string())),
        Action::Abort(Error::ConnectionClosed("broken pipe".to_string())),
    );
    assert!(client.finished());
    assert_eq!(client.pending(), 1);
    assert_eq!(client.advance(Report::Wake), Action::End);
}

#[test]
fn read_failure_aborts() {
    let mut client = online();
    assert_eq!(client.advance(Report::Wake), Action::Read);
    assert_eq!(
        client.advance(Report::ReadFailed("connection reset".to_string())),
        Action::Abort(Error::ConnectionClosed("connection reset".to_string())),
    );
    assert_eq!(client.advance(Report::Quiet), Action::End);
}

#[test]
fn command_without_frame_aborts_and_leaves_the_queue() {
    let mut client = online();
    client.enqueue(Command::Login("alice".to_string(), "secret".to_string()));
    client.enqueue(Command::FetchRequest);
    assert_eq!(
        client.advance(Report::Wake),
        Action::Abort(Error::Codec(CodecError::Unsupported)),
    );
    assert_eq!(client.pending(), 1);
    assert!(client.finished());

    let mut client = online();
    client.enqueue(Command::Failure("x".repeat(2000)));
    assert_eq!(
        client.advance(Report::Wake),
        Action::Abort(Error::Codec(CodecError::FieldTooLong)),
    );
}

#[test]
fn stream_without_connection_aborts() {
    let mut client: Client<u32> = Client::new(None, None, None);
    client.enqueue(Command::FetchRequest);
    assert_eq!(client.advance(Report::Wake), Action::Abort(Error::NotConnected));
    assert!(client.finished());
}

#[test]
fn reports_out_of_turn_abort() {
    let unasked = [
        Report::Written,
        Report::WriteFailed("x".to_string()),
        Report::Quiet,
        Report::Read(PCK_SIZE, [0u8; PCK_SIZE]),
        Report::Read(0, [0u8; PCK_SIZE]),
        Report::ReadFailed("x".to_string()),
    ];
    for report in unasked {
        let mut client = online();
        assert_eq!(client.advance(report), Action::Abort(Error::OutOfTurn));
        assert!(client.finished());
    }

    // While a write is under way only its outcome is in turn.
    for report in [Report::Wake, Report::Quiet, Report::Read(0, [0u8; PCK_SIZE])] {
        let mut client = online();
        client.enqueue(Command::Ack);
        assert!(matches!(client.advance(Report::Wake), Action::Write(_)));
        assert_eq!(client.advance(report), Action::Abort(Error::OutOfTurn));
    }

    // While a read is under way only its outcome is in turn.
    for report in [Report::Wake, Report::Written] {
        let mut client = online();
        assert_eq!(client.advance(Report::Wake), Action::Read);
        assert_eq!(client.advance(report), Action::Abort(Error::OutOfTurn));
    }
}

#[test]
fn dispatch_takes_a_frame_from_the_caller() {
    let mut client = online();
    let login = Command::Login("alice".to_string(), "secret".to_string());
    client.enqueue(login.clone());
    // A deployment with a frame of its own for the login request supplies it.
    let mut own = [0u8; PCK_SIZE];
    own[0] = 4;
    assert_eq!(client.dispatch(Ok(own)), Action::Write(own));
    assert_eq!(client.advance(Report::Written), Action::Emit(Message::ToSend(login)));
}

#[test]
fn dispatch_and_deliver_keep_their_turn() {
    let mut client = online();
    // Nothing waits: there is nothing to dispatch.
    assert_eq!(client.dispatch(Err(CodecError::Unsupported)), Action::Abort(Error::OutOfTurn));

    let mut client = online();
    // No read was asked for.
    assert_eq!(client.deliver(Ok(Command::Ack)), Action::Abort(Error::OutOfTurn));
    assert_eq!(client.deliver(Ok(Command::Ack)), Action::End);
    assert_eq!(client.dispatch(Ok([0u8; PCK_SIZE])), Action::End);

    let mut client: Client<u32> = Client::new(None, None, None);
    client.enqueue(Command::Ack);
    assert_eq!(client.dispatch(Ok([0u8; PCK_SIZE])), Action::Abort(Error::NotConnected));
}

#[test]
fn deliver_takes_a_command_from_the_caller() {
    let mut client = online();
    assert_eq!(client.advance(Report::Wake), Action::Read);
    let arrived = message("bob", "hi");
    assert_eq!(client.deliver(Ok(arrived.clone())), Action::Emit(Message::Received(arrived)));

    assert_eq!(client.advance(Report::Wake), Action::Read);
    assert_eq!(
        client.deliver(Err(CodecError::UnknownCode(8))),
        Action::Abort(Error::Codec(CodecError::UnknownCode(8))),
    );
}

#[test]
fn the_stream_leaves_the_connection_alone() {
    let mut client = online();
    client.enqueue(Command::FetchRequest);
    let mut wire = Vec::new();
    let mut incoming = vec![None];
    drive(&mut client, &mut wire, &mut incoming);
    assert_eq!(client.socket_mut(), Some(&mut 1));
    assert_eq!(client.username(), Ok(&"alice".to_string()));
}

#[test]
fn closing_hands_the_connection_back() {
    let mut client = online();
    assert_eq!(client.close(), Some(1));
    assert!(!client.connected());
    assert!(!client.authenticated());
    assert_eq!(client.socket_mut(), None);
    assert_eq!(client.close(), None);
    assert_eq!(client.send_cmd(&Command::FetchRequest), Err(Error::NotConnected));
}

#[test]
fn read_that_fails_after_a_local_close_ends_the_stream() {
    let mut client = online();
    assert_eq!(client.advance(Report::Wake), Action::Read);
    client.close();
    assert_eq!(client.advance(Report::ReadFailed("socket closed".to_string())), Action::End);
    assert!(client.finished());
    assert_eq!(client.advance(Report::Wake), Action::End);
}

#[test]
fn cycle_after_a_local_close_ends_the_stream() {
    let mut client = online();
    client.enqueue(Command::FetchRequest);
    client.close();
    assert_eq!(client.advance(Report::Wake), Action::End);
    assert!(client.finished());
    assert_eq!(client.pending(), 1);
}

#[test]
fn empty_read_after_a_local_close_ends_the_stream() {
    let mut client = online();
    assert_eq!(client.advance(Report::Wake), Action::Read);
    client.close();
    assert_eq!(client.advance(Report::Read(0, [0u8; PCK_SIZE])), Action::End);
}

#[test]
fn connecting_again_after_a_close_fails_as_before() {
    let mut client = online();
    client.close();
    client.connect(Ok(2)).unwrap();
    assert_eq!(client.advance(Report::Wake), Action::Read);
    assert_eq!(
        client.advance(Report::ReadFailed("connection reset".to_string())),
        Action::Abort(Error::ConnectionClosed("connection reset".to_string())),
    );
}
