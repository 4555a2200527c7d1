//! What holds of every session, stated over the state machine and proved.

use vstd::prelude::*;
use vstd::endian::endianness;
use crate::codec::{decoded, encodable, encoded, frame_of, CodecError};
use crate::command::CommandView;
use crate::error::{ErrorView, Field};
use crate::session::{ActionView, MessageView, PhaseView, ReportView, Session};

verus! {

/// One thing that happens to a session while its stream runs: the
/// application queues a command, or the transport reports.
pub enum Event {
    Enqueue(CommandView),
    Report(ReportView),
}

/// The commands that a sequence of events queues, in their order.
pub open spec fn enqueued(events: Seq<Event>) -> Seq<CommandView>
    decreases events.len(),
{
    if events.len() == 0 {
        Seq::empty()
    } else {
        let before = enqueued(events.drop_last());
        match events.last() {
            Event::Enqueue(command) => before.push(command),
            Event::Report(_) => before,
        }
    }
}

/// The session after a sequence of events, and the stream's answers to
/// the reports among them, in their order.
pub open spec fn run(start: Session, events: Seq<Event>) -> (Session, Seq<ActionView>)
    decreases events.len(),
{
    if events.len() == 0 {
        (start, Seq::empty())
    } else {
        let (before, answers) = run(start, events.drop_last());
        match events.last() {
            Event::Enqueue(command) => (before.enqueue(command), answers),
            Event::Report(report) => {
                let (after, answer) = before.advance(report);
                (after, answers.push(answer))
            },
        }
    }
}

/// The frames that a sequence of answers hands out to be written, in their
/// order: what the wire receives.
pub open spec fn frames_written(answers: Seq<ActionView>) -> Seq<Seq<u8>>
    decreases answers.len(),
{
    if answers.len() == 0 {
        Seq::empty()
    } else {
        let before = frames_written(answers.drop_last());
        match answers.last() {
            ActionView::Write(frame) => before.push(frame),
            _ => before,
        }
    }
}

/// The events that a sequence of answers hands to the application, in
/// their order.
pub open spec fn emitted(answers: Seq<ActionView>) -> Seq<MessageView>
    decreases answers.len(),
{
    if answers.len() == 0 {
        Seq::empty()
    } else {
        let before = emitted(answers.drop_last());
        match answers.last() {
            ActionView::Emit(message) => before.push(message),
            _ => before,
        }
    }
}

/// The frames of a sequence of commands, in their order.
pub open spec fn frames_of(commands: Seq<CommandView>) -> Seq<Seq<u8>> {
    commands.map_values(|command: CommandView| frame_of(command, endianness()))
}

/// A session that is authenticated is connected.
pub proof fn law_authenticated_is_connected(session: Session)
    ensures
        session.authenticated() ==> session.connected(),
{
}

/// A connected session with a user name and a password has a login request
/// made of the two. When the server's answer is `Ack`, the login succeeds,
/// the session is authenticated and still connected, the request for a
/// pending message has a frame, and a chat message has a frame unless the
/// codec has none for it.
pub proof fn law_login_accepted(session: Session, target: Seq<char>, body: Seq<char>)
    requires
        session.username is Some,
        session.password is Some,
        session.connected(),
    ensures
        session.log_in() == Ok::<CommandView, ErrorView>(
            CommandView::Login(session.username->0, session.password->0),
        ),
        ({
            let (after, result) = session.conclude_login(Ok(CommandView::Ack));
            let message = CommandView::Deliver(session.username->0, target, body);
            &&& result is Ok
            &&& after.authenticated()
            &&& after.connected()
            &&& after.fetch_one() is Ok
            &&& encodable(message) ==> after.send(target, body) is Ok
            &&& after.send(target, body) matches Err(error) ==> error is Codec
        }),
{
}

/// When the server answers a login request with `Failure`, the login fails
/// with `PermissionDenied`, the error's text is the server's reason, and the
/// session is no longer connected: whatever it is asked to send or receive
/// then fails with `NotConnected`.
pub proof fn law_login_refused(
    session: Session,
    reason: Seq<char>,
    target: Seq<char>,
    body: Seq<char>,
    command: CommandView,
    count: usize,
    frame: Seq<u8>,
)
    requires
        session.connected(),
    ensures
        ({
            let (after, result) = session.conclude_login(Ok(CommandView::Failure(reason)));
            &&& result == Err::<(), ErrorView>(ErrorView::PermissionDenied(reason))
            &&& result->Err_0.message() == reason
            &&& !after.connected()
            &&& !after.authenticated()
            &&& session.username is Some ==> after.send(target, body) == Err::<
                Seq<u8>,
                ErrorView,
            >(ErrorView::NotConnected)
            &&& after.send_cmd(command) == Err::<Seq<u8>, ErrorView>(ErrorView::NotConnected)
            &&& after.fetch_one() == Err::<Seq<u8>, ErrorView>(ErrorView::NotConnected)
            &&& after.receive(count, frame) == Err::<CommandView, ErrorView>(
                ErrorView::NotConnected,
            )
        }),
{
}

/// When the server answers a login request with a command that is neither
/// `Ack` nor `Failure`, the login fails with `InvalidData` and the session is
/// no longer connected.
pub proof fn law_login_unexpected(session: Session, reply: CommandView)
    requires
        session.connected(),
        !(reply is Ack),
        !(reply is Failure),
    ensures
        session.conclude_login(Ok(reply)) == (
            session.dropped(),
            Err::<(), ErrorView>(ErrorView::InvalidData),
        ),
        !session.conclude_login(Ok(reply)).0.connected(),
{
}

/// A login fails in every case but one, and each failure leaves the session
/// without a connection: only an `Ack` authenticates.
pub proof fn law_login_all_or_nothing(session: Session, reply: Result<CommandView, CodecError>)
    requires
        session.connected(),
    ensures
        ({
            let (after, result) = session.conclude_login(reply);
            &&& result is Ok <==> reply == Ok::<CommandView, CodecError>(CommandView::Ack)
            &&& result is Ok ==> after.authenticated()
            &&& result is Err ==> !after.connected()
        }),
{
}

/// While a command waits, a cycle never reads: the answer to `Wake` is the
/// frame of the oldest waiting command, or the abort for which it has none,
/// and once the write is reported the command is emitted as `ToSend`. A frame
/// that waits on the connection meanwhile is not asked for.
pub proof fn law_queue_before_socket(session: Session)
    requires
        session.phase is Idle,
        session.connected(),
        session.outbox.len() > 0,
    ensures
        ({
            let head = session.outbox[0];
            let (writing, first) = session.advance(ReportView::Wake);
            &&& !(first is Read)
            &&& match encoded(head) {
                Ok(frame) => {
                    &&& first == ActionView::Write(frame)
                    &&& writing.phase == PhaseView::Writing(head)
                    &&& writing.advance(ReportView::Written).1 == ActionView::Emit(
                        MessageView::ToSend(head),
                    )
                    &&& writing.advance(ReportView::Written).0.phase is Idle
                },
                Err(error) => {
                    &&& first == ActionView::Abort(ErrorView::Codec(error))
                    &&& writing.phase is Finished
                },
            }
            &&& writing.outbox == session.outbox.drop_first()
        }),
{
}

/// What holds between a run and the queue it started with, while no event
/// has been handed out yet.
spec fn head_waits(start: Session, now: Session, answers: Seq<ActionView>) -> bool {
    let head = start.outbox[0];
    let events = emitted(answers);
    if events.len() == 0 {
        ||| now.phase is Finished
        ||| now.connected() && now.phase is Idle && now.outbox.len() > 0 && now.outbox[0] == head
        ||| now.connected() && now.phase == PhaseView::Writing(head)
    } else {
        events[0] == MessageView::ToSend(head)
    }
}

proof fn lemma_head_waits(start: Session, events: Seq<Event>)
    requires
        start.phase is Idle,
        start.connected(),
        start.outbox.len() > 0,
    ensures
        head_waits(start, run(start, events).0, run(start, events).1),
    decreases events.len(),
{
    if events.len() > 0 {
        lemma_head_waits(start, events.drop_last());
        let (before, answers) = run(start, events.drop_last());
        match events.last() {
            Event::Enqueue(command) => {},
            Event::Report(report) => {
                let (after, answer) = before.advance(report);
                assert(answers.push(answer).drop_last() == answers);
            },
        }
    }
}

/// From a session in which a cycle may begin and a command waits, whatever
/// the transport then reports and the application queues, the first event
/// that the stream hands out is `ToSend` of that command: no `Received`
/// comes before it.
pub proof fn law_outbound_event_first(start: Session, events: Seq<Event>)
    requires
        start.phase is Idle,
        start.connected(),
        start.outbox.len() > 0,
    ensures
        ({
            let handed_out = emitted(run(start, events).1);
            handed_out.len() > 0 ==> handed_out[0] == MessageView::ToSend(start.outbox[0])
        }),
{
    lemma_head_waits(start, events);
}

/// What holds between a run and all the commands that were ever queued:
/// the queue is what is left of them, and the frames handed out are those
/// of the commands that left, but for one that had no frame and ended the
/// stream.
spec fn in_queue_order(start: Session, events: Seq<Event>) -> bool {
    let (now, answers) = run(start, events);
    let all = start.outbox + enqueued(events);
    let written = frames_written(answers).len();
    let left = all.len() - now.outbox.len();
    &&& now.outbox.len() <= all.len()
    &&& now.outbox == all.subrange(left, all.len() as int)
    &&& written == left || (written + 1 == left && now.phase is Finished)
    &&& frames_written(answers) == frames_of(all.subrange(0, written as int))
}

proof fn lemma_in_queue_order(start: Session, events: Seq<Event>)
    ensures
        in_queue_order(start, events),
    decreases events.len(),
{
    if events.len() == 0 {
        let all = start.outbox + enqueued(events);
        assert(all == start.outbox);
        assert(start.outbox == all.subrange(0, all.len() as int));
        assert(frames_written(Seq::<ActionView>::empty()) == frames_of(all.subrange(0, 0)));
    } else {
        let earlier = events.drop_last();
        lemma_in_queue_order(start, earlier);
        let (before, answers) = run(start, earlier);
        let all_before = start.outbox + enqueued(earlier);
        let written = frames_written(answers).len();
        let left = all_before.len() - before.outbox.len();
        match events.last() {
            Event::Enqueue(command) => {
                let all = start.outbox + enqueued(events);
                assert(all == all_before.push(command));
                assert(before.enqueue(command).outbox == all.subrange(left, all.len() as int));
                assert(all.subrange(0, written as int) == all_before.subrange(0, written as int));
            },
            Event::Report(report) => {
                let all = start.outbox + enqueued(events);
                assert(all == all_before);
                let (after, answer) = before.advance(report);
                assert(answers.push(answer).drop_last() == answers);
                if answer is Write {
                    assert(before.phase is Idle);
                    assert(before.outbox.len() > 0);
                    let head = before.outbox[0];
                    assert(head == all[left]);
                    assert(answer == ActionView::Write(frame_of(head, endianness())));
                    assert(after.outbox == all.subrange(left + 1, all.len() as int));
                    assert(all.subrange(0, written as int + 1) == all.subrange(0, written as int).push(
                        head,
                    ));
                    assert(frames_of(all.subrange(0, written as int + 1)) == frames_of(
                        all.subrange(0, written as int),
                    ).push(frame_of(head, endianness())));
                } else if after.outbox != before.outbox {
                    assert(before.phase is Idle);
                    assert(after.outbox == all.subrange(left + 1, all.len() as int));
                }
            },
        }
    }
}

/// The wire receives the frames of the queued commands in the order in
/// which the commands were queued: whatever the transport reports and
/// whenever the application queues, the frames handed out to be written are
/// the frames of the first so many commands, counted over those that waited
/// at the start and those queued since. So of two commands queued one after
/// the other, the frame of the first is handed out, and its write reported,
/// before the frame of the second.
pub proof fn law_fifo(start: Session, events: Seq<Event>)
    ensures
        ({
            let all = start.outbox + enqueued(events);
            let written = frames_written(run(start, events).1);
            &&& written.len() <= all.len()
            &&& written == frames_of(all.subrange(0, written.len() as int))
        }),
{
    lemma_in_queue_order(start, events);
}

/// A frame is handed out only when no write is under way: between two
/// frames the stream has taken up the report that the first was written.
pub proof fn law_one_frame_at_a_time(session: Session, report: ReportView)
    ensures
        session.advance(report).1 is Write ==> session.phase is Idle && session.advance(
            report,
        ).0.phase is Writing,
        session.phase is Writing ==> !(session.advance(report).1 is Write),
{
}

/// A cycle reads the connection exactly when nothing waits to be sent, and
/// an empty read then ends the stream without an error: the answer is `End`,
/// and `End` is the answer to every report after it.
pub proof fn law_clean_end(session: Session, frame: Seq<u8>, later: ReportView)
    requires
        session.phase is Idle,
        session.connected(),
    ensures
        session.advance(ReportView::Wake).1 is Read <==> session.outbox.len() == 0,
        session.outbox.len() == 0 ==> ({
            let reading = session.advance(ReportView::Wake).0;
            let (ended, last) = reading.advance(ReportView::Read(0, frame));
            &&& last is End
            &&& ended.phase is Finished
            &&& ended.advance(later) == (ended, ActionView::End)
        }),
{
}

/// Unless the application has closed the session, the stream answers
/// `End` only when it is over already, or to an empty read that it had asked
/// for; and it asks for a read only at the beginning of a cycle in which
/// nothing waits to be sent.
pub proof fn law_end_only_after_flush(session: Session, report: ReportView)
    ensures
        session.advance(report).1 is End ==> session.closing || session.phase is Finished || (
        session.phase is Reading && report is Read && report->Read_0 == 0),
        session.advance(report).1 is Read ==> session.phase is Idle && report is Wake
            && session.outbox.len() == 0,
        session.advance(report).0.phase is Reading ==> session.advance(report).1 is Read,
{
}

/// A frame that does not decode aborts the stream with the codec's error:
/// it is not skipped, and no event follows it.
pub proof fn law_decode_failure_aborts(
    session: Session,
    count: usize,
    frame: Seq<u8>,
    later: ReportView,
)
    requires
        session.phase is Reading,
        count > 0,
        decoded(frame) is Err,
    ensures
        ({
            let (after, answer) = session.advance(ReportView::Read(count, frame));
            &&& answer == ActionView::Abort(ErrorView::Codec(decoded(frame)->Err_0))
            &&& after.phase is Finished
            &&& after.advance(later) == (after, ActionView::End)
        }),
{
}

/// The first failure is the last answer but `End`: an abort leaves the
/// stream over, and a stream that is over answers `End` and changes nothing.
pub proof fn law_abort_is_final(session: Session, report: ReportView, later: ReportView)
    ensures
        ({
            let (after, answer) = session.advance(report);
            &&& answer is Abort || answer is End ==> after.phase is Finished
            &&& after.phase is Finished ==> after.advance(later) == (after, ActionView::End)
        }),
{
}

/// Once the application has closed the session, the stream fails no more
/// for want of a connection: a cycle that begins ends the stream, and so
/// does the failure of a read that was under way. No error is handed out.
pub proof fn law_local_close_ends_cleanly(session: Session, reason: Seq<char>)
    ensures
        !session.close().connected(),
        !session.close().authenticated(),
        session.phase is Idle ==> session.close().advance(ReportView::Wake) == (
            session.close().finished(),
            ActionView::End,
        ),
        session.phase is Reading ==> session.close().advance(ReportView::ReadFailed(reason)) == (
            session.close().finished(),
            ActionView::End,
        ),
{
}

/// No step of the stream opens, drops or authenticates the connection, and
/// none changes the settings; queueing a command changes the queue alone.
pub proof fn law_stream_keeps_session(session: Session, report: ReportView, command: CommandView)
    ensures
        ({
            let after = session.advance(report).0;
            &&& after.link == session.link
            &&& after.closing == session.closing
            &&& after.username == session.username
            &&& after.password == session.password
            &&& after.address == session.address
        }),
        session.enqueue(command) == (Session {
            outbox: session.outbox.push(command),
            ..session
        }),
{
}

} // verus!
