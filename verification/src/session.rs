//! The session as a mathematical state machine.
//!
//! A [`Session`] is what a client knows: its settings, whether it holds a
//! connection and has been accepted by the server, the commands that wait to
//! be sent, and where the event stream stands. Every operation of the client
//! is a function here, from a session and what came in to the next session
//! and what goes out.

use vstd::prelude::*;
use crate::codec::{decoded, encoded, CodecError};
use crate::command::CommandView;
use crate::error::{no_data, no_response, ErrorView, Field};

verus! {

/// Whether the session holds a connection, and whether the server has
/// accepted it. A session that is accepted holds a connection.
pub enum LinkView {
    Closed,
    Open,
    Authenticated,
}

/// Where the event stream stands between two reports of the transport.
pub enum PhaseView {
    /// A scheduling cycle may begin.
    Idle,
    /// The frame of this command was handed out to be written.
    Writing(CommandView),
    /// The transport was asked to read one frame.
    Reading,
    /// The stream has ended or was aborted.
    Finished,
}

/// The mathematical value of an event of the stream.
pub enum MessageView {
    ToSend(CommandView),
    Received(CommandView),
}

/// The mathematical value of a report of the transport.
pub enum ReportView {
    Wake,
    Written,
    WriteFailed(Seq<char>),
    Quiet,
    Read(usize, Seq<u8>),
    ReadFailed(Seq<char>),
}

/// The mathematical value of what the stream asks for or hands out.
pub enum ActionView {
    Write(Seq<u8>),
    Read,
    Emit(MessageView),
    Suspend,
    End,
    Abort(ErrorView),
}

/// The state of one client.
pub struct Session {
    pub username: Option<Seq<char>>,
    pub password: Option<Seq<char>>,
    pub address: Option<Seq<char>>,
    pub link: LinkView,
    /// Whether the application has closed the session itself.
    pub closing: bool,
    /// The commands that wait to be sent, the oldest first.
    pub outbox: Seq<CommandView>,
    pub phase: PhaseView,
}

impl Session {
    /// The session that a new client starts from.
    pub open spec fn fresh(
        username: Option<Seq<char>>,
        password: Option<Seq<char>>,
        address: Option<Seq<char>>,
    ) -> Session {
        Session {
            username,
            password,
            address,
            link: LinkView::Closed,
            closing: false,
            outbox: Seq::empty(),
            phase: PhaseView::Idle,
        }
    }

    pub open spec fn connected(self) -> bool {
        self.link !is Closed
    }

    pub open spec fn authenticated(self) -> bool {
        self.link is Authenticated
    }

    /// The session without its connection.
    pub open spec fn dropped(self) -> Session {
        Session { link: LinkView::Closed, ..self }
    }

    /// The session with its stream over.
    pub open spec fn finished(self) -> Session {
        Session { phase: PhaseView::Finished, ..self }
    }

    /// The session with its stream in another phase.
    pub open spec fn in_phase(self, phase: PhaseView) -> Session {
        Session { phase, ..self }
    }

    /// A setting, or the error that says it is missing.
    pub open spec fn setting(self, field: Field) -> Result<Seq<char>, ErrorView> {
        let value = match field {
            Field::Username => self.username,
            Field::Password => self.password,
            Field::Address => self.address,
        };
        match value {
            Some(text) => Ok(text),
            None => Err(ErrorView::ConfigMissing(field)),
        }
    }

    /// Taking up the outcome of opening a connection to the address.
    pub open spec fn connect(self, opened: Result<(), Seq<char>>) -> (
        Session,
        Result<(), ErrorView>,
    ) {
        if self.address is None {
            (self, Err(ErrorView::ConfigMissing(Field::Address)))
        } else {
            match opened {
                Ok(_) => (Session { link: LinkView::Open, closing: false, ..self }, Ok(())),
                Err(reason) => (self, Err(ErrorView::ConnectionRefused(reason))),
            }
        }
    }

    /// The session after the application has closed it: the connection is
    /// given up, and the stream will end instead of failing.
    pub open spec fn close(self) -> Session {
        Session { link: LinkView::Closed, closing: true, ..self }
    }

    /// The login request of the session.
    pub open spec fn log_in(self) -> Result<CommandView, ErrorView> {
        if self.username is None {
            Err(ErrorView::ConfigMissing(Field::Username))
        } else if self.password is None {
            Err(ErrorView::ConfigMissing(Field::Password))
        } else if !self.connected() {
            Err(ErrorView::NotConnected)
        } else {
            Ok(CommandView::Login(self.username->0, self.password->0))
        }
    }

    /// Taking up what the server's answer to a login request decoded to.
    pub open spec fn conclude_login(self, reply: Result<CommandView, CodecError>) -> (
        Session,
        Result<(), ErrorView>,
    ) {
        if !self.connected() {
            (self, Err(ErrorView::NotConnected))
        } else {
            match reply {
                Ok(CommandView::Ack) => (Session { link: LinkView::Authenticated, ..self }, Ok(())),
                Ok(CommandView::Failure(reason)) => (
                    self.dropped(),
                    Err(ErrorView::PermissionDenied(reason)),
                ),
                Ok(_) => (self.dropped(), Err(ErrorView::InvalidData)),
                Err(_) => (self.dropped(), Err(ErrorView::ConnectionRefused(no_response()))),
            }
        }
    }

    /// Taking up the outcome of a login exchange: the number of bytes that
    /// the read returned, with the buffer that it filled, or the failure of
    /// the write or the read.
    pub open spec fn login_reply(self, exchange: Result<usize, Seq<char>>, frame: Seq<u8>) -> (
        Session,
        Result<(), ErrorView>,
    ) {
        if !self.connected() {
            (self, Err(ErrorView::NotConnected))
        } else {
            match exchange {
                Err(reason) => (self.dropped(), Err(ErrorView::ConnectionClosed(reason))),
                Ok(count) => if count == 0 {
                    (self.dropped(), Err(ErrorView::ConnectionRefused(no_response())))
                } else {
                    self.conclude_login(decoded(frame))
                },
            }
        }
    }

    /// The frame of a command that the session sends.
    pub open spec fn send_cmd(self, command: CommandView) -> Result<Seq<u8>, ErrorView> {
        if !self.connected() {
            Err(ErrorView::NotConnected)
        } else {
            match encoded(command) {
                Ok(frame) => Ok(frame),
                Err(error) => Err(ErrorView::Codec(error)),
            }
        }
    }

    /// The frame of a chat message that the session's user sends.
    pub open spec fn send(self, target: Seq<char>, body: Seq<char>) -> Result<Seq<u8>, ErrorView> {
        if self.username is None {
            Err(ErrorView::ConfigMissing(Field::Username))
        } else {
            self.send_cmd(CommandView::Deliver(self.username->0, target, body))
        }
    }

    /// The frame of a request for one pending message.
    pub open spec fn fetch_one(self) -> Result<Seq<u8>, ErrorView> {
        self.send_cmd(CommandView::FetchRequest)
    }

    /// The command that one read brought.
    pub open spec fn receive(self, count: usize, frame: Seq<u8>) -> Result<CommandView, ErrorView> {
        if !self.connected() {
            Err(ErrorView::NotConnected)
        } else if count == 0 {
            Err(ErrorView::ConnectionClosed(no_data()))
        } else {
            match decoded(frame) {
                Ok(command) => Ok(command),
                Err(error) => Err(ErrorView::Codec(error)),
            }
        }
    }

    /// The session with one more command waiting to be sent.
    pub open spec fn enqueue(self, command: CommandView) -> Session {
        Session { outbox: self.outbox.push(command), ..self }
    }

    /// What the stream answers to a report that it had not asked for: it
    /// is aborted, unless it is over already.
    pub open spec fn stray(self) -> (Session, ActionView) {
        if self.phase is Finished {
            (self, ActionView::End)
        } else {
            (self.finished(), ActionView::Abort(ErrorView::OutOfTurn))
        }
    }

    /// What the stream answers where it would need a connection and the
    /// session has none: it ends where the application has closed the
    /// session, and is aborted otherwise.
    pub open spec fn unlinked(self) -> (Session, ActionView) {
        if self.closing {
            (self.finished(), ActionView::End)
        } else {
            (self.finished(), ActionView::Abort(ErrorView::NotConnected))
        }
    }

    /// Taking the oldest waiting command out to be written, with what
    /// encoding it gave: with a frame the stream waits for the write,
    /// without one it is aborted. The command leaves the queue either way.
    pub open spec fn dispatch(self, frame: Result<Seq<u8>, CodecError>) -> (Session, ActionView) {
        if !(self.phase is Idle) {
            self.stray()
        } else if !self.connected() {
            self.unlinked()
        } else if self.outbox.len() == 0 {
            self.stray()
        } else {
            let rest = Session { outbox: self.outbox.drop_first(), ..self };
            match frame {
                Ok(frame) => (
                    rest.in_phase(PhaseView::Writing(self.outbox[0])),
                    ActionView::Write(frame),
                ),
                Err(error) => (rest.finished(), ActionView::Abort(ErrorView::Codec(error))),
            }
        }
    }

    /// Taking up what a frame that was read decoded to: a command is handed
    /// to the application, a failure aborts the stream.
    pub open spec fn deliver(self, command: Result<CommandView, CodecError>) -> (
        Session,
        ActionView,
    ) {
        if !(self.phase is Reading) {
            self.stray()
        } else {
            match command {
                Ok(command) => (
                    self.in_phase(PhaseView::Idle),
                    ActionView::Emit(MessageView::Received(command)),
                ),
                Err(error) => (self.finished(), ActionView::Abort(ErrorView::Codec(error))),
            }
        }
    }

    /// The beginning of a scheduling cycle: the queue is looked at first,
    /// and the connection only when the queue is empty.
    pub open spec fn wake(self) -> (Session, ActionView) {
        if !(self.phase is Idle) {
            self.stray()
        } else if !self.connected() {
            self.unlinked()
        } else if self.outbox.len() == 0 {
            (self.in_phase(PhaseView::Reading), ActionView::Read)
        } else {
            self.dispatch(encoded(self.outbox[0]))
        }
    }

    /// Taking up that the frame handed out was written, or why it was not.
    pub open spec fn written(self, failure: Option<Seq<char>>) -> (Session, ActionView) {
        match (self.phase, failure) {
            (PhaseView::Writing(command), None) => (
                self.in_phase(PhaseView::Idle),
                ActionView::Emit(MessageView::ToSend(command)),
            ),
            (PhaseView::Writing(_), Some(reason)) => (
                self.finished(),
                ActionView::Abort(ErrorView::ConnectionClosed(reason)),
            ),
            _ => self.stray(),
        }
    }

    /// Taking up a read that brought no frame: nothing ready yet, the end of
    /// the connection, or a failure. A failure after the application has
    /// closed the session counts as the end of the connection.
    pub open spec fn unread(self, report: ReportView) -> (Session, ActionView) {
        if !(self.phase is Reading) {
            self.stray()
        } else {
            match report {
                ReportView::Quiet => (self.in_phase(PhaseView::Idle), ActionView::Suspend),
                ReportView::ReadFailed(reason) => if self.closing {
                    (self.finished(), ActionView::End)
                } else {
                    (self.finished(), ActionView::Abort(ErrorView::ConnectionClosed(reason)))
                },
                _ => (self.finished(), ActionView::End),
            }
        }
    }

    /// One step of the event stream: from the session and a report of the
    /// transport to the next session and what the stream asks for or hands
    /// out.
    pub open spec fn advance(self, report: ReportView) -> (Session, ActionView) {
        match report {
            ReportView::Wake => self.wake(),
            ReportView::Written => self.written(None),
            ReportView::WriteFailed(reason) => self.written(Some(reason)),
            ReportView::Read(count, frame) => if count == 0 {
                self.unread(report)
            } else {
                self.deliver(decoded(frame))
            },
            _ => self.unread(report),
        }
    }
}

} // verus!
