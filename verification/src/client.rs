//! The client: a session in executable form, with the connection it owns.

use std::collections::VecDeque;
use vstd::prelude::*;
use crate::codec::{decode, encode, CodecError, Frame};
use crate::command::{Command, CommandView};
use crate::error::{outcome, viewed, Error, Field};
use crate::session::{LinkView, PhaseView, Session};
use crate::stream::{Action, Message, Report};

verus! {

/// The connection of a client. The type `S` of the handle is the
/// transport's; the client keeps the handle, lends it out and drops it, and
/// never looks inside.
enum Link<S> {
    Closed,
    Open(S),
    Authenticated(S),
}

enum Phase {
    Idle,
    Writing(Command),
    Reading,
    Finished,
}

/// One chat client: its settings, its connection, the commands that wait to
/// be sent, and the state of its event stream.
pub struct Client<S> {
    username: Option<String>,
    password: Option<String>,
    address: Option<String>,
    link: Link<S>,
    closing: bool,
    outbox: VecDeque<Command>,
    phase: Phase,
}

/// The text of a setting that may be absent.
pub open spec fn text_of(setting: Option<String>) -> Option<Seq<char>> {
    match setting {
        Some(text) => Some(text@),
        None => None,
    }
}

/// The outcome of opening a connection, without the handle.
pub open spec fn opening<S>(opened: Result<S, String>) -> Result<(), Seq<char>> {
    match opened {
        Ok(_) => Ok(()),
        Err(reason) => Err(reason@),
    }
}

/// The outcome of a transfer, with the text of its failure.
pub open spec fn transfer(exchange: Result<usize, String>) -> Result<usize, Seq<char>> {
    match exchange {
        Ok(count) => Ok(count),
        Err(reason) => Err(reason@),
    }
}

/// What decoding gave, with the view of the command.
pub open spec fn reading(decoded: Result<Command, CodecError>) -> Result<CommandView, CodecError> {
    match decoded {
        Ok(command) => Ok(command@),
        Err(error) => Err(error),
    }
}

/// What encoding gave, with the view of the frame.
pub open spec fn framing(encoded: Result<Frame, CodecError>) -> Result<Seq<u8>, CodecError> {
    match encoded {
        Ok(frame) => Ok(frame@),
        Err(error) => Err(error),
    }
}

impl<S> View for Client<S> {
    type V = Session;

    closed spec fn view(&self) -> Session {
        Session {
            username: text_of(self.username),
            password: text_of(self.password),
            address: text_of(self.address),
            link: match self.link {
                Link::Closed => LinkView::Closed,
                Link::Open(_) => LinkView::Open,
                Link::Authenticated(_) => LinkView::Authenticated,
            },
            closing: self.closing,
            outbox: self.outbox@.map_values(|command: Command| command@),
            phase: match self.phase {
                Phase::Idle => PhaseView::Idle,
                Phase::Writing(command) => PhaseView::Writing(command@),
                Phase::Reading => PhaseView::Reading,
                Phase::Finished => PhaseView::Finished,
            },
        }
    }
}

impl<S> Client<S> {
    /// The connection handle that the client holds, if any.
    pub closed spec fn socket(&self) -> Option<S> {
        match self.link {
            Link::Closed => None,
            Link::Open(socket) => Some(socket),
            Link::Authenticated(socket) => Some(socket),
        }
    }

    /// A client holds a handle exactly when its session is connected; so a
    /// client that is authenticated holds one.
    pub proof fn lemma_socket_held(&self)
        ensures
            self.socket() is Some <==> self@.connected(),
            self@.authenticated() ==> self.socket() is Some,
    {
    }

    /// A client with these settings, not connected, with nothing to send.
    pub fn new(username: Option<String>, password: Option<String>, address: Option<String>) -> (client:
        Client<S>)
        ensures
            client@ == Session::fresh(text_of(username), text_of(password), text_of(address)),
            client.socket() is None,
    {
        let client = Client {
            username,
            password,
            address,
            link: Link::Closed,
            closing: false,
            outbox: VecDeque::new(),
            phase: Phase::Idle,
        };
        assert(client.outbox@.map_values(|command: Command| command@) =~= Seq::empty());
        client
    }

    /// The user name, or `ConfigMissing` when none is set.
    pub fn username(&self) -> (r: Result<&String, Error>)
        ensures
            viewed(r) == self@.setting(Field::Username),
    {
        match &self.username {
            Some(name) => Ok(name),
            None => Err(Error::ConfigMissing(Field::Username)),
        }
    }

    /// The password, or `ConfigMissing` when none is set.
    pub fn password(&self) -> (r: Result<&String, Error>)
        ensures
            viewed(r) == self@.setting(Field::Password),
    {
        match &self.password {
            Some(password) => Ok(password),
            None => Err(Error::ConfigMissing(Field::Password)),
        }
    }

    /// The server's address, or `ConfigMissing` when none is set.
    pub fn address(&self) -> (r: Result<&String, Error>)
        ensures
            viewed(r) == self@.setting(Field::Address),
    {
        match &self.address {
            Some(address) => Ok(address),
            None => Err(Error::ConfigMissing(Field::Address)),
        }
    }

    /// Whether the client holds a connection.
    pub fn connected(&self) -> (yes: bool)
        ensures
            yes == self@.connected(),
    {
        match &self.link {
            Link::Closed => false,
            _ => true,
        }
    }

    /// Whether the server has accepted the client's credentials.
    pub fn authenticated(&self) -> (yes: bool)
        ensures
            yes == self@.authenticated(),
    {
        match &self.link {
            Link::Authenticated(_) => true,
            _ => false,
        }
    }

    /// The number of commands that wait to be sent.
    pub fn pending(&self) -> (count: usize)
        ensures
            count == self@.outbox.len(),
    {
        self.outbox.len()
    }

    /// Whether the event stream has ended or was aborted.
    pub fn finished(&self) -> (yes: bool)
        ensures
            yes == (self@.phase is Finished),
    {
        match &self.phase {
            Phase::Finished => true,
            _ => false,
        }
    }

    /// Lends the connection handle out for one read or write.
    pub fn socket_mut(&mut self) -> (r: Option<&mut S>)
        ensures
            r is Some <==> old(self)@.connected(),
            r matches Some(socket) ==> Some(*socket) == old(self).socket(),
            match r {
                Some(socket) => final(self).socket() == Some(*final(socket)),
                None => final(self).socket() is None,
            },
            final(self)@ == old(self)@,
    {
        match &mut self.link {
            Link::Closed => None,
            Link::Open(socket) => Some(socket),
            Link::Authenticated(socket) => Some(socket),
        }
    }

    fn drop_link(&mut self)
        ensures
            final(self)@ == old(self)@.dropped(),
            final(self).socket() is None,
    {
        self.link = Link::Closed;
    }

    /// Takes up the outcome of opening a connection to the address: the
    /// handle, or the transport's description of the failure.
    ///
    /// With no address set this fails with `ConfigMissing` and the handle is
    /// dropped. A failure to open fails with `ConnectionRefused` and leaves
    /// the client as it was. A handle makes the client connected and not
    /// yet accepted; a connection that it held before is dropped.
    pub fn connect(&mut self, opened: Result<S, String>) -> (r: Result<(), Error>)
        ensures
            (final(self)@, outcome(r)) == old(self)@.connect(opening(opened)),
            final(self).socket() == (if r is Ok {
                Some(opened->Ok_0)
            } else {
                old(self).socket()
            }),
    {
        if self.address.is_none() {
            return Err(Error::ConfigMissing(Field::Address));
        }
        match opened {
            Ok(socket) => {
                self.link = Link::Open(socket);
                self.closing = false;
                Ok(())
            },
            Err(reason) => Err(Error::ConnectionRefused(reason)),
        }
    }

    /// Closes the session on the application's behalf: the client gives
    /// the connection handle up and hands it back, so that the transport can
    /// shut it down. The stream then ends instead of failing: at the next
    /// cycle, or when the read that is under way fails.
    pub fn close(&mut self) -> (handle: Option<S>)
        ensures
            final(self)@ == old(self)@.close(),
            handle == old(self).socket(),
            final(self).socket() is None,
    {
        let mut link = Link::Closed;
        std::mem::swap(&mut self.link, &mut link);
        self.closing = true;
        match link {
            Link::Closed => None,
            Link::Open(socket) => Some(socket),
            Link::Authenticated(socket) => Some(socket),
        }
    }

    /// The login request to transmit: the credentials as a command.
    ///
    /// Fails with `ConfigMissing` when the user name or the password is not
    /// set, and with `NotConnected` when the client holds no connection.
    pub fn log_in(&self) -> (r: Result<Command, Error>)
        ensures
            viewed(r) == self@.log_in(),
    {
        let name = match &self.username {
            Some(name) => name,
            None => {
                return Err(Error::ConfigMissing(Field::Username));
            },
        };
        let password = match &self.password {
            Some(password) => password,
            None => {
                return Err(Error::ConfigMissing(Field::Password));
            },
        };
        if !self.connected() {
            return Err(Error::NotConnected);
        }
        Ok(Command::Login(name.clone(), password.clone()))
    }

    /// Takes up what the server's answer to the login request decoded to.
    ///
    /// `Ack` makes the client authenticated and keeps the connection. A
    /// `Failure` fails with `PermissionDenied` and the server's reason, any
    /// other command with `InvalidData`, a frame that did not decode with
    /// `ConnectionRefused`; each of them drops the connection.
    pub fn conclude_login(&mut self, reply: Result<Command, CodecError>) -> (r: Result<(), Error>)
        ensures
            (final(self)@, outcome(r)) == old(self)@.conclude_login(reading(reply)),
            final(self).socket() == (if r is Ok || !old(self)@.connected() {
                old(self).socket()
            } else {
                None
            }),
    {
        let mut link = Link::Closed;
        std::mem::swap(&mut self.link, &mut link);
        let socket = match link {
            Link::Closed => {
                return Err(Error::NotConnected);
            },
            Link::Open(socket) => socket,
            Link::Authenticated(socket) => socket,
        };
        match reply {
            Ok(Command::Ack) => {
                self.link = Link::Authenticated(socket);
                Ok(())
            },
            Ok(Command::Failure(reason)) => Err(Error::PermissionDenied(reason)),
            Ok(_) => Err(Error::InvalidData),
            Err(_) => Err(Error::no_response()),
        }
    }

    /// Takes up the outcome of the login exchange: the number of bytes that
    /// the read returned into `frame`, or the transport's description of
    /// the write or read that failed.
    ///
    /// A failed transfer fails with `ConnectionClosed`, an empty read with
    /// `ConnectionRefused`; both drop the connection. Otherwise the frame is
    /// decoded and the answer taken up as `conclude_login` says.
    pub fn login_reply(&mut self, exchange: Result<usize, String>, frame: &Frame) -> (r: Result<
        (),
        Error,
    >)
        ensures
            (final(self)@, outcome(r)) == old(self)@.login_reply(transfer(exchange), frame@),
            final(self).socket() == (if r is Ok || !old(self)@.connected() {
                old(self).socket()
            } else {
                None
            }),
    {
        if !self.connected() {
            return Err(Error::NotConnected);
        }
        match exchange {
            Err(reason) => {
                self.drop_link();
                Err(Error::ConnectionClosed(reason))
            },
            Ok(count) => {
                if count == 0 {
                    self.drop_link();
                    Err(Error::no_response())
                } else {
                    self.conclude_login(decode(frame))
                }
            },
        }
    }

    /// The frame that carries a command, for a client that can send it.
    ///
    /// Fails with `NotConnected` when the client holds no connection, and
    /// with the codec's error when the command has no frame.
    pub fn send_cmd(&self, command: &Command) -> (r: Result<Frame, Error>)
        ensures
            viewed(r) == self@.send_cmd(command@),
    {
        if !self.connected() {
            return Err(Error::NotConnected);
        }
        match encode(command) {
            Ok(frame) => Ok(frame),
            Err(error) => Err(Error::Codec(error)),
        }
    }

    /// The frame that carries a chat message from the client's user.
    ///
    /// Fails with `ConfigMissing` when no user name is set, with
    /// `NotConnected` when the client holds no connection, and with the
    /// codec's error when the message has no frame.
    pub fn send(&self, target: String, message: String) -> (r: Result<Frame, Error>)
        ensures
            viewed(r) == self@.send(target@, message@),
    {
        match &self.username {
            None => Err(Error::ConfigMissing(Field::Username)),
            Some(name) => {
                let command = Command::Deliver(name.clone(), target, message);
                self.send_cmd(&command)
            },
        }
    }

    /// The frame that asks the server for one pending message.
    pub fn fetch_one(&self) -> (r: Result<Frame, Error>)
        ensures
            viewed(r) == self@.fetch_one(),
    {
        self.send_cmd(&Command::FetchRequest)
    }

    /// The command that one read brought: `count` bytes into `frame`.
    ///
    /// Fails with `NotConnected` when the client holds no connection, with
    /// `ConnectionClosed` when the read returned no data, and with the
    /// codec's error when the frame does not decode.
    pub fn receive(&self, count: usize, frame: &Frame) -> (r: Result<Command, Error>)
        ensures
            viewed(r) == self@.receive(count, frame@),
    {
        if !self.connected() {
            return Err(Error::NotConnected);
        }
        if count == 0 {
            return Err(Error::no_data());
        }
        match decode(frame) {
            Ok(command) => Ok(command),
            Err(error) => Err(Error::Codec(error)),
        }
    }

    /// Puts a command at the end of the queue of commands to send.
    pub fn enqueue(&mut self, command: Command)
        ensures
            final(self)@ == old(self)@.enqueue(command@),
            final(self).socket() == old(self).socket(),
    {
        self.outbox.push_back(command);
        assert(self.outbox@.map_values(|command: Command| command@) =~= old(self).outbox@.map_values(
            |command: Command| command@,
        ).push(command@));
    }

    fn finish(&mut self)
        ensures
            final(self)@ == old(self)@.finished(),
            final(self).socket() == old(self).socket(),
    {
        self.phase = Phase::Finished;
    }

    fn stray(&mut self) -> (action: Action)
        ensures
            (final(self)@, action@) == old(self)@.stray(),
            final(self).socket() == old(self).socket(),
    {
        if self.finished() {
            Action::End
        } else {
            self.finish();
            Action::Abort(Error::OutOfTurn)
        }
    }

    fn unlinked(&mut self) -> (action: Action)
        ensures
            (final(self)@, action@) == old(self)@.unlinked(),
            final(self).socket() == old(self).socket(),
    {
        self.finish();
        if self.closing {
            Action::End
        } else {
            Action::Abort(Error::NotConnected)
        }
    }

    /// Takes the oldest waiting command out of the queue to be written,
    /// with what encoding it gave.
    ///
    /// With a frame the answer is `Write` and the stream waits for the
    /// write; without one the stream is aborted with the codec's error. The
    /// command is not queued again. Without a connection the stream is
    /// aborted with `NotConnected`, or ends where the application has closed
    /// the session. Where no cycle may begin or nothing waits, the call is
    /// out of turn.
    pub fn dispatch(&mut self, encoded: Result<Frame, CodecError>) -> (action: Action)
        ensures
            (final(self)@, action@) == old(self)@.dispatch(framing(encoded)),
            final(self).socket() == old(self).socket(),
    {
        match &self.phase {
            Phase::Idle => {},
            _ => {
                return self.stray();
            },
        }
        if !self.connected() {
            return self.unlinked();
        }
        match self.outbox.pop_front() {
            None => self.stray(),
            Some(command) => {
                assert(self.outbox@.map_values(|command: Command| command@) =~= old(
                    self,
                ).outbox@.map_values(|command: Command| command@).drop_first());
                match encoded {
                    Ok(frame) => {
                        self.phase = Phase::Writing(command);
                        Action::Write(frame)
                    },
                    Err(error) => {
                        self.phase = Phase::Finished;
                        Action::Abort(Error::Codec(error))
                    },
                }
            },
        }
    }

    /// Takes up what a frame that was read decoded to.
    ///
    /// A command is handed out as a `Received` event; a failure aborts the
    /// stream with the codec's error. Where the stream had asked for no
    /// read, the call is out of turn.
    pub fn deliver(&mut self, decoded: Result<Command, CodecError>) -> (action: Action)
        ensures
            (final(self)@, action@) == old(self)@.deliver(reading(decoded)),
            final(self).socket() == old(self).socket(),
    {
        match &self.phase {
            Phase::Reading => {},
            _ => {
                return self.stray();
            },
        }
        match decoded {
            Ok(command) => {
                self.phase = Phase::Idle;
                Action::Emit(Message::Received(command))
            },
            Err(error) => {
                self.phase = Phase::Finished;
                Action::Abort(Error::Codec(error))
            },
        }
    }

    fn wake(&mut self) -> (action: Action)
        ensures
            (final(self)@, action@) == old(self)@.wake(),
            final(self).socket() == old(self).socket(),
    {
        match &self.phase {
            Phase::Idle => {},
            _ => {
                return self.stray();
            },
        }
        if !self.connected() {
            self.unlinked()
        } else if self.outbox.len() == 0 {
            self.phase = Phase::Reading;
            Action::Read
        } else {
            let encoded = encode(&self.outbox[0]);
            self.dispatch(encoded)
        }
    }

    fn written(&mut self, failure: Option<String>) -> (action: Action)
        ensures
            (final(self)@, action@) == old(self)@.written(text_of(failure)),
            final(self).socket() == old(self).socket(),
    {
        let mut phase = Phase::Idle;
        std::mem::swap(&mut self.phase, &mut phase);
        match phase {
            Phase::Writing(command) => match failure {
                None => Action::Emit(Message::ToSend(command)),
                Some(reason) => {
                    self.phase = Phase::Finished;
                    Action::Abort(Error::ConnectionClosed(reason))
                },
            },
            other => {
                self.phase = other;
                self.stray()
            },
        }
    }

    fn unread(&mut self, report: Report) -> (action: Action)
        ensures
            (final(self)@, action@) == old(self)@.unread(report@),
            final(self).socket() == old(self).socket(),
    {
        match &self.phase {
            Phase::Reading => {},
            _ => {
                return self.stray();
            },
        }
        match report {
            Report::Quiet => {
                self.phase = Phase::Idle;
                Action::Suspend
            },
            Report::ReadFailed(reason) => {
                self.phase = Phase::Finished;
                if self.closing {
                    Action::End
                } else {
                    Action::Abort(Error::ConnectionClosed(reason))
                }
            },
            _ => {
                self.phase = Phase::Finished;
                Action::End
            },
        }
    }

    /// One step of the event stream: takes up a report of the transport
    /// and answers with what the transport is to do next, or with an event
    /// for the application.
    ///
    /// A cycle begins with `Wake`. While commands wait, the oldest is taken
    /// out and its frame handed out to be written; once the write is
    /// reported, the command is emitted as `ToSend`. Only when nothing waits
    /// is the connection read: a frame is decoded and emitted as `Received`,
    /// an empty read ends the stream, and a connection with nothing ready
    /// suspends it. The first failure of a write, a read, an encoding or a
    /// decoding aborts the stream, but a read that fails after the
    /// application has closed the session ends it; after its end or abort
    /// every answer is `End`.
    pub fn advance(&mut self, report: Report) -> (action: Action)
        ensures
            (final(self)@, action@) == old(self)@.advance(report@),
            final(self).socket() == old(self).socket(),
    {
        match report {
            Report::Wake => self.wake(),
            Report::Written => self.written(None),
            Report::WriteFailed(reason) => self.written(Some(reason)),
            Report::Read(count, frame) => {
                if count == 0 {
                    self.unread(Report::Read(count, frame))
                } else {
                    let decoded = decode(&frame);
                    self.deliver(decoded)
                }
            },
            other => self.unread(other),
        }
    }
}

} // verus!
