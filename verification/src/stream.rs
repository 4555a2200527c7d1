//! What passes between the event stream and the transport that drives it.

use vstd::prelude::*;
use crate::codec::Frame;
use crate::command::Command;
use crate::error::Error;
use crate::session::{ActionView, MessageView, ReportView};

verus! {

/// One event of the stream.
#[derive(Debug, Clone, PartialEq, Eq)]
pub enum Message {
    /// A command from the queue was written to the connection.
    ToSend(Command),
    /// A command arrived from the server.
    Received(Command),
}

impl View for Message {
    type V = MessageView;

    open spec fn view(&self) -> MessageView {
        match *self {
            Message::ToSend(command) => MessageView::ToSend(command@),
            Message::Received(command) => MessageView::Received(command@),
        }
    }
}

/// What the transport tells the stream.
#[derive(Debug, Clone, PartialEq, Eq)]
pub enum Report {
    /// A scheduling cycle begins.
    Wake,
    /// The frame that was handed out has been written in full.
    Written,
    /// Writing the frame failed; the transport's description.
    WriteFailed(String),
    /// The connection has nothing to read yet.
    Quiet,
    /// A read returned this many bytes into this buffer.
    Read(usize, Frame),
    /// Reading failed; the transport's description.
    ReadFailed(String),
}

impl View for Report {
    type V = ReportView;

    open spec fn view(&self) -> ReportView {
        match *self {
            Report::Wake => ReportView::Wake,
            Report::Written => ReportView::Written,
            Report::WriteFailed(reason) => ReportView::WriteFailed(reason@),
            Report::Quiet => ReportView::Quiet,
            Report::Read(count, frame) => ReportView::Read(count, frame@),
            Report::ReadFailed(reason) => ReportView::ReadFailed(reason@),
        }
    }
}

/// What the stream asks of the transport, or hands to the application.
#[derive(Debug, Clone, PartialEq, Eq)]
pub enum Action {
    /// Write this frame in full, then report `Written` or `WriteFailed`.
    Write(Frame),
    /// Poll the connection for one frame, then report `Quiet`, `Read` or
    /// `ReadFailed`.
    Read,
    /// Hand this event to the application, then report `Wake`.
    Emit(Message),
    /// Nothing is ready: wait until the queue or the connection is, then
    /// report `Wake`.
    Suspend,
    /// The stream has ended; no event follows.
    End,
    /// The stream is aborted with this error; no event follows.
    Abort(Error),
}

impl View for Action {
    type V = ActionView;

    open spec fn view(&self) -> ActionView {
        match *self {
            Action::Write(frame) => ActionView::Write(frame@),
            Action::Read => ActionView::Read,
            Action::Emit(message) => ActionView::Emit(message@),
            Action::Suspend => ActionView::Suspend,
            Action::End => ActionView::End,
            Action::Abort(error) => ActionView::Abort(error@),
        }
    }
}

} // verus!
