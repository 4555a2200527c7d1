//! The messages that cross the wire, as logical values.

use vstd::prelude::*;

verus! {

/// One protocol message.
#[derive(Debug, Clone, PartialEq, Eq)]
pub enum Command {
    /// A request to authenticate with a user name and a password.
    Login(String, String),
    /// The positive reply.
    Ack,
    /// The negative reply, with the reason the peer gave.
    Failure(String),
    /// A request for one pending message.
    FetchRequest,
    /// A chat message: sender, target, body.
    Deliver(String, String, String),
}

/// The mathematical value of a [`Command`]: its variant and its texts.
pub enum CommandView {
    Login(Seq<char>, Seq<char>),
    Ack,
    Failure(Seq<char>),
    FetchRequest,
    Deliver(Seq<char>, Seq<char>, Seq<char>),
}

impl View for Command {
    type V = CommandView;

    open spec fn view(&self) -> CommandView {
        match *self {
            Command::Login(name, password) => CommandView::Login(name@, password@),
            Command::Ack => CommandView::Ack,
            Command::Failure(reason) => CommandView::Failure(reason@),
            Command::FetchRequest => CommandView::FetchRequest,
            Command::Deliver(sender, target, body) => CommandView::Deliver(
                sender@,
                target@,
                body@,
            ),
        }
    }
}

} // verus!
