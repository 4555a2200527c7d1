//! The conditions under which an operation of the session fails.

use vstd::prelude::*;
use crate::codec::CodecError;

verus! {

/// A setting of the session that may be absent.
#[derive(Debug, Clone, Copy, PartialEq, Eq)]
pub enum Field {
    Username,
    Password,
    Address,
}

/// Why an operation of the session failed. Every failure is a value that
/// the caller can inspect and recover from.
#[derive(Debug, Clone, PartialEq, Eq)]
pub enum Error {
    /// A setting was needed and is not set.
    ConfigMissing(Field),
    /// The session holds no open connection.
    NotConnected,
    /// The server refused the credentials, for the reason carried here.
    PermissionDenied(String),
    /// The server answered a login request with a command that is no answer
    /// to it.
    InvalidData,
    /// The connection could not be opened, or the server gave no answer to
    /// a login request.
    ConnectionRefused(String),
    /// A read or a write on the connection failed, or a read returned no
    /// data.
    ConnectionClosed(String),
    /// A command has no frame, or a frame no command.
    Codec(CodecError),
    /// The transport reported something that the stream had not asked for.
    OutOfTurn,
}

/// The mathematical value of an [`Error`].
pub enum ErrorView {
    ConfigMissing(Field),
    NotConnected,
    PermissionDenied(Seq<char>),
    InvalidData,
    ConnectionRefused(Seq<char>),
    ConnectionClosed(Seq<char>),
    Codec(CodecError),
    OutOfTurn,
}

impl View for Error {
    type V = ErrorView;

    open spec fn view(&self) -> ErrorView {
        match *self {
            Error::ConfigMissing(field) => ErrorView::ConfigMissing(field),
            Error::NotConnected => ErrorView::NotConnected,
            Error::PermissionDenied(reason) => ErrorView::PermissionDenied(reason@),
            Error::InvalidData => ErrorView::InvalidData,
            Error::ConnectionRefused(reason) => ErrorView::ConnectionRefused(reason@),
            Error::ConnectionClosed(reason) => ErrorView::ConnectionClosed(reason@),
            Error::Codec(error) => ErrorView::Codec(error),
            Error::OutOfTurn => ErrorView::OutOfTurn,
        }
    }
}

/// The text that says a server gave no usable answer to a login request.
pub open spec fn no_response() -> Seq<char> {
    "no response from server"@
}

/// The text that says a read returned no data.
pub open spec fn no_data() -> Seq<char> {
    "connection closed by peer"@
}

/// The text that describes a codec failure.
pub open spec fn codec_message(error: CodecError) -> Seq<char> {
    match error {
        CodecError::Unsupported => "command has no frame"@,
        CodecError::FieldTooLong => "field does not fit in a frame"@,
        CodecError::UnknownCode(_) => "incorrect command byte"@,
        CodecError::Malformed => "frame states a length larger than its field"@,
    }
}

impl ErrorView {
    /// The text that describes the failure. A reason that came from outside
    /// is handed on word for word.
    pub open spec fn message(self) -> Seq<char> {
        match self {
            ErrorView::ConfigMissing(Field::Username) => "username is not set"@,
            ErrorView::ConfigMissing(Field::Password) => "password is not set"@,
            ErrorView::ConfigMissing(Field::Address) => "server address is not set"@,
            ErrorView::NotConnected => "not connected"@,
            ErrorView::PermissionDenied(reason) => reason,
            ErrorView::InvalidData => "unexpected command during login"@,
            ErrorView::ConnectionRefused(reason) => reason,
            ErrorView::ConnectionClosed(reason) => reason,
            ErrorView::Codec(error) => codec_message(error),
            ErrorView::OutOfTurn => "report does not answer the last request"@,
        }
    }
}

/// The view of a result: the view of what it holds, on either side.
pub open spec fn viewed<T: View, E: View>(result: Result<T, E>) -> Result<T::V, E::V> {
    match result {
        Ok(value) => Ok(value@),
        Err(error) => Err(error@),
    }
}

/// The view of a result that holds nothing on success.
pub open spec fn outcome<E: View>(result: Result<(), E>) -> Result<(), E::V> {
    match result {
        Ok(_) => Ok(()),
        Err(error) => Err(error@),
    }
}

impl Error {
    /// The error for a server that gave no usable answer to a login request.
    pub fn no_response() -> (error: Error)
        ensures
            error@ == ErrorView::ConnectionRefused(no_response()),
    {
        Error::ConnectionRefused("no response from server".to_owned())
    }

    /// The error for a read that returned no data.
    pub fn no_data() -> (error: Error)
        ensures
            error@ == ErrorView::ConnectionClosed(no_data()),
    {
        Error::ConnectionClosed("connection closed by peer".to_owned())
    }

    /// The text that describes the failure.
    pub fn message(&self) -> (text: String)
        ensures
            text@ == self@.message(),
    {
        match self {
            Error::ConfigMissing(Field::Username) => "username is not set".to_owned(),
            Error::ConfigMissing(Field::Password) => "password is not set".to_owned(),
            Error::ConfigMissing(Field::Address) => "server address is not set".to_owned(),
            Error::NotConnected => "not connected".to_owned(),
            Error::PermissionDenied(reason) => reason.clone(),
            Error::InvalidData => "unexpected command during login".to_owned(),
            Error::ConnectionRefused(reason) => reason.clone(),
            Error::ConnectionClosed(reason) => reason.clone(),
            Error::Codec(CodecError::Unsupported) => "command has no frame".to_owned(),
            Error::Codec(CodecError::FieldTooLong) => "field does not fit in a frame".to_owned(),
            Error::Codec(CodecError::UnknownCode(_)) => "incorrect command byte".to_owned(),
            Error::Codec(CodecError::Malformed) => {
                "frame states a length larger than its field".to_owned()
            },
            Error::OutOfTurn => "report does not answer the last request".to_owned(),
        }
    }
}

} // verus!
