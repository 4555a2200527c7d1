//! Frames: the fixed-size unit of transmission, and the calls into the
//! frame codec that turn commands into frames and back.
//!
//! The codec lays a command out in one kilobyte: a code byte, a sender field,
//! a target field, a two-byte text length in the byte order of the machine,
//! and the text. It copies a field from the place where the field starts,
//! however long the field is, and it reads a field back by the length byte that
//! the frame holds. This module calls it only with fields that end inside the
//! frame and only on frames whose lengths stay inside their fields; everything
//! else is answered here with a [`CodecError`].

use vstd::prelude::*;
use vstd::endian::{endianness, Endian};
use vstd::utf8::encode_utf8;
use crate::command::{Command, CommandView};

verus! {

/// The number of bytes of every frame.
pub const PCK_SIZE: usize = 1024;

/// One frame as it is written to and read from the connection.
pub type Frame = [u8; PCK_SIZE];

/// The most bytes of a sender name that end inside a frame.
pub const SENDER_ROOM: usize = 1022;

/// The most bytes of a target name that end inside a frame.
pub const TARGET_ROOM: usize = 1007;

/// The most bytes of a text that end inside a frame.
pub const TEXT_ROOM: usize = 990;

/// The most bytes that a frame hands back as a sender name.
pub const SENDER_SPAN: u8 = 13;

/// The most bytes that a frame hands back as a target name.
pub const TARGET_SPAN: u8 = 14;

/// The most bytes that a frame hands back as a text.
pub const TEXT_SPAN: u16 = 989;

/// Why a command has no frame, or a frame no command.
#[derive(Debug, Clone, Copy, PartialEq, Eq)]
pub enum CodecError {
    /// The codec has no frame for this kind of command.
    Unsupported,
    /// A field of the command would run past the end of the frame.
    FieldTooLong,
    /// The frame's first byte, carried here, is no command code.
    UnknownCode(u8),
    /// A length in the frame is larger than the field it belongs to.
    Malformed,
}

/// The length of a text in bytes, as the codec counts it.
pub open spec fn byte_len(text: Seq<char>) -> nat {
    encode_utf8(text).len()
}

/// The code byte that stands for a command's kind, where it has one.
pub open spec fn code_of(command: CommandView) -> Option<u8> {
    match command {
        CommandView::Login(_, _) => None,
        CommandView::Ack => Some(0u8),
        CommandView::Failure(_) => Some(1u8),
        CommandView::FetchRequest => Some(2u8),
        CommandView::Deliver(_, _, _) => Some(3u8),
    }
}

/// Whether every field of the command ends inside the frame.
pub open spec fn within_frame(command: CommandView) -> bool {
    match command {
        CommandView::Failure(reason) => byte_len(reason) <= TEXT_ROOM,
        CommandView::Deliver(sender, target, body) => {
            &&& byte_len(sender) <= SENDER_ROOM
            &&& byte_len(target) <= TARGET_ROOM
            &&& byte_len(body) <= TEXT_ROOM
        },
        _ => true,
    }
}

/// Whether the codec has a frame for the command: its kind has a code and its
/// fields end inside the frame.
pub open spec fn encodable(command: CommandView) -> bool {
    code_of(command) is Some && within_frame(command)
}

/// The number that two neighbouring bytes stand for in a byte order.
pub open spec fn in_order(first: u8, second: u8, order: Endian) -> int {
    match order {
        Endian::Little => first + 256 * second,
        Endian::Big => 256 * first + second,
    }
}

/// The text length that a frame states, read in the byte order of the machine.
pub open spec fn stated_text_len(frame: Seq<u8>) -> int {
    in_order(frame[32], frame[33], endianness())
}

/// Whether every length that the frame states stays inside its field, so
/// that the codec can read the frame.
pub open spec fn readable(frame: Seq<u8>) -> bool {
    &&& frame.len() == PCK_SIZE
    &&& frame[0] == 1 ==> stated_text_len(frame) <= TEXT_SPAN
    &&& frame[0] == 3 ==> {
        &&& frame[1] <= SENDER_SPAN
        &&& frame[16] <= TARGET_SPAN
        &&& stated_text_len(frame) <= TEXT_SPAN
    }
}

/// Whether a frame decodes: it is readable and starts with a command code.
pub open spec fn decodable(frame: Seq<u8>) -> bool {
    readable(frame) && frame[0] <= 3
}

/// The frame that the codec builds for a command, in a byte order.
pub uninterp spec fn frame_of(command: CommandView, order: Endian) -> Seq<u8>;

/// The command that the codec reads from a frame, in a byte order.
pub uninterp spec fn command_of(frame: Seq<u8>, order: Endian) -> CommandView;

/// What encoding a command gives: its frame, or why it has none.
pub open spec fn encoded(command: CommandView) -> Result<Seq<u8>, CodecError> {
    if encodable(command) {
        Ok(frame_of(command, endianness()))
    } else if command is Login {
        Err(CodecError::Unsupported)
    } else {
        Err(CodecError::FieldTooLong)
    }
}

/// What decoding a frame gives: its command, or why it has none.
pub open spec fn decoded(frame: Seq<u8>) -> Result<CommandView, CodecError> {
    if decodable(frame) {
        Ok(command_of(frame, endianness()))
    } else if readable(frame) {
        Err(CodecError::UnknownCode(frame[0]))
    } else {
        Err(CodecError::Malformed)
    }
}

/// The error of the codec's two calls, `std::io::Error`: it is carried from
/// the call to the place that replaces it, and never looked into.
#[verifier::external_type_specification]
#[verifier::external_body]
pub struct ExIoError(std::io::Error);

/// What the codec is handed: a command of a kind that it knows.
enum Packet<'a> {
    Ack,
    Failure(&'a str),
    FetchRequest,
    Deliver(&'a str, &'a str, &'a str),
}

impl<'a> View for Packet<'a> {
    type V = CommandView;

    closed spec fn view(&self) -> CommandView {
        match *self {
            Packet::Ack => CommandView::Ack,
            Packet::Failure(reason) => CommandView::Failure(reason@),
            Packet::FetchRequest => CommandView::FetchRequest,
            Packet::Deliver(sender, target, body) => CommandView::Deliver(sender@, target@, body@),
        }
    }
}

/// Calls `ostrich_core::RawMessage::to_raw`.
///
/// Claimed of it: on a command whose fields end inside the frame it returns a
/// frame, never an error; the frame is a function of the command and of the
/// machine's byte order; and the frame's first byte is the code of the
/// command's kind. Nothing is claimed of a command with a longer field, on
/// which the codec writes past the end of its buffer.
#[verifier::external_body]
fn to_raw(packet: Packet) -> (r: Result<Frame, std::io::Error>)
    requires
        within_frame(packet@),
    ensures
        r is Ok,
        r matches Ok(frame) ==> frame@ == frame_of(packet@, endianness()) && Some(frame@[0])
            == code_of(packet@),
{
    let command = match packet {
        Packet::Ack => ostrich_core::Command::Ok,
        Packet::Failure(reason) => ostrich_core::Command::Err(reason.to_string()),
        Packet::FetchRequest => ostrich_core::Command::Get,
        Packet::Deliver(sender, target, body) => ostrich_core::Command::Msg(
            sender.to_string(),
            target.to_string(),
            body.to_string(),
        ),
    };
    ostrich_core::RawMessage::to_raw(&command)
}

/// Calls `ostrich_core::RawMessage::from_raw`.
///
/// Claimed of it: on a frame whose stated lengths stay inside their fields it
/// returns a command exactly when the first byte is one of the four command
/// codes; the command's kind is the one that the code stands for; and the
/// command is a function of the frame and of the machine's byte order. Nothing
/// is claimed of a frame with a larger length, on which the codec reads past
/// the end of a field.
#[verifier::external_body]
fn from_raw(frame: &Frame) -> (r: Result<Command, std::io::Error>)
    requires
        readable(frame@),
    ensures
        r is Ok <==> frame@[0] <= 3,
        r matches Ok(command) ==> command@ == command_of(frame@, endianness()) && code_of(
            command@,
        ) == Some(frame@[0]),
{
    match ostrich_core::RawMessage::from_raw(frame) {
        Ok(ostrich_core::Command::Ok) => Ok(Command::Ack),
        Ok(ostrich_core::Command::Err(reason)) => Ok(Command::Failure(reason)),
        Ok(ostrich_core::Command::Get) => Ok(Command::FetchRequest),
        Ok(ostrich_core::Command::Msg(sender, target, body)) => Ok(
            Command::Deliver(sender, target, body),
        ),
        Err(error) => Err(error),
    }
}

/// Calls `u16::from_ne_bytes`.
///
/// Claimed of it: the result is the number that the two bytes stand for in
/// the byte order of the machine.
#[verifier::external_body]
fn native_u16(first: u8, second: u8) -> (n: u16)
    ensures
        n == in_order(first, second, endianness()),
{
    u16::from_ne_bytes([first, second])
}

/// Turns a command into the frame that carries it.
///
/// Fails with [`CodecError::Unsupported`] for a login request, for which the
/// codec has no frame, and with [`CodecError::FieldTooLong`] for a command with
/// a field that does not end inside the frame.
pub fn encode(command: &Command) -> (r: Result<Frame, CodecError>)
    ensures
        match r {
            Ok(frame) => encoded(command@) == Ok::<Seq<u8>, CodecError>(frame@),
            Err(error) => encoded(command@) == Err::<Seq<u8>, CodecError>(error),
        },
        r matches Ok(frame) ==> Some(frame@[0]) == code_of(command@),
{
    let packet = match command {
        Command::Login(_, _) => {
            return Err(CodecError::Unsupported);
        },
        Command::Ack => Packet::Ack,
        Command::Failure(reason) => {
            if reason.as_str().as_bytes().len() > TEXT_ROOM {
                return Err(CodecError::FieldTooLong);
            }
            Packet::Failure(reason.as_str())
        },
        Command::FetchRequest => Packet::FetchRequest,
        Command::Deliver(sender, target, body) => {
            if sender.as_str().as_bytes().len() > SENDER_ROOM || target.as_str().as_bytes().len() > TARGET_ROOM
                || body.as_str().as_bytes().len() > TEXT_ROOM {
                return Err(CodecError::FieldTooLong);
            }
            Packet::Deliver(sender.as_str(), target.as_str(), body.as_str())
        },
    };
    match to_raw(packet) {
        Ok(frame) => Ok(frame),
        Err(_) => Err(CodecError::FieldTooLong),
    }
}

/// Whether every length that the frame states stays inside its field.
pub fn is_readable(frame: &Frame) -> (yes: bool)
    ensures
        yes == readable(frame@),
{
    let code = frame[0];
    if code == 1 {
        native_u16(frame[32], frame[33]) <= TEXT_SPAN
    } else if code == 3 {
        frame[1] <= SENDER_SPAN && frame[16] <= TARGET_SPAN && native_u16(frame[32], frame[33])
            <= TEXT_SPAN
    } else {
        true
    }
}

/// Turns a frame into the command that it carries.
///
/// Fails with [`CodecError::Malformed`] for a frame that states a length
/// larger than its field, and with [`CodecError::UnknownCode`] for a readable
/// frame whose first byte is no command code.
pub fn decode(frame: &Frame) -> (r: Result<Command, CodecError>)
    ensures
        match r {
            Ok(command) => decoded(frame@) == Ok::<CommandView, CodecError>(command@),
            Err(error) => decoded(frame@) == Err::<CommandView, CodecError>(error),
        },
        r matches Ok(command) ==> code_of(command@) == Some(frame@[0]),
{
    if !is_readable(frame) {
        return Err(CodecError::Malformed);
    }
    match from_raw(frame) {
        Ok(command) => Ok(command),
        Err(_) => Err(CodecError::UnknownCode(frame[0])),
    }
}

} // verus!
