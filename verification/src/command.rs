//! Commands, and the decoding of a frame into a command.

use crate::frame::{FrameView, PlainFrame};
use vstd::prelude::*;

verus! {

/// The abstract value of a command.
pub enum CommandView {
    Get { key: Seq<char> },
    SetKey { key: Seq<char>, value: Seq<u8> },
    Unsupported { description: Seq<char> },
}

/// A decoded operation. `Unsupported` stands for every command that the
/// decoder knows and this service does not serve; it keeps the decoder's
/// description of the command.
#[derive(Debug, PartialEq, Eq)]
pub enum Command {
    Get { key: String },
    SetKey { key: String, value: Vec<u8> },
    Unsupported { description: String },
}

impl View for Command {
    type V = CommandView;

    open spec fn view(&self) -> CommandView {
        match self {
            Command::Get { key } => CommandView::Get { key: key@ },
            Command::SetKey { key, value } => CommandView::SetKey { key: key@, value: value@ },
            Command::Unsupported { description } => CommandView::Unsupported {
                description: description@,
            },
        }
    }
}

/// Why a frame is no command: the decoder's message.
#[derive(Debug, PartialEq, Eq)]
pub struct DecodeError {
    pub message: String,
}

/// The abstract value of a decoding: the command, or the decoder's message.
pub open spec fn decoding_view(outcome: Result<Command, DecodeError>) -> Result<
    CommandView,
    Seq<char>,
> {
    match outcome {
        Ok(command) => Ok(command@),
        Err(error) => Err(error.message@),
    }
}

/// The frame type of the transport, `mini_redis::Frame`. A value of it is
/// only handed on to the decoder.
#[verifier::external_type_specification]
#[verifier::external_body]
pub struct ExWireFrame(mini_redis::Frame);

/// What a transport frame holds: the same variant with the same text,
/// number or bytes, and for an array the contents of its items in order.
pub uninterp spec fn wire_content(wire: mini_redis::Frame) -> FrameView;

/// What `mini_redis::Command::from_frame` makes of a frame: a command, or
/// the message of its error.
pub uninterp spec fn decoded(frame: FrameView) -> Result<CommandView, Seq<char>>;

/// Builds the `mini_redis::Frame` with the same variant and the same content
/// as `frame`, arrays item by item. Trusted: that the frame built holds what
/// `frame` holds.
#[verifier::external_body]
fn to_wire(frame: &PlainFrame) -> (wire: mini_redis::Frame)
    ensures
        wire_content(wire) == frame@,
{
    match frame {
        PlainFrame::Simple(text) => mini_redis::Frame::Simple(text.clone()),
        PlainFrame::Error(text) => mini_redis::Frame::Error(text.clone()),
        PlainFrame::Integer(number) => mini_redis::Frame::Integer(*number),
        PlainFrame::Bulk(bytes) => mini_redis::Frame::Bulk(bytes::Bytes::from(bytes.clone())),
        PlainFrame::Null => mini_redis::Frame::Null,
        PlainFrame::Array(items) => mini_redis::Frame::Array(items.iter().map(to_wire).collect()),
    }
}

/// Calls `mini_redis::Command::from_frame`. Trusted: that the result depends
/// on the content of the frame alone. A get keeps its key and a set its key
/// and value (an expiry is dropped); every other command becomes
/// `Unsupported` with its debug text; an error becomes its message.
#[verifier::external_body]
fn decode_wire(wire: mini_redis::Frame) -> (outcome: Result<Command, DecodeError>)
    ensures
        decoding_view(outcome) == decoded(wire_content(wire)),
{
    match mini_redis::Command::from_frame(wire) {
        Ok(mini_redis::Command::Get(get)) => Ok(Command::Get { key: get.key().to_string() }),
        Ok(mini_redis::Command::Set(set)) => Ok(
            Command::SetKey { key: set.key().to_string(), value: set.value().to_vec() },
        ),
        Ok(other) => Ok(Command::Unsupported { description: format!("{:?}", other) }),
        Err(error) => Err(DecodeError { message: error.to_string() }),
    }
}

/// Decodes a frame into a command.
pub fn decode(frame: &PlainFrame) -> (outcome: Result<Command, DecodeError>)
    ensures
        decoding_view(outcome) == decoded(frame@),
{
    decode_wire(to_wire(frame))
}

} // verus!
