//! The frame layer: the error taxonomy, header parsing, the channel
//! dispatch table, and reading one full frame out of a byte stream.

use vstd::prelude::*;
use vstd::bytes::{spec_u16_from_le_bytes, spec_u32_from_le_bytes};
use vstd::slice::slice_subrange;
use vstd::string::StringExecFns;

use crate::control_channel::{ControlHandler, ControlMessage};
use crate::linky::{linky_record_matches, LinkyTicHandler};
use crate::stream_message::{ChannelMessage, MessageHeader};
use crate::wire::{read_u16_at, read_u32_at};
use crate::xiaomi::{xiaomi_record_matches, XiaomiHandler};

verus! {

/// The channel identifier of the control channel.
pub const CONTROL_CHANNEL_ID: u32 = 0x0000_0000;

/// The channel identifier of the Xiaomi sensor channel.
pub const XIAOMI_CHANNEL_ID: u32 = 0xfa30_fa42;

/// The channel identifier of the LinkyTic meter channel.
pub const LINKY_TIC_CHANNEL_ID: u32 = 0xcd1f_14bd;

/// What can go wrong between the wire and a decoded record.
///
/// `UnhandledChannelId` is frame-local and recoverable: the offending
/// frame has been fully consumed, so the stream stays positioned at the
/// next header. Every other variant is fatal to the connection.
#[derive(Debug, Clone, Copy, PartialEq, Eq, Structural)]
pub enum StreamChannelError {
    /// The stream ended before a full six-byte header could be read.
    InvalidMessageHeader,
    /// A payload did not decode as its channel's layout demands.
    InvalidMessageData,
    /// A payload was shorter than its channel's fixed layout.
    InvalidMessageLength,
    /// A frame named a channel outside the dispatch table.
    UnhandledChannelId,
    /// The transport failed underneath the frame layer.
    IoError,
}

impl StreamChannelError {
    /// The human-readable description of the error.
    pub fn message(&self) -> (r: String)
        ensures
            (*self == StreamChannelError::InvalidMessageHeader ==> r@ == "Invalid message header"@),
            (*self == StreamChannelError::InvalidMessageData ==> r@ == "Invalid message data"@),
            (*self == StreamChannelError::InvalidMessageLength ==> r@ == "Invalid message Length"@),
            (*self == StreamChannelError::UnhandledChannelId ==> r@ == "Unhandled channel ID"@),
            (*self == StreamChannelError::IoError ==> r@ == "IO error"@),
    {
        match self {
            StreamChannelError::InvalidMessageHeader => String::from_str("Invalid message header"),
            StreamChannelError::InvalidMessageData => String::from_str("Invalid message data"),
            StreamChannelError::InvalidMessageLength => String::from_str("Invalid message Length"),
            StreamChannelError::UnhandledChannelId => String::from_str("Unhandled channel ID"),
            StreamChannelError::IoError => String::from_str("IO error"),
        }
    }
}

/// The header that six little-endian bytes spell out: the channel
/// identifier in the first four, the payload length in the last two.
pub open spec fn spec_parse_header(data: Seq<u8>) -> MessageHeader
    recommends
        data.len() >= 6,
{
    MessageHeader {
        channel_id: spec_u32_from_le_bytes(data.subrange(0, 4)),
        message_len: spec_u16_from_le_bytes(data.subrange(4, 6)),
    }
}

/// Parses one frame header. Fails with `InvalidMessageHeader` exactly when
/// fewer than six bytes are available; the length field is not validated.
pub fn parse_message_header(data: &[u8]) -> (r: Result<MessageHeader, StreamChannelError>)
    ensures
        data@.len() >= 6 ==> r == Ok::<MessageHeader, StreamChannelError>(
            spec_parse_header(data@),
        ),
        data@.len() < 6 ==> r == Err::<MessageHeader, StreamChannelError>(
            StreamChannelError::InvalidMessageHeader,
        ),
{
    if data.len() < 6 {
        return Err(StreamChannelError::InvalidMessageHeader);
    }

    let channel_id = read_u32_at(data, 0);
    let message_len = read_u16_at(data, 4);

    Ok(MessageHeader::new(channel_id, message_len))
}

/// What dispatching one fully-read payload must produce: the decoder of
/// the named channel applied to the payload, or `UnhandledChannelId` for a
/// channel outside the table.
pub open spec fn dispatch_result_matches(
    r: Result<ChannelMessage, StreamChannelError>,
    channel_id: u32,
    data: Seq<u8>,
) -> bool {
    if channel_id == XIAOMI_CHANNEL_ID {
        if data.len() >= 24 {
            r matches Ok(ChannelMessage::Xiaomi(rec)) && xiaomi_record_matches(rec, data)
        } else {
            r == Err::<ChannelMessage, StreamChannelError>(StreamChannelError::InvalidMessageLength)
        }
    } else if channel_id == LINKY_TIC_CHANNEL_ID {
        if data.len() >= 85 {
            r matches Ok(ChannelMessage::LinkyTic(rec)) && linky_record_matches(rec, data)
        } else {
            r == Err::<ChannelMessage, StreamChannelError>(StreamChannelError::InvalidMessageLength)
        }
    } else if channel_id == CONTROL_CHANNEL_ID {
        r == Ok::<ChannelMessage, StreamChannelError>(ChannelMessage::Control(ControlMessage))
    } else {
        r == Err::<ChannelMessage, StreamChannelError>(StreamChannelError::UnhandledChannelId)
    }
}

/// Routes one payload to the decoder of its channel. Any channel
/// identifier outside the table is rejected as `UnhandledChannelId`.
pub fn dispatch_message(channel_id: u32, data: &[u8]) -> (r: Result<
    ChannelMessage,
    StreamChannelError,
>)
    ensures
        dispatch_result_matches(r, channel_id, data@),
{
    if channel_id == XIAOMI_CHANNEL_ID {
        match XiaomiHandler::parse_message(data) {
            Ok(rec) => Ok(ChannelMessage::Xiaomi(rec)),
            Err(e) => Err(e),
        }
    } else if channel_id == LINKY_TIC_CHANNEL_ID {
        match LinkyTicHandler::parse_message(data) {
            Ok(rec) => Ok(ChannelMessage::LinkyTic(rec)),
            Err(e) => Err(e),
        }
    } else if channel_id == CONTROL_CHANNEL_ID {
        match ControlHandler::parse_message(data) {
            Ok(m) => Ok(ChannelMessage::Control(m)),
            Err(e) => Err(e),
        }
    } else {
        Err(StreamChannelError::UnhandledChannelId)
    }
}

/// Reads the one frame that starts at `pos` in a buffered byte stream and
/// returns its decoded message together with the position of the next
/// frame.
///
/// A stream that ends before six header bytes fails with
/// `InvalidMessageHeader`; one that ends inside the announced payload
/// fails as a transport error. In both fatal cases the stream is spent and
/// the returned position is its end. Once the frame is fully present its
/// payload is dispatched, and the returned position stands exactly at the
/// start of the next header — also when the channel is unhandled or the
/// payload too short for its layout, since the frame was consumed whole.
pub fn read_message_at(data: &[u8], pos: usize) -> (r: (
    Result<ChannelMessage, StreamChannelError>,
    usize,
))
    ensures
        pos + 6 > data@.len() ==> r == (
            Err::<ChannelMessage, StreamChannelError>(StreamChannelError::InvalidMessageHeader),
            data@.len() as usize,
        ),
        pos + 6 <= data@.len() ==> {
            let header = spec_parse_header(data@.subrange(pos as int, pos as int + 6));
            &&& (pos + 6 + header.message_len > data@.len() ==> r == (
                Err::<ChannelMessage, StreamChannelError>(StreamChannelError::IoError),
                data@.len() as usize,
            ))
            &&& (pos + 6 + header.message_len <= data@.len() ==> {
                &&& dispatch_result_matches(
                    r.0,
                    header.channel_id,
                    data@.subrange(pos as int + 6, pos as int + 6 + header.message_len),
                )
                &&& r.1 == pos + 6 + header.message_len
            })
        },
{
    let n = data.len();
    if pos >= n || n - pos < 6 {
        return (Err(StreamChannelError::InvalidMessageHeader), n);
    }

    let header_bytes = slice_subrange(data, pos, pos + 6);
    let header = match parse_message_header(header_bytes) {
        Ok(h) => h,
        Err(e) => { return (Err(e), n) },
    };

    let payload_len = header.message_len as usize;
    if n - (pos + 6) < payload_len {
        return (Err(StreamChannelError::IoError), n);
    }

    let payload = slice_subrange(data, pos + 6, pos + 6 + payload_len);
    let result = dispatch_message(header.channel_id, payload);
    (result, pos + 6 + payload_len)
}

} // verus!
