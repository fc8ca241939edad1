//! Frame header and the tagged union of decoded channel messages.

use vstd::prelude::*;

use crate::control_channel::ControlMessage;
use crate::linky::LinkyTicRecord;
use crate::xiaomi::XiaomiRecord;

verus! {

/// One wire-frame header: a 32-bit channel identifier followed by the
/// length of the payload that comes after it, both little-endian.
#[derive(Debug, Clone, Copy, PartialEq, Eq, Structural)]
pub struct MessageHeader {
    pub channel_id: u32,
    pub message_len: u16,
}

impl MessageHeader {
    pub fn new(channel_id: u32, message_len: u16) -> (r: MessageHeader)
        ensures
            r.channel_id == channel_id,
            r.message_len == message_len,
    {
        MessageHeader { channel_id, message_len }
    }
}

/// One decoded frame, tagged by the channel it arrived on.
#[derive(Debug, Clone, PartialEq, Eq)]
pub enum ChannelMessage {
    Xiaomi(XiaomiRecord),
    LinkyTic(LinkyTicRecord),
    Control(ControlMessage),
}

} // verus!
