//! The empty control channel: its presence alone carries meaning, so its
//! decoder accepts any payload and produces the empty message.

use vstd::prelude::*;

use crate::stream_channel::{StreamChannelError, CONTROL_CHANNEL_ID};
use crate::StreamChannelHandler;

verus! {

/// Marker type for the control-channel decoder.
pub struct ControlHandler;

/// The empty control message.
#[derive(Debug, Default, Clone, Copy, PartialEq, Eq, Structural)]
pub struct ControlMessage;

impl ControlHandler {
    /// Decodes a control payload: any payload, the empty one included, is
    /// accepted.
    pub fn parse_message(_data: &[u8]) -> (r: Result<ControlMessage, StreamChannelError>)
        ensures
            r == Ok::<ControlMessage, StreamChannelError>(ControlMessage),
    {
        Ok(ControlMessage)
    }
}

impl StreamChannelHandler for ControlHandler {
    const CHANNEL_ID: u32 = CONTROL_CHANNEL_ID;

    type Message = ControlMessage;

    fn parse_message(data: &[u8]) -> Result<ControlMessage, StreamChannelError> {
        ControlHandler::parse_message(data)
    }
}

} // verus!
