//! Decoder library for a length-framed, multiplexed binary protocol that
//! carries BLE telemetry from a co-processor: frame headers, channel
//! dispatch, and the fixed-layout record decoders for the Xiaomi sensor
//! family, the LinkyTic electricity-meter bridge, and the control channel.

use vstd::prelude::*;

pub mod ble;
pub mod control_channel;
pub mod linky;
pub mod render;
pub mod stream_channel;
pub mod stream_message;
pub mod stream_server;
pub mod timestamp;
pub mod wire;
pub mod xiaomi;

pub use stream_channel::StreamChannelError;
pub use stream_server::ServerError;
pub use timestamp::Timestamp;

verus! {

/// A channel decoder: it declares the channel identifier it serves and
/// turns one payload into its typed message.
pub trait StreamChannelHandler {
    const CHANNEL_ID: u32;

    type Message;

    fn parse_message(data: &[u8]) -> Result<Self::Message, StreamChannelError>;
}

} // verus!
