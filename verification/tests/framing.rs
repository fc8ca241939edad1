use ble_copro_stream_server::stream_channel::{
    dispatch_message, parse_message_header, read_message_at, CONTROL_CHANNEL_ID,
    LINKY_TIC_CHANNEL_ID, XIAOMI_CHANNEL_ID,
};
use ble_copro_stream_server::stream_message::{ChannelMessage, MessageHeader};
use ble_copro_stream_server::{StreamChannelError, StreamChannelHandler};
use ble_copro_stream_server::control_channel::ControlHandler;
use ble_copro_stream_server::ServerError;
use ble_copro_stream_server::linky::LinkyTicHandler;
use ble_copro_stream_server::xiaomi::XiaomiHandler;

/// The end-to-end frame of the Xiaomi scenario: header `42 fa 30 fa 18 00`
/// (channel 0xfa30fa42, length 24) followed by its 24 payload bytes.
fn xiaomi_frame() -> Vec<u8> {
    vec![
        0x42, 0xfa, 0x30, 0xfa, 0x18, 0x00, // header
        0xaa, 0xbb, 0xcc, 0xdd, 0xee, 0xff, 0x00, 0xdd, 0x01, 0x00, 0x00, 0x00, 0x00, 0x00, 0x00,
        0x00, 0x00, 0xe8, 0x03, 0x88, 0x13, 0xdc, 0x0b, 0x32,
    ]
}

#[test]
fn header_parses_little_endian_fields() {
    let bytes = [0x42, 0xfa, 0x30, 0xfa, 0x18, 0x00];
    let header = parse_message_header(&bytes).unwrap();
    assert_eq!(header.channel_id, 0xfa30_fa42);
    assert_eq!(header.message_len, 24);
}

#[test]
fn header_shorter_than_six_bytes_is_invalid() {
    let bytes = [0x42, 0xfa, 0x30, 0xfa, 0x18];
    let r = parse_message_header(&bytes);
    assert!(matches!(r, Err(StreamChannelError::InvalidMessageHeader)));
    let r = parse_message_header(&[]);
    assert!(matches!(r, Err(StreamChannelError::InvalidMessageHeader)));
}

#[test]
fn header_length_field_may_be_zero() {
    let bytes = [0x00, 0x00, 0x00, 0x00, 0x00, 0x00];
    let header = parse_message_header(&bytes).unwrap();
    assert_eq!(header.channel_id, CONTROL_CHANNEL_ID);
    assert_eq!(header.message_len, 0);
}

#[test]
fn message_header_new_keeps_its_fields() {
    let header = MessageHeader::new(0xcd1f_14bd, 85);
    assert_eq!(header.channel_id, 0xcd1f_14bd);
    assert_eq!(header.message_len, 85);
}

#[test]
fn channel_ids_of_the_dispatch_table() {
    assert_eq!(<ControlHandler as StreamChannelHandler>::CHANNEL_ID, 0x0000_0000);
    assert_eq!(<XiaomiHandler as StreamChannelHandler>::CHANNEL_ID, 0xfa30_fa42);
    assert_eq!(<LinkyTicHandler as StreamChannelHandler>::CHANNEL_ID, 0xcd1f_14bd);
}

#[test]
fn dispatch_routes_xiaomi() {
    let frame = xiaomi_frame();
    let r = dispatch_message(XIAOMI_CHANNEL_ID, &frame[6..]).unwrap();
    match r {
        ChannelMessage::Xiaomi(rec) => {
            assert_eq!(rec.ble_addr.mac_string(), "aa:bb:cc:dd:ee:ff");
        }
        other => panic!("expected a Xiaomi record, got {:?}", other),
    }
}

#[test]
fn dispatch_routes_control() {
    let r = dispatch_message(CONTROL_CHANNEL_ID, &[]).unwrap();
    assert!(matches!(r, ChannelMessage::Control(_)));
}

#[test]
fn dispatch_routes_linky() {
    let payload = vec![0u8; 85];
    let r = dispatch_message(LINKY_TIC_CHANNEL_ID, &payload).unwrap();
    assert!(matches!(r, ChannelMessage::LinkyTic(_)));
}

#[test]
fn dispatch_rejects_unknown_channels() {
    let r = dispatch_message(0xdead_beef, &[]);
    assert!(matches!(r, Err(StreamChannelError::UnhandledChannelId)));
    let r = dispatch_message(0x0000_0001, &[0x55; 100]);
    assert!(matches!(r, Err(StreamChannelError::UnhandledChannelId)));
}

#[test]
fn dispatch_short_xiaomi_payload_is_a_length_error() {
    let payload = vec![0u8; 23];
    let r = dispatch_message(XIAOMI_CHANNEL_ID, &payload);
    assert!(matches!(r, Err(StreamChannelError::InvalidMessageLength)));
}

#[test]
fn dispatch_short_linky_payload_is_a_length_error() {
    let payload = vec![0u8; 84];
    let r = dispatch_message(LINKY_TIC_CHANNEL_ID, &payload);
    assert!(matches!(r, Err(StreamChannelError::InvalidMessageLength)));
}

#[test]
fn one_full_frame_decodes_end_to_end() {
    let stream = xiaomi_frame();
    let (result, next) = read_message_at(&stream, 0);
    match result.unwrap() {
        ChannelMessage::Xiaomi(rec) => {
            assert_eq!(rec.ble_addr.mac_string(), "aa:bb:cc:dd:ee:ff");
            assert_eq!(rec.measurement.rssi, -35);
            assert_eq!(rec.version, 1);
            assert_eq!(rec.measurement.temperature_centi, 1000);
            assert_eq!(rec.measurement.humidity_centi, 5000);
            assert_eq!(rec.measurement.battery_mv, 3036);
            assert_eq!(rec.measurement.battery_percent, 50);
        }
        other => panic!("expected a Xiaomi record, got {:?}", other),
    }
    assert_eq!(next, 30);
}

#[test]
fn unknown_channel_consumes_the_whole_frame() {
    // A 5-byte frame on an unknown channel, then a valid Xiaomi frame.
    let mut stream = vec![0xef, 0xbe, 0xad, 0xde, 0x05, 0x00, 0x01, 0x02, 0x03, 0x04, 0x05];
    let first_len = stream.len();
    stream.extend_from_slice(&xiaomi_frame());

    let (first, after_first) = read_message_at(&stream, 0);
    assert!(matches!(first, Err(StreamChannelError::UnhandledChannelId)));
    // The stream stands exactly at the start of the next header.
    assert_eq!(after_first, first_len);

    let (second, after_second) = read_message_at(&stream, after_first);
    assert!(matches!(second, Ok(ChannelMessage::Xiaomi(_))));
    assert_eq!(after_second, stream.len());
}

#[test]
fn truncated_header_is_invalid() {
    let stream = [0x42, 0xfa, 0x30];
    let (result, next) = read_message_at(&stream, 0);
    assert!(matches!(result, Err(StreamChannelError::InvalidMessageHeader)));
    assert_eq!(next, stream.len());
}

#[test]
fn empty_stream_is_invalid() {
    let (result, _) = read_message_at(&[], 0);
    assert!(matches!(result, Err(StreamChannelError::InvalidMessageHeader)));
}

#[test]
fn truncated_payload_is_a_transport_error() {
    let mut frame = xiaomi_frame();
    frame.truncate(20);
    let (result, _) = read_message_at(&frame, 0);
    assert!(matches!(result, Err(StreamChannelError::IoError)));
}

#[test]
fn zero_length_control_frame() {
    let stream = [0x00, 0x00, 0x00, 0x00, 0x00, 0x00];
    let (result, next) = read_message_at(&stream, 0);
    assert!(matches!(result, Ok(ChannelMessage::Control(_))));
    assert_eq!(next, 6);
}

#[test]
fn consecutive_frames_decode_in_order() {
    let mut stream = xiaomi_frame();
    stream.extend_from_slice(&[0x00, 0x00, 0x00, 0x00, 0x02, 0x00, 0xaa, 0xbb]);
    let (first, pos) = read_message_at(&stream, 0);
    assert!(matches!(first, Ok(ChannelMessage::Xiaomi(_))));
    let (second, end) = read_message_at(&stream, pos);
    assert!(matches!(second, Ok(ChannelMessage::Control(_))));
    assert_eq!(end, stream.len());
}

#[test]
fn error_messages() {
    assert_eq!(
        StreamChannelError::InvalidMessageHeader.message(),
        "Invalid message header"
    );
    assert_eq!(StreamChannelError::InvalidMessageData.message(), "Invalid message data");
    assert_eq!(
        StreamChannelError::InvalidMessageLength.message(),
        "Invalid message Length"
    );
    assert_eq!(StreamChannelError::UnhandledChannelId.message(), "Unhandled channel ID");
    assert_eq!(StreamChannelError::IoError.message(), "IO error");
}

#[test]
fn server_error_messages() {
    assert_eq!(ServerError::IoError.message(), "IO error");
    assert_eq!(ServerError::InvalidIpAddress.message(), "Invalid IP address");
}
