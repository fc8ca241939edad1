//! Decoder for the Xiaomi sensor-family channel: a fixed little-endian
//! layout of at least 24 bytes carrying address, uptime timestamp and
//! environmental measurements.

use vstd::prelude::*;
use vstd::bytes::{
    lemma_auto_spec_u16_to_from_le_bytes, lemma_auto_spec_u64_to_from_le_bytes,
    spec_u16_from_le_bytes, spec_u16_to_le_bytes, spec_u64_from_le_bytes, spec_u64_to_le_bytes,
    u16_to_le_bytes, u64_to_le_bytes,
};

use crate::ble::{spec_ble_type_of, spec_ble_type_tag, BleAddress};
use crate::stream_channel::{StreamChannelError, XIAOMI_CHANNEL_ID};
use crate::StreamChannelHandler;
use crate::timestamp::{spec_uptime_ticks, Timestamp};
use crate::wire::{
    byte_from_i8, i16_from_word, i8_from_byte, read_u16_at, read_u64_at, spec_signed16,
    spec_signed8, spec_unsigned16, spec_unsigned8, word_from_i16,
};

verus! {

/// The measurements carried by one Xiaomi frame. Temperature and humidity
/// are stored exactly as transmitted, in hundredths of a degree Celsius
/// and hundredths of a percent.
#[derive(Debug, Clone, Copy, PartialEq, Eq)]
pub struct XiaomiMeasurement {
    pub rssi: i8,
    pub temperature_centi: i16,
    pub humidity_centi: u16,
    pub battery_mv: u16,
    pub battery_percent: u8,
}

/// One decoded Xiaomi telemetry record.
#[derive(Debug, Clone, PartialEq, Eq)]
pub struct XiaomiRecord {
    pub version: u8,
    pub ble_addr: BleAddress,
    pub timestamp: Timestamp,
    pub measurement: XiaomiMeasurement,
}

/// The minimum payload length of the Xiaomi layout; longer payloads from
/// newer firmware are tolerated and their tail ignored.
pub const XIAOMI_RECORD_SIZE: usize = 24;

/// The record that a Xiaomi payload decodes to, field by field: MAC at
/// offsets 0..6, kind tag at 6, RSSI at 7, version at 8, uptime ticks at
/// 9..17, then temperature, humidity, battery millivolts and battery
/// percent.
pub open spec fn xiaomi_record_matches(rec: XiaomiRecord, data: Seq<u8>) -> bool
    recommends
        data.len() >= 24,
{
    &&& rec.ble_addr.mac@ == data.subrange(0, 6)
    &&& rec.ble_addr.ble_type == spec_ble_type_of(data[6])
    &&& rec.measurement.rssi as int == spec_signed8(data[7])
    &&& rec.version == data[8]
    &&& rec.timestamp == Timestamp::Uptime(spec_u64_from_le_bytes(data.subrange(9, 17)))
    &&& rec.measurement.temperature_centi as int == spec_signed16(
        spec_u16_from_le_bytes(data.subrange(17, 19)),
    )
    &&& rec.measurement.humidity_centi == spec_u16_from_le_bytes(data.subrange(19, 21))
    &&& rec.measurement.battery_mv == spec_u16_from_le_bytes(data.subrange(21, 23))
    &&& rec.measurement.battery_percent == data[23]
}

/// The 24-byte layout that a record writes back to.
pub open spec fn spec_encode_xiaomi(rec: XiaomiRecord) -> Seq<u8> {
    rec.ble_addr.mac@ + seq![spec_ble_type_tag(rec.ble_addr.ble_type)]
        + seq![spec_unsigned8(rec.measurement.rssi as int)] + seq![rec.version]
        + spec_u64_to_le_bytes(spec_uptime_ticks(rec.timestamp)) + spec_u16_to_le_bytes(
        spec_unsigned16(rec.measurement.temperature_centi as int),
    ) + spec_u16_to_le_bytes(rec.measurement.humidity_centi) + spec_u16_to_le_bytes(
        rec.measurement.battery_mv,
    ) + seq![rec.measurement.battery_percent]
}

/// Marker type for the Xiaomi channel decoder.
pub struct XiaomiHandler;

impl XiaomiHandler {
    /// Decodes one Xiaomi payload. Succeeds exactly on payloads of at
    /// least 24 bytes; shorter ones are rejected as `InvalidMessageLength`.
    pub fn parse_message(data: &[u8]) -> (r: Result<XiaomiRecord, StreamChannelError>)
        ensures
            data@.len() >= 24 ==> (r matches Ok(rec) && xiaomi_record_matches(rec, data@)),
            data@.len() < 24 ==> r == Err::<XiaomiRecord, StreamChannelError>(
                StreamChannelError::InvalidMessageLength,
            ),
    {
        if data.len() < XIAOMI_RECORD_SIZE {
            return Err(StreamChannelError::InvalidMessageLength);
        }

        let ble_mac: [u8; 6] = [data[0], data[1], data[2], data[3], data[4], data[5]];
        proof {
            assert(ble_mac@ =~= data@.subrange(0, 6));
        }

        let ble_type = data[6];
        let rssi = i8_from_byte(data[7]);
        let version = data[8];
        let timestamp = Timestamp::Uptime(read_u64_at(data, 9));
        let temperature_centi = i16_from_word(read_u16_at(data, 17));
        let humidity_centi = read_u16_at(data, 19);
        let battery_mv = read_u16_at(data, 21);
        let battery_percent = data[23];

        let ble_addr = BleAddress::new(ble_mac, ble_type);

        Ok(
            XiaomiRecord {
                version,
                ble_addr,
                timestamp,
                measurement: XiaomiMeasurement {
                    rssi,
                    temperature_centi,
                    humidity_centi,
                    battery_mv,
                    battery_percent,
                },
            },
        )
    }
}

impl StreamChannelHandler for XiaomiHandler {
    const CHANNEL_ID: u32 = XIAOMI_CHANNEL_ID;

    type Message = XiaomiRecord;

    fn parse_message(data: &[u8]) -> Result<XiaomiRecord, StreamChannelError> {
        XiaomiHandler::parse_message(data)
    }
}

impl XiaomiRecord {
    /// Writes the record back into the 24-byte wire layout it was decoded
    /// from.
    pub fn encode(&self) -> (r: Vec<u8>)
        ensures
            r@ == spec_encode_xiaomi(*self),
            r@.len() == 24,
    {
        let mut out: Vec<u8> = Vec::new();
        out.push(self.ble_addr.mac[0]);
        out.push(self.ble_addr.mac[1]);
        out.push(self.ble_addr.mac[2]);
        out.push(self.ble_addr.mac[3]);
        out.push(self.ble_addr.mac[4]);
        out.push(self.ble_addr.mac[5]);
        out.push(self.ble_addr.ble_type.tag());
        out.push(byte_from_i8(self.measurement.rssi));
        out.push(self.version);
        let ticks: u64 = match &self.timestamp {
            Timestamp::NoTimestamp => 0,
            Timestamp::Uptime(u) => *u,
        };
        let mut piece = u64_to_le_bytes(ticks);
        out.append(&mut piece);
        let mut piece = u16_to_le_bytes(word_from_i16(self.measurement.temperature_centi));
        out.append(&mut piece);
        let mut piece = u16_to_le_bytes(self.measurement.humidity_centi);
        out.append(&mut piece);
        let mut piece = u16_to_le_bytes(self.measurement.battery_mv);
        out.append(&mut piece);
        out.push(self.measurement.battery_percent);
        proof {
            assert(out@ =~= spec_encode_xiaomi(*self));
        }
        out
    }
}

/// Decoding a Xiaomi payload and re-encoding the record reproduces the
/// original 24 bytes exactly, whenever the kind tag is one of the four
/// defined values (an out-of-range tag is canonicalised to 255 and so
/// cannot round-trip).
pub proof fn lemma_xiaomi_round_trip(data: Seq<u8>, rec: XiaomiRecord)
    requires
        data.len() == 24,
        xiaomi_record_matches(rec, data),
        data[6] == 0 || data[6] == 1 || data[6] == 2 || data[6] == 3,
    ensures
        spec_encode_xiaomi(rec) == data,
{
    lemma_auto_spec_u64_to_from_le_bytes();
    lemma_auto_spec_u16_to_from_le_bytes();
    assert(spec_u64_to_le_bytes(spec_u64_from_le_bytes(data.subrange(9, 17))) == data.subrange(
        9,
        17,
    ));
    assert(spec_u16_to_le_bytes(spec_u16_from_le_bytes(data.subrange(17, 19))) == data.subrange(
        17,
        19,
    ));
    assert(spec_u16_to_le_bytes(spec_u16_from_le_bytes(data.subrange(19, 21))) == data.subrange(
        19,
        21,
    ));
    assert(spec_u16_to_le_bytes(spec_u16_from_le_bytes(data.subrange(21, 23))) == data.subrange(
        21,
        23,
    ));
    assert(spec_encode_xiaomi(rec) =~= data);
}

} // verus!
