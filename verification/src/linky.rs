//! Decoder for the LinkyTic electricity-meter bridge channel: a fixed
//! little-endian layout of at least 85 bytes.

use vstd::prelude::*;
use vstd::bytes::{spec_u16_from_le_bytes, spec_u32_from_le_bytes, spec_u64_from_le_bytes};
use vstd::string::StringExecFns;

use crate::ble::{spec_ble_addr_string, spec_ble_type_of, BleAddress};
use crate::render::{i8_dec_string, spec_dec, spec_dec_i8, u64_dec_string};
use crate::stream_channel::{StreamChannelError, LINKY_TIC_CHANNEL_ID};
use crate::StreamChannelHandler;
use crate::timestamp::{spec_timestamp_string, Timestamp};
use crate::wire::{i8_from_byte, read_u16_at, read_u32_at, read_u64_at, spec_signed8};

verus! {

/// The electrical measurements carried by one LinkyTic frame: base energy
/// in watt-hours, instantaneous current in amperes, the tariff period
/// code, and apparent power in watts.
#[derive(Debug, Clone, Copy, PartialEq, Eq)]
pub struct LinkyTicMeasurements {
    pub base: u32,
    pub iinst: u16,
    pub ptec: u16,
    pub papp: u32,
}

/// Subscription details reserved by the wire format for a future protocol
/// revision; the current decoder never fills them.
#[derive(Debug, Clone, PartialEq, Eq)]
pub struct LinkyTicInfos {
    pub acdo: String,
    pub imax: u16,
    pub isousc: u16,
}

/// One decoded LinkyTic telemetry record.
#[derive(Debug, Clone, PartialEq, Eq)]
pub struct LinkyTicRecord {
    pub version: u8,
    pub ble_addr: BleAddress,
    pub timestamp: Timestamp,
    pub rssi: i8,
    pub infos: Option<LinkyTicInfos>,
    pub measurement: LinkyTicMeasurements,
    pub flags: u32,
}

/// The minimum payload length of the LinkyTic layout.
pub const LINKY_TIC_RECORD_SIZE: usize = 85;

/// The record that a LinkyTic payload decodes to, field by field: the
/// common header (MAC, kind tag, RSSI, version), then flags at 9..13 and
/// uptime ticks at 13..21. The region from offset 21 on starts with one
/// reserved byte, then base energy, instantaneous current, tariff period
/// and apparent power. The reserved subscription block stays absent.
pub open spec fn linky_record_matches(rec: LinkyTicRecord, data: Seq<u8>) -> bool
    recommends
        data.len() >= 85,
{
    &&& rec.ble_addr.mac@ == data.subrange(0, 6)
    &&& rec.ble_addr.ble_type == spec_ble_type_of(data[6])
    &&& rec.rssi as int == spec_signed8(data[7])
    &&& rec.version == data[8]
    &&& rec.flags == spec_u32_from_le_bytes(data.subrange(9, 13))
    &&& rec.timestamp == Timestamp::Uptime(spec_u64_from_le_bytes(data.subrange(13, 21)))
    &&& rec.measurement.base == spec_u32_from_le_bytes(data.subrange(22, 26))
    &&& rec.measurement.iinst == spec_u16_from_le_bytes(data.subrange(26, 28))
    &&& rec.measurement.ptec == spec_u16_from_le_bytes(data.subrange(28, 30))
    &&& rec.measurement.papp == spec_u32_from_le_bytes(data.subrange(30, 34))
    &&& rec.infos is None
}

/// Marker type for the LinkyTic channel decoder.
pub struct LinkyTicHandler;

impl LinkyTicHandler {
    /// Decodes one LinkyTic payload. Succeeds exactly on payloads of at
    /// least 85 bytes; shorter ones are rejected as `InvalidMessageLength`.
    pub fn parse_message(data: &[u8]) -> (r: Result<LinkyTicRecord, StreamChannelError>)
        ensures
            data@.len() >= 85 ==> (r matches Ok(rec) && linky_record_matches(rec, data@)),
            data@.len() < 85 ==> r == Err::<LinkyTicRecord, StreamChannelError>(
                StreamChannelError::InvalidMessageLength,
            ),
    {
        if data.len() < LINKY_TIC_RECORD_SIZE {
            return Err(StreamChannelError::InvalidMessageLength);
        }

        let ble_mac: [u8; 6] = [data[0], data[1], data[2], data[3], data[4], data[5]];
        proof {
            assert(ble_mac@ =~= data@.subrange(0, 6));
        }

        let ble_type = data[6];
        let ble_addr = BleAddress::new(ble_mac, ble_type);
        let rssi = i8_from_byte(data[7]);
        let version = data[8];
        let flags = read_u32_at(data, 9);
        let timestamp = Timestamp::Uptime(read_u64_at(data, 13));

        // The region at offset 21 opens with one reserved byte.
        let base = read_u32_at(data, 22);
        let iinst = read_u16_at(data, 26);
        let ptec = read_u16_at(data, 28);
        let papp = read_u32_at(data, 30);

        Ok(
            LinkyTicRecord {
                version,
                ble_addr,
                timestamp,
                rssi,
                measurement: LinkyTicMeasurements { base, iinst, ptec, papp },
                infos: None,
                flags,
            },
        )
    }
}

/// The rendered form of the measurements:
/// `papp: <w> W base: <wh> Wh iinst: <a> A ptec: <code>`.
pub open spec fn spec_linky_meas_string(m: LinkyTicMeasurements) -> Seq<char> {
    "papp: "@ + spec_dec(m.papp as int) + " W base: "@ + spec_dec(m.base as int) + " Wh iinst: "@
        + spec_dec(m.iinst as int) + " A ptec: "@ + spec_dec(m.ptec as int)
}

/// The rendered form of the subscription details:
/// `acdo: <acdo> imax: <a> isousc: <a>`.
pub open spec fn spec_linky_infos_string(i: LinkyTicInfos) -> Seq<char> {
    "acdo: "@ + i.acdo@ + " imax: "@ + spec_dec(i.imax as int) + " isousc: "@ + spec_dec(
        i.isousc as int,
    )
}

impl StreamChannelHandler for LinkyTicHandler {
    const CHANNEL_ID: u32 = LINKY_TIC_CHANNEL_ID;

    type Message = LinkyTicRecord;

    fn parse_message(data: &[u8]) -> Result<LinkyTicRecord, StreamChannelError> {
        LinkyTicHandler::parse_message(data)
    }
}

impl LinkyTicMeasurements {
    /// Renders the measurements in the form
    /// `papp: <w> W base: <wh> Wh iinst: <a> A ptec: <code>`.
    pub fn display_string(&self) -> (r: String)
        ensures
            r@ == spec_linky_meas_string(*self),
    {
        let mut s = String::from_str("papp: ");
        let piece = u64_dec_string(self.papp as u64);
        s.append(piece.as_str());
        s.append(" W base: ");
        let piece = u64_dec_string(self.base as u64);
        s.append(piece.as_str());
        s.append(" Wh iinst: ");
        let piece = u64_dec_string(self.iinst as u64);
        s.append(piece.as_str());
        s.append(" A ptec: ");
        let piece = u64_dec_string(self.ptec as u64);
        s.append(piece.as_str());
        s
    }
}

impl LinkyTicInfos {
    /// Renders the subscription details in the form
    /// `acdo: <acdo> imax: <a> isousc: <a>`.
    pub fn display_string(&self) -> (r: String)
        ensures
            r@ == spec_linky_infos_string(*self),
    {
        let mut s = String::from_str("acdo: ");
        s.append(self.acdo.as_str());
        s.append(" imax: ");
        let piece = u64_dec_string(self.imax as u64);
        s.append(piece.as_str());
        s.append(" isousc: ");
        let piece = u64_dec_string(self.isousc as u64);
        s.append(piece.as_str());
        s
    }
}

/// The rendered form of one LinkyTic record: the address, timestamp, RSSI
/// and measurements, with the subscription details appended when present.
pub open spec fn spec_linky_record_string(rec: LinkyTicRecord) -> Seq<char> {
    let head = "mac: "@ + spec_ble_addr_string(rec.ble_addr) + " timestamp: "@
        + spec_timestamp_string(rec.timestamp) + " rssi: "@ + spec_dec_i8(rec.rssi as int) + " "@
        + spec_linky_meas_string(rec.measurement);
    match rec.infos {
        Option::None => head,
        Option::Some(infos) => head + " "@ + spec_linky_infos_string(infos),
    }
}

impl LinkyTicRecord {
    /// Renders the record as one line of text.
    pub fn display_string(&self) -> (r: String)
        ensures
            r@ == spec_linky_record_string(*self),
    {
        let mut s = String::from_str("mac: ");
        let piece = self.ble_addr.display_string();
        s.append(piece.as_str());
        s.append(" timestamp: ");
        let piece = self.timestamp.display_string();
        s.append(piece.as_str());
        s.append(" rssi: ");
        let piece = i8_dec_string(self.rssi);
        s.append(piece.as_str());
        s.append(" ");
        let piece = self.measurement.display_string();
        s.append(piece.as_str());
        match &self.infos {
            Option::None => {},
            Option::Some(infos) => {
                s.append(" ");
                let piece = infos.display_string();
                s.append(piece.as_str());
            },
        }
        s
    }
}

} // verus!
