//! BLE device addresses: a six-byte MAC paired with its addressing-kind
//! tag, with canonical lowercase-hex renderings.

use vstd::prelude::*;
use vstd::string::StringExecFns;

use crate::render::{spec_hex_pair, hex_pair_string};

verus! {

/// The addressing kind carried in the one-byte tag next to the MAC.
#[derive(Debug, PartialEq, Eq, Structural, Clone, Copy)]
pub enum BleType {
    Public,
    Random,
    PublicStatic,
    RandomStatic,
    Unknown,
}

/// The addressing kind that a tag byte denotes: 0 through 3 name the four
/// defined kinds, every other value is `Unknown`.
pub open spec fn spec_ble_type_of(tag: u8) -> BleType {
    if tag == 0 {
        BleType::Public
    } else if tag == 1 {
        BleType::Random
    } else if tag == 2 {
        BleType::PublicStatic
    } else if tag == 3 {
        BleType::RandomStatic
    } else {
        BleType::Unknown
    }
}

/// The canonical tag byte for an addressing kind; `Unknown` is written as
/// 255, the conventional out-of-range tag.
pub open spec fn spec_ble_type_tag(t: BleType) -> u8 {
    match t {
        BleType::Public => 0,
        BleType::Random => 1,
        BleType::PublicStatic => 2,
        BleType::RandomStatic => 3,
        BleType::Unknown => 255,
    }
}

/// The name of an addressing kind.
pub open spec fn spec_ble_type_string(t: BleType) -> Seq<char> {
    match t {
        BleType::Public => "Public"@,
        BleType::Random => "Random"@,
        BleType::PublicStatic => "PublicStatic"@,
        BleType::RandomStatic => "RandomStatic"@,
        BleType::Unknown => "Unknown"@,
    }
}

impl BleType {
    /// The canonical tag byte of this kind.
    pub fn tag(&self) -> (r: u8)
        ensures
            r == spec_ble_type_tag(*self),
    {
        match self {
            BleType::Public => 0,
            BleType::Random => 1,
            BleType::PublicStatic => 2,
            BleType::RandomStatic => 3,
            BleType::Unknown => 255,
        }
    }

    /// Renders the kind under its name.
    pub fn display_string(&self) -> (r: String)
        ensures
            r@ == spec_ble_type_string(*self),
    {
        match self {
            BleType::Public => String::from_str("Public"),
            BleType::Random => String::from_str("Random"),
            BleType::PublicStatic => String::from_str("PublicStatic"),
            BleType::RandomStatic => String::from_str("RandomStatic"),
            BleType::Unknown => String::from_str("Unknown"),
        }
    }
}

/// A BLE device address: the six MAC bytes exactly as received, in wire
/// order, plus the addressing kind derived from the tag byte.
#[derive(Debug, PartialEq, Eq, Clone, Copy)]
pub struct BleAddress {
    pub mac: [u8; 6],
    pub ble_type: BleType,
}

/// The colon-separated lowercase-hex form of a six-byte MAC.
pub open spec fn spec_mac_string(mac: Seq<u8>) -> Seq<char>
    recommends
        mac.len() == 6,
{
    spec_hex_pair(mac[0]) + ":"@ + spec_hex_pair(mac[1]) + ":"@ + spec_hex_pair(mac[2]) + ":"@
        + spec_hex_pair(mac[3]) + ":"@ + spec_hex_pair(mac[4]) + ":"@ + spec_hex_pair(mac[5])
}

/// The compact (separator-free) lowercase-hex form of a six-byte MAC.
pub open spec fn spec_mac_slug(mac: Seq<u8>) -> Seq<char>
    recommends
        mac.len() == 6,
{
    spec_hex_pair(mac[0]) + spec_hex_pair(mac[1]) + spec_hex_pair(mac[2]) + spec_hex_pair(mac[3])
        + spec_hex_pair(mac[4]) + spec_hex_pair(mac[5])
}

/// The compact lowercase-hex form of the last three MAC bytes.
pub open spec fn spec_mac_manufacturer(mac: Seq<u8>) -> Seq<char>
    recommends
        mac.len() == 6,
{
    spec_hex_pair(mac[3]) + spec_hex_pair(mac[4]) + spec_hex_pair(mac[5])
}

/// The rendered form of an address: the MAC string followed by the kind
/// name in parentheses.
pub open spec fn spec_ble_addr_string(a: BleAddress) -> Seq<char> {
    spec_mac_string(a.mac@) + " ("@ + spec_ble_type_string(a.ble_type) + ")"@
}

impl BleAddress {
    /// Builds an address from the six MAC bytes and the kind tag; never
    /// fails, an out-of-range tag maps to `Unknown`.
    pub fn new(mac: [u8; 6], ble_type: u8) -> (r: BleAddress)
        ensures
            r.mac == mac,
            r.ble_type == spec_ble_type_of(ble_type),
    {
        let ble_type = if ble_type == 0 {
            BleType::Public
        } else if ble_type == 1 {
            BleType::Random
        } else if ble_type == 2 {
            BleType::PublicStatic
        } else if ble_type == 3 {
            BleType::RandomStatic
        } else {
            BleType::Unknown
        };

        BleAddress { mac, ble_type }
    }

    /// The colon-separated lowercase-hex MAC string.
    pub fn mac_string(&self) -> (r: String)
        ensures
            r@ == spec_mac_string(self.mac@),
    {
        let mut s = hex_pair_string(self.mac[0]);
        s.append(":");
        let p = hex_pair_string(self.mac[1]);
        s.append(p.as_str());
        s.append(":");
        let p = hex_pair_string(self.mac[2]);
        s.append(p.as_str());
        s.append(":");
        let p = hex_pair_string(self.mac[3]);
        s.append(p.as_str());
        s.append(":");
        let p = hex_pair_string(self.mac[4]);
        s.append(p.as_str());
        s.append(":");
        let p = hex_pair_string(self.mac[5]);
        s.append(p.as_str());
        s
    }

    /// The compact lowercase-hex MAC slug.
    pub fn to_slug(&self) -> (r: String)
        ensures
            r@ == spec_mac_slug(self.mac@),
    {
        let mut s = hex_pair_string(self.mac[0]);
        let p = hex_pair_string(self.mac[1]);
        s.append(p.as_str());
        let p = hex_pair_string(self.mac[2]);
        s.append(p.as_str());
        let p = hex_pair_string(self.mac[3]);
        s.append(p.as_str());
        let p = hex_pair_string(self.mac[4]);
        s.append(p.as_str());
        let p = hex_pair_string(self.mac[5]);
        s.append(p.as_str());
        s
    }

    /// The compact hex form of the manufacturer part: the last three MAC
    /// bytes.
    pub fn mac_manufacturer_part(&self) -> (r: String)
        ensures
            r@ == spec_mac_manufacturer(self.mac@),
    {
        let mut s = hex_pair_string(self.mac[3]);
        let p = hex_pair_string(self.mac[4]);
        s.append(p.as_str());
        let p = hex_pair_string(self.mac[5]);
        s.append(p.as_str());
        s
    }

    /// Renders the address as the MAC string followed by the kind name in
    /// parentheses.
    pub fn display_string(&self) -> (r: String)
        ensures
            r@ == spec_ble_addr_string(*self),
    {
        let mut s = self.mac_string();
        s.append(" (");
        let k = self.ble_type.display_string();
        s.append(k.as_str());
        s.append(")");
        s
    }
}

} // verus!
