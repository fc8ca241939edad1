//! The timestamp attached to a decoded record: either absent or a
//! monotonic device-uptime tick count. The decoders in this protocol
//! revision always produce an uptime value; conversion to calendar time is
//! outside this library's scope.

use vstd::prelude::*;
use vstd::string::StringExecFns;

use crate::render::{spec_dec, u64_dec_string};

verus! {

#[derive(Debug, Clone, PartialEq, Eq)]
pub enum Timestamp {
    /// No timestamp was attached.
    NoTimestamp,
    /// A monotonic tick count relative to the sending device's boot time;
    /// not comparable across connections.
    Uptime(u64),
}

/// The tick count carried by an uptime timestamp, zero otherwise.
pub open spec fn spec_uptime_ticks(t: Timestamp) -> u64 {
    match t {
        Timestamp::NoTimestamp => 0,
        Timestamp::Uptime(u) => u,
    }
}

/// The human-readable form of a timestamp.
pub open spec fn spec_timestamp_string(t: Timestamp) -> Seq<char> {
    match t {
        Timestamp::NoTimestamp => "None"@,
        Timestamp::Uptime(u) => "Uptime: "@ + spec_dec(u as int),
    }
}

impl Timestamp {
    /// Renders the timestamp as its human-readable string.
    pub fn display_string(&self) -> (r: String)
        ensures
            r@ == spec_timestamp_string(*self),
    {
        match self {
            Timestamp::NoTimestamp => String::from_str("None"),
            Timestamp::Uptime(u) => {
                let mut s = String::from_str("Uptime: ");
                let digits = u64_dec_string(*u);
                s.append(digits.as_str());
                s
            },
        }
    }
}

} // verus!
