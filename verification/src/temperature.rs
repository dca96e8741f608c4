//! Signed fixed-point temperatures.
//!
//! The sensor delivers a reading with two fractional bits (a signed count
//! of quarter degrees Celsius); the telemetry frame carries the value in
//! the 8.8 format, a signed 16-bit integer scaled by 256.

use vstd::prelude::*;

verus! {

/// Least native reading (quarter degrees) whose value fits the 8.8 range.
pub const NATIVE_MIN: i32 = -512;

/// Greatest native reading (quarter degrees) whose value fits the 8.8 range.
pub const NATIVE_MAX: i32 = 511;

/// A temperature in the signed 8.8 fixed-point format: `raw` is the
/// Celsius value scaled by 256.
#[derive(Clone, Copy, PartialEq, Eq, Structural, Debug)]
pub struct Temperature {
    pub raw: i16,
}

/// Whether a native quarter-degree reading is representable in 8.8.
pub open spec fn native_in_range(native_raw: i32) -> bool {
    NATIVE_MIN <= native_raw <= NATIVE_MAX
}

impl Temperature {
    /// Convert a native sensor reading (signed, two fractional bits) to
    /// 8.8. The conversion is exact — the same Celsius value, so the sign
    /// is preserved and nothing wraps — which is why readings whose
    /// magnitude exceeds the 8.8 range are excluded rather than truncated.
    pub fn from_native(native_raw: i32) -> (t: Temperature)
        requires
            native_in_range(native_raw),
        ensures
            t.raw == native_raw * 64,
            (t.raw < 0) <==> (native_raw < 0),
    {
        Temperature { raw: (native_raw * 64) as i16 }
    }

    /// Range-checked form of [`Temperature::from_native`]: `None` exactly
    /// when the reading's magnitude exceeds what 8.8 can hold.
    pub fn from_native_checked(native_raw: i32) -> (t: Option<Temperature>)
        ensures
            t is Some <==> native_in_range(native_raw),
            t matches Some(v) ==> v.raw == native_raw * 64,
    {
        if NATIVE_MIN <= native_raw && native_raw <= NATIVE_MAX {
            Some(Temperature::from_native(native_raw))
        } else {
            None
        }
    }
}

/// The big-endian two's-complement bytes of an 8.8 raw value: the pair
/// written into the telemetry frame.
pub open spec fn raw_be_bytes(raw: i16) -> Seq<u8> {
    let unsigned = if raw < 0 {
        raw + 65536
    } else {
        raw as int
    };
    seq![(unsigned / 256) as u8, (unsigned % 256) as u8]
}

/// Split an 8.8 raw value into its big-endian two's-complement byte pair.
pub fn raw_to_be_bytes(raw: i16) -> (pair: (u8, u8))
    ensures
        pair.0 == raw_be_bytes(raw)[0],
        pair.1 == raw_be_bytes(raw)[1],
{
    let unsigned: i32 = if raw < 0 {
        raw as i32 + 65536
    } else {
        raw as i32
    };
    ((unsigned / 256) as u8, (unsigned % 256) as u8)
}

} // verus!
