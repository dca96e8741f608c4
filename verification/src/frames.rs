//! Eddystone frame encoding: pure functions from an address, a rotating
//! sensor index and a temperature to the exact bytes of the UID and TLM
//! service-data frames.

use vstd::prelude::*;
use crate::identity::DeviceAddress;
use crate::temperature::Temperature;
use crate::temperature::raw_be_bytes;
use crate::temperature::raw_to_be_bytes;

verus! {

/// Calibrated transmit power advertised in the UID frame. A fixed
/// configuration value in this design; it is not read from the radio.
pub const CALIBRATED_TX_POWER: u8 = 4;

/// Frame-type tag that opens every telemetry frame.
pub const TLM_FRAME_TYPE: u8 = 0x20;

/// Length in bytes of an encoded UID frame.
pub const UID_FRAME_LEN: usize = 20;

/// Length in bytes of an encoded TLM frame.
pub const TLM_FRAME_LEN: usize = 14;

/// The big-endian bytes of a 16-bit sensor index.
pub open spec fn u16_be_bytes(x: u16) -> Seq<u8> {
    seq![(x / 256) as u8, (x % 256) as u8]
}

/// The 20-byte UID service-data layout:
/// frame type 0, calibrated tx power, the application namespace marker
/// `DE AD BE EF` followed by the first two address bytes, then the
/// instance: address bytes 2..6 with the last two overwritten by the
/// big-endian sensor index (which is repeated at offsets 16..18), a zero
/// at offset 12, the marker `C0 FF EE`, and two reserved zero bytes.
pub open spec fn uid_frame_bytes(addr: Seq<u8>, sensor_index: u16) -> Seq<u8>
    recommends
        addr.len() == 6,
{
    seq![
        0u8,
        CALIBRATED_TX_POWER,
        0xDEu8,
        0xADu8,
        0xBEu8,
        0xEFu8,
        addr[0],
        addr[1],
        addr[2],
        u16_be_bytes(sensor_index)[0],
        u16_be_bytes(sensor_index)[1],
        addr[5],
        0u8,
        0xC0u8,
        0xFFu8,
        0xEEu8,
        u16_be_bytes(sensor_index)[0],
        u16_be_bytes(sensor_index)[1],
        0u8,
        0u8,
    ]
}

/// The 14-byte TLM service-data layout: frame type `0x20`, version and
/// battery fields fixed at zero, the big-endian two's-complement 8.8
/// temperature at offsets 4..6, and all remaining counters zero.
pub open spec fn tlm_frame_bytes(raw: i16) -> Seq<u8> {
    seq![
        TLM_FRAME_TYPE,
        0u8,
        0u8,
        0u8,
        raw_be_bytes(raw)[0],
        raw_be_bytes(raw)[1],
        0u8,
        0u8,
        0u8,
        0u8,
        0u8,
        0u8,
        0u8,
        0u8,
    ]
}

/// Encode the UID frame for a device address and a sensor index.
///
/// The address is read through a shared borrow and a working copy of its
/// bytes is overlaid with the sensor index; the stored address is never
/// changed.
pub fn encode_uid(id: &DeviceAddress, sensor_index: u16) -> (frame: [u8; 20])
    ensures
        frame@ == uid_frame_bytes(id.bytes@, sensor_index),
{
    let hi: u8 = (sensor_index / 256) as u8;
    let lo: u8 = (sensor_index % 256) as u8;
    let frame: [u8; 20] = [
        0u8,
        CALIBRATED_TX_POWER,
        0xDEu8,
        0xADu8,
        0xBEu8,
        0xEFu8,
        id.bytes[0],
        id.bytes[1],
        id.bytes[2],
        hi,
        lo,
        id.bytes[5],
        0u8,
        0xC0u8,
        0xFFu8,
        0xEEu8,
        hi,
        lo,
        0u8,
        0u8,
    ];
    proof {
        assert(frame@ =~= uid_frame_bytes(id.bytes@, sensor_index));
    }
    frame
}

/// Encode the TLM frame for a temperature reading.
pub fn encode_tlm(temperature: Temperature) -> (frame: [u8; 14])
    ensures
        frame@ == tlm_frame_bytes(temperature.raw),
{
    let pair = raw_to_be_bytes(temperature.raw);
    let frame: [u8; 14] = [
        TLM_FRAME_TYPE,
        0u8,
        0u8,
        0u8,
        pair.0,
        pair.1,
        0u8,
        0u8,
        0u8,
        0u8,
        0u8,
        0u8,
        0u8,
        0u8,
    ];
    proof {
        assert(frame@ =~= tlm_frame_bytes(temperature.raw));
    }
    frame
}

/// Two UID frames for the same address differ at most in the four bytes
/// derived from the sensor index (offsets 9, 10, 16 and 17); every other
/// byte is determined by the address and the fixed layout alone. Since
/// [`encode_uid`] reads the address through a shared borrow, the stored
/// address itself is never changed by encoding.
pub proof fn lemma_uid_varies_only_in_sensor_bytes(addr: Seq<u8>, s1: u16, s2: u16)
    requires
        addr.len() == 6,
    ensures
        uid_frame_bytes(addr, s1).len() == 20,
        uid_frame_bytes(addr, s2).len() == 20,
        forall|i: int|
            0 <= i < 20 && i != 9 && i != 10 && i != 16 && i != 17
                ==> uid_frame_bytes(addr, s1)[i] == uid_frame_bytes(addr, s2)[i],
{
}

} // verus!
