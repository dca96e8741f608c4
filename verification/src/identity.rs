//! Device identity: the 6-byte hardware address and its kind, derived once
//! at startup from two factory-programmed words and a one-bit flag.

use vstd::prelude::*;

verus! {

/// Whether the hardware address is publicly registered or randomly assigned.
#[derive(Clone, Copy, PartialEq, Eq, Structural, Debug)]
pub enum AddressKind {
    Public,
    Random,
}

/// A 6-byte Bluetooth device address together with its kind.
///
/// Immutable after derivation: every consumer works on a copy.
#[derive(Clone, Copy, Debug)]
pub struct DeviceAddress {
    pub bytes: [u8; 6],
    pub kind: AddressKind,
}

/// The little-endian assembly of the factory words: the first four bytes
/// come from the 32-bit word, the next two from the 16-bit word.
pub open spec fn address_bytes(devaddr_lo: u32, devaddr_hi: u16) -> Seq<u8> {
    seq![
        (devaddr_lo % 256) as u8,
        ((devaddr_lo / 256) % 256) as u8,
        ((devaddr_lo / 65536) % 256) as u8,
        ((devaddr_lo / 16777216) % 256) as u8,
        (devaddr_hi % 256) as u8,
        (devaddr_hi / 256) as u8,
    ]
}

/// An address with the big-endian 16-bit sensor index overwritten into
/// bytes 3 and 4: the form in which the rotating sensor index travels in
/// the advertised device address.
pub open spec fn sensor_overlaid_bytes(addr: Seq<u8>, sensor_index: u16) -> Seq<u8>
    recommends
        addr.len() == 6,
{
    addr.update(3, ((sensor_index / 256) as u8)).update(4, ((sensor_index % 256) as u8))
}

impl DeviceAddress {
    /// A working copy of this address with the big-endian sensor index
    /// overwritten into bytes 3 and 4, same kind. The stored address is
    /// read through a shared borrow and never changed.
    pub fn with_sensor_index(&self, sensor_index: u16) -> (overlaid: DeviceAddress)
        ensures
            overlaid.bytes@ == sensor_overlaid_bytes(self.bytes@, sensor_index),
            overlaid.kind == self.kind,
    {
        let bytes: [u8; 6] = [
            self.bytes[0],
            self.bytes[1],
            self.bytes[2],
            (sensor_index / 256) as u8,
            (sensor_index % 256) as u8,
            self.bytes[5],
        ];
        proof {
            assert(bytes@ =~= sensor_overlaid_bytes(self.bytes@, sensor_index));
        }
        DeviceAddress { bytes, kind: self.kind }
    }
}

/// Derive the device identity from the two factory-programmed address
/// words and the factory flag that marks the address as publicly assigned.
///
/// Total: an all-zero factory image simply yields the all-zero address.
pub fn derive_address(devaddr_lo: u32, devaddr_hi: u16, is_public: bool) -> (id: DeviceAddress)
    ensures
        id.bytes@ == address_bytes(devaddr_lo, devaddr_hi),
        id.kind == (if is_public {
            AddressKind::Public
        } else {
            AddressKind::Random
        }),
{
    let bytes: [u8; 6] = [
        (devaddr_lo % 256) as u8,
        ((devaddr_lo / 256) % 256) as u8,
        ((devaddr_lo / 65536) % 256) as u8,
        ((devaddr_lo / 16777216) % 256) as u8,
        (devaddr_hi % 256) as u8,
        (devaddr_hi / 256) as u8,
    ];
    let kind = if is_public {
        AddressKind::Public
    } else {
        AddressKind::Random
    };
    proof {
        assert(bytes@ =~= address_bytes(devaddr_lo, devaddr_hi));
    }
    DeviceAddress { bytes, kind }
}

} // verus!
