//! Advertisement assembly: wrapping an encoded frame in the structures of
//! one connectionless broadcast — a 16-bit service-UUID list and a
//! service-data entry — and the static proof that every frame this crate
//! produces fits the link layer's minimum packet buffer.

use vstd::prelude::*;
use crate::identity::DeviceAddress;

verus! {

/// The 16-bit service UUID reserved for Eddystone service data.
pub const EDDYSTONE_UUID: u16 = 0xFEAA;

/// Bytes of advertising data a minimum-size advertising packet can carry.
pub const ADV_DATA_CAPACITY: usize = 31;

/// Advertising-data bytes spent around the frame itself: four for the
/// complete 16-bit service-UUID list (length, type, UUID) and four for
/// the service-data header (length, type, UUID).
pub const ADV_STRUCTURE_OVERHEAD: usize = 8;

/// One advertisement, ready to hand to the radio: the advertised device
/// address, the service UUID, and the service-data frame it wraps.
pub struct Advertisement {
    pub address: DeviceAddress,
    pub service_uuid: u16,
    pub service_data: Vec<u8>,
}

impl Advertisement {
    /// Bytes of advertising data this advertisement occupies on the air.
    pub open spec fn wire_len(self) -> int {
        ADV_STRUCTURE_OVERHEAD + self.service_data@.len()
    }

    /// A well-formed advertisement: Eddystone service data that fits the
    /// minimum packet buffer, so the radio's encoding step cannot fail.
    pub open spec fn wf(self) -> bool {
        &&& self.service_uuid == EDDYSTONE_UUID
        &&& self.wire_len() <= ADV_DATA_CAPACITY
    }
}

/// Wrap an encoded frame in the advertisement structures for one
/// broadcast. The frame must leave room for the structure overhead
/// within the minimum packet buffer; both frame layouts of this crate do,
/// which is the static form of the fatal encoding-overflow condition.
pub fn build_advertisement(address: DeviceAddress, frame: &[u8]) -> (adv: Advertisement)
    requires
        frame@.len() + ADV_STRUCTURE_OVERHEAD <= ADV_DATA_CAPACITY,
    ensures
        adv.wf(),
        adv.address == address,
        adv.service_uuid == EDDYSTONE_UUID,
        adv.service_data@ == frame@,
{
    Advertisement {
        address,
        service_uuid: EDDYSTONE_UUID,
        service_data: vstd::slice::slice_to_vec(frame),
    }
}

} // verus!
