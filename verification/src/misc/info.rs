use vstd::prelude::*;

use crate::data::{le_u16, u16_from_le_bytes, VKMiscFeatures};
use crate::version::VKProtocolType;

verus! {

/// Misc protocol information.
#[derive(Debug, Clone, PartialEq, Eq, Structural)]
pub struct VKMiscInfo {
    pub protocol_version: u16,
    pub features: VKMiscFeatures,
}

impl VKMiscInfo {
    /// Decodes the payload of a [crate::VKMiscCommandId::MiscGetProtocolVer]
    /// reply for a keyboard speaking `protocol`: ZMK firmware only offers
    /// debounce, QMK firmware lists its features in byte 2.
    pub fn from_payload(payload: &[u8], protocol: VKProtocolType) -> (r: VKMiscInfo)
        requires
            payload@.len() >= 3,
        ensures
            r.protocol_version == le_u16(payload@[0], payload@[1]),
            r.features.spec_bits() == match protocol {
                VKProtocolType::Zmk => VKMiscFeatures::DEBOUNCE,
                VKProtocolType::Qmk => payload@[2],
            },
    {
        let features = match protocol {
            VKProtocolType::Zmk => VKMiscFeatures::from_bits_retain(VKMiscFeatures::DEBOUNCE),
            VKProtocolType::Qmk => VKMiscFeatures::from_bits_retain(payload[2]),
        };
        VKMiscInfo { protocol_version: u16_from_le_bytes(payload[0], payload[1]), features }
    }
}

} // verus!
