use vstd::prelude::*;

use crate::data::ViaReportData;
use crate::error::VKError;
use crate::rgb::VKRgbCommandId;

verus! {

/// Version of the RGB protocol.
#[derive(Debug, Clone, Copy, PartialEq, Eq, Structural)]
pub struct VKRgbProtocolVersion {
    pub major: u8,
    pub minor: u8,
}

impl VKRgbProtocolVersion {
    /// Decodes the reply to [VKRgbCommandId::RgbGetProtocolVer].
    pub fn try_from(value: ViaReportData) -> (r: Result<Self, VKError>)
        ensures
            match VKRgbCommandId::RgbGetProtocolVer.spec_check_reply(value@) {
                Err(e) => r == Err::<Self, VKError>(e),
                Ok(p) => r == Ok::<Self, VKError>(VKRgbProtocolVersion { major: p[0], minor: p[1] }),
            },
    {
        let payload = VKRgbCommandId::RgbGetProtocolVer.check_reply(&value)?;
        Ok(VKRgbProtocolVersion { major: payload[0], minor: payload[1] })
    }
}

} // verus!
