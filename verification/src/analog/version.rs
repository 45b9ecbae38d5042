use vstd::prelude::*;

use crate::analog::VKAnalogCommandId;
use crate::data::ViaReportData;
use crate::error::VKError;

verus! {

/// Version of the analog matrix protocol.
#[derive(Debug, Clone, Copy, PartialEq, Eq, Structural)]
pub struct VKAnalogProtocolVersion {
    pub version: u8,
}

impl VKAnalogProtocolVersion {
    /// Decodes the reply to [VKAnalogCommandId::GetProtocolVersion].
    pub fn try_from(value: ViaReportData) -> (r: Result<Self, VKError>)
        ensures
            match VKAnalogCommandId::GetProtocolVersion.spec_check_reply(value@) {
                Err(e) => r == Err::<Self, VKError>(e),
                Ok(p) => r == Ok::<Self, VKError>(VKAnalogProtocolVersion { version: p[0] }),
            },
    {
        let payload = VKAnalogCommandId::GetProtocolVersion.check_reply(&value)?;
        Ok(VKAnalogProtocolVersion { version: payload[0] })
    }
}

} // verus!
