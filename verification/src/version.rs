use vstd::prelude::*;

use crate::command::VKCommandId;
use crate::data::ViaReportData;
use crate::error::VKError;

verus! {

/// The firmware family of the keyboard.
#[derive(Debug, Clone, Copy, PartialEq, Eq, Structural)]
pub enum VKProtocolType {
    Zmk,
    Qmk,
}

impl VKProtocolType {
    pub open spec fn spec_as_u8(self) -> u8 {
        match self {
            VKProtocolType::Zmk => 1,
            VKProtocolType::Qmk => 2,
        }
    }

    /// The byte of each value on the wire, as the keyboard firmware numbers
    /// them.
    pub proof fn lemma_byte_table()
        ensures
            VKProtocolType::Zmk.spec_as_u8() == 1,
            VKProtocolType::Qmk.spec_as_u8() == 2,
    {
    }

    /// The byte that identifies this protocol type on the wire.
    #[verifier::when_used_as_spec(spec_as_u8)]
    pub fn as_u8(self) -> (r: u8)
        ensures
            r == self.spec_as_u8(),
    {
        match self {
            VKProtocolType::Zmk => 1,
            VKProtocolType::Qmk => 2,
        }
    }

    /// What [VKProtocolType::try_from] gives for `value`.
    pub open spec fn spec_try_from(value: u8) -> Result<VKProtocolType, VKError> {
        if value == 1 {
            Ok(VKProtocolType::Zmk)
        } else if value == 2 {
            Ok(VKProtocolType::Qmk)
        } else {
            Err(VKError::InvalidProtocolType(value))
        }
    }

    /// Decodes a protocol type byte.
    pub fn try_from(value: u8) -> (r: Result<VKProtocolType, VKError>)
        ensures
            r == Self::spec_try_from(value),
    {
        match value {
            1 => Ok(VKProtocolType::Zmk),
            2 => Ok(VKProtocolType::Qmk),
            _ => Err(VKError::InvalidProtocolType(value)),
        }
    }
}

/// The Keychron protocol spoken by the keyboard.
#[derive(Debug, Clone, Copy, PartialEq, Eq, Structural)]
pub struct VKProtocolVersion {
    pub protocol: VKProtocolType,
    pub version: u8,
}

impl VKProtocolVersion {
    /// What [VKProtocolVersion::try_from] gives for the reply `value`.
    pub open spec fn spec_try_from(value: Seq<u8>) -> Result<VKProtocolVersion, VKError> {
        match VKCommandId::GetProtocolVersion.spec_check_reply(value) {
            Err(e) => Err(e),
            Ok(p) => match VKProtocolType::spec_try_from(p[0]) {
                Err(e) => Err(e),
                Ok(protocol) => Ok(VKProtocolVersion { protocol, version: p[2] }),
            },
        }
    }

    /// Decodes the reply to [VKCommandId::GetProtocolVersion].
    pub fn try_from(value: &ViaReportData) -> (r: Result<VKProtocolVersion, VKError>)
        ensures
            r == Self::spec_try_from(value@),
    {
        let payload = VKCommandId::GetProtocolVersion.check_reply(value)?;
        let protocol = VKProtocolType::try_from(payload[0])?;
        Ok(VKProtocolVersion { protocol, version: payload[2] })
    }
}

} // verus!
