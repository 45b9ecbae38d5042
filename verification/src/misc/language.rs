use vstd::prelude::*;

use crate::command::{request_bytes, VKCommand, VKCommandMaker};
use crate::data::ViaReportData;
use crate::error::VKError;
use crate::misc::VKMiscCommandId;

verus! {

/// Keyboard language layouts.
#[allow(non_camel_case_types)]
#[derive(Debug, Clone, Copy, PartialEq, Eq, Structural)]
pub enum VKLanguageLayout {
    EN_US,
    JA_JP,
    EN_UK,
    DE,
    DA_DK,
    FR,
    DE_CH,
    ES,
    IT,
    TR,
    SK_UA,
    PT,
    CS,
    SK,
    HU,
    NL,
    KO,
    SL,
}

impl VKLanguageLayout {
    pub const FI_FI: Self = Self::DA_DK;
    pub const IS_IS: Self = Self::DA_DK;
    pub const NO_NO: Self = Self::DA_DK;
    pub const SV_SE: Self = Self::DA_DK;
    pub const FR_CH: Self = Self::DE_CH;
    pub const IT_CH: Self = Self::DE_CH;

    pub open spec fn spec_as_u8(self) -> u8 {
        match self {
            VKLanguageLayout::EN_US => 1,
            VKLanguageLayout::JA_JP => 2,
            VKLanguageLayout::EN_UK => 3,
            VKLanguageLayout::DE => 4,
            VKLanguageLayout::DA_DK => 5,
            VKLanguageLayout::FR => 6,
            VKLanguageLayout::DE_CH => 7,
            VKLanguageLayout::ES => 8,
            VKLanguageLayout::IT => 9,
            VKLanguageLayout::TR => 10,
            VKLanguageLayout::SK_UA => 11,
            VKLanguageLayout::PT => 12,
            VKLanguageLayout::CS => 13,
            VKLanguageLayout::SK => 14,
            VKLanguageLayout::HU => 15,
            VKLanguageLayout::NL => 16,
            VKLanguageLayout::KO => 17,
            VKLanguageLayout::SL => 18,
        }
    }

    /// The byte of each value on the wire, as the keyboard firmware numbers
    /// them.
    pub proof fn lemma_byte_table()
        ensures
            VKLanguageLayout::EN_US.spec_as_u8() == 1,
            VKLanguageLayout::JA_JP.spec_as_u8() == 2,
            VKLanguageLayout::EN_UK.spec_as_u8() == 3,
            VKLanguageLayout::DE.spec_as_u8() == 4,
            VKLanguageLayout::DA_DK.spec_as_u8() == 5,
            VKLanguageLayout::FR.spec_as_u8() == 6,
            VKLanguageLayout::DE_CH.spec_as_u8() == 7,
            VKLanguageLayout::ES.spec_as_u8() == 8,
            VKLanguageLayout::IT.spec_as_u8() == 9,
            VKLanguageLayout::TR.spec_as_u8() == 10,
            VKLanguageLayout::SK_UA.spec_as_u8() == 11,
            VKLanguageLayout::PT.spec_as_u8() == 12,
            VKLanguageLayout::CS.spec_as_u8() == 13,
            VKLanguageLayout::SK.spec_as_u8() == 14,
            VKLanguageLayout::HU.spec_as_u8() == 15,
            VKLanguageLayout::NL.spec_as_u8() == 16,
            VKLanguageLayout::KO.spec_as_u8() == 17,
            VKLanguageLayout::SL.spec_as_u8() == 18,
    {
    }

    /// The byte that identifies this layout on the wire.
    #[verifier::when_used_as_spec(spec_as_u8)]
    pub fn as_u8(self) -> (r: u8)
        ensures
            r == self.spec_as_u8(),
    {
        match self {
            VKLanguageLayout::EN_US => 1,
            VKLanguageLayout::JA_JP => 2,
            VKLanguageLayout::EN_UK => 3,
            VKLanguageLayout::DE => 4,
            VKLanguageLayout::DA_DK => 5,
            VKLanguageLayout::FR => 6,
            VKLanguageLayout::DE_CH => 7,
            VKLanguageLayout::ES => 8,
            VKLanguageLayout::IT => 9,
            VKLanguageLayout::TR => 10,
            VKLanguageLayout::SK_UA => 11,
            VKLanguageLayout::PT => 12,
            VKLanguageLayout::CS => 13,
            VKLanguageLayout::SK => 14,
            VKLanguageLayout::HU => 15,
            VKLanguageLayout::NL => 16,
            VKLanguageLayout::KO => 17,
            VKLanguageLayout::SL => 18,
        }
    }

    /// Decodes a layout byte: the layouts are numbered from 1 to 18.
    pub fn try_from(value: u8) -> (r: Result<VKLanguageLayout, VKError>)
        ensures
            (value == 0 || value > 18) <==> r == Err::<VKLanguageLayout, VKError>(
                VKError::InvalidLanguage(value),
            ),
            r is Ok <==> (value != 0 && value <= 18),
            r matches Ok(l) ==> l.as_u8() == value,
    {
        match value {
            1 => Ok(VKLanguageLayout::EN_US),
            2 => Ok(VKLanguageLayout::JA_JP),
            3 => Ok(VKLanguageLayout::EN_UK),
            4 => Ok(VKLanguageLayout::DE),
            5 => Ok(VKLanguageLayout::DA_DK),
            6 => Ok(VKLanguageLayout::FR),
            7 => Ok(VKLanguageLayout::DE_CH),
            8 => Ok(VKLanguageLayout::ES),
            9 => Ok(VKLanguageLayout::IT),
            10 => Ok(VKLanguageLayout::TR),
            11 => Ok(VKLanguageLayout::SK_UA),
            12 => Ok(VKLanguageLayout::PT),
            13 => Ok(VKLanguageLayout::CS),
            14 => Ok(VKLanguageLayout::SK),
            15 => Ok(VKLanguageLayout::HU),
            16 => Ok(VKLanguageLayout::NL),
            17 => Ok(VKLanguageLayout::KO),
            18 => Ok(VKLanguageLayout::SL),
            _ => Err(VKError::InvalidLanguage(value)),
        }
    }

    /// Decodes the reply to [VKMiscCommandId::LanguageGet].
    pub fn from_reply(value: &ViaReportData) -> (r: Result<VKLanguageLayout, VKError>)
        ensures
            match VKMiscCommandId::LanguageGet.spec_check_reply(value@) {
                Err(e) => r == Err::<VKLanguageLayout, VKError>(e),
                Ok(p) => if p[0] == 0 || p[0] > 18 {
                    r == Err::<VKLanguageLayout, VKError>(VKError::InvalidLanguage(p[0]))
                } else {
                    r matches Ok(l) && l.as_u8() == p[0]
                },
            },
    {
        let payload = VKMiscCommandId::LanguageGet.check_reply(value)?;
        VKLanguageLayout::try_from(payload[0])
    }

    /// The request that selects this layout on the keyboard.
    pub fn set_request(&self) -> (r: VKCommand)
        ensures
            r.report@ == request_bytes(
                VKMiscCommandId::LanguageSet.cmd_header(),
                seq![self.as_u8()],
                VKMiscCommandId::LanguageSet.req_capacity(),
            ),
    {
        let data = [self.as_u8()];
        assert(data@ =~= seq![self.as_u8()]);
        VKMiscCommandId::LanguageSet.to_req(data.as_slice())
    }
}

} // verus!
