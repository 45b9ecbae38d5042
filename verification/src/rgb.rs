use vstd::prelude::*;

use crate::command::{
    check_group_reply, reply_matches, spec_check_group_reply, write_request_data, zeros,
    VKCommand, VKCommandId, VKCommandMaker,
};
use crate::data::{ViaReportData, VIA_REPORT_SIZE, VIA_REQUEST_SIZE};
use crate::error::VKError;

mod version;
pub use version::VKRgbProtocolVersion;

mod indicators;
pub use indicators::{
    indicators_with_color, indicators_with_enabled, lemma_indicators_setters, VKRgbIndicators,
    VKRgbIndicatorsConfig,
};

mod mixed;
pub use mixed::{
    chunk_start_fits, chunk_starts_fit, effect_bytes, effect_of, effects_bytes, effects_chunk_data, effects_decode,
    lemma_chunk_load_progress, lemma_effect_roundtrip, lemma_effects_roundtrip, min_int, regions_chunk_data, VKRgbMixedEffect, VKRgbMixedEffectList,
    VKRgbMixedInfo, VKRgbMixedRegions,
};

mod per_key;
pub use per_key::{hsvs_bytes, hsvs_decode, per_key_chunk_data, VKRgbPerKeyConfig, VKRgbPerKeyType};

mod layout;
pub use layout::{
    last_led, layout_led_count, layout_request_bytes, layout_row, max_last_led, resize_row,
    VKRgbLayout, VKRgbLayoutLoader,
};

mod info;
pub use info::VKRgbInfo;

verus! {

/// Sub-commands of the RGB command group.
#[derive(Debug, Clone, Copy, PartialEq, Eq, Structural)]
pub enum VKRgbCommandId {
    RgbGetProtocolVer,
    RgbSave,
    GetIndicatorsConfig,
    SetIndicatorsConfig,
    RgbGetLedCount,
    RgbGetLedIdx,
    PerKeyRgbGetType,
    PerKeyRgbSetType,
    PerKeyRgbGetColor,
    PerKeyRgbSetColor,
    MixedEffectRgbGetInfo,
    MixedEffectRgbGetRegions,
    MixedEffectRgbSetRegions,
    MixedEffectRgbGetEffectList,
    MixedEffectRgbSetEffectList,
}

impl VKRgbCommandId {
    /// Size of the header of an RGB reply: group, sub-command and status.
    pub const HEADER_BYTE_SIZE: usize = 3;

    pub open spec fn spec_as_u8(self) -> u8 {
        match self {
            VKRgbCommandId::RgbGetProtocolVer => 1,
            VKRgbCommandId::RgbSave => 2,
            VKRgbCommandId::GetIndicatorsConfig => 3,
            VKRgbCommandId::SetIndicatorsConfig => 4,
            VKRgbCommandId::RgbGetLedCount => 5,
            VKRgbCommandId::RgbGetLedIdx => 6,
            VKRgbCommandId::PerKeyRgbGetType => 7,
            VKRgbCommandId::PerKeyRgbSetType => 8,
            VKRgbCommandId::PerKeyRgbGetColor => 9,
            VKRgbCommandId::PerKeyRgbSetColor => 10,
            VKRgbCommandId::MixedEffectRgbGetInfo => 11,
            VKRgbCommandId::MixedEffectRgbGetRegions => 12,
            VKRgbCommandId::MixedEffectRgbSetRegions => 13,
            VKRgbCommandId::MixedEffectRgbGetEffectList => 14,
            VKRgbCommandId::MixedEffectRgbSetEffectList => 15,
        }
    }

    /// The byte of each value on the wire, as the keyboard firmware numbers
    /// them.
    pub proof fn lemma_byte_table()
        ensures
            VKRgbCommandId::RgbGetProtocolVer.spec_as_u8() == 1,
            VKRgbCommandId::RgbSave.spec_as_u8() == 2,
            VKRgbCommandId::GetIndicatorsConfig.spec_as_u8() == 3,
            VKRgbCommandId::SetIndicatorsConfig.spec_as_u8() == 4,
            VKRgbCommandId::RgbGetLedCount.spec_as_u8() == 5,
            VKRgbCommandId::RgbGetLedIdx.spec_as_u8() == 6,
            VKRgbCommandId::PerKeyRgbGetType.spec_as_u8() == 7,
            VKRgbCommandId::PerKeyRgbSetType.spec_as_u8() == 8,
            VKRgbCommandId::PerKeyRgbGetColor.spec_as_u8() == 9,
            VKRgbCommandId::PerKeyRgbSetColor.spec_as_u8() == 10,
            VKRgbCommandId::MixedEffectRgbGetInfo.spec_as_u8() == 11,
            VKRgbCommandId::MixedEffectRgbGetRegions.spec_as_u8() == 12,
            VKRgbCommandId::MixedEffectRgbSetRegions.spec_as_u8() == 13,
            VKRgbCommandId::MixedEffectRgbGetEffectList.spec_as_u8() == 14,
            VKRgbCommandId::MixedEffectRgbSetEffectList.spec_as_u8() == 15,
    {
    }

    /// The byte that identifies this sub-command on the wire.
    #[verifier::when_used_as_spec(spec_as_u8)]
    pub fn as_u8(self) -> (r: u8)
        ensures
            r == self.spec_as_u8(),
    {
        match self {
            VKRgbCommandId::RgbGetProtocolVer => 1,
            VKRgbCommandId::RgbSave => 2,
            VKRgbCommandId::GetIndicatorsConfig => 3,
            VKRgbCommandId::SetIndicatorsConfig => 4,
            VKRgbCommandId::RgbGetLedCount => 5,
            VKRgbCommandId::RgbGetLedIdx => 6,
            VKRgbCommandId::PerKeyRgbGetType => 7,
            VKRgbCommandId::PerKeyRgbSetType => 8,
            VKRgbCommandId::PerKeyRgbGetColor => 9,
            VKRgbCommandId::PerKeyRgbSetColor => 10,
            VKRgbCommandId::MixedEffectRgbGetInfo => 11,
            VKRgbCommandId::MixedEffectRgbGetRegions => 12,
            VKRgbCommandId::MixedEffectRgbSetRegions => 13,
            VKRgbCommandId::MixedEffectRgbGetEffectList => 14,
            VKRgbCommandId::MixedEffectRgbSetEffectList => 15,
        }
    }

    /// What [VKRgbCommandId::check_reply] gives for the reply `value`.
    pub open spec fn spec_check_reply(self, value: Seq<u8>) -> Result<Seq<u8>, VKError> {
        spec_check_group_reply(
            value,
            VKCommandId::KeychronRgb.spec_as_u8(),
            self.spec_as_u8(),
            3,
            true,
        )
    }

    /// Checks that `value` answers this RGB sub-command with a zero status;
    /// returns the payload after the header.
    pub fn check_reply<'a>(&self, value: &'a ViaReportData) -> (r: Result<&'a [u8], VKError>)
        ensures
            reply_matches(r, self.spec_check_reply(value@)),
    {
        check_group_reply(value, VKCommandId::KeychronRgb.as_u8(), self.as_u8(), 3, true)
    }
}

impl VKCommandMaker for VKRgbCommandId {
    open spec fn cmd_header(self) -> Seq<u8> {
        seq![0u8, VKCommandId::KeychronRgb.spec_as_u8(), self.spec_as_u8()]
    }

    open spec fn req_capacity(self) -> nat {
        (VIA_REPORT_SIZE - 2) as nat
    }

    fn to_cmd(self) -> (r: VKCommand) {
        let group = VKCommandId::KeychronRgb.to_cmd();
        let mut report = group.report;
        report[2] = self.as_u8();
        let r = VKCommand { report, payload_offset: 3 };
        assert(r.report@ =~= self.cmd_header() + zeros(VIA_REQUEST_SIZE - 3));
        r
    }

    fn to_req(self, data: &[u8]) -> (r: VKCommand) {
        let mut ret = self.to_cmd();
        write_request_data(&mut ret.report, 3, data, VIA_REPORT_SIZE - 2);
        assert(ret.report@.subrange(0, 3) =~= self.cmd_header());
        ret
    }
}

/// An HSV color as Keychron keyboards store it, one byte per component.
#[derive(Debug, Clone, Copy, PartialEq, Eq, Structural)]
pub struct VKHsv {
    pub hue: u8,
    pub saturation: u8,
    pub value: u8,
}

/// The three bytes that encode `c`.
pub open spec fn hsv_bytes(c: VKHsv) -> Seq<u8> {
    seq![c.hue, c.saturation, c.value]
}

/// The color encoded by the first three bytes of `b`.
pub open spec fn hsv_of(b: Seq<u8>) -> VKHsv {
    VKHsv { hue: b[0], saturation: b[1], value: b[2] }
}

/// A color written by [VKHsv::serialize] reads back unchanged through
/// [VKHsv::try_from].
pub proof fn lemma_hsv_roundtrip(c: VKHsv, rest: Seq<u8>)
    ensures
        hsv_of(hsv_bytes(c) + rest) == c,
{
}

impl VKHsv {
    /// Size of the HSV color in bytes.
    pub const BYTE_SIZE: usize = 3;

    /// Writes the color into the first three bytes of `buffer`.
    pub fn serialize(&self, buffer: &mut [u8]) -> (r: Result<(), VKError>)
        ensures
            old(buffer)@.len() < 3 ==> r == Err::<(), VKError>(VKError::HsvBufferTooSmall)
                && final(buffer)@ == old(buffer)@,
            old(buffer)@.len() >= 3 ==> r is Ok && final(buffer)@ == hsv_bytes(*self) + old(
                buffer,
            )@.subrange(3, old(buffer)@.len() as int),
    {
        if buffer.len() < 3 {
            Err(VKError::HsvBufferTooSmall)
        } else {
            buffer[0] = self.hue;
            buffer[1] = self.saturation;
            buffer[2] = self.value;
            assert(buffer@ =~= hsv_bytes(*self) + old(buffer)@.subrange(
                3,
                old(buffer)@.len() as int,
            ));
            Ok(())
        }
    }

    /// Decodes a color from the first three bytes of `value`.
    pub fn try_from(value: &[u8]) -> (r: Result<VKHsv, VKError>)
        ensures
            value@.len() < 3 ==> r == Err::<VKHsv, VKError>(VKError::InvalidHsv),
            value@.len() >= 3 ==> r == Ok::<VKHsv, VKError>(hsv_of(value@)),
    {
        if value.len() < 3 {
            Err(VKError::InvalidHsv)
        } else {
            Ok(VKHsv { hue: value[0], saturation: value[1], value: value[2] })
        }
    }
}

/// Writes the three bytes of `c` into `buf` at `pos`.
pub fn write_hsv(buf: &mut Vec<u8>, pos: usize, c: &VKHsv)
    requires
        pos + 3 <= old(buf)@.len(),
    ensures
        final(buf)@ == old(buf)@.subrange(0, pos as int) + hsv_bytes(*c) + old(buf)@.subrange(
            pos + 3,
            old(buf)@.len() as int,
        ),
{
    let n = buf.len();
    assert(pos + 3 <= n);
    buf[pos] = c.hue;
    buf[pos + 1] = c.saturation;
    buf[pos + 2] = c.value;
    assert(buf@ =~= old(buf)@.subrange(0, pos as int) + hsv_bytes(*c) + old(buf)@.subrange(
        pos + 3,
        old(buf)@.len() as int,
    ));
}

/// Requests of the RGB group that carry no data.
pub struct VKRgb {}

impl VKRgb {
    /// The request that saves the current RGB configuration to EEPROM.
    pub fn save_request() -> (r: VKCommand)
        ensures
            r.report@ == VKRgbCommandId::RgbSave.cmd_header() + zeros(VIA_REQUEST_SIZE - 3),
    {
        VKRgbCommandId::RgbSave.to_cmd()
    }
}

} // verus!
