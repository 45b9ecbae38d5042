use vstd::prelude::*;

use crate::command::{
    blank_report, check_group_reply, reply_matches, spec_check_group_reply, write_request_data,
    zeros, VKCommand, VKCommandId, VKCommandMaker,
};
use crate::data::{ViaReportData, VIA_REPORT_SIZE, VIA_REQUEST_SIZE};
use crate::error::VKError;

mod version;
pub use version::VKAnalogProtocolVersion;

mod okmc;
pub use okmc::{
    lemma_okmc_action_layout, lemma_travel_depth_frame, lemma_travel_depth_roundtrip, okmc_action_bits, okmc_action_pos,
    okmc_action_readable, okmc_keycode, travel_bytes_for, travel_depth, travel_depth_written,
    travel_is_empty, travel_with_depth, VKKeyCode, VKOkmcAction, VKOkmcActivation, VKOkmcConfig,
    VKOkmcTravel,
};

mod socd;
pub use socd::{
    socd_key_fits, socd_key_index, socd_key_pos, VKSocdConfig, VKSocdKey, VKSocdType,
};

mod key_config;
pub use key_config::{
    adv_data_byte, adv_reads_key_bytes, adv_request_bytes, okmc_block_fits, key_actuation_point, key_adv_mode, key_bytes_readable,
    key_mode_byte, key_rapid_trig_sen, key_rapid_trig_sen_deact, key_with_mode,
    lemma_key_adv_data_roundtrip, lemma_key_mode_roundtrip, spec_adv_mode_info,
    spec_adv_mode_request, spec_key_mode, spec_send_requests, travel_fits, travel_payload,
    travel_request_bytes, VKAnalogGamepadData, VKAnalogKeyConfig, VKAnalogKeyConfigAdvData,
    VKAnalogKeyConfigAdvMode, VKAnalogKeyConfigMode,
};

mod info;
pub use info::VKAnalogInfo;

mod profile;
pub use profile::{
    be_bytes, be_pairs, be_u16, key_config_bytes, key_config_offset, lemma_profile_layout,
    lemma_profile_name_roundtrip,
    lemma_raw_load_progress, name_field, name_fits, name_offset, okmc_config_offset,
    raw_request_bytes, socd_config_bytes, socd_config_offset, spec_profile_name, units_until_zero,
    valid_key_indices, valid_socd_indices, with_name, VKAdvModeArg, VKAnalogProfile,
    VKAnalogProfileInfo,
};

verus! {

/// Sub-commands of the analog matrix command group.
#[derive(Debug, Clone, Copy, PartialEq, Eq, Structural)]
pub enum VKAnalogCommandId {
    GetProtocolVersion,
    GetProfilesInfo,
    SelectProfile,
    GetProfileRaw,
    SetProfileName,
    SetTraval,
    SetAdvancedMode,
    SetSOCD,
    ResetProfile,
    SaveProfile,
    GetCurve,
    SetCurve,
    GetGameControllerMode,
    SetGameControllerMode,
    GetRealtimeTraval,
    Calibrate,
    GetCalibrateState,
    GetCalibratedValue,
}

impl VKAnalogCommandId {
    /// Size of the header of an analog reply: group and sub-command.
    pub const HEADER_BYTE_SIZE: usize = 2;

    pub open spec fn spec_as_u8(self) -> u8 {
        match self {
            VKAnalogCommandId::GetProtocolVersion => 0x01,
            VKAnalogCommandId::GetProfilesInfo => 0x10,
            VKAnalogCommandId::SelectProfile => 0x11,
            VKAnalogCommandId::GetProfileRaw => 0x12,
            VKAnalogCommandId::SetProfileName => 0x13,
            VKAnalogCommandId::SetTraval => 0x14,
            VKAnalogCommandId::SetAdvancedMode => 0x15,
            VKAnalogCommandId::SetSOCD => 0x16,
            VKAnalogCommandId::ResetProfile => 0x1E,
            VKAnalogCommandId::SaveProfile => 0x1F,
            VKAnalogCommandId::GetCurve => 0x20,
            VKAnalogCommandId::SetCurve => 0x21,
            VKAnalogCommandId::GetGameControllerMode => 0x22,
            VKAnalogCommandId::SetGameControllerMode => 0x23,
            VKAnalogCommandId::GetRealtimeTraval => 0x30,
            VKAnalogCommandId::Calibrate => 0x40,
            VKAnalogCommandId::GetCalibrateState => 0x41,
            VKAnalogCommandId::GetCalibratedValue => 0x42,
        }
    }

    /// The byte of each value on the wire, as the keyboard firmware numbers
    /// them.
    pub proof fn lemma_byte_table()
        ensures
            VKAnalogCommandId::GetProtocolVersion.spec_as_u8() == 0x01,
            VKAnalogCommandId::GetProfilesInfo.spec_as_u8() == 0x10,
            VKAnalogCommandId::SelectProfile.spec_as_u8() == 0x11,
            VKAnalogCommandId::GetProfileRaw.spec_as_u8() == 0x12,
            VKAnalogCommandId::SetProfileName.spec_as_u8() == 0x13,
            VKAnalogCommandId::SetTraval.spec_as_u8() == 0x14,
            VKAnalogCommandId::SetAdvancedMode.spec_as_u8() == 0x15,
            VKAnalogCommandId::SetSOCD.spec_as_u8() == 0x16,
            VKAnalogCommandId::ResetProfile.spec_as_u8() == 0x1E,
            VKAnalogCommandId::SaveProfile.spec_as_u8() == 0x1F,
            VKAnalogCommandId::GetCurve.spec_as_u8() == 0x20,
            VKAnalogCommandId::SetCurve.spec_as_u8() == 0x21,
            VKAnalogCommandId::GetGameControllerMode.spec_as_u8() == 0x22,
            VKAnalogCommandId::SetGameControllerMode.spec_as_u8() == 0x23,
            VKAnalogCommandId::GetRealtimeTraval.spec_as_u8() == 0x30,
            VKAnalogCommandId::Calibrate.spec_as_u8() == 0x40,
            VKAnalogCommandId::GetCalibrateState.spec_as_u8() == 0x41,
            VKAnalogCommandId::GetCalibratedValue.spec_as_u8() == 0x42,
    {
    }

    /// The byte that identifies this sub-command on the wire.
    #[verifier::when_used_as_spec(spec_as_u8)]
    pub fn as_u8(self) -> (r: u8)
        ensures
            r == self.spec_as_u8(),
    {
        match self {
            VKAnalogCommandId::GetProtocolVersion => 0x01,
            VKAnalogCommandId::GetProfilesInfo => 0x10,
            VKAnalogCommandId::SelectProfile => 0x11,
            VKAnalogCommandId::GetProfileRaw => 0x12,
            VKAnalogCommandId::SetProfileName => 0x13,
            VKAnalogCommandId::SetTraval => 0x14,
            VKAnalogCommandId::SetAdvancedMode => 0x15,
            VKAnalogCommandId::SetSOCD => 0x16,
            VKAnalogCommandId::ResetProfile => 0x1E,
            VKAnalogCommandId::SaveProfile => 0x1F,
            VKAnalogCommandId::GetCurve => 0x20,
            VKAnalogCommandId::SetCurve => 0x21,
            VKAnalogCommandId::GetGameControllerMode => 0x22,
            VKAnalogCommandId::SetGameControllerMode => 0x23,
            VKAnalogCommandId::GetRealtimeTraval => 0x30,
            VKAnalogCommandId::Calibrate => 0x40,
            VKAnalogCommandId::GetCalibrateState => 0x41,
            VKAnalogCommandId::GetCalibratedValue => 0x42,
        }
    }

    /// What [VKAnalogCommandId::check_reply] gives for the reply `value`:
    /// analog replies carry no status byte.
    pub open spec fn spec_check_reply(self, value: Seq<u8>) -> Result<Seq<u8>, VKError> {
        spec_check_group_reply(
            value,
            VKCommandId::AnalogMatrix.spec_as_u8(),
            self.spec_as_u8(),
            2,
            false,
        )
    }

    /// Checks that `value` answers this analog sub-command; returns the
    /// payload after the group and sub-command bytes.
    pub fn check_reply<'a>(&self, value: &'a ViaReportData) -> (r: Result<&'a [u8], VKError>)
        ensures
            reply_matches(r, self.spec_check_reply(value@)),
    {
        check_group_reply(
            value,
            VKCommandId::AnalogMatrix.as_u8(),
            self.as_u8(),
            Self::HEADER_BYTE_SIZE,
            false,
        )
    }
}

impl VKCommandMaker for VKAnalogCommandId {
    open spec fn cmd_header(self) -> Seq<u8> {
        seq![0u8, VKCommandId::AnalogMatrix.spec_as_u8(), self.spec_as_u8()]
    }

    open spec fn req_capacity(self) -> nat {
        (VIA_REPORT_SIZE - 2) as nat
    }

    fn to_cmd(self) -> (r: VKCommand) {
        let mut report = blank_report();
        report[1] = VKCommandId::AnalogMatrix.as_u8();
        report[2] = self.as_u8();
        let r = VKCommand { report, payload_offset: 3 };
        assert(r.report@ =~= self.cmd_header() + zeros(VIA_REQUEST_SIZE - 3));
        r
    }

    fn to_req(self, data: &[u8]) -> (r: VKCommand) {
        let mut ret = self.to_cmd();
        write_request_data(&mut ret.report, 3, data, VIA_REPORT_SIZE - 2);
        assert(ret.report@.subrange(0, 3) =~= self.cmd_header());
        ret
    }
}

} // verus!
