use vstd::prelude::*;

use crate::command::{
    check_group_reply, reply_matches, request_bytes, spec_check_group_reply, write_request_data,
    zeros, VKCommand, VKCommandId, VKCommandMaker,
};
use crate::data::{ViaReportData, VIA_REPORT_SIZE, VIA_REQUEST_SIZE};
use crate::error::VKError;

mod debounce;
pub use debounce::{VKDebounceConfig, VKDebounceType};

mod nkro;
pub use nkro::{
    lemma_nkro_set_enabled, nkro_adaptive, nkro_available, nkro_enabled, nkro_with_enabled, VKNkroConfig,
};

mod dfu;
pub use dfu::{
    spec_dfu_info, spec_dfu_scan, spec_parse_dfu_str, VKDfuChipType, VKDfuInfo, VKDfuInfoType,
};

mod snap_click;
pub use snap_click::{
    lemma_snap_click_load_progress, lemma_snap_clicks_bytes, lemma_snap_clicks_roundtrip, snap_click_bytes, snap_click_chunk, snap_clicks_bytes, snap_clicks_decode,
    spec_snap_click_check, spec_snap_clicks_error, VKSnapClick, VKSnapClickConfig, VKSnapClickType,
};

mod info;
pub use info::VKMiscInfo;

mod language;
pub use language::VKLanguageLayout;

mod wireless_lpm;
pub use wireless_lpm::{
    lemma_lpm_set_backlit_disable_time, lemma_lpm_set_connected_idle_time, lpm_backlit_disable_time, lpm_connected_idle_time,
    lpm_with_backlit_disable_time, lpm_with_connected_idle_time, VKWirelessLpmConfig,
};

mod report_rate;
pub use report_rate::VKReportRateConfig;

verus! {

/// Sub-commands of the misc command group.
#[derive(Debug, Clone, Copy, PartialEq, Eq, Structural)]
pub enum VKMiscCommandId {
    MiscGetProtocolVer,
    DfuInfoGet,
    LanguageGet,
    LanguageSet,
    DebounceGet,
    DebounceSet,
    SnapClickGetInfo,
    SnapClickGet,
    SnapClickSet,
    SnapClickSave,
    WirelessLpmGet,
    WirelessLpmSet,
    ReportRateGet,
    ReportRateSet,
    DipSwitchGet,
    DipSwitchSet,
    FactoryReset,
    NkroGet,
    NkroSet,
}

/// Size of the header of a misc reply: group, sub-command and status.
pub const MISC_HEADER_BYTE_SIZE: usize = 3;

impl VKMiscCommandId {
    pub open spec fn spec_as_u8(self) -> u8 {
        match self {
            VKMiscCommandId::MiscGetProtocolVer => 0x01,
            VKMiscCommandId::DfuInfoGet => 0x02,
            VKMiscCommandId::LanguageGet => 0x03,
            VKMiscCommandId::LanguageSet => 0x04,
            VKMiscCommandId::DebounceGet => 0x05,
            VKMiscCommandId::DebounceSet => 0x06,
            VKMiscCommandId::SnapClickGetInfo => 0x07,
            VKMiscCommandId::SnapClickGet => 0x08,
            VKMiscCommandId::SnapClickSet => 0x09,
            VKMiscCommandId::SnapClickSave => 0x0A,
            VKMiscCommandId::WirelessLpmGet => 0x0B,
            VKMiscCommandId::WirelessLpmSet => 0x0C,
            VKMiscCommandId::ReportRateGet => 0x0D,
            VKMiscCommandId::ReportRateSet => 0x0E,
            VKMiscCommandId::DipSwitchGet => 0x0F,
            VKMiscCommandId::DipSwitchSet => 0x10,
            VKMiscCommandId::FactoryReset => 0x11,
            VKMiscCommandId::NkroGet => 0x12,
            VKMiscCommandId::NkroSet => 0x13,
        }
    }

    /// The byte of each value on the wire, as the keyboard firmware numbers
    /// them.
    pub proof fn lemma_byte_table()
        ensures
            VKMiscCommandId::MiscGetProtocolVer.spec_as_u8() == 0x01,
            VKMiscCommandId::DfuInfoGet.spec_as_u8() == 0x02,
            VKMiscCommandId::LanguageGet.spec_as_u8() == 0x03,
            VKMiscCommandId::LanguageSet.spec_as_u8() == 0x04,
            VKMiscCommandId::DebounceGet.spec_as_u8() == 0x05,
            VKMiscCommandId::DebounceSet.spec_as_u8() == 0x06,
            VKMiscCommandId::SnapClickGetInfo.spec_as_u8() == 0x07,
            VKMiscCommandId::SnapClickGet.spec_as_u8() == 0x08,
            VKMiscCommandId::SnapClickSet.spec_as_u8() == 0x09,
            VKMiscCommandId::SnapClickSave.spec_as_u8() == 0x0A,
            VKMiscCommandId::WirelessLpmGet.spec_as_u8() == 0x0B,
            VKMiscCommandId::WirelessLpmSet.spec_as_u8() == 0x0C,
            VKMiscCommandId::ReportRateGet.spec_as_u8() == 0x0D,
            VKMiscCommandId::ReportRateSet.spec_as_u8() == 0x0E,
            VKMiscCommandId::DipSwitchGet.spec_as_u8() == 0x0F,
            VKMiscCommandId::DipSwitchSet.spec_as_u8() == 0x10,
            VKMiscCommandId::FactoryReset.spec_as_u8() == 0x11,
            VKMiscCommandId::NkroGet.spec_as_u8() == 0x12,
            VKMiscCommandId::NkroSet.spec_as_u8() == 0x13,
    {
    }

    /// The byte that identifies this sub-command on the wire.
    #[verifier::when_used_as_spec(spec_as_u8)]
    pub fn as_u8(self) -> (r: u8)
        ensures
            r == self.spec_as_u8(),
    {
        match self {
            VKMiscCommandId::MiscGetProtocolVer => 0x01,
            VKMiscCommandId::DfuInfoGet => 0x02,
            VKMiscCommandId::LanguageGet => 0x03,
            VKMiscCommandId::LanguageSet => 0x04,
            VKMiscCommandId::DebounceGet => 0x05,
            VKMiscCommandId::DebounceSet => 0x06,
            VKMiscCommandId::SnapClickGetInfo => 0x07,
            VKMiscCommandId::SnapClickGet => 0x08,
            VKMiscCommandId::SnapClickSet => 0x09,
            VKMiscCommandId::SnapClickSave => 0x0A,
            VKMiscCommandId::WirelessLpmGet => 0x0B,
            VKMiscCommandId::WirelessLpmSet => 0x0C,
            VKMiscCommandId::ReportRateGet => 0x0D,
            VKMiscCommandId::ReportRateSet => 0x0E,
            VKMiscCommandId::DipSwitchGet => 0x0F,
            VKMiscCommandId::DipSwitchSet => 0x10,
            VKMiscCommandId::FactoryReset => 0x11,
            VKMiscCommandId::NkroGet => 0x12,
            VKMiscCommandId::NkroSet => 0x13,
        }
    }

    /// What [VKMiscCommandId::check_reply] gives for the reply `value`.
    pub open spec fn spec_check_reply(self, value: Seq<u8>) -> Result<Seq<u8>, VKError> {
        spec_check_group_reply(
            value,
            VKCommandId::MiscCmdGroup.spec_as_u8(),
            self.spec_as_u8(),
            MISC_HEADER_BYTE_SIZE as int,
            true,
        )
    }

    /// Checks that `value` answers this misc sub-command with a zero status;
    /// returns the payload after the header.
    pub fn check_reply<'a>(&self, value: &'a ViaReportData) -> (r: Result<&'a [u8], VKError>)
        ensures
            reply_matches(r, self.spec_check_reply(value@)),
    {
        check_group_reply(
            value,
            VKCommandId::MiscCmdGroup.as_u8(),
            self.as_u8(),
            MISC_HEADER_BYTE_SIZE,
            true,
        )
    }
}

impl VKCommandMaker for VKMiscCommandId {
    open spec fn cmd_header(self) -> Seq<u8> {
        seq![0u8, VKCommandId::MiscCmdGroup.spec_as_u8(), self.spec_as_u8()]
    }

    open spec fn req_capacity(self) -> nat {
        (VIA_REPORT_SIZE - 3) as nat
    }

    fn to_cmd(self) -> (r: VKCommand) {
        let mut report = [0u8; 33];
        report[0] = 0x00;
        report[1] = VKCommandId::MiscCmdGroup.as_u8();
        report[2] = self.as_u8();
        let r = VKCommand { report, payload_offset: 3 };
        assert(r.report@ =~= self.cmd_header() + zeros(VIA_REQUEST_SIZE - 3));
        r
    }

    fn to_req(self, data: &[u8]) -> (r: VKCommand) {
        let mut ret = self.to_cmd();
        write_request_data(&mut ret.report, 3, data, VIA_REPORT_SIZE - 3);
        assert(ret.report@.subrange(0, 3) =~= self.cmd_header());
        ret
    }
}

} // verus!
