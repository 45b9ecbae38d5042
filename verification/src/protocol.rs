use vstd::prelude::*;
use vstd::utf8::{decode_utf8, valid_utf8};

use std::sync::Arc;

use crate::analog::VKAnalogInfo;
use crate::command::VKCommandId;
use crate::data::{ViaReportData, VIA_USAGE, VIA_USAGE_PAGE};
use crate::error::VKError;
use crate::features::VKFeatures;
use crate::misc::VKMiscInfo;
use crate::rgb::VKRgbInfo;
use crate::text::utf8_to_string;
use crate::version::VKProtocolVersion;

verus! {

/// USB vendor id of Keychron.
pub const KEYCHRON_VENDOR_ID: u16 = 0x3434;

/// Whether a HID interface is the VIA interface of a Keychron keyboard.
pub open spec fn spec_is_keychron_keyboard(vendor_id: u16, usage_page: u16, usage: u16) -> bool {
    vendor_id == KEYCHRON_VENDOR_ID && usage_page == VIA_USAGE_PAGE && usage == VIA_USAGE
}

/// Whether a HID interface, given by its vendor id, usage page and usage,
/// is the VIA interface of a Keychron keyboard.
pub fn is_keychron_keyboard(vendor_id: u16, usage_page: u16, usage: u16) -> (r: bool)
    ensures
        r == spec_is_keychron_keyboard(vendor_id, usage_page, usage),
{
    vendor_id == KEYCHRON_VENDOR_ID && usage_page == VIA_USAGE_PAGE && usage == VIA_USAGE
}

/// Information read from a keyboard, each part once it has been loaded.
#[derive(Debug, Default, Clone)]
pub struct VKDeviceInfo {
    /// Device protocol information
    pub protocol: Option<Arc<VKProtocolVersion>>,
    /// Firmware version
    pub firmware_version: Option<Arc<String>>,
    /// Device features
    pub features: Option<Arc<VKFeatures>>,
    /// Misc protocol information
    pub misc: Option<Arc<VKMiscInfo>>,
    /// RGB information
    pub rgb: Option<Arc<VKRgbInfo>>,
    /// Analog keyboard information
    pub analog: Option<Arc<VKAnalogInfo>>,
}

/// The position of the first zero byte of `p`, its length when it has none.
pub open spec fn nul_position(p: Seq<u8>) -> nat
    decreases p.len(),
{
    if p.len() == 0 || p[0] == 0 {
        0
    } else {
        1 + nul_position(p.subrange(1, p.len() as int))
    }
}

/// When the first `k` bytes of `p` are nonzero and byte `k` is zero, the
/// first zero byte is at `k`.
proof fn lemma_nul_position(p: Seq<u8>, k: int)
    requires
        0 <= k < p.len(),
        p[k] == 0,
        forall|j: int| 0 <= j < k ==> p[j] != 0,
    ensures
        nul_position(p) == k,
    decreases k,
{
    if k > 0 {
        lemma_nul_position(p.subrange(1, p.len() as int), k - 1);
    }
}

/// What [firmware_version_from_reply] gives for the reply `value`: the
/// UTF-8 text of the payload up to its first zero byte.
pub open spec fn spec_firmware_version(value: Seq<u8>) -> Result<Seq<char>, VKError> {
    match VKCommandId::GetFirmwareVersion.spec_check_reply(value) {
        Err(e) => Err(e),
        Ok(p) => {
            let text = p.subrange(0, nul_position(p) as int);
            if valid_utf8(text) {
                Ok(decode_utf8(text))
            } else {
                Err(VKError::InvalidUtf8)
            }
        },
    }
}

/// Decodes the reply to [VKCommandId::GetFirmwareVersion]: a text ended by
/// a zero byte.
pub fn firmware_version_from_reply(value: &ViaReportData) -> (r: Result<String, VKError>)
    requires
        VKCommandId::GetFirmwareVersion.spec_check_reply(value@) matches Ok(p) ==> nul_position(p)
            < p.len(),
    ensures
        match spec_firmware_version(value@) {
            Ok(s) => r matches Ok(t) && t@ == s,
            Err(e) => r matches Err(f) && f == e,
        },
{
    let payload = VKCommandId::GetFirmwareVersion.check_reply(value)?;
    let mut i: usize = 0;
    while i < payload.len() && payload[i] != 0
        invariant
            i <= payload@.len(),
            nul_position(payload@) < payload@.len(),
            forall|j: int| 0 <= j < i ==> payload@[j] != 0,
        decreases payload.len() - i,
    {
        i = i + 1;
    }
    proof {
        if i == payload@.len() {
            let k = nul_position(payload@);
            lemma_nul_position_zero(payload@);
            assert(payload@[k as int] != 0);
        }
        lemma_nul_position(payload@, i as int);
    }
    match utf8_to_string(vstd::slice::slice_subrange(payload, 0, i)) {
        Some(s) => Ok(s),
        None => Err(VKError::InvalidUtf8),
    }
}

/// Within the bytes, the first zero byte is zero, and the ones before it
/// are not.
proof fn lemma_nul_position_zero(p: Seq<u8>)
    requires
        nul_position(p) < p.len(),
    ensures
        p[nul_position(p) as int] == 0,
        forall|j: int| 0 <= j < nul_position(p) ==> p[j] != 0,
    decreases p.len(),
{
    if p.len() > 0 && p[0] != 0 {
        let rest = p.subrange(1, p.len() as int);
        assert(nul_position(p) == 1 + nul_position(rest));
        lemma_nul_position_zero(rest);
        assert(p[nul_position(p) as int] == rest[nul_position(rest) as int]);
        assert forall|j: int| 0 <= j < nul_position(p) implies p[j] != 0 by {
            if j > 0 {
                assert(p[j] == rest[j - 1]);
            }
        }
    }
}

/// Decodes the reply to [VKCommandId::GetDefaultLayer]: the default layer
/// state and the layer state.
pub fn default_layer_from_reply(value: &ViaReportData) -> (r: Result<(u8, u8), VKError>)
    ensures
        match VKCommandId::GetDefaultLayer.spec_check_reply(value@) {
            Err(e) => r == Err::<(u8, u8), VKError>(e),
            Ok(p) => r == Ok::<(u8, u8), VKError>((p[0], p[1])),
        },
{
    let payload = VKCommandId::GetDefaultLayer.check_reply(value)?;
    Ok((payload[0], payload[1]))
}

} // verus!
