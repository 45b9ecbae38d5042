use vstd::prelude::*;

use std::sync::Arc;

use crate::data::ViaReportData;
use crate::error::VKError;
use crate::rgb::{VKRgbCommandId, VKRgbMixedInfo, VKRgbProtocolVersion};

verus! {

/// RGB information of the keyboard.
#[derive(Debug, Clone)]
pub struct VKRgbInfo {
    pub protocol_version: Arc<VKRgbProtocolVersion>,
    pub mixed: Arc<VKRgbMixedInfo>,
    pub led_count: usize,
}

impl VKRgbInfo {
    /// Decodes the reply to [VKRgbCommandId::RgbGetLedCount]: the number of
    /// LEDs of the keyboard.
    pub fn led_count_from_reply(value: &ViaReportData) -> (r: Result<usize, VKError>)
        ensures
            match VKRgbCommandId::RgbGetLedCount.spec_check_reply(value@) {
                Err(e) => r == Err::<usize, VKError>(e),
                Ok(p) => r == Ok::<usize, VKError>(p[0] as usize),
            },
    {
        let payload = VKRgbCommandId::RgbGetLedCount.check_reply(value)?;
        Ok(payload[0] as usize)
    }
}

} // verus!
