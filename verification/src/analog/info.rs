use vstd::prelude::*;

use std::sync::Arc;

use crate::analog::profile::VKAnalogProfileInfo;
use crate::analog::version::VKAnalogProtocolVersion;

verus! {

/// Analog information of the keyboard: protocol version and profile
/// information.
#[derive(Debug, Clone)]
pub struct VKAnalogInfo {
    pub protocol_version: Arc<VKAnalogProtocolVersion>,
    pub profile_info: Arc<VKAnalogProfileInfo>,
}

} // verus!
