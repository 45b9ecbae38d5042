//! Keychron extensions of the VIA keyboard configuration protocol.
//!
//! This crate builds the raw HID reports that Keychron keyboards understand
//! and decodes the replies they send back.  Device access itself (opening a
//! HID device, sending a report, reading the reply) lives with the caller.

pub mod error;
pub mod data;
pub mod command;
pub mod misc;
pub mod rgb;
pub mod version;
pub mod features;
pub mod analog;
pub mod protocol;
pub mod utils;
pub mod text;

pub use error::VKError;
pub use data::{ViaReportData, VIA_REPORT_SIZE, VIA_REQUEST_SIZE};
pub use command::{VKCommand, VKCommandId, VKCommandMaker};
pub use utils::DebugIter;
pub use data::{VKMiscFeatures, VIA_USAGE, VIA_USAGE_PAGE};
pub use version::{VKProtocolType, VKProtocolVersion};
pub use features::VKFeatures;
pub use protocol::{
    default_layer_from_reply, firmware_version_from_reply, is_keychron_keyboard, VKDeviceInfo,
    KEYCHRON_VENDOR_ID,
};
pub use misc::{
    VKDebounceConfig, VKDebounceType, VKDfuChipType, VKDfuInfo, VKDfuInfoType, VKLanguageLayout,
    VKMiscCommandId, VKMiscInfo, VKNkroConfig, VKReportRateConfig, VKSnapClick, VKSnapClickConfig,
    VKSnapClickType, VKWirelessLpmConfig,
};
pub use rgb::{
    VKHsv, VKRgb, VKRgbCommandId, VKRgbIndicators, VKRgbIndicatorsConfig, VKRgbInfo, VKRgbLayout,
    VKRgbLayoutLoader, VKRgbMixedEffect, VKRgbMixedEffectList, VKRgbMixedInfo, VKRgbMixedRegions,
    VKRgbPerKeyConfig, VKRgbPerKeyType, VKRgbProtocolVersion,
};
pub use analog::{
    VKAdvModeArg, VKAnalogCommandId, VKAnalogGamepadData, VKAnalogInfo, VKAnalogKeyConfig,
    VKAnalogKeyConfigAdvData, VKAnalogKeyConfigAdvMode, VKAnalogKeyConfigMode, VKAnalogProfile,
    VKAnalogProfileInfo, VKAnalogProtocolVersion, VKKeyCode, VKOkmcAction, VKOkmcActivation,
    VKOkmcConfig, VKOkmcTravel, VKSocdConfig, VKSocdKey, VKSocdType,
};
