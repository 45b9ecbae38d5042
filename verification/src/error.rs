use vstd::prelude::*;

use crate::analog::VKAnalogKeyConfigMode;

verus! {

/// Errors raised while building requests or decoding replies.
#[derive(Debug, Clone, Copy, PartialEq, Eq, Structural)]
pub enum VKError {
    /// The first byte of a reply is not the command that was sent.
    CorruptedCmd { expected: u8, got: u8 },
    /// The sub-command byte of a reply is not the one that was sent.
    CorruptedSubCmd { expected: u8, got: u8 },
    /// The keyboard answered a sub-command with a non-zero status.
    CommandFailed { sub_command: u8, ret: u8 },
    /// Unknown protocol type byte.
    InvalidProtocolType(u8),
    /// Unknown debounce type byte.
    InvalidDebounceType(u8),
    /// Unknown language layout byte.
    InvalidLanguage(u8),
    /// Unknown DFU info entry kind.
    InvalidDfuInfoType(u8),
    /// Unknown DFU chip family.
    InvalidDfuChipType(u8),
    /// A DFU string entry holds no length byte.
    DfuStringEmpty,
    /// A DFU string is longer than the bytes that hold it.
    DfuStringTooLarge,
    /// Bytes that should hold UTF-8 text do not.
    InvalidUtf8,
    /// A DFU info reply lacks the chip name or the chip type.
    InvalidDfuInfo,
    /// Unknown snap click mode.
    InvalidSnapClickType(u8),
    /// Fewer than three bytes hold a snap click pair.
    SnapClickTooShort,
    /// More snap click pairs than one request can carry.
    TooManySnapClicks(usize),
    /// Fewer than three bytes hold an HSV color.
    InvalidHsv,
    /// Fewer than three bytes are left to write an HSV color.
    HsvBufferTooSmall,
    /// More regions asked for than one reply can carry.
    InvalidRegionCount(u8),
    /// Fewer than eight bytes hold a mixed effect.
    InvalidMixedEffect,
    /// Fewer than eight bytes are left to write a mixed effect.
    MixedEffectBufferTooSmall,
    /// Unknown per-key lighting mode.
    InvalidPerKeyType(u8),
    /// Unknown analog key mode.
    InvalidKeyConfigMode(u8),
    /// Fewer than four bytes hold an analog key configuration.
    KeyConfigTooSmall,
    /// Unknown gamepad control.
    InvalidGamepadData(u8),
    /// The analog key mode carries no advanced mode data.
    NoAdvModeData(VKAnalogKeyConfigMode),
    /// An analog key configuration is sent without a destination profile.
    MissingProfile,
    /// An advanced mode is set on the global key configuration.
    GlobalKeyAdvMode,
    /// A key in OKMC mode is sent without its OKMC configuration.
    OkmcRequired,
    /// The OKMC configuration sent is not the one the key refers to.
    OkmcIndexMismatch { key_okmc_index: usize, okmc_index: usize },
    /// OKMC keycode index out of range.
    InvalidOkmcKeycodeIndex(usize),
    /// Unknown OKMC activation point.
    InvalidOkmcActivation(u8),
    /// Fewer bytes than an OKMC configuration holds.
    OkmcTooSmall,
    /// Fewer than three bytes hold OKMC travel distances.
    OkmcTravelTooSmall,
    /// Unknown SOCD type.
    InvalidSocdType(u8),
    /// Fewer than three bytes hold an SOCD configuration.
    SocdTooSmall,
    /// The profile holds no key configuration at this index.
    NoSuchKey(usize),
    /// The profile holds no OKMC configuration at this index.
    NoSuchOkmc(usize),
    /// The profile holds no SOCD configuration at this index.
    NoSuchSocd(usize),
    /// A profile name is not valid UTF-16.
    InvalidUtf16,
    /// A profile name does not fit in its field.
    NameTooLong,
}

} // verus!
