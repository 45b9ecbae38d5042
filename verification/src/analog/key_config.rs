use vstd::prelude::*;

use crate::analog::okmc::VKOkmcConfig;
use crate::analog::VKAnalogCommandId;
use crate::command::{request_bytes, zeros, VKCommand, VKCommandMaker};
use crate::data::le_u32_bytes;
use crate::error::VKError;

verus! {

/// Modes of an analog key.
#[derive(Debug, Clone, Copy, PartialEq, Eq, Structural)]
pub enum VKAnalogKeyConfigMode {
    Global,
    Regular,
    Rapid,
    /// Also named OneKeyMultipleCommands
    DKS,
    Gamepad,
    /// Long-press switch mode
    Toggle,
}

impl VKAnalogKeyConfigMode {
    pub open spec fn spec_as_u8(self) -> u8 {
        match self {
            VKAnalogKeyConfigMode::Global => 0,
            VKAnalogKeyConfigMode::Regular => 1,
            VKAnalogKeyConfigMode::Rapid => 2,
            VKAnalogKeyConfigMode::DKS => 3,
            VKAnalogKeyConfigMode::Gamepad => 4,
            VKAnalogKeyConfigMode::Toggle => 5,
        }
    }

    /// The byte of each value on the wire, as the keyboard firmware numbers
    /// them.
    pub proof fn lemma_byte_table()
        ensures
            VKAnalogKeyConfigMode::Global.spec_as_u8() == 0,
            VKAnalogKeyConfigMode::Regular.spec_as_u8() == 1,
            VKAnalogKeyConfigMode::Rapid.spec_as_u8() == 2,
            VKAnalogKeyConfigMode::DKS.spec_as_u8() == 3,
            VKAnalogKeyConfigMode::Gamepad.spec_as_u8() == 4,
            VKAnalogKeyConfigMode::Toggle.spec_as_u8() == 5,
    {
    }

    /// The byte that identifies this mode on the wire.
    #[verifier::when_used_as_spec(spec_as_u8)]
    pub fn as_u8(self) -> (r: u8)
        ensures
            r == self.spec_as_u8(),
    {
        match self {
            VKAnalogKeyConfigMode::Global => 0,
            VKAnalogKeyConfigMode::Regular => 1,
            VKAnalogKeyConfigMode::Rapid => 2,
            VKAnalogKeyConfigMode::DKS => 3,
            VKAnalogKeyConfigMode::Gamepad => 4,
            VKAnalogKeyConfigMode::Toggle => 5,
        }
    }

    /// What [VKAnalogKeyConfigMode::try_from] gives for `value`.
    pub open spec fn spec_try_from(value: u8) -> Result<VKAnalogKeyConfigMode, VKError> {
        if value == 0 {
            Ok(VKAnalogKeyConfigMode::Global)
        } else if value == 1 {
            Ok(VKAnalogKeyConfigMode::Regular)
        } else if value == 2 {
            Ok(VKAnalogKeyConfigMode::Rapid)
        } else if value == 3 {
            Ok(VKAnalogKeyConfigMode::DKS)
        } else if value == 4 {
            Ok(VKAnalogKeyConfigMode::Gamepad)
        } else if value == 5 {
            Ok(VKAnalogKeyConfigMode::Toggle)
        } else {
            Err(VKError::InvalidKeyConfigMode(value))
        }
    }

    /// Decodes a mode byte.
    pub fn try_from(value: u8) -> (r: Result<VKAnalogKeyConfigMode, VKError>)
        ensures
            r == Self::spec_try_from(value),
            r matches Ok(m) ==> m.spec_as_u8() == value,
    {
        match value {
            0 => Ok(VKAnalogKeyConfigMode::Global),
            1 => Ok(VKAnalogKeyConfigMode::Regular),
            2 => Ok(VKAnalogKeyConfigMode::Rapid),
            3 => Ok(VKAnalogKeyConfigMode::DKS),
            4 => Ok(VKAnalogKeyConfigMode::Gamepad),
            5 => Ok(VKAnalogKeyConfigMode::Toggle),
            _ => Err(VKError::InvalidKeyConfigMode(value)),
        }
    }
}

/// Advanced modes, as the request that sets them names them.
#[derive(Debug, Clone, Copy, PartialEq, Eq, Structural)]
pub enum VKAnalogKeyConfigAdvMode {
    Clear,
    Okmc,
    Gamepad,
    Toggle,
}

impl VKAnalogKeyConfigAdvMode {
    pub open spec fn spec_as_u8(self) -> u8 {
        match self {
            VKAnalogKeyConfigAdvMode::Clear => 0,
            VKAnalogKeyConfigAdvMode::Okmc => 1,
            VKAnalogKeyConfigAdvMode::Gamepad => 2,
            VKAnalogKeyConfigAdvMode::Toggle => 3,
        }
    }

    /// The byte of each value on the wire, as the keyboard firmware numbers
    /// them.
    pub proof fn lemma_byte_table()
        ensures
            VKAnalogKeyConfigAdvMode::Clear.spec_as_u8() == 0,
            VKAnalogKeyConfigAdvMode::Okmc.spec_as_u8() == 1,
            VKAnalogKeyConfigAdvMode::Gamepad.spec_as_u8() == 2,
            VKAnalogKeyConfigAdvMode::Toggle.spec_as_u8() == 3,
    {
    }

    /// The byte that identifies this advanced mode on the wire.
    #[verifier::when_used_as_spec(spec_as_u8)]
    pub fn as_u8(self) -> (r: u8)
        ensures
            r == self.spec_as_u8(),
    {
        match self {
            VKAnalogKeyConfigAdvMode::Clear => 0,
            VKAnalogKeyConfigAdvMode::Okmc => 1,
            VKAnalogKeyConfigAdvMode::Gamepad => 2,
            VKAnalogKeyConfigAdvMode::Toggle => 3,
        }
    }
}

/// Gamepad controls an analog key can act as.
#[derive(Debug, Clone, Copy, PartialEq, Eq, Structural)]
pub enum VKAnalogGamepadData {
    LeftJoystickLeft,
    LeftJoystickRight,
    LeftJoystickBottom,
    LeftJoystickUp,
    ButtonLeftTop,
    ButtonRightTop,
    RigthJoystickLeft,
    RightJoystickRight,
    RightJoystickBottom,
    RightJoystickUp,
    ButtonA,
    ButtonB,
    ButtonX,
    ButtonY,
    ButtonLeftBottom,
    ButtonRightBottom,
    ButtonConfig,
    ButtonMenu,
    ButtonL3,
    ButtonR3,
    ButtonUp,
    ButtonDown,
    ButtonLeft,
    ButtonRight,
    ButtonCancel,
}

impl VKAnalogGamepadData {
    pub open spec fn spec_as_u8(self) -> u8 {
        match self {
            VKAnalogGamepadData::LeftJoystickLeft => 0,
            VKAnalogGamepadData::LeftJoystickRight => 1,
            VKAnalogGamepadData::LeftJoystickBottom => 2,
            VKAnalogGamepadData::LeftJoystickUp => 3,
            VKAnalogGamepadData::ButtonLeftTop => 4,
            VKAnalogGamepadData::ButtonRightTop => 5,
            VKAnalogGamepadData::RigthJoystickLeft => 6,
            VKAnalogGamepadData::RightJoystickRight => 7,
            VKAnalogGamepadData::RightJoystickBottom => 8,
            VKAnalogGamepadData::RightJoystickUp => 9,
            VKAnalogGamepadData::ButtonA => 13,
            VKAnalogGamepadData::ButtonB => 14,
            VKAnalogGamepadData::ButtonX => 15,
            VKAnalogGamepadData::ButtonY => 16,
            VKAnalogGamepadData::ButtonLeftBottom => 17,
            VKAnalogGamepadData::ButtonRightBottom => 18,
            VKAnalogGamepadData::ButtonConfig => 19,
            VKAnalogGamepadData::ButtonMenu => 20,
            VKAnalogGamepadData::ButtonL3 => 21,
            VKAnalogGamepadData::ButtonR3 => 22,
            VKAnalogGamepadData::ButtonUp => 23,
            VKAnalogGamepadData::ButtonDown => 24,
            VKAnalogGamepadData::ButtonLeft => 25,
            VKAnalogGamepadData::ButtonRight => 26,
            VKAnalogGamepadData::ButtonCancel => 27,
        }
    }

    /// The byte of each value on the wire, as the keyboard firmware numbers
    /// them.
    pub proof fn lemma_byte_table()
        ensures
            VKAnalogGamepadData::LeftJoystickLeft.spec_as_u8() == 0,
            VKAnalogGamepadData::LeftJoystickRight.spec_as_u8() == 1,
            VKAnalogGamepadData::LeftJoystickBottom.spec_as_u8() == 2,
            VKAnalogGamepadData::LeftJoystickUp.spec_as_u8() == 3,
            VKAnalogGamepadData::ButtonLeftTop.spec_as_u8() == 4,
            VKAnalogGamepadData::ButtonRightTop.spec_as_u8() == 5,
            VKAnalogGamepadData::RigthJoystickLeft.spec_as_u8() == 6,
            VKAnalogGamepadData::RightJoystickRight.spec_as_u8() == 7,
            VKAnalogGamepadData::RightJoystickBottom.spec_as_u8() == 8,
            VKAnalogGamepadData::RightJoystickUp.spec_as_u8() == 9,
            VKAnalogGamepadData::ButtonA.spec_as_u8() == 13,
            VKAnalogGamepadData::ButtonB.spec_as_u8() == 14,
            VKAnalogGamepadData::ButtonX.spec_as_u8() == 15,
            VKAnalogGamepadData::ButtonY.spec_as_u8() == 16,
            VKAnalogGamepadData::ButtonLeftBottom.spec_as_u8() == 17,
            VKAnalogGamepadData::ButtonRightBottom.spec_as_u8() == 18,
            VKAnalogGamepadData::ButtonConfig.spec_as_u8() == 19,
            VKAnalogGamepadData::ButtonMenu.spec_as_u8() == 20,
            VKAnalogGamepadData::ButtonL3.spec_as_u8() == 21,
            VKAnalogGamepadData::ButtonR3.spec_as_u8() == 22,
            VKAnalogGamepadData::ButtonUp.spec_as_u8() == 23,
            VKAnalogGamepadData::ButtonDown.spec_as_u8() == 24,
            VKAnalogGamepadData::ButtonLeft.spec_as_u8() == 25,
            VKAnalogGamepadData::ButtonRight.spec_as_u8() == 26,
            VKAnalogGamepadData::ButtonCancel.spec_as_u8() == 27,
    {
    }

    /// The byte that identifies this control on the wire.
    #[verifier::when_used_as_spec(spec_as_u8)]
    pub fn as_u8(self) -> (r: u8)
        ensures
            r == self.spec_as_u8(),
    {
        match self {
            VKAnalogGamepadData::LeftJoystickLeft => 0,
            VKAnalogGamepadData::LeftJoystickRight => 1,
            VKAnalogGamepadData::LeftJoystickBottom => 2,
            VKAnalogGamepadData::LeftJoystickUp => 3,
            VKAnalogGamepadData::ButtonLeftTop => 4,
            VKAnalogGamepadData::ButtonRightTop => 5,
            VKAnalogGamepadData::RigthJoystickLeft => 6,
            VKAnalogGamepadData::RightJoystickRight => 7,
            VKAnalogGamepadData::RightJoystickBottom => 8,
            VKAnalogGamepadData::RightJoystickUp => 9,
            VKAnalogGamepadData::ButtonA => 13,
            VKAnalogGamepadData::ButtonB => 14,
            VKAnalogGamepadData::ButtonX => 15,
            VKAnalogGamepadData::ButtonY => 16,
            VKAnalogGamepadData::ButtonLeftBottom => 17,
            VKAnalogGamepadData::ButtonRightBottom => 18,
            VKAnalogGamepadData::ButtonConfig => 19,
            VKAnalogGamepadData::ButtonMenu => 20,
            VKAnalogGamepadData::ButtonL3 => 21,
            VKAnalogGamepadData::ButtonR3 => 22,
            VKAnalogGamepadData::ButtonUp => 23,
            VKAnalogGamepadData::ButtonDown => 24,
            VKAnalogGamepadData::ButtonLeft => 25,
            VKAnalogGamepadData::ButtonRight => 26,
            VKAnalogGamepadData::ButtonCancel => 27,
        }
    }

    /// Whether `value` is the byte of a gamepad control: 0 to 27, but 10 to 12.
    pub open spec fn is_gamepad_byte(value: u8) -> bool {
        value <= 27 && !(10 <= value <= 12)
    }

    /// What [VKAnalogGamepadData::try_from] gives for `value`.
    pub open spec fn spec_try_from(value: u8) -> Result<VKAnalogGamepadData, VKError> {
        if Self::is_gamepad_byte(value) {
            Ok(choose|g: VKAnalogGamepadData| g.spec_as_u8() == value)
        } else {
            Err(VKError::InvalidGamepadData(value))
        }
    }

    /// Two controls with one byte are one control.
    pub proof fn lemma_byte_unique(a: VKAnalogGamepadData, b: VKAnalogGamepadData)
        requires
            a.spec_as_u8() == b.spec_as_u8(),
        ensures
            a == b,
    {
    }

    /// Decoding the byte of a control gives the control back.
    pub proof fn lemma_byte_roundtrip(g: VKAnalogGamepadData)
        ensures
            Self::spec_try_from(g.spec_as_u8()) == Ok::<VKAnalogGamepadData, VKError>(g),
    {
        assert(Self::is_gamepad_byte(g.spec_as_u8()));
        let c = choose|h: VKAnalogGamepadData| h.spec_as_u8() == g.spec_as_u8();
        Self::lemma_byte_unique(c, g);
    }

    /// Decodes a gamepad control byte.
    pub fn try_from(value: u8) -> (r: Result<VKAnalogGamepadData, VKError>)
        ensures
            r == Self::spec_try_from(value),
            r matches Ok(g) ==> g.spec_as_u8() == value,
            r is Ok <==> Self::is_gamepad_byte(value),
    {
        let r = match value {
            0 => Ok(VKAnalogGamepadData::LeftJoystickLeft),
            1 => Ok(VKAnalogGamepadData::LeftJoystickRight),
            2 => Ok(VKAnalogGamepadData::LeftJoystickBottom),
            3 => Ok(VKAnalogGamepadData::LeftJoystickUp),
            4 => Ok(VKAnalogGamepadData::ButtonLeftTop),
            5 => Ok(VKAnalogGamepadData::ButtonRightTop),
            6 => Ok(VKAnalogGamepadData::RigthJoystickLeft),
            7 => Ok(VKAnalogGamepadData::RightJoystickRight),
            8 => Ok(VKAnalogGamepadData::RightJoystickBottom),
            9 => Ok(VKAnalogGamepadData::RightJoystickUp),
            13 => Ok(VKAnalogGamepadData::ButtonA),
            14 => Ok(VKAnalogGamepadData::ButtonB),
            15 => Ok(VKAnalogGamepadData::ButtonX),
            16 => Ok(VKAnalogGamepadData::ButtonY),
            17 => Ok(VKAnalogGamepadData::ButtonLeftBottom),
            18 => Ok(VKAnalogGamepadData::ButtonRightBottom),
            19 => Ok(VKAnalogGamepadData::ButtonConfig),
            20 => Ok(VKAnalogGamepadData::ButtonMenu),
            21 => Ok(VKAnalogGamepadData::ButtonL3),
            22 => Ok(VKAnalogGamepadData::ButtonR3),
            23 => Ok(VKAnalogGamepadData::ButtonUp),
            24 => Ok(VKAnalogGamepadData::ButtonDown),
            25 => Ok(VKAnalogGamepadData::ButtonLeft),
            26 => Ok(VKAnalogGamepadData::ButtonRight),
            27 => Ok(VKAnalogGamepadData::ButtonCancel),
            _ => Err(VKError::InvalidGamepadData(value)),
        };
        proof {
            if let Ok(g) = r {
                assert(exists|h: VKAnalogGamepadData| h.spec_as_u8() == value) by {
                    assert(g.spec_as_u8() == value);
                }
                let c = choose|h: VKAnalogGamepadData| h.spec_as_u8() == value;
                Self::lemma_byte_unique(c, g);
            }
        }
        r
    }
}

/// What the last byte of an analog key configuration holds, depending on
/// its mode.
#[derive(Debug, Clone, Copy, PartialEq, Eq, Structural)]
pub enum VKAnalogKeyConfigAdvData {
    Unknown(u8),
    Gamepad(VKAnalogGamepadData),
    Okmc { index: usize },
}

/// The byte that holds `v`: an OKMC index is cut to its low byte.
pub open spec fn adv_data_byte(v: VKAnalogKeyConfigAdvData) -> u8 {
    match v {
        VKAnalogKeyConfigAdvData::Unknown(value) => value,
        VKAnalogKeyConfigAdvData::Gamepad(value) => value.spec_as_u8(),
        VKAnalogKeyConfigAdvData::Okmc { index } => index as u8,
    }
}

impl From<u8> for VKAnalogKeyConfigAdvData {
    fn from(value: u8) -> (r: Self) {
        VKAnalogKeyConfigAdvData::Unknown(value)
    }
}

impl vstd::std_specs::convert::FromSpecImpl<u8> for VKAnalogKeyConfigAdvData {
    open spec fn obeys_from_spec() -> bool {
        true
    }

    open spec fn from_spec(v: u8) -> Self {
        VKAnalogKeyConfigAdvData::Unknown(v)
    }
}

impl From<VKAnalogGamepadData> for VKAnalogKeyConfigAdvData {
    fn from(value: VKAnalogGamepadData) -> (r: Self) {
        VKAnalogKeyConfigAdvData::Gamepad(value)
    }
}

impl vstd::std_specs::convert::FromSpecImpl<VKAnalogGamepadData> for VKAnalogKeyConfigAdvData {
    open spec fn obeys_from_spec() -> bool {
        true
    }

    open spec fn from_spec(v: VKAnalogGamepadData) -> Self {
        VKAnalogKeyConfigAdvData::Gamepad(v)
    }
}

impl From<VKAnalogKeyConfigAdvData> for u8 {
    fn from(val: VKAnalogKeyConfigAdvData) -> (r: u8) {
        match val {
            VKAnalogKeyConfigAdvData::Unknown(value) => value,
            VKAnalogKeyConfigAdvData::Gamepad(value) => value.as_u8(),
            VKAnalogKeyConfigAdvData::Okmc { index } => index as u8,
        }
    }
}

impl vstd::std_specs::convert::FromSpecImpl<VKAnalogKeyConfigAdvData> for u8 {
    open spec fn obeys_from_spec() -> bool {
        true
    }

    open spec fn from_spec(v: VKAnalogKeyConfigAdvData) -> u8 {
        adv_data_byte(v)
    }
}

/// The mode byte of the key configuration bytes `d`: the high nibble of the
/// third byte when set, the two low bits of the first byte otherwise.
pub open spec fn key_mode_byte(d: Seq<u8>) -> u8 {
    if d[2] >> 4u8 != 0 {
        d[2] >> 4u8
    } else {
        d[0] & 0x03
    }
}

/// The mode of the key configuration bytes `d`.
pub open spec fn spec_key_mode(d: Seq<u8>) -> Result<VKAnalogKeyConfigMode, VKError> {
    VKAnalogKeyConfigMode::spec_try_from(key_mode_byte(d))
}

/// The key configuration bytes `d` switched to `mode`: the basic modes live
/// in the first byte and clear the high nibble of the third one, the others
/// live in that nibble.
pub open spec fn key_with_mode(d: Seq<u8>, mode: VKAnalogKeyConfigMode) -> Seq<u8> {
    match mode {
        VKAnalogKeyConfigMode::Global | VKAnalogKeyConfigMode::Regular
        | VKAnalogKeyConfigMode::Rapid => d.update(0, (d[0] & 0xFC) | (mode.spec_as_u8() & 0x03)).update(
            2,
            d[2] & 0x0F,
        ),
        _ => d.update(2, (d[2] & 0x0F) | (mode.spec_as_u8() << 4u8)),
    }
}

/// Actuation point of the key configuration bytes `d`, in 1/10 mm.
pub open spec fn key_actuation_point(d: Seq<u8>) -> u8 {
    d[0] >> 2u8
}

/// Rapid trigger activation of the key configuration bytes `d`, in 1/10 mm.
pub open spec fn key_rapid_trig_sen(d: Seq<u8>) -> u8 {
    d[1] & 0x3F
}

/// Rapid trigger deactivation of the key configuration bytes `d`, in 1/10 mm.
pub open spec fn key_rapid_trig_sen_deact(d: Seq<u8>) -> u8 {
    (d[1] >> 6u8) | ((d[2] & 0x0F) << 2u8)
}

/// What [VKAnalogKeyConfig::get_adv_mode_info] gives for the key
/// configuration bytes `d`.
pub open spec fn spec_adv_mode_info(d: Seq<u8>) -> Result<VKAnalogKeyConfigAdvData, VKError> {
    match spec_key_mode(d) {
        Ok(VKAnalogKeyConfigMode::DKS) => Ok(VKAnalogKeyConfigAdvData::Okmc { index: d[3] as usize }),
        Ok(VKAnalogKeyConfigMode::Gamepad) => match VKAnalogGamepadData::spec_try_from(d[3]) {
            Ok(g) => Ok(VKAnalogKeyConfigAdvData::Gamepad(g)),
            Err(e) => Err(e),
        },
        Ok(mode) => Err(VKError::NoAdvModeData(mode)),
        Err(e) => Err(e),
    }
}

/// Whether the key configuration bytes `d` hold every byte their mode reads:
/// the last byte is read in DKS and gamepad modes only.
pub open spec fn key_bytes_readable(d: Seq<u8>) -> bool {
    d.len() >= 4 || (d.len() == 3 && key_mode_byte(d) != 3 && key_mode_byte(d) != 4)
}

/// The advanced mode a key is sent with in `mode`.
pub open spec fn key_adv_mode(mode: VKAnalogKeyConfigMode) -> VKAnalogKeyConfigAdvMode {
    match mode {
        VKAnalogKeyConfigMode::DKS => VKAnalogKeyConfigAdvMode::Okmc,
        VKAnalogKeyConfigMode::Gamepad => VKAnalogKeyConfigAdvMode::Gamepad,
        VKAnalogKeyConfigMode::Toggle => VKAnalogKeyConfigAdvMode::Toggle,
        _ => VKAnalogKeyConfigAdvMode::Clear,
    }
}

/// The payload of the travel request for the key configuration bytes `d`
/// of key `index` (`None` for the global configuration) in `profile`, on a
/// matrix of `col_count` columns: mode, actuation and rapid trigger
/// settings, then, for a key, a 32-bit mask of its column at the offset of
/// its row.
pub open spec fn travel_payload(
    d: Seq<u8>,
    profile: usize,
    index: Option<usize>,
    col_count: usize,
) -> Seq<u8> {
    seq![
        profile as u8,
        d[0] & 0x03,
        key_actuation_point(d),
        key_rapid_trig_sen(d),
        key_rapid_trig_sen_deact(d),
        if index is Some { 0u8 } else { 1u8 },
    ] + match index {
        None => Seq::<u8>::empty(),
        Some(i) => zeros(((i / col_count) * 4) as int) + le_u32_bytes(
            1u32 << ((i % col_count) as u32),
        ),
    }
}

/// The bytes of the travel request, see [travel_payload].
pub open spec fn travel_request_bytes(
    d: Seq<u8>,
    profile: usize,
    index: Option<usize>,
    col_count: usize,
) -> Seq<u8> {
    request_bytes(
        VKAnalogCommandId::SetTraval.cmd_header(),
        travel_payload(d, profile, index, col_count),
        VKAnalogCommandId::SetTraval.req_capacity(),
    )
}

/// Whether the travel request of key `index` fits in a report on a matrix
/// of `col_count` columns: six rows at most, 32 columns at most.
pub open spec fn travel_fits(index: Option<usize>, col_count: usize) -> bool {
    index matches Some(i) ==> (col_count > 0 && i / col_count <= 5 && i % col_count < 32)
}

/// The bytes of the advanced mode request setting `mode` on key `key` of
/// `profile`, on a matrix of `col_count` columns, with the mode's own bytes
/// `tail`.
pub open spec fn adv_request_bytes(
    mode: VKAnalogKeyConfigAdvMode,
    profile: usize,
    key: u8,
    col_count: u8,
    tail: Seq<u8>,
) -> Seq<u8> {
    request_bytes(
        VKAnalogCommandId::SetAdvancedMode.cmd_header(),
        seq![profile as u8, mode.spec_as_u8(), key / col_count, key % col_count] + tail,
        VKAnalogCommandId::SetAdvancedMode.req_capacity(),
    )
}

/// Setting a mode reads it back, and keeps the actuation point, the rapid
/// trigger settings and the advanced mode data.
pub proof fn lemma_key_mode_roundtrip(d: Seq<u8>, mode: VKAnalogKeyConfigMode)
    requires
        d.len() >= 3,
    ensures
        spec_key_mode(key_with_mode(d, mode)) == Ok::<VKAnalogKeyConfigMode, VKError>(mode),
        key_with_mode(d, mode).len() == d.len(),
        key_actuation_point(key_with_mode(d, mode)) == key_actuation_point(d),
        key_rapid_trig_sen(key_with_mode(d, mode)) == key_rapid_trig_sen(d),
        key_rapid_trig_sen_deact(key_with_mode(d, mode)) == key_rapid_trig_sen_deact(d),
        forall|i: int| 3 <= i < d.len() ==> #[trigger] key_with_mode(d, mode)[i] == d[i],
{
    let d0 = d[0];
    let d1 = d[1];
    let d2 = d[2];
    let e = key_with_mode(d, mode);
    let m = mode.spec_as_u8();
    assert(e[1] == d1);
    match mode {
        VKAnalogKeyConfigMode::Global | VKAnalogKeyConfigMode::Regular
        | VKAnalogKeyConfigMode::Rapid => {
            assert(e[0] == (d0 & 0xFC) | (m & 0x03));
            assert(e[2] == d2 & 0x0F);
            assert(m <= 2 ==> (d2 & 0x0F) >> 4u8 == 0 && ((d0 & 0xFC) | (m & 0x03)) & 0x03 == m)
                by (bit_vector);
            assert(((d0 & 0xFC) | (m & 0x03)) >> 2u8 == d0 >> 2u8) by (bit_vector);
            assert((d2 & 0x0F) & 0x0F == d2 & 0x0F) by (bit_vector);
        },
        _ => {
            assert(e[0] == d0);
            assert(e[2] == (d2 & 0x0F) | (m << 4u8));
            assert(3 <= m <= 5 ==> ((d2 & 0x0F) | (m << 4u8)) >> 4u8 == m) by (bit_vector);
            assert(((d2 & 0x0F) | (m << 4u8)) & 0x0F == d2 & 0x0F) by (bit_vector);
        },
    }
}

/// Advanced mode data written into the last byte reads back through
/// [spec_adv_mode_info] in the mode it belongs to: an OKMC index below 256
/// in DKS mode, a gamepad control in gamepad mode; the mode is unchanged.
pub proof fn lemma_key_adv_data_roundtrip(d: Seq<u8>, a: VKAnalogKeyConfigAdvData)
    requires
        d.len() >= 4,
    ensures
        spec_key_mode(d.update(3, adv_data_byte(a))) == spec_key_mode(d),
        (spec_key_mode(d) == Ok::<VKAnalogKeyConfigMode, VKError>(VKAnalogKeyConfigMode::DKS)
            && (a matches VKAnalogKeyConfigAdvData::Okmc { index } && index < 256))
            ==> spec_adv_mode_info(d.update(3, adv_data_byte(a))) == Ok::<
            VKAnalogKeyConfigAdvData,
            VKError,
        >(a),
        (spec_key_mode(d) == Ok::<VKAnalogKeyConfigMode, VKError>(VKAnalogKeyConfigMode::Gamepad)
            && a is Gamepad) ==> spec_adv_mode_info(d.update(3, adv_data_byte(a))) == Ok::<
            VKAnalogKeyConfigAdvData,
            VKError,
        >(a),
{
    let e = d.update(3, adv_data_byte(a));
    assert(e[0] == d[0] && e[2] == d[2]);
    if let VKAnalogKeyConfigAdvData::Gamepad(g) = a {
        assert(VKAnalogGamepadData::is_gamepad_byte(g.spec_as_u8()));
        let c = choose|h: VKAnalogGamepadData| h.spec_as_u8() == g.spec_as_u8();
        VKAnalogGamepadData::lemma_byte_unique(c, g);
    }
}

/// Whether setting the advanced `mode` of key `index` reads the key
/// configuration bytes: for a key, in gamepad mode, and in OKMC mode when an
/// OKMC configuration is given.
pub open spec fn adv_reads_key_bytes(
    index: Option<usize>,
    mode: VKAnalogKeyConfigAdvMode,
    okmc: Option<&VKOkmcConfig>,
) -> bool {
    index is Some && (mode == VKAnalogKeyConfigAdvMode::Gamepad || (mode
        == VKAnalogKeyConfigAdvMode::Okmc && okmc is Some))
}

/// Whether OKMC configuration `o` can be sent with the key configuration
/// bytes `d`: the key holds OKMC data, and when it refers to `o`, `o` holds
/// the nineteen bytes the request carries.
pub open spec fn okmc_block_fits(d: Seq<u8>, o: &VKOkmcConfig) -> bool {
    &&& !(spec_adv_mode_info(d) matches Ok(a) && !(a is Okmc))
    &&& (spec_adv_mode_info(d) matches Ok(VKAnalogKeyConfigAdvData::Okmc { index: k }) && k
        == o.index) ==> o.data@.len() == 19
}

/// What [VKAnalogKeyConfig::adv_mode_request] gives: the request setting
/// `mode` on key `index` of `profile`, with the OKMC index and
/// configuration in OKMC mode and the control byte in gamepad mode, or the
/// error.
pub open spec fn spec_adv_mode_request(
    d: Seq<u8>,
    index: Option<usize>,
    mode: VKAnalogKeyConfigAdvMode,
    profile: usize,
    col_count: usize,
    okmc: Option<&VKOkmcConfig>,
) -> Result<Seq<u8>, VKError> {
    match index {
        None => Err(VKError::GlobalKeyAdvMode),
        Some(i) => {
            let tail: Result<Seq<u8>, VKError> = match mode {
                VKAnalogKeyConfigAdvMode::Okmc => match okmc {
                    None => Err(VKError::OkmcRequired),
                    Some(o) => match spec_adv_mode_info(d) {
                        Err(e) => Err(e),
                        Ok(VKAnalogKeyConfigAdvData::Okmc { index: k }) => if k == o.index {
                            Ok(seq![o.index as u8] + o.data@)
                        } else {
                            Err(VKError::OkmcIndexMismatch { key_okmc_index: k, okmc_index: o.index })
                        },
                        Ok(_) => Ok(seq![o.index as u8] + o.data@),
                    },
                },
                VKAnalogKeyConfigAdvMode::Gamepad => match spec_adv_mode_info(d) {
                    Err(e) => Err(e),
                    Ok(a) => Ok(seq![adv_data_byte(a)]),
                },
                _ => Ok(Seq::<u8>::empty()),
            };
            match tail {
                Err(e) => Err(e),
                Ok(t) => Ok(adv_request_bytes(mode, profile, i as u8, col_count as u8, t)),
            }
        },
    }
}

/// What [VKAnalogKeyConfig::send_requests] gives: without a profile, the
/// error; otherwise the travel request, then the advanced mode request of
/// the key's mode, or the error that stops the sending after the travel
/// request.
pub open spec fn spec_send_requests(
    d: Seq<u8>,
    index: Option<usize>,
    profile: Option<usize>,
    col_count: usize,
    okmc: Option<&VKOkmcConfig>,
) -> Result<(Seq<u8>, Result<Seq<u8>, VKError>), VKError> {
    match profile {
        None => Err(VKError::MissingProfile),
        Some(p) => Ok(
            (
                travel_request_bytes(d, p, index, col_count),
                match spec_key_mode(d) {
                    Err(e) => Err(e),
                    Ok(m) => spec_adv_mode_request(d, index, key_adv_mode(m), p, col_count, okmc),
                },
            ),
        ),
    }
}

/// An analog key configuration: four bytes, the key they belong to (`None`
/// for the global configuration) and the profile they belong to.
#[derive(Debug, Clone, PartialEq, Eq)]
pub struct VKAnalogKeyConfig {
    pub data: Vec<u8>,
    pub index: Option<usize>,
    pub profile: Option<usize>,
}

impl VKAnalogKeyConfig {
    pub const BYTE_SIZE: usize = 4;

    /// The key mode.
    pub fn get_mode(&self) -> (r: Result<VKAnalogKeyConfigMode, VKError>)
        requires
            self.data@.len() >= 3,
        ensures
            r == spec_key_mode(self.data@),
    {
        let value = self.data[2] >> 4u8;
        if value != 0 {
            VKAnalogKeyConfigMode::try_from(value)
        } else {
            VKAnalogKeyConfigMode::try_from(self.data[0] & 0x03)
        }
    }

    /// Sets the key mode.
    pub fn set_mode(&mut self, mode: VKAnalogKeyConfigMode)
        requires
            old(self).data@.len() >= 3,
        ensures
            final(self).data@ == key_with_mode(old(self).data@, mode),
            final(self).index == old(self).index,
            final(self).profile == old(self).profile,
    {
        match mode {
            VKAnalogKeyConfigMode::Global
            | VKAnalogKeyConfigMode::Regular
            | VKAnalogKeyConfigMode::Rapid => {
                let b0 = (self.data[0] & 0xFC) | (mode.as_u8() & 0x03);
                self.data.set(0, b0);
                let b2 = self.data[2] & 0x0F;
                self.data.set(2, b2);
            },
            VKAnalogKeyConfigMode::DKS
            | VKAnalogKeyConfigMode::Gamepad
            | VKAnalogKeyConfigMode::Toggle => {
                let b2 = (self.data[2] & 0x0F) | (mode.as_u8() << 4u8);
                self.data.set(2, b2);
            },
        }
    }

    /// Whether the key has no setting of its own: its mode is invalid or
    /// global.
    pub fn is_empty(&self) -> (r: bool)
        requires
            self.data@.len() >= 3,
        ensures
            r == !(spec_key_mode(self.data@) matches Ok(m) && m != VKAnalogKeyConfigMode::Global),
    {
        match self.get_mode() {
            Ok(m) => m == VKAnalogKeyConfigMode::Global,
            Err(_) => true,
        }
    }

    /// Actuation point in 1/10 mm; its maximum depends on the keyboard, its
    /// minimum is generally 0.2 mm.
    pub fn get_actuation_point(&self) -> (r: u8)
        requires
            self.data@.len() >= 1,
        ensures
            r == key_actuation_point(self.data@),
    {
        self.data[0] >> 2u8
    }

    /// Rapid trigger activation in 1/10 mm.
    pub fn get_rapid_trig_sen(&self) -> (r: u8)
        requires
            self.data@.len() >= 2,
        ensures
            r == key_rapid_trig_sen(self.data@),
    {
        self.data[1] & 0x3F
    }

    /// Rapid trigger deactivation in 1/10 mm.
    pub fn get_rapid_trig_sen_deact(&self) -> (r: u8)
        requires
            self.data@.len() >= 3,
        ensures
            r == key_rapid_trig_sen_deact(self.data@),
    {
        (self.data[1] >> 6u8) | ((self.data[2] & 0x0F) << 2u8)
    }

    /// The advanced mode data: the OKMC index in DKS mode, the control in
    /// gamepad mode; the other modes hold none.
    pub fn get_adv_mode_info(&self) -> (r: Result<VKAnalogKeyConfigAdvData, VKError>)
        requires
            self.data@.len() >= 3,
            key_bytes_readable(self.data@),
        ensures
            r == spec_adv_mode_info(self.data@),
    {
        match self.get_mode() {
            Ok(VKAnalogKeyConfigMode::DKS) => Ok(
                VKAnalogKeyConfigAdvData::Okmc { index: self.data[3] as usize },
            ),
            Ok(VKAnalogKeyConfigMode::Gamepad) => match VKAnalogGamepadData::try_from(
                self.data[3],
            ) {
                Ok(g) => Ok(VKAnalogKeyConfigAdvData::Gamepad(g)),
                Err(e) => Err(e),
            },
            Ok(mode) => Err(VKError::NoAdvModeData(mode)),
            Err(e) => Err(e),
        }
    }

    /// The OKMC index of a key in DKS mode.
    pub fn get_okmc_index(&self) -> (r: Option<usize>)
        requires
            self.data@.len() >= 3,
            key_bytes_readable(self.data@),
        ensures
            r == (if spec_key_mode(self.data@) == Ok::<VKAnalogKeyConfigMode, VKError>(
                VKAnalogKeyConfigMode::DKS,
            ) {
                Some(self.data@[3] as usize)
            } else {
                None
            }),
    {
        match self.get_mode() {
            Ok(VKAnalogKeyConfigMode::DKS) => Some(self.data[3] as usize),
            _ => None,
        }
    }

    /// Sets the advanced mode data.
    pub fn set_adv_mode_info(&mut self, value: VKAnalogKeyConfigAdvData)
        requires
            old(self).data@.len() >= 4,
        ensures
            final(self).data@ == old(self).data@.update(3, adv_data_byte(value)),
            final(self).index == old(self).index,
            final(self).profile == old(self).profile,
    {
        let b = u8::from(value);
        self.data.set(3, b);
    }

    /// Decodes a key configuration from the first four bytes of `value`;
    /// its mode must be valid.
    pub fn try_from(value: &[u8]) -> (r: Result<Self, VKError>)
        ensures
            value@.len() < 4 ==> r == Err::<Self, VKError>(VKError::KeyConfigTooSmall),
            value@.len() >= 4 ==> match spec_key_mode(value@.subrange(0, 4)) {
                Err(e) => r == Err::<Self, VKError>(e),
                Ok(_) => r matches Ok(c) && c.data@ == value@.subrange(0, 4) && c.index is None
                    && c.profile is None,
            },
    {
        if value.len() < Self::BYTE_SIZE {
            return Err(VKError::KeyConfigTooSmall);
        }
        let data = vstd::slice::slice_to_vec(vstd::slice::slice_subrange(value, 0, 4));
        let ret = VKAnalogKeyConfig { data, index: None, profile: None };
        ret.get_mode()?;
        Ok(ret)
    }

    /// The advanced mode the key is sent with, from its mode.
    pub fn adv_mode(&self) -> (r: Result<VKAnalogKeyConfigAdvMode, VKError>)
        requires
            self.data@.len() >= 3,
        ensures
            match spec_key_mode(self.data@) {
                Ok(m) => r == Ok::<VKAnalogKeyConfigAdvMode, VKError>(key_adv_mode(m)),
                Err(e) => r == Err::<VKAnalogKeyConfigAdvMode, VKError>(e),
            },
    {
        match self.get_mode()? {
            VKAnalogKeyConfigMode::Global
            | VKAnalogKeyConfigMode::Regular
            | VKAnalogKeyConfigMode::Rapid => Ok(VKAnalogKeyConfigAdvMode::Clear),
            VKAnalogKeyConfigMode::DKS => Ok(VKAnalogKeyConfigAdvMode::Okmc),
            VKAnalogKeyConfigMode::Gamepad => Ok(VKAnalogKeyConfigAdvMode::Gamepad),
            VKAnalogKeyConfigMode::Toggle => Ok(VKAnalogKeyConfigAdvMode::Toggle),
        }
    }

    /// The request that writes the mode, actuation and rapid trigger
    /// settings of this key to `profile`, on a matrix of `col_count`
    /// columns.
    pub fn travel_request(&self, profile: usize, col_count: usize) -> (r: VKCommand)
        requires
            self.data@.len() >= 3,
            travel_fits(self.index, col_count),
        ensures
            r.report@ == travel_request_bytes(self.data@, profile, self.index, col_count),
    {
        let mut payload: Vec<u8> = Vec::new();
        payload.push(#[verifier::truncate] (profile as u8));
        payload.push(self.data[0] & 0x03);
        payload.push(self.get_actuation_point());
        payload.push(self.get_rapid_trig_sen());
        payload.push(self.get_rapid_trig_sen_deact());
        match self.index {
            Some(index) => {
                payload.push(0);
                let ghost head = payload@;
                assert(head =~= seq![
                    profile as u8,
                    self.data@[0] & 0x03,
                    key_actuation_point(self.data@),
                    key_rapid_trig_sen(self.data@),
                    key_rapid_trig_sen_deact(self.data@),
                    0u8,
                ]);
                let row = index / col_count;
                let col = index % col_count;
                let mut k: usize = 0;
                while k < row * 4
                    invariant
                        row <= 5,
                        payload@.len() == 6 + k,
                        k <= row * 4,
                        payload@.subrange(0, 6) == head,
                        forall|j: int| 6 <= j < payload@.len() ==> payload@[j] == 0u8,
                    decreases row * 4 - k,
                {
                    payload.push(0);
                    k = k + 1;
                    assert(payload@.subrange(0, 6) =~= head);
                }
                let mask = crate::data::u32_to_le_bytes(1u32 << (col as u32));
                payload.push(mask[0]);
                payload.push(mask[1]);
                payload.push(mask[2]);
                payload.push(mask[3]);
                assert(payload@ =~= travel_payload(self.data@, profile, self.index, col_count));
            },
            None => {
                payload.push(1);
                assert(payload@ =~= travel_payload(self.data@, profile, self.index, col_count));
            },
        }
        VKAnalogCommandId::SetTraval.to_req(payload.as_slice())
    }

    /// The request that sets the advanced `mode` of this key in `profile`,
    /// on a matrix of `col_count` columns; in OKMC mode, `okmc` must be the
    /// configuration the key refers to.
    pub fn adv_mode_request(
        &self,
        mode: VKAnalogKeyConfigAdvMode,
        profile: usize,
        col_count: usize,
        okmc: Option<&VKOkmcConfig>,
    ) -> (r: Result<VKCommand, VKError>)
        requires
            adv_reads_key_bytes(self.index, mode, okmc) ==> self.data@.len() >= 3
                && key_bytes_readable(self.data@),
            self.index is Some ==> col_count as u8 != 0,
            self.index is Some && mode == VKAnalogKeyConfigAdvMode::Okmc ==> (okmc matches Some(o)
                ==> okmc_block_fits(self.data@, o)),
        ensures
            match spec_adv_mode_request(self.data@, self.index, mode, profile, col_count, okmc) {
                Ok(b) => r matches Ok(c) && c.report@ == b,
                Err(e) => r matches Err(f) && f == e,
            },
    {
        let key_index = match self.index {
            Some(i) => #[verifier::truncate] (i as u8),
            None => return Err(VKError::GlobalKeyAdvMode),
        };
        let cc = #[verifier::truncate] (col_count as u8);
        let mut payload: Vec<u8> = Vec::new();
        payload.push(#[verifier::truncate] (profile as u8));
        payload.push(mode.as_u8());
        payload.push(key_index / cc);
        payload.push(key_index % cc);
        let ghost head = payload@;
        match mode {
            VKAnalogKeyConfigAdvMode::Okmc => {
                let okmc = match okmc {
                    Some(o) => o,
                    None => return Err(VKError::OkmcRequired),
                };
                match self.get_adv_mode_info()? {
                    VKAnalogKeyConfigAdvData::Okmc { index } => {
                        if index != okmc.index {
                            return Err(
                                VKError::OkmcIndexMismatch { key_okmc_index: index, okmc_index: okmc.index },
                            );
                        }
                    },
                    _ => {
                        assert(false);
                    },
                }
                payload.push(#[verifier::truncate] (okmc.index as u8));
                payload.extend_from_slice(okmc.data.as_slice());
                assert(payload@ =~= head + (seq![okmc.index as u8] + okmc.data@));
            },
            VKAnalogKeyConfigAdvMode::Gamepad => {
                let info = self.get_adv_mode_info()?;
                payload.push(u8::from(info));
                assert(payload@ =~= head + seq![adv_data_byte(info)]);
            },
            _ => {
                assert(payload@ =~= head + Seq::<u8>::empty());
            },
        }
        Ok(VKAnalogCommandId::SetAdvancedMode.to_req(payload.as_slice()))
    }

    /// The requests that write this key configuration to its profile, on a
    /// matrix of `col_count` columns: the travel request first, then the
    /// advanced mode request of the key's mode, which is refused without a
    /// profile, and may fail once the travel request is built.  In DKS
    /// mode, `okmc` must be the OKMC configuration the key refers to.
    pub fn send_requests(&self, col_count: usize, okmc: Option<&VKOkmcConfig>) -> (r: Result<
        (VKCommand, Result<VKCommand, VKError>),
        VKError,
    >)
        requires
            self.profile is Some ==> self.data@.len() >= 3,
            self.profile is Some ==> travel_fits(self.index, col_count),
            self.profile is Some && self.index is Some ==> col_count as u8 != 0,
            self.profile is Some ==> (spec_key_mode(self.data@) matches Ok(m) && adv_reads_key_bytes(
                self.index,
                key_adv_mode(m),
                okmc,
            ) ==> key_bytes_readable(self.data@)),
            self.profile is Some && self.index is Some && spec_key_mode(self.data@) == Ok::<
                VKAnalogKeyConfigMode,
                VKError,
            >(VKAnalogKeyConfigMode::DKS) ==> (okmc matches Some(o) ==> okmc_block_fits(
                self.data@,
                o,
            )),
        ensures
            match spec_send_requests(self.data@, self.index, self.profile, col_count, okmc) {
                Err(e) => r matches Err(f) && f == e,
                Ok((t, a)) => r matches Ok((tc, ac)) && tc.report@ == t && match a {
                    Ok(b) => ac matches Ok(c) && c.report@ == b,
                    Err(e) => ac matches Err(f) && f == e,
                },
            },
    {
        let profile = match self.profile {
            Some(p) => p,
            None => return Err(VKError::MissingProfile),
        };
        let travel = self.travel_request(profile, col_count);
        let adv = match self.adv_mode() {
            Ok(mode) => {
                proof {
                    if mode == VKAnalogKeyConfigAdvMode::Okmc {
                        assert(spec_key_mode(self.data@) == Ok::<VKAnalogKeyConfigMode, VKError>(
                            VKAnalogKeyConfigMode::DKS,
                        ));
                    }
                }
                self.adv_mode_request(mode, profile, col_count, okmc)
            },
            Err(e) => Err(e),
        };
        Ok((travel, adv))
    }
}

} // verus!
