use vstd::prelude::*;

use crate::data::{le_u16, u16_from_le_bytes};
use crate::version::VKProtocolType;

verus! {

/// Features supported by the Keychron keyboard.
#[derive(Debug, Clone, Copy, PartialEq, Eq, Structural)]
pub struct VKFeatures {
    bits: u16,
}

impl VKFeatures {
    /// default layer is supported
    pub const DEFAULT_LAYER: u16 = 0b1;
    /// bluetooth is supported
    pub const BLUETOOTH: u16 = 0b10;
    /// P24G is supported
    pub const P24G: u16 = 0b100;
    /// analog matrix is supported
    pub const ANALOG_MATRIX: u16 = 0b1000;
    /// state notify is supported
    pub const STATE_NOTIFY: u16 = 0b1_0000;
    /// dynamic debounce is supported
    pub const DYNAMIC_DEBOUNCE: u16 = 0b10_0000;
    /// snap click is supported
    pub const SNAP_CLICK: u16 = 0b100_0000;
    /// keychron RGB is supported
    pub const KEYCHRON_RGB: u16 = 0b1000_0000;
    /// quick start is supported
    pub const QUICK_START: u16 = 0b1_0000_0000;
    /// NKRO is supported
    pub const NKRO: u16 = 0b10_0000_0000;

    /// The raw flag bits.
    pub closed spec fn spec_bits(&self) -> u16 {
        self.bits
    }

    /// Flags with exactly the given bits set, unknown bits included.
    pub fn from_bits_retain(bits: u16) -> (r: Self)
        ensures
            r.spec_bits() == bits,
    {
        VKFeatures { bits }
    }

    /// The raw flag bits.
    #[verifier::when_used_as_spec(spec_bits)]
    pub fn bits(&self) -> (r: u16)
        ensures
            r == self.spec_bits(),
    {
        self.bits
    }

    /// Whether every bit of `flags` is set.
    pub fn contains(&self, flags: u16) -> (r: bool)
        ensures
            r == (self.spec_bits() & flags == flags),
    {
        self.bits & flags == flags
    }

    /// The feature bits of a [crate::VKCommandId::GetSupportFeature] reply
    /// payload: they start at byte 0 on ZMK firmware, at byte 1 on QMK.
    pub open spec fn spec_from_payload(payload: Seq<u8>, protocol: VKProtocolType) -> u16 {
        match protocol {
            VKProtocolType::Zmk => le_u16(payload[0], payload[1]),
            VKProtocolType::Qmk => le_u16(payload[1], payload[2]),
        }
    }

    /// Decodes the payload of a [crate::VKCommandId::GetSupportFeature]
    /// reply for a keyboard speaking `protocol`.
    pub fn from_payload(payload: &[u8], protocol: VKProtocolType) -> (r: Self)
        requires
            payload@.len() >= 3,
        ensures
            r.spec_bits() == Self::spec_from_payload(payload@, protocol),
    {
        let bits = match protocol {
            VKProtocolType::Zmk => u16_from_le_bytes(payload[0], payload[1]),
            VKProtocolType::Qmk => u16_from_le_bytes(payload[1], payload[2]),
        };
        VKFeatures { bits }
    }
}

} // verus!
