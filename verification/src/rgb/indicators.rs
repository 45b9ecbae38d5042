use vstd::prelude::*;

use crate::command::{request_bytes, VKCommand, VKCommandMaker};
use crate::data::ViaReportData;
use crate::error::VKError;
use crate::rgb::{hsv_bytes, hsv_of, write_hsv, VKHsv, VKRgbCommandId};

verus! {

/// Lock indicators of the keyboard.
#[derive(Debug, Clone, Copy, PartialEq, Eq, Structural)]
pub struct VKRgbIndicators {
    bits: u8,
}

impl VKRgbIndicators {
    pub const NUM_LOCK: u8 = 0b1;
    pub const CAPS_LOCK: u8 = 0b10;
    pub const SCROLL_LOCK: u8 = 0b100;
    pub const COMPOSE_LOCK: u8 = 0b1000;
    pub const KANA_LOCK: u8 = 0b1_0000;

    /// The raw flag bits.
    pub closed spec fn spec_bits(&self) -> u8 {
        self.bits
    }

    /// Flags with exactly the given bits set, unknown bits included.
    pub fn from_bits_retain(bits: u8) -> (r: Self)
        ensures
            r.spec_bits() == bits,
    {
        VKRgbIndicators { bits }
    }

    /// The raw flag bits.
    #[verifier::when_used_as_spec(spec_bits)]
    pub fn bits(&self) -> (r: u8)
        ensures
            r == self.spec_bits(),
    {
        self.bits
    }

    /// Whether every bit of `flags` is set.
    pub fn contains(&self, flags: u8) -> (r: bool)
        ensures
            r == (self.spec_bits() & flags == flags),
    {
        self.bits & flags == flags
    }
}

/// The indicator configuration bytes `data` with the color set.
pub open spec fn indicators_with_color(data: Seq<u8>, c: VKHsv) -> Seq<u8> {
    data.subrange(0, 2) + hsv_bytes(c) + data.subrange(5, data.len() as int)
}

/// The indicator configuration bytes `data` enabled or disabled.
pub open spec fn indicators_with_enabled(data: Seq<u8>, value: bool) -> Seq<u8> {
    data.update(1, if value { 1u8 } else { 0u8 })
}

/// The color, the enabled state and the indicator set are three separate
/// settings: each setter is read back by its getter and leaves the others.
pub proof fn lemma_indicators_setters(data: Seq<u8>, c: VKHsv, value: bool)
    requires
        data.len() == 29,
    ensures
        hsv_of(indicators_with_color(data, c).subrange(2, 29)) == c,
        indicators_with_color(data, c)[1] == data[1],
        indicators_with_color(data, c)[0] == data[0],
        (indicators_with_enabled(data, value)[1] != 0) == value,
        hsv_of(indicators_with_enabled(data, value).subrange(2, 29)) == hsv_of(
            data.subrange(2, 29),
        ),
        indicators_with_enabled(data, value)[0] == data[0],
{
}

/// Indicator lighting configuration, as read from the keyboard.
#[derive(Debug)]
pub struct VKRgbIndicatorsConfig {
    data: Vec<u8>,
}

impl View for VKRgbIndicatorsConfig {
    type V = Seq<u8>;

    /// The raw configuration bytes.
    closed spec fn view(&self) -> Seq<u8> {
        self.data@
    }
}

impl VKRgbIndicatorsConfig {
    #[verifier::type_invariant]
    spec fn wf(self) -> bool {
        self.data@.len() == 29
    }

    /// Decodes the reply to [VKRgbCommandId::GetIndicatorsConfig].
    pub fn try_from(value: ViaReportData) -> (r: Result<Self, VKError>)
        ensures
            r matches Ok(c) ==> c@.len() == 29,
            match VKRgbCommandId::GetIndicatorsConfig.spec_check_reply(value@) {
                Ok(p) => r matches Ok(c) && c@ == p,
                Err(e) => r matches Err(f) && f == e,
            },
    {
        let payload = VKRgbCommandId::GetIndicatorsConfig.check_reply(&value)?;
        Ok(VKRgbIndicatorsConfig { data: vstd::slice::slice_to_vec(payload) })
    }

    /// The request that writes this configuration to the keyboard: every
    /// byte but the indicator set, which the keyboard owns.
    pub fn send_request(&self) -> (r: VKCommand)
        ensures
            self@.len() == 29,
            r.report@ == request_bytes(
                VKRgbCommandId::SetIndicatorsConfig.cmd_header(),
                self@.subrange(1, self@.len() as int),
                VKRgbCommandId::SetIndicatorsConfig.req_capacity(),
            ),
    {
        proof {
            use_type_invariant(self);
        }
        let rest = vstd::slice::slice_subrange(self.data.as_slice(), 1, self.data.len());
        VKRgbCommandId::SetIndicatorsConfig.to_req(rest)
    }

    /// The indicators whose lighting this configuration drives.
    pub fn get_indicators(&self) -> (r: VKRgbIndicators)
        ensures
            self@.len() == 29,
            r.spec_bits() == self@[0],
    {
        proof {
            use_type_invariant(self);
        }
        VKRgbIndicators::from_bits_retain(self.data[0])
    }

    /// Whether indicator lighting is enabled.
    pub fn is_enabled(&self) -> (r: bool)
        ensures
            self@.len() == 29,
            r == (self@[1] != 0),
    {
        proof {
            use_type_invariant(self);
        }
        self.data[1] != 0
    }

    /// Enables or disables indicator lighting.
    pub fn enable(&mut self, value: bool)
        ensures
            final(self)@.len() == 29,
            final(self)@ == indicators_with_enabled(old(self)@, value),
    {
        proof {
            use_type_invariant(&*self);
        }
        self.data[1] = if value {
            1
        } else {
            0
        };
    }

    /// The indicator color.
    pub fn get_color(&self) -> (r: VKHsv)
        ensures
            self@.len() == 29,
            r == hsv_of(self@.subrange(2, 29)),
    {
        proof {
            use_type_invariant(self);
        }
        VKHsv { hue: self.data[2], saturation: self.data[3], value: self.data[4] }
    }

    /// Sets the indicator color.
    pub fn set_color(&mut self, value: &VKHsv)
        ensures
            final(self)@.len() == 29,
            final(self)@ == indicators_with_color(old(self)@, *value),
    {
        proof {
            use_type_invariant(&*self);
        }
        let mut data = self.data.clone();
        write_hsv(&mut data, 2, value);
        assert(data@ =~= indicators_with_color(old(self)@, *value));
        self.data = data;
    }
}

} // verus!
