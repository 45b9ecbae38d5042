use vstd::prelude::*;

use crate::data::{le_u16, u16_from_le_bytes};
use crate::error::VKError;

verus! {

/// A keycode.
pub type VKKeyCode = u16;

/// Activation points of a one-key-multiple-commands (OKMC) key.
#[derive(Debug, Clone, Copy, PartialEq, Eq, Structural)]
pub enum VKOkmcActivation {
    ShallowActivation,
    ShallowDeactivation,
    DeepActivation,
    DeepDeactivation,
}

impl VKOkmcActivation {
    pub open spec fn spec_as_u8(self) -> u8 {
        match self {
            VKOkmcActivation::ShallowActivation => 0,
            VKOkmcActivation::ShallowDeactivation => 1,
            VKOkmcActivation::DeepActivation => 2,
            VKOkmcActivation::DeepDeactivation => 3,
        }
    }

    /// The byte of each value on the wire, as the keyboard firmware numbers
    /// them.
    pub proof fn lemma_byte_table()
        ensures
            VKOkmcActivation::ShallowActivation.spec_as_u8() == 0,
            VKOkmcActivation::ShallowDeactivation.spec_as_u8() == 1,
            VKOkmcActivation::DeepActivation.spec_as_u8() == 2,
            VKOkmcActivation::DeepDeactivation.spec_as_u8() == 3,
    {
    }

    /// The number of this activation point.
    #[verifier::when_used_as_spec(spec_as_u8)]
    pub fn as_u8(self) -> (r: u8)
        ensures
            r == self.spec_as_u8(),
    {
        match self {
            VKOkmcActivation::ShallowActivation => 0,
            VKOkmcActivation::ShallowDeactivation => 1,
            VKOkmcActivation::DeepActivation => 2,
            VKOkmcActivation::DeepDeactivation => 3,
        }
    }

    /// What [VKOkmcActivation::try_from] gives for `value`.
    pub open spec fn spec_try_from(value: u8) -> Result<VKOkmcActivation, VKError> {
        if value == 0 {
            Ok(VKOkmcActivation::ShallowActivation)
        } else if value == 1 {
            Ok(VKOkmcActivation::ShallowDeactivation)
        } else if value == 2 {
            Ok(VKOkmcActivation::DeepActivation)
        } else if value == 3 {
            Ok(VKOkmcActivation::DeepDeactivation)
        } else {
            Err(VKError::InvalidOkmcActivation(value))
        }
    }

    /// Decodes an activation point number.
    pub fn try_from(value: u8) -> (r: Result<VKOkmcActivation, VKError>)
        ensures
            r == Self::spec_try_from(value),
            r matches Ok(a) ==> a.spec_as_u8() == value,
    {
        match value {
            0 => Ok(VKOkmcActivation::ShallowActivation),
            1 => Ok(VKOkmcActivation::ShallowDeactivation),
            2 => Ok(VKOkmcActivation::DeepActivation),
            3 => Ok(VKOkmcActivation::DeepDeactivation),
            _ => Err(VKError::InvalidOkmcActivation(value)),
        }
    }

    /// Every activation point, in the order of their numbers.
    pub fn iter() -> (r: Vec<VKOkmcActivation>)
        ensures
            r@ == seq![
                VKOkmcActivation::ShallowActivation,
                VKOkmcActivation::ShallowDeactivation,
                VKOkmcActivation::DeepActivation,
                VKOkmcActivation::DeepDeactivation,
            ],
            forall|i: int| 0 <= i < r@.len() ==> (#[trigger] r@[i]).spec_as_u8() == i,
    {
        let mut r: Vec<VKOkmcActivation> = Vec::new();
        let mut i: u8 = 0;
        while i < 4
            invariant
                i <= 4,
                r@.len() == i,
                forall|k: int| 0 <= k < i ==> (#[trigger] r@[k]).spec_as_u8() == k,
            decreases 4 - i,
        {
            match Self::try_from(i) {
                Ok(a) => r.push(a),
                Err(_) => {
                    assert(false);
                },
            }
            i = i + 1;
        }
        assert(r@ =~= seq![
            VKOkmcActivation::ShallowActivation,
            VKOkmcActivation::ShallowDeactivation,
            VKOkmcActivation::DeepActivation,
            VKOkmcActivation::DeepDeactivation,
        ]) by {
            assert(r@[0].spec_as_u8() == 0);
            assert(r@[1].spec_as_u8() == 1);
            assert(r@[2].spec_as_u8() == 2);
            assert(r@[3].spec_as_u8() == 3);
        }
        r
    }
}

/// Actions an OKMC key performs at an activation point.
#[derive(Debug, Clone, Copy, PartialEq, Eq, Structural)]
pub struct VKOkmcAction {
    bits: u8,
}

impl VKOkmcAction {
    #[allow(non_upper_case_globals)]
    pub const PreRealase: u8 = 0b1;
    #[allow(non_upper_case_globals)]
    pub const Press: u8 = 0b10;
    #[allow(non_upper_case_globals)]
    pub const Release: u8 = 0b100;
    #[allow(non_upper_case_globals)]
    pub const PostPress: u8 = 0b1000;

    /// The raw flag bits.
    pub closed spec fn spec_bits(&self) -> u8 {
        self.bits
    }

    /// Flags with exactly the given bits set, unknown bits included.
    pub fn from_bits_retain(bits: u8) -> (r: Self)
        ensures
            r.spec_bits() == bits,
    {
        VKOkmcAction { bits }
    }

    /// The raw flag bits.
    #[verifier::when_used_as_spec(spec_bits)]
    pub fn bits(&self) -> (r: u8)
        ensures
            r == self.spec_bits(),
    {
        self.bits
    }

    /// Whether every bit of `flags` is set.
    pub fn contains(&self, flags: u8) -> (r: bool)
        ensures
            r == (self.spec_bits() & flags == flags),
    {
        self.bits & flags == flags
    }
}

/// The number of leading travel bytes the depth of `action` is read from
/// and written to.
pub open spec fn travel_bytes_for(action: VKOkmcActivation) -> nat {
    match action {
        VKOkmcActivation::ShallowActivation => 1,
        VKOkmcActivation::ShallowDeactivation => 2,
        _ => 3,
    }
}

/// The depth of `action` in the travel bytes `d`, in 1/10 mm: four 6-bit
/// values packed in three bytes.
pub open spec fn travel_depth(d: Seq<u8>, action: VKOkmcActivation) -> u8 {
    match action {
        VKOkmcActivation::ShallowActivation => d[0] & 0x3F,
        VKOkmcActivation::ShallowDeactivation => (d[0] >> 6u8) | ((d[1] & 0x0F) << 2u8),
        VKOkmcActivation::DeepActivation => (d[1] >> 4u8) | ((d[2] & 0x03) << 4u8),
        VKOkmcActivation::DeepDeactivation => d[2] >> 2u8,
    }
}

/// The travel bytes `d` with the depth of `action` written as `v`.  The
/// deep activation writes the two low bits of `v` where the depth reads its
/// two high bits back.
pub open spec fn travel_with_depth(d: Seq<u8>, action: VKOkmcActivation, v: u8) -> Seq<u8> {
    match action {
        VKOkmcActivation::ShallowActivation => d.update(0, (d[0] & 0xC0) | (v & 0x3F)),
        VKOkmcActivation::ShallowDeactivation => d.update(0, (d[0] & 0x3F) | (v << 6u8)).update(
            1,
            (d[1] & 0xF0) | ((v >> 2u8) & 0x0F),
        ),
        VKOkmcActivation::DeepActivation => d.update(1, (d[1] & 0x0F) | (v << 4u8)).update(
            2,
            (d[2] & 0xFC) | (v & 0x03),
        ),
        VKOkmcActivation::DeepDeactivation => d.update(2, (d[2] & 0x03) | (v << 2u8)),
    }
}

/// The depth read back after writing `v` at `action`: the six low bits of
/// `v`, but for the deep activation, whose two high bits repeat the two low
/// bits of `v`.
pub open spec fn travel_depth_written(action: VKOkmcActivation, v: u8) -> u8 {
    match action {
        VKOkmcActivation::DeepActivation => (v & 0x0F) | ((v & 0x03) << 4u8),
        _ => v & 0x3F,
    }
}

/// Whether the travel bytes `d` hold only zero depths.
pub open spec fn travel_is_empty(d: Seq<u8>) -> bool {
    &&& travel_depth(d, VKOkmcActivation::ShallowActivation) == 0
    &&& travel_depth(d, VKOkmcActivation::ShallowDeactivation) == 0
    &&& travel_depth(d, VKOkmcActivation::DeepActivation) == 0
    &&& travel_depth(d, VKOkmcActivation::DeepDeactivation) == 0
}

/// A depth written at an activation point reads back as
/// [travel_depth_written]: the depth itself for every depth below 64 but
/// those of the deep activation whose bits 4-5 differ from bits 0-1.
pub proof fn lemma_travel_depth_roundtrip(d: Seq<u8>, action: VKOkmcActivation, v: u8)
    requires
        d.len() >= travel_bytes_for(action),
    ensures
        travel_with_depth(d, action, v).len() == d.len(),
        travel_depth(travel_with_depth(d, action, v), action) == travel_depth_written(action, v),
        (v < 64 && (action != VKOkmcActivation::DeepActivation || v >> 4u8 == v & 0x03))
            ==> travel_depth(travel_with_depth(d, action, v), action) == v,
{
    let e = travel_with_depth(d, action, v);
    match action {
        VKOkmcActivation::ShallowActivation => {
            let d0 = d[0];
            assert(e[0] == (d0 & 0xC0) | (v & 0x3F));
            assert(((d0 & 0xC0) | (v & 0x3F)) & 0x3F == v & 0x3F) by (bit_vector);
            assert(v < 64 ==> v & 0x3F == v) by (bit_vector);
        },
        VKOkmcActivation::ShallowDeactivation => {
            let d0 = d[0];
            let d1 = d[1];
            assert(e[0] == (d0 & 0x3F) | (v << 6u8));
            assert(e[1] == (d1 & 0xF0) | ((v >> 2u8) & 0x0F));
            assert((((d0 & 0x3F) | (v << 6u8)) >> 6u8) | ((((d1 & 0xF0) | ((v >> 2u8) & 0x0F))
                & 0x0F) << 2u8) == v & 0x3F) by (bit_vector);
            assert(v < 64 ==> v & 0x3F == v) by (bit_vector);
        },
        VKOkmcActivation::DeepActivation => {
            let d1 = d[1];
            let d2 = d[2];
            assert(e[1] == (d1 & 0x0F) | (v << 4u8));
            assert(e[2] == (d2 & 0xFC) | (v & 0x03));
            assert((((d1 & 0x0F) | (v << 4u8)) >> 4u8) | ((((d2 & 0xFC) | (v & 0x03)) & 0x03)
                << 4u8) == (v & 0x0F) | ((v & 0x03) << 4u8)) by (bit_vector);
            assert((v < 64 && v >> 4u8 == v & 0x03) ==> (v & 0x0F) | ((v & 0x03) << 4u8) == v)
                by (bit_vector);
        },
        VKOkmcActivation::DeepDeactivation => {
            let d2 = d[2];
            assert(e[2] == (d2 & 0x03) | (v << 2u8));
            assert(((d2 & 0x03) | (v << 2u8)) >> 2u8 == v & 0x3F) by (bit_vector);
            assert(v < 64 ==> v & 0x3F == v) by (bit_vector);
        },
    }
}

/// Writing the depth of one activation point leaves the depths of the other
/// three unchanged.
pub proof fn lemma_travel_depth_frame(
    d: Seq<u8>,
    action: VKOkmcActivation,
    other: VKOkmcActivation,
    v: u8,
)
    requires
        d.len() >= 3,
        action != other,
    ensures
        travel_depth(travel_with_depth(d, action, v), other) == travel_depth(d, other),
{
    let d0 = d[0];
    let d1 = d[1];
    let d2 = d[2];
    let e = travel_with_depth(d, action, v);
    match action {
        VKOkmcActivation::ShallowActivation => {
            assert(e[0] == (d0 & 0xC0) | (v & 0x3F));
            assert(e[1] == d1 && e[2] == d2);
            assert(((d0 & 0xC0) | (v & 0x3F)) >> 6u8 == d0 >> 6u8) by (bit_vector);
        },
        VKOkmcActivation::ShallowDeactivation => {
            assert(e[0] == (d0 & 0x3F) | (v << 6u8));
            assert(e[1] == (d1 & 0xF0) | ((v >> 2u8) & 0x0F));
            assert(e[2] == d2);
            assert(((d0 & 0x3F) | (v << 6u8)) & 0x3F == d0 & 0x3F) by (bit_vector);
            assert(((d1 & 0xF0) | ((v >> 2u8) & 0x0F)) >> 4u8 == d1 >> 4u8) by (bit_vector);
        },
        VKOkmcActivation::DeepActivation => {
            assert(e[0] == d0);
            assert(e[1] == (d1 & 0x0F) | (v << 4u8));
            assert(e[2] == (d2 & 0xFC) | (v & 0x03));
            assert(((d1 & 0x0F) | (v << 4u8)) & 0x0F == d1 & 0x0F) by (bit_vector);
            assert(((d2 & 0xFC) | (v & 0x03)) >> 2u8 == d2 >> 2u8) by (bit_vector);
        },
        VKOkmcActivation::DeepDeactivation => {
            assert(e[0] == d0 && e[1] == d1);
            assert(e[2] == (d2 & 0x03) | (v << 2u8));
            assert(((d2 & 0x03) | (v << 2u8)) & 0x03 == d2 & 0x03) by (bit_vector);
        },
    }
}

/// Travel distances of an OKMC key: the depth of each activation point.
#[derive(Debug, Clone)]
pub struct VKOkmcTravel {
    pub data: Vec<u8>,
}

impl VKOkmcTravel {
    pub const BYTE_SIZE: usize = 3;

    /// The depth of `action`, in 1/10 mm.
    pub fn get_depth(&self, action: VKOkmcActivation) -> (r: u8)
        requires
            self.data@.len() >= travel_bytes_for(action),
        ensures
            r == travel_depth(self.data@, action),
    {
        match action {
            VKOkmcActivation::ShallowActivation => self.data[0] & 0x3F,
            VKOkmcActivation::ShallowDeactivation => (self.data[0] >> 6u8) | ((self.data[1] & 0x0F)
                << 2u8),
            VKOkmcActivation::DeepActivation => (self.data[1] >> 4u8) | ((self.data[2] & 0x03)
                << 4u8),
            VKOkmcActivation::DeepDeactivation => self.data[2] >> 2u8,
        }
    }

    /// The depths of the four activation points, in their order.
    pub fn iter_depth(&self) -> (r: Vec<u8>)
        requires
            self.data@.len() >= 3,
        ensures
            r@ == seq![
                travel_depth(self.data@, VKOkmcActivation::ShallowActivation),
                travel_depth(self.data@, VKOkmcActivation::ShallowDeactivation),
                travel_depth(self.data@, VKOkmcActivation::DeepActivation),
                travel_depth(self.data@, VKOkmcActivation::DeepDeactivation),
            ],
    {
        let actions = VKOkmcActivation::iter();
        let mut r: Vec<u8> = Vec::new();
        let mut i: usize = 0;
        while i < actions.len()
            invariant
                self.data@.len() >= 3,
                actions@ == seq![
                    VKOkmcActivation::ShallowActivation,
                    VKOkmcActivation::ShallowDeactivation,
                    VKOkmcActivation::DeepActivation,
                    VKOkmcActivation::DeepDeactivation,
                ],
                i <= 4,
                r@.len() == i,
                forall|k: int| 0 <= k < i ==> r@[k] == travel_depth(self.data@, actions@[k]),
            decreases actions.len() - i,
        {
            r.push(self.get_depth(actions[i]));
            i = i + 1;
        }
        assert(r@ =~= seq![
            travel_depth(self.data@, VKOkmcActivation::ShallowActivation),
            travel_depth(self.data@, VKOkmcActivation::ShallowDeactivation),
            travel_depth(self.data@, VKOkmcActivation::DeepActivation),
            travel_depth(self.data@, VKOkmcActivation::DeepDeactivation),
        ]);
        r
    }

    /// Writes the depth of `action`.
    pub fn set_depth(&mut self, action: VKOkmcActivation, value: u8)
        requires
            old(self).data@.len() >= travel_bytes_for(action),
        ensures
            final(self).data@ == travel_with_depth(old(self).data@, action, value),
    {
        match action {
            VKOkmcActivation::ShallowActivation => {
                let b = (self.data[0] & 0xC0) | (value & 0x3F);
                self.data.set(0, b);
            },
            VKOkmcActivation::ShallowDeactivation => {
                let b0 = (self.data[0] & 0x3F) | (value << 6u8);
                self.data.set(0, b0);
                let b1 = (self.data[1] & 0xF0) | ((value >> 2u8) & 0x0F);
                self.data.set(1, b1);
            },
            VKOkmcActivation::DeepActivation => {
                let b1 = (self.data[1] & 0x0F) | (value << 4u8);
                self.data.set(1, b1);
                let b2 = (self.data[2] & 0xFC) | (value & 0x03);
                self.data.set(2, b2);
            },
            VKOkmcActivation::DeepDeactivation => {
                let b = (self.data[2] & 0x03) | (value << 2u8);
                self.data.set(2, b);
            },
        }
    }

    /// Whether every depth is zero.
    pub fn is_empty(&self) -> (r: bool)
        requires
            self.data@.len() >= 3,
        ensures
            r == travel_is_empty(self.data@),
    {
        let depths = self.iter_depth();
        let mut i: usize = 0;
        while i < depths.len()
            invariant
                i <= depths@.len(),
                depths@ == seq![
                    travel_depth(self.data@, VKOkmcActivation::ShallowActivation),
                    travel_depth(self.data@, VKOkmcActivation::ShallowDeactivation),
                    travel_depth(self.data@, VKOkmcActivation::DeepActivation),
                    travel_depth(self.data@, VKOkmcActivation::DeepDeactivation),
                ],
                forall|k: int| 0 <= k < i ==> depths@[k] == 0,
            decreases depths.len() - i,
        {
            if depths[i] != 0 {
                return false;
            }
            i = i + 1;
        }
        true
    }

    /// Decodes travel distances from the first three bytes of `value`.
    pub fn try_from(value: &[u8]) -> (r: Result<Self, VKError>)
        ensures
            value@.len() < 3 ==> r == Err::<Self, VKError>(VKError::OkmcTravelTooSmall),
            value@.len() >= 3 ==> (r matches Ok(t) && t.data@ == value@.subrange(0, 3)),
    {
        if value.len() < Self::BYTE_SIZE {
            return Err(VKError::OkmcTravelTooSmall);
        }
        let data = vstd::slice::slice_to_vec(vstd::slice::slice_subrange(value, 0, 3));
        Ok(VKOkmcTravel { data })
    }
}

/// The keycode of slot `index` in the OKMC bytes `d`.
pub open spec fn okmc_keycode(d: Seq<u8>, index: int) -> u16 {
    le_u16(d[3 + 2 * index], d[4 + 2 * index])
}

/// The position of the action bytes of key `key` in the OKMC bytes.
pub open spec fn okmc_action_pos(key: int) -> int {
    11 + 2 * key
}

/// The action bits of key `key` at `activation` in the OKMC bytes `d`: one
/// nibble per activation point.
pub open spec fn okmc_action_bits(d: Seq<u8>, key: int, activation: VKOkmcActivation) -> u8 {
    let pos = okmc_action_pos(key);
    match activation {
        VKOkmcActivation::ShallowActivation => d[pos] & 0x0F,
        VKOkmcActivation::ShallowDeactivation => d[pos] >> 4u8,
        VKOkmcActivation::DeepActivation => d[pos + 1] & 0x0F,
        VKOkmcActivation::DeepDeactivation => d[pos + 1] >> 4u8,
    }
}

/// Whether the OKMC bytes `d` hold the action byte of `activation` for key
/// `key`.
pub open spec fn okmc_action_readable(d: Seq<u8>, key: int, activation: VKOkmcActivation) -> bool {
    match activation {
        VKOkmcActivation::ShallowActivation | VKOkmcActivation::ShallowDeactivation => okmc_action_pos(
            key,
        ) < d.len(),
        _ => okmc_action_pos(key) + 1 < d.len(),
    }
}

/// Each keycode of an OKMC configuration has two action bytes of its own,
/// after the travel bytes and the keycodes: writing the shallow byte of
/// keycode `k` sets its two shallow nibbles and changes no other action,
/// keycode or travel byte; writing its deep byte does the same for its two
/// deep nibbles.
pub proof fn lemma_okmc_action_layout(d: Seq<u8>, k: int, j: int, b: u8)
    requires
        d.len() == VKOkmcConfig::BYTE_SIZE,
        0 <= k < 4,
        0 <= j < 4,
    ensures
        okmc_action_pos(0) == VKOkmcTravel::BYTE_SIZE + 2 * VKOkmcConfig::KEYCODE_COUNT,
        okmc_action_pos(3) + 2 == VKOkmcConfig::BYTE_SIZE,
        ({
            let e = d.update(okmc_action_pos(k), b);
            &&& okmc_action_bits(e, k, VKOkmcActivation::ShallowActivation) == b & 0x0F
            &&& okmc_action_bits(e, k, VKOkmcActivation::ShallowDeactivation) == b >> 4u8
            &&& okmc_action_bits(e, k, VKOkmcActivation::DeepActivation) == okmc_action_bits(
                d,
                k,
                VKOkmcActivation::DeepActivation,
            )
            &&& okmc_action_bits(e, k, VKOkmcActivation::DeepDeactivation) == okmc_action_bits(
                d,
                k,
                VKOkmcActivation::DeepDeactivation,
            )
            &&& j != k ==> forall|a: VKOkmcActivation|
                #[trigger] okmc_action_bits(e, j, a) == okmc_action_bits(d, j, a)
            &&& okmc_keycode(e, j) == okmc_keycode(d, j)
            &&& e.subrange(0, 3) == d.subrange(0, 3)
        }),
        ({
            let e = d.update(okmc_action_pos(k) + 1, b);
            &&& okmc_action_bits(e, k, VKOkmcActivation::DeepActivation) == b & 0x0F
            &&& okmc_action_bits(e, k, VKOkmcActivation::DeepDeactivation) == b >> 4u8
            &&& okmc_action_bits(e, k, VKOkmcActivation::ShallowActivation) == okmc_action_bits(
                d,
                k,
                VKOkmcActivation::ShallowActivation,
            )
            &&& okmc_action_bits(e, k, VKOkmcActivation::ShallowDeactivation) == okmc_action_bits(
                d,
                k,
                VKOkmcActivation::ShallowDeactivation,
            )
            &&& j != k ==> forall|a: VKOkmcActivation|
                #[trigger] okmc_action_bits(e, j, a) == okmc_action_bits(d, j, a)
            &&& okmc_keycode(e, j) == okmc_keycode(d, j)
            &&& e.subrange(0, 3) == d.subrange(0, 3)
        }),
{
    let e1 = d.update(okmc_action_pos(k), b);
    let e2 = d.update(okmc_action_pos(k) + 1, b);
    assert(e1.subrange(0, 3) =~= d.subrange(0, 3));
    assert(e2.subrange(0, 3) =~= d.subrange(0, 3));
}

/// A one-key-multiple-commands configuration: travel distances, four
/// keycodes and the actions of each keycode, with its index in the profile.
#[derive(Debug, Clone)]
pub struct VKOkmcConfig {
    pub data: Vec<u8>,
    pub index: usize,
}

impl VKOkmcConfig {
    pub const BYTE_SIZE: usize = 19;

    pub const KEYCODE_COUNT: usize = 4;

    /// The travel distances.
    pub fn get_travel_config(&self) -> (r: Result<VKOkmcTravel, VKError>)
        ensures
            self.data@.len() < 3 ==> (r matches Err(e) && e == VKError::OkmcTravelTooSmall),
            self.data@.len() >= 3 ==> (r matches Ok(t) && t.data@ == self.data@.subrange(0, 3)),
    {
        VKOkmcTravel::try_from(self.data.as_slice())
    }

    /// Whether the configuration sets nothing: its travel distances are
    /// missing or all zero.
    pub fn is_empty(&self) -> (r: bool)
        ensures
            r == (self.data@.len() < 3 || travel_is_empty(self.data@.subrange(0, 3))),
    {
        match self.get_travel_config() {
            Ok(c) => c.is_empty(),
            Err(_) => true,
        }
    }

    /// The keycode of slot `index`.
    pub fn get_keycode(&self, index: usize) -> (r: Result<u16, VKError>)
        requires
            index < 4 ==> 5 + 2 * index <= self.data@.len(),
        ensures
            index >= 4 ==> r == Err::<u16, VKError>(VKError::InvalidOkmcKeycodeIndex(index)),
            index < 4 ==> r == Ok::<u16, VKError>(okmc_keycode(self.data@, index as int)),
    {
        if index >= 4 {
            return Err(VKError::InvalidOkmcKeycodeIndex(index));
        }
        let pos = 3 + index * 2;
        Ok(u16_from_le_bytes(self.data[pos], self.data[pos + 1]))
    }

    /// The four keycodes, in slot order.
    pub fn iter_keycodes(&self) -> (r: Vec<u16>)
        requires
            self.data@.len() >= 11,
        ensures
            r@.len() == 4,
            forall|i: int| 0 <= i < 4 ==> #[trigger] r@[i] == okmc_keycode(self.data@, i),
    {
        let mut r: Vec<u16> = Vec::new();
        let mut i: usize = 0;
        while i < Self::KEYCODE_COUNT
            invariant
                self.data@.len() >= 11,
                i <= 4,
                r@.len() == i,
                forall|k: int| 0 <= k < i ==> #[trigger] r@[k] == okmc_keycode(self.data@, k),
            decreases 4 - i,
        {
            match self.get_keycode(i) {
                Ok(k) => r.push(k),
                Err(_) => {
                    assert(false);
                },
            }
            i = i + 1;
        }
        r
    }

    /// The actions of keycode `key` at `activation`.
    pub fn get_action(&self, key: usize, activation: VKOkmcActivation) -> (r: Result<
        VKOkmcAction,
        VKError,
    >)
        requires
            okmc_action_readable(self.data@, key as int, activation),
        ensures
            r matches Ok(a) && a.spec_bits() == okmc_action_bits(self.data@, key as int, activation),
    {
        let n = self.data.len();
        assert(11 + 2 * key < n);
        let pos = 11 + 2 * key;
        let bits = match activation {
            VKOkmcActivation::ShallowActivation => self.data[pos] & 0x0F,
            VKOkmcActivation::ShallowDeactivation => self.data[pos] >> 4u8,
            VKOkmcActivation::DeepActivation => self.data[pos + 1] & 0x0F,
            VKOkmcActivation::DeepDeactivation => self.data[pos + 1] >> 4u8,
        };
        Ok(VKOkmcAction::from_bits_retain(bits))
    }

    /// Builds an OKMC configuration from the first nineteen bytes of `value`.
    pub fn try_from(value: &[u8], index: usize) -> (r: Result<Self, VKError>)
        ensures
            value@.len() < 19 ==> r == Err::<Self, VKError>(VKError::OkmcTooSmall),
            value@.len() >= 19 ==> (r matches Ok(c) && c.data@ == value@.subrange(0, 19)
                && c.index == index),
    {
        if value.len() < Self::BYTE_SIZE {
            Err(VKError::OkmcTooSmall)
        } else {
            let data = vstd::slice::slice_to_vec(vstd::slice::slice_subrange(value, 0, 19));
            Ok(VKOkmcConfig { data, index })
        }
    }
}

} // verus!
