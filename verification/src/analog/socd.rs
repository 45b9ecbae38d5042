use vstd::prelude::*;

use crate::error::VKError;

verus! {

/// How simultaneous opposing cardinal directions (SOCD) are resolved.
#[derive(Debug, Clone, Copy, PartialEq, Eq, Structural)]
pub enum VKSocdType {
    /// No resolution
    Off,
    DeeperTravel,
    /// The deepest pressed key has priority
    DeeperTravelSingle,
    /// The last key pressed has priority
    LastKeystroke,
    /// The first key has priority
    Key1,
    /// The second key has priority
    Key2,
    /// No priority: no key is pressed when both are hit simultaneously
    Neutral,
}

impl VKSocdType {
    pub open spec fn spec_as_u8(self) -> u8 {
        match self {
            VKSocdType::Off => 0,
            VKSocdType::DeeperTravel => 1,
            VKSocdType::DeeperTravelSingle => 2,
            VKSocdType::LastKeystroke => 3,
            VKSocdType::Key1 => 4,
            VKSocdType::Key2 => 5,
            VKSocdType::Neutral => 6,
        }
    }

    /// The byte of each value on the wire, as the keyboard firmware numbers
    /// them.
    pub proof fn lemma_byte_table()
        ensures
            VKSocdType::Off.spec_as_u8() == 0,
            VKSocdType::DeeperTravel.spec_as_u8() == 1,
            VKSocdType::DeeperTravelSingle.spec_as_u8() == 2,
            VKSocdType::LastKeystroke.spec_as_u8() == 3,
            VKSocdType::Key1.spec_as_u8() == 4,
            VKSocdType::Key2.spec_as_u8() == 5,
            VKSocdType::Neutral.spec_as_u8() == 6,
    {
    }

    /// The byte that identifies this type on the wire.
    #[verifier::when_used_as_spec(spec_as_u8)]
    pub fn as_u8(self) -> (r: u8)
        ensures
            r == self.spec_as_u8(),
    {
        match self {
            VKSocdType::Off => 0,
            VKSocdType::DeeperTravel => 1,
            VKSocdType::DeeperTravelSingle => 2,
            VKSocdType::LastKeystroke => 3,
            VKSocdType::Key1 => 4,
            VKSocdType::Key2 => 5,
            VKSocdType::Neutral => 6,
        }
    }

    /// What [VKSocdType::try_from] gives for `value`.
    pub open spec fn spec_try_from(value: u8) -> Result<VKSocdType, VKError> {
        if value == 0 {
            Ok(VKSocdType::Off)
        } else if value == 1 {
            Ok(VKSocdType::DeeperTravel)
        } else if value == 2 {
            Ok(VKSocdType::DeeperTravelSingle)
        } else if value == 3 {
            Ok(VKSocdType::LastKeystroke)
        } else if value == 4 {
            Ok(VKSocdType::Key1)
        } else if value == 5 {
            Ok(VKSocdType::Key2)
        } else if value == 6 {
            Ok(VKSocdType::Neutral)
        } else {
            Err(VKError::InvalidSocdType(value))
        }
    }

    /// Decodes an SOCD type byte.
    pub fn try_from(value: u8) -> (r: Result<VKSocdType, VKError>)
        ensures
            r == Self::spec_try_from(value),
            r matches Ok(t) ==> t.spec_as_u8() == value,
    {
        match value {
            0 => Ok(VKSocdType::Off),
            1 => Ok(VKSocdType::DeeperTravel),
            2 => Ok(VKSocdType::DeeperTravelSingle),
            3 => Ok(VKSocdType::LastKeystroke),
            4 => Ok(VKSocdType::Key1),
            5 => Ok(VKSocdType::Key2),
            6 => Ok(VKSocdType::Neutral),
            _ => Err(VKError::InvalidSocdType(value)),
        }
    }
}

/// The two keys of an SOCD pair.
#[derive(Debug, Clone, Copy, PartialEq, Eq, Structural)]
pub enum VKSocdKey {
    Key1,
    Key2,
}

/// The byte of `key` in the SOCD bytes.
pub open spec fn socd_key_pos(key: VKSocdKey) -> int {
    match key {
        VKSocdKey::Key1 => 0,
        VKSocdKey::Key2 => 1,
    }
}

/// The key index encoded by the SOCD key byte `b` on a matrix of
/// `col_count` columns: the row is in the three low bits, the column above
/// them, and the key index is row times column count plus column.
pub open spec fn socd_key_index(b: u8, col_count: u8) -> u8 {
    ((b & 0x07) * col_count + (b >> 3u8)) as u8
}

/// Whether the key index encoded by the SOCD key byte `b` on a matrix of
/// `col_count` columns fits in a byte.
pub open spec fn socd_key_fits(b: u8, col_count: u8) -> bool {
    (b & 0x07) * col_count + (b >> 3u8) < 256
}

/// An SOCD configuration: two key bytes and a type byte, on a matrix of a
/// given column count.
#[derive(Debug, Clone)]
pub struct VKSocdConfig {
    pub data: Vec<u8>,
    col_count: u8,
}

impl View for VKSocdConfig {
    type V = Seq<u8>;

    /// The configuration bytes.
    closed spec fn view(&self) -> Seq<u8> {
        self.data@
    }
}

impl VKSocdConfig {
    pub const BYTE_SIZE: usize = 3;

    /// The column count of the matrix.
    pub closed spec fn spec_col_count(&self) -> u8 {
        self.col_count
    }

    /// The resolution type.
    pub fn get_type(&self) -> (r: Result<VKSocdType, VKError>)
        requires
            self@.len() >= 3,
        ensures
            r == VKSocdType::spec_try_from(self@[2]),
    {
        VKSocdType::try_from(self.data[2])
    }

    /// Whether the configuration resolves nothing: its type is invalid or off.
    pub fn is_empty(&self) -> (r: bool)
        requires
            self@.len() >= 3,
        ensures
            r == !(VKSocdType::spec_try_from(self@[2]) matches Ok(t) && t != VKSocdType::Off),
    {
        match self.get_type() {
            Ok(t) => t == VKSocdType::Off,
            Err(_) => true,
        }
    }

    /// The index of `key`.
    pub fn get_key(&self, key: VKSocdKey) -> (r: u8)
        requires
            self@.len() >= 2,
            socd_key_fits(self@[socd_key_pos(key)], self.spec_col_count()),
        ensures
            r == socd_key_index(self@[socd_key_pos(key)], self.spec_col_count()),
    {
        let b = match key {
            VKSocdKey::Key1 => self.data[0],
            VKSocdKey::Key2 => self.data[1],
        };
        (b & 0x07) * self.col_count + (b >> 3u8)
    }

    /// The indices of both keys.
    pub fn iter_key(&self) -> (r: Vec<u8>)
        requires
            self@.len() >= 2,
            socd_key_fits(self@[0], self.spec_col_count()),
            socd_key_fits(self@[1], self.spec_col_count()),
        ensures
            r@ == seq![
                socd_key_index(self@[0], self.spec_col_count()),
                socd_key_index(self@[1], self.spec_col_count()),
            ],
    {
        let mut r: Vec<u8> = Vec::new();
        r.push(self.get_key(VKSocdKey::Key1));
        r.push(self.get_key(VKSocdKey::Key2));
        assert(r@ =~= seq![
            socd_key_index(self@[0], self.spec_col_count()),
            socd_key_index(self@[1], self.spec_col_count()),
        ]);
        r
    }

    /// Builds an SOCD configuration from the first three bytes of `value`,
    /// on a matrix of `col_count` columns; its type must be valid.
    pub fn try_from(value: &[u8], col_count: u8) -> (r: Result<Self, VKError>)
        ensures
            value@.len() < 3 ==> r == Err::<Self, VKError>(VKError::SocdTooSmall),
            value@.len() >= 3 ==> match VKSocdType::spec_try_from(value@[2]) {
                Err(e) => r == Err::<Self, VKError>(e),
                Ok(_) => r matches Ok(c) && c@ == value@.subrange(0, 3) && c.spec_col_count()
                    == col_count,
            },
    {
        if value.len() < Self::BYTE_SIZE {
            Err(VKError::SocdTooSmall)
        } else {
            let data = vstd::slice::slice_to_vec(vstd::slice::slice_subrange(value, 0, 3));
            let ret = VKSocdConfig { data, col_count };
            ret.get_type()?;
            Ok(ret)
        }
    }
}

} // verus!
