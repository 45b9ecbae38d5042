use vstd::prelude::*;

use crate::command::{request_bytes, VKCommand, VKCommandMaker};
use crate::data::ViaReportData;
use crate::error::VKError;
use crate::misc::VKMiscCommandId;

verus! {

/// Debounce algorithms.
#[derive(Debug, Clone, Copy, PartialEq, Eq, Structural)]
pub enum VKDebounceType {
    SymDeferGlobal,
    SymDeferPerRow,
    SymDeferPerKey,
    SymEagerPerRow,
    SymEagerPerKey,
    AsymEagerDeferPerKey,
    /// No debouncing
    Off,
    Max,
}

impl VKDebounceType {
    pub open spec fn spec_as_u8(self) -> u8 {
        match self {
            VKDebounceType::SymDeferGlobal => 0,
            VKDebounceType::SymDeferPerRow => 1,
            VKDebounceType::SymDeferPerKey => 2,
            VKDebounceType::SymEagerPerRow => 3,
            VKDebounceType::SymEagerPerKey => 4,
            VKDebounceType::AsymEagerDeferPerKey => 5,
            VKDebounceType::Off => 6,
            VKDebounceType::Max => 7,
        }
    }

    /// The byte of each value on the wire, as the keyboard firmware numbers
    /// them.
    pub proof fn lemma_byte_table()
        ensures
            VKDebounceType::SymDeferGlobal.spec_as_u8() == 0,
            VKDebounceType::SymDeferPerRow.spec_as_u8() == 1,
            VKDebounceType::SymDeferPerKey.spec_as_u8() == 2,
            VKDebounceType::SymEagerPerRow.spec_as_u8() == 3,
            VKDebounceType::SymEagerPerKey.spec_as_u8() == 4,
            VKDebounceType::AsymEagerDeferPerKey.spec_as_u8() == 5,
            VKDebounceType::Off.spec_as_u8() == 6,
            VKDebounceType::Max.spec_as_u8() == 7,
    {
    }

    /// The byte that identifies this debounce type on the wire.
    #[verifier::when_used_as_spec(spec_as_u8)]
    pub fn as_u8(self) -> (r: u8)
        ensures
            r == self.spec_as_u8(),
    {
        match self {
            VKDebounceType::SymDeferGlobal => 0,
            VKDebounceType::SymDeferPerRow => 1,
            VKDebounceType::SymDeferPerKey => 2,
            VKDebounceType::SymEagerPerRow => 3,
            VKDebounceType::SymEagerPerKey => 4,
            VKDebounceType::AsymEagerDeferPerKey => 5,
            VKDebounceType::Off => 6,
            VKDebounceType::Max => 7,
        }
    }

    /// What [VKDebounceType::try_from] gives for `value`.
    pub open spec fn spec_try_from(value: u8) -> Result<VKDebounceType, VKError> {
        if value <= 7 {
            Ok(
                if value == 0 {
                    VKDebounceType::SymDeferGlobal
                } else if value == 1 {
                    VKDebounceType::SymDeferPerRow
                } else if value == 2 {
                    VKDebounceType::SymDeferPerKey
                } else if value == 3 {
                    VKDebounceType::SymEagerPerRow
                } else if value == 4 {
                    VKDebounceType::SymEagerPerKey
                } else if value == 5 {
                    VKDebounceType::AsymEagerDeferPerKey
                } else if value == 6 {
                    VKDebounceType::Off
                } else {
                    VKDebounceType::Max
                },
            )
        } else {
            Err(VKError::InvalidDebounceType(value))
        }
    }

    /// Distinct debounce types have distinct bytes, so the byte that
    /// [VKDebounceConfig::set_type] writes reads back as the same type.
    pub proof fn lemma_byte_unique(a: VKDebounceType, b: VKDebounceType)
        requires
            a.spec_as_u8() == b.spec_as_u8(),
        ensures
            a == b,
    {
    }

    /// Decodes a debounce type byte.
    pub fn try_from(value: u8) -> (r: Result<VKDebounceType, VKError>)
        ensures
            r == Self::spec_try_from(value),
            r matches Ok(t) ==> t.spec_as_u8() == value,
    {
        match value {
            0 => Ok(VKDebounceType::SymDeferGlobal),
            1 => Ok(VKDebounceType::SymDeferPerRow),
            2 => Ok(VKDebounceType::SymDeferPerKey),
            3 => Ok(VKDebounceType::SymEagerPerRow),
            4 => Ok(VKDebounceType::SymEagerPerKey),
            5 => Ok(VKDebounceType::AsymEagerDeferPerKey),
            6 => Ok(VKDebounceType::Off),
            7 => Ok(VKDebounceType::Max),
            _ => Err(VKError::InvalidDebounceType(value)),
        }
    }
}

/// Debounce configuration, as read from the keyboard.
#[derive(Debug)]
pub struct VKDebounceConfig {
    data: Vec<u8>,
}

impl View for VKDebounceConfig {
    type V = Seq<u8>;

    /// The raw configuration bytes.
    closed spec fn view(&self) -> Seq<u8> {
        self.data@
    }
}

impl VKDebounceConfig {
    #[verifier::type_invariant]
    spec fn wf(self) -> bool {
        &&& self.data@.len() == 29
        &&& self.data@[0] <= 7
    }

    /// What [VKDebounceConfig::try_from] gives for the reply `value`: on
    /// success, the raw configuration bytes.
    pub open spec fn spec_try_from(value: Seq<u8>) -> Result<Seq<u8>, VKError> {
        match VKMiscCommandId::DebounceGet.spec_check_reply(value) {
            Err(e) => Err(e),
            Ok(p) => if p[0] <= 7 {
                Ok(p)
            } else {
                Err(VKError::InvalidDebounceType(p[0]))
            },
        }
    }

    /// Decodes the reply to [VKMiscCommandId::DebounceGet].
    pub fn try_from(value: ViaReportData) -> (r: Result<Self, VKError>)
        ensures
            r matches Ok(c) ==> c@.len() == 29,
            match Self::spec_try_from(value@) {
                Ok(p) => r matches Ok(c) && c@ == p,
                Err(e) => r matches Err(f) && f == e,
            },
    {
        let payload = VKMiscCommandId::DebounceGet.check_reply(&value)?;
        VKDebounceType::try_from(payload[0])?;
        let data = vstd::slice::slice_to_vec(payload);
        Ok(VKDebounceConfig { data })
    }

    /// The request that writes this configuration to the keyboard.
    pub fn send_request(&self) -> (r: VKCommand)
        ensures
            self@.len() == 29,
            r.report@ == request_bytes(
                VKMiscCommandId::DebounceSet.cmd_header(),
                self@,
                VKMiscCommandId::DebounceSet.req_capacity(),
            ),
    {
        proof {
            use_type_invariant(self);
        }
        VKMiscCommandId::DebounceSet.to_req(self.data.as_slice())
    }

    /// The debounce algorithm.
    pub fn get_type(&self) -> (r: VKDebounceType)
        ensures
            self@.len() == 29,
            r.as_u8() == self@[0],
    {
        proof {
            use_type_invariant(self);
        }
        match VKDebounceType::try_from(self.data[0]) {
            Ok(t) => t,
            Err(_) => VKDebounceType::Max,
        }
    }

    /// Sets the debounce algorithm.
    pub fn set_type(&mut self, value: VKDebounceType)
        ensures
            final(self)@.len() == 29,
            final(self)@ == old(self)@.update(0, value.as_u8()),
    {
        proof {
            use_type_invariant(&*self);
        }
        let mut data = self.data.clone();
        data[0] = value.as_u8();
        self.data = data;
    }

    /// The debounce time.
    pub fn get_time(&self) -> (r: u8)
        ensures
            self@.len() == 29,
            r == self@[1],
    {
        proof {
            use_type_invariant(self);
        }
        self.data[1]
    }

    /// Sets the debounce time.
    pub fn set_time(&mut self, value: u8)
        ensures
            final(self)@.len() == 29,
            final(self)@ == old(self)@.update(1, value),
    {
        proof {
            use_type_invariant(&*self);
        }
        self.data[1] = value;
    }
}

} // verus!
