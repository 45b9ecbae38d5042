use vstd::prelude::*;

use crate::command::{request_bytes, VKCommand, VKCommandMaker};
use crate::data::ViaReportData;
use crate::error::VKError;
use crate::misc::VKMiscCommandId;

verus! {

/// Whether NKRO is enabled in the configuration bytes `data`.
pub open spec fn nkro_enabled(data: Seq<u8>) -> bool {
    data[0] & 1 != 0
}

/// Whether NKRO is available in the configuration bytes `data`.
pub open spec fn nkro_available(data: Seq<u8>) -> bool {
    data[0] & 2 != 0
}

/// Whether NKRO is adaptive in the configuration bytes `data`.
pub open spec fn nkro_adaptive(data: Seq<u8>) -> bool {
    data[0] & 4 != 0
}

/// The configuration bytes `data` with NKRO enabled or disabled.
pub open spec fn nkro_with_enabled(data: Seq<u8>, value: bool) -> Seq<u8> {
    data.update(0, if value { data[0] | 1 } else { data[0] & 0xFE })
}

/// Enabling or disabling NKRO is read back by `is_enabled`, and leaves
/// `is_available` and `is_adaptive` as they were.
pub proof fn lemma_nkro_set_enabled(data: Seq<u8>, value: bool)
    requires
        data.len() >= 1,
    ensures
        nkro_enabled(nkro_with_enabled(data, value)) == value,
        nkro_available(nkro_with_enabled(data, value)) == nkro_available(data),
        nkro_adaptive(nkro_with_enabled(data, value)) == nkro_adaptive(data),
{
    let b = data[0];
    assert((b | 1) & 1 != 0) by (bit_vector);
    assert((b & 0xFE) & 1 == 0) by (bit_vector);
    assert(((b | 1) & 2 != 0) == (b & 2 != 0)) by (bit_vector);
    assert(((b & 0xFE) & 2 != 0) == (b & 2 != 0)) by (bit_vector);
    assert(((b | 1) & 4 != 0) == (b & 4 != 0)) by (bit_vector);
    assert(((b & 0xFE) & 4 != 0) == (b & 4 != 0)) by (bit_vector);
}

/// NKRO configuration, as read from the keyboard.
#[derive(Debug)]
pub struct VKNkroConfig {
    data: Vec<u8>,
}

impl View for VKNkroConfig {
    type V = Seq<u8>;

    /// The raw configuration bytes.
    closed spec fn view(&self) -> Seq<u8> {
        self.data@
    }
}

impl VKNkroConfig {
    #[verifier::type_invariant]
    spec fn wf(self) -> bool {
        self.data@.len() == 29
    }

    /// Decodes the reply to [VKMiscCommandId::NkroGet].
    pub fn try_from(value: ViaReportData) -> (r: Result<Self, VKError>)
        ensures
            r matches Ok(c) ==> c@.len() == 29,
            match VKMiscCommandId::NkroGet.spec_check_reply(value@) {
                Ok(p) => r matches Ok(c) && c@ == p,
                Err(e) => r matches Err(f) && f == e,
            },
    {
        let payload = VKMiscCommandId::NkroGet.check_reply(&value)?;
        Ok(VKNkroConfig { data: vstd::slice::slice_to_vec(payload) })
    }

    /// The request that writes the enabled state to the keyboard.
    pub fn send_request(&self) -> (r: VKCommand)
        ensures
            self@.len() == 29,
            r.report@ == request_bytes(
                VKMiscCommandId::NkroSet.cmd_header(),
                seq![if nkro_enabled(self@) { 1u8 } else { 0u8 }],
                VKMiscCommandId::NkroSet.req_capacity(),
            ),
    {
        let v: u8 = if self.is_enabled() {
            1
        } else {
            0
        };
        let data = [v];
        assert(data@ =~= seq![v]);
        VKMiscCommandId::NkroSet.to_req(data.as_slice())
    }

    /// Whether NKRO is enabled.
    pub fn is_enabled(&self) -> (r: bool)
        ensures
            self@.len() == 29,
            r == nkro_enabled(self@),
    {
        proof {
            use_type_invariant(self);
        }
        (self.data[0] & 0b1) != 0
    }

    /// Enables or disables NKRO.
    pub fn set_enabled(&mut self, value: bool)
        ensures
            final(self)@.len() == 29,
            final(self)@ == nkro_with_enabled(old(self)@, value),
    {
        proof {
            use_type_invariant(&*self);
        }
        if value {
            self.data[0] = self.data[0] | 0b1;
        } else {
            self.data[0] = self.data[0] & !0b1u8;
        }
        assert(!0b1u8 == 0xFEu8) by (bit_vector);
    }

    /// Whether NKRO is available.
    pub fn is_available(&self) -> (r: bool)
        ensures
            self@.len() == 29,
            r == nkro_available(self@),
    {
        proof {
            use_type_invariant(self);
        }
        (self.data[0] & 0b10) != 0
    }

    /// Whether NKRO is adaptive.
    pub fn is_adaptive(&self) -> (r: bool)
        ensures
            self@.len() == 29,
            r == nkro_adaptive(self@),
    {
        proof {
            use_type_invariant(self);
        }
        (self.data[0] & 0b100) != 0
    }
}

} // verus!
