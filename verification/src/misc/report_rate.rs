use vstd::prelude::*;

use crate::command::{request_bytes, VKCommand, VKCommandMaker};
use crate::data::ViaReportData;
use crate::error::VKError;
use crate::misc::VKMiscCommandId;

verus! {

/// Report rate configuration, as read from the keyboard.
#[derive(Debug)]
pub struct VKReportRateConfig {
    data: Vec<u8>,
}

impl View for VKReportRateConfig {
    type V = Seq<u8>;

    /// The raw configuration bytes.
    closed spec fn view(&self) -> Seq<u8> {
        self.data@
    }
}

impl VKReportRateConfig {
    #[verifier::type_invariant]
    spec fn wf(self) -> bool {
        self.data@.len() == 29
    }

    /// Decodes the reply to [VKMiscCommandId::ReportRateGet].
    pub fn try_from(value: ViaReportData) -> (r: Result<Self, VKError>)
        ensures
            r matches Ok(c) ==> c@.len() == 29,
            match VKMiscCommandId::ReportRateGet.spec_check_reply(value@) {
                Ok(p) => r matches Ok(c) && c@ == p,
                Err(e) => r matches Err(f) && f == e,
            },
    {
        let payload = VKMiscCommandId::ReportRateGet.check_reply(&value)?;
        Ok(VKReportRateConfig { data: vstd::slice::slice_to_vec(payload) })
    }

    /// The request that writes this configuration to the keyboard.
    pub fn send_request(&self) -> (r: VKCommand)
        ensures
            self@.len() == 29,
            r.report@ == request_bytes(
                VKMiscCommandId::ReportRateSet.cmd_header(),
                self@,
                VKMiscCommandId::ReportRateSet.req_capacity(),
            ),
    {
        proof {
            use_type_invariant(self);
        }
        VKMiscCommandId::ReportRateSet.to_req(self.data.as_slice())
    }

    /// The report rate divider.
    pub fn get_div(&self) -> (r: u8)
        ensures
            self@.len() == 29,
            r == self@[0],
    {
        proof {
            use_type_invariant(self);
        }
        self.data[0]
    }

    /// Sets the report rate divider.
    pub fn set_div(&mut self, value: u8)
        ensures
            final(self)@.len() == 29,
            final(self)@ == old(self)@.update(0, value),
    {
        proof {
            use_type_invariant(&*self);
        }
        self.data[0] = value;
    }
}

} // verus!
