use vstd::prelude::*;

use crate::command::{request_bytes, VKCommand, VKCommandMaker};
use crate::data::{high_byte, le_u16, low_byte, u16_from_le_bytes, u16_to_le_bytes, ViaReportData};
use crate::error::VKError;
use crate::misc::VKMiscCommandId;

verus! {

/// The backlight disable time held by the configuration bytes `data`.
pub open spec fn lpm_backlit_disable_time(data: Seq<u8>) -> u16 {
    le_u16(data[0], data[1])
}

/// The connected idle time held by the configuration bytes `data`.
pub open spec fn lpm_connected_idle_time(data: Seq<u8>) -> u16 {
    le_u16(data[2], data[3])
}

/// The configuration bytes `data` with the backlight disable time set.
pub open spec fn lpm_with_backlit_disable_time(data: Seq<u8>, value: u16) -> Seq<u8> {
    data.update(0, low_byte(value)).update(1, high_byte(value))
}

/// The configuration bytes `data` with the connected idle time set.
pub open spec fn lpm_with_connected_idle_time(data: Seq<u8>, value: u16) -> Seq<u8> {
    data.update(2, low_byte(value)).update(3, high_byte(value))
}

/// Setting the connected idle time is read back by its getter and leaves
/// the backlight disable time unchanged.
pub proof fn lemma_lpm_set_connected_idle_time(data: Seq<u8>, value: u16)
    requires
        data.len() >= 4,
    ensures
        lpm_connected_idle_time(lpm_with_connected_idle_time(data, value)) == value,
        lpm_backlit_disable_time(lpm_with_connected_idle_time(data, value))
            == lpm_backlit_disable_time(data),
{
}

/// Setting the backlight disable time is read back by its getter and leaves
/// the connected idle time unchanged.
pub proof fn lemma_lpm_set_backlit_disable_time(data: Seq<u8>, value: u16)
    requires
        data.len() >= 4,
    ensures
        lpm_backlit_disable_time(lpm_with_backlit_disable_time(data, value)) == value,
        lpm_connected_idle_time(lpm_with_backlit_disable_time(data, value))
            == lpm_connected_idle_time(data),
{
}

/// Wireless low power mode configuration, as read from the keyboard.
#[derive(Debug)]
pub struct VKWirelessLpmConfig {
    data: Vec<u8>,
}

impl View for VKWirelessLpmConfig {
    type V = Seq<u8>;

    /// The raw configuration bytes.
    closed spec fn view(&self) -> Seq<u8> {
        self.data@
    }
}

impl VKWirelessLpmConfig {
    #[verifier::type_invariant]
    spec fn wf(self) -> bool {
        self.data@.len() == 29
    }

    /// Decodes the reply to [VKMiscCommandId::WirelessLpmGet].
    pub fn try_from(value: ViaReportData) -> (r: Result<Self, VKError>)
        ensures
            r matches Ok(c) ==> c@.len() == 29,
            match VKMiscCommandId::WirelessLpmGet.spec_check_reply(value@) {
                Ok(p) => r matches Ok(c) && c@ == p,
                Err(e) => r matches Err(f) && f == e,
            },
    {
        let payload = VKMiscCommandId::WirelessLpmGet.check_reply(&value)?;
        Ok(VKWirelessLpmConfig { data: vstd::slice::slice_to_vec(payload) })
    }

    /// The request that writes this configuration to the keyboard.
    pub fn send_request(&self) -> (r: VKCommand)
        ensures
            self@.len() == 29,
            r.report@ == request_bytes(
                VKMiscCommandId::WirelessLpmSet.cmd_header(),
                self@,
                VKMiscCommandId::WirelessLpmSet.req_capacity(),
            ),
    {
        proof {
            use_type_invariant(self);
        }
        VKMiscCommandId::WirelessLpmSet.to_req(self.data.as_slice())
    }

    /// The backlight disable time.
    pub fn get_backlit_disable_time(&self) -> (r: u16)
        ensures
            self@.len() == 29,
            r == lpm_backlit_disable_time(self@),
    {
        proof {
            use_type_invariant(self);
        }
        u16_from_le_bytes(self.data[0], self.data[1])
    }

    /// Sets the backlight disable time.
    pub fn set_backlit_disable_time(&mut self, value: u16)
        ensures
            final(self)@.len() == 29,
            final(self)@ == lpm_with_backlit_disable_time(old(self)@, value),
    {
        proof {
            use_type_invariant(&*self);
        }
        let (lo, hi) = u16_to_le_bytes(value);
        self.data[0] = lo;
        self.data[1] = hi;
    }

    /// The connected idle time.
    pub fn get_connected_idle_time(&self) -> (r: u16)
        ensures
            self@.len() == 29,
            r == lpm_connected_idle_time(self@),
    {
        proof {
            use_type_invariant(self);
        }
        u16_from_le_bytes(self.data[2], self.data[3])
    }

    /// Sets the connected idle time, in the two bytes that
    /// [VKWirelessLpmConfig::get_connected_idle_time] reads.
    pub fn set_connected_idle_time(&mut self, value: u16)
        ensures
            final(self)@.len() == 29,
            final(self)@ == lpm_with_connected_idle_time(old(self)@, value),
    {
        proof {
            use_type_invariant(&*self);
        }
        let (lo, hi) = u16_to_le_bytes(value);
        self.data[2] = lo;
        self.data[3] = hi;
    }
}

} // verus!
