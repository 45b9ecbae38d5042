use vstd::prelude::*;

use crate::data::{ViaReportData, VIA_REPORT_SIZE, VIA_REQUEST_SIZE};
use crate::error::VKError;

verus! {

/// A sequence of `n` zero bytes.
pub open spec fn zeros(n: int) -> Seq<u8> {
    Seq::new(n as nat, |i: int| 0u8)
}

/// The bytes of the request built from `header` and `data`: the header, then
/// at most `capacity` bytes of `data`, then zeros up to the request size.
pub open spec fn request_bytes(header: Seq<u8>, data: Seq<u8>, capacity: nat) -> Seq<u8> {
    let n = if data.len() < capacity { data.len() } else { capacity };
    header + data.take(n as int) + zeros(VIA_REQUEST_SIZE - header.len() - n)
}

/// `r` is the exec form of the checked reply `spec`.
pub open spec fn reply_matches(r: Result<&[u8], VKError>, spec: Result<Seq<u8>, VKError>) -> bool {
    match spec {
        Ok(p) => r matches Ok(q) && q@ == p,
        Err(e) => r == Err::<&[u8], VKError>(e),
    }
}

/// What a command group (misc, RGB, analog) check gives for the reply
/// `value` to sub-command `sub` of group `group`: the payload after a header
/// of `header` bytes, or the error.  The status byte is checked only when
/// `check_status` holds.
pub open spec fn spec_check_group_reply(
    value: Seq<u8>,
    group: u8,
    sub: u8,
    header: int,
    check_status: bool,
) -> Result<Seq<u8>, VKError> {
    if value[0] != group {
        Err(VKError::CorruptedCmd { expected: group, got: value[0] })
    } else if value[1] != sub {
        Err(VKError::CorruptedSubCmd { expected: sub, got: value[1] })
    } else if check_status && value[2] != 0 {
        Err(VKError::CommandFailed { sub_command: sub, ret: value[2] })
    } else {
        Ok(value.subrange(header, VIA_REPORT_SIZE as int))
    }
}

/// Checks the reply `value` to sub-command `sub` of group `group`.
pub fn check_group_reply<'a>(
    value: &'a ViaReportData,
    group: u8,
    sub: u8,
    header: usize,
    check_status: bool,
) -> (r: Result<&'a [u8], VKError>)
    requires
        3 <= header <= VIA_REPORT_SIZE || (header == 2 && !check_status),
    ensures
        reply_matches(r, spec_check_group_reply(value@, group, sub, header as int, check_status)),
{
    if value[0] != group {
        Err(VKError::CorruptedCmd { expected: group, got: value[0] })
    } else if value[1] != sub {
        Err(VKError::CorruptedSubCmd { expected: sub, got: value[1] })
    } else if check_status && value[2] != 0 {
        Err(VKError::CommandFailed { sub_command: sub, ret: value[2] })
    } else {
        Ok(vstd::slice::slice_subrange(value.as_slice(), header, VIA_REPORT_SIZE))
    }
}

/// Keychron command ids, the first byte of every Keychron report.
#[derive(Debug, Clone, Copy, PartialEq, Eq, Structural)]
pub enum VKCommandId {
    /// Get protocol version
    GetProtocolVersion,
    /// Get firmware version
    GetFirmwareVersion,
    /// Get support feature
    GetSupportFeature,
    /// Get default layer
    GetDefaultLayer,
    /// Misc command group
    MiscCmdGroup,
    /// Keychron RGB
    KeychronRgb,
    /// Analog matrix
    AnalogMatrix,
    /// Wireless DFU
    WirelessDfu,
    /// Factory test
    FactoryTest,
}

impl VKCommandId {
    pub open spec fn spec_as_u8(self) -> u8 {
        match self {
            VKCommandId::GetProtocolVersion => 0xA0,
            VKCommandId::GetFirmwareVersion => 0xA1,
            VKCommandId::GetSupportFeature => 0xA2,
            VKCommandId::GetDefaultLayer => 0xA3,
            VKCommandId::MiscCmdGroup => 0xA7,
            VKCommandId::KeychronRgb => 0xA8,
            VKCommandId::AnalogMatrix => 0xA9,
            VKCommandId::WirelessDfu => 0xAA,
            VKCommandId::FactoryTest => 0xAB,
        }
    }

    /// The byte of each value on the wire, as the keyboard firmware numbers
    /// them.
    pub proof fn lemma_byte_table()
        ensures
            VKCommandId::GetProtocolVersion.spec_as_u8() == 0xA0,
            VKCommandId::GetFirmwareVersion.spec_as_u8() == 0xA1,
            VKCommandId::GetSupportFeature.spec_as_u8() == 0xA2,
            VKCommandId::GetDefaultLayer.spec_as_u8() == 0xA3,
            VKCommandId::MiscCmdGroup.spec_as_u8() == 0xA7,
            VKCommandId::KeychronRgb.spec_as_u8() == 0xA8,
            VKCommandId::AnalogMatrix.spec_as_u8() == 0xA9,
            VKCommandId::WirelessDfu.spec_as_u8() == 0xAA,
            VKCommandId::FactoryTest.spec_as_u8() == 0xAB,
    {
    }

    /// The byte that identifies this command on the wire.
    #[verifier::when_used_as_spec(spec_as_u8)]
    pub fn as_u8(self) -> (r: u8)
        ensures
            r == self.spec_as_u8(),
    {
        match self {
            VKCommandId::GetProtocolVersion => 0xA0,
            VKCommandId::GetFirmwareVersion => 0xA1,
            VKCommandId::GetSupportFeature => 0xA2,
            VKCommandId::GetDefaultLayer => 0xA3,
            VKCommandId::MiscCmdGroup => 0xA7,
            VKCommandId::KeychronRgb => 0xA8,
            VKCommandId::AnalogMatrix => 0xA9,
            VKCommandId::WirelessDfu => 0xAA,
            VKCommandId::FactoryTest => 0xAB,
        }
    }

    /// What [VKCommandId::check_reply] gives for the reply `value`: the
    /// payload after the command byte, or the error.
    pub open spec fn spec_check_reply(self, value: Seq<u8>) -> Result<Seq<u8>, VKError> {
        if value[0] != self.spec_as_u8() {
            Err(VKError::CorruptedCmd { expected: self.spec_as_u8(), got: value[0] })
        } else {
            Ok(value.subrange(1, VIA_REPORT_SIZE as int))
        }
    }

    /// Checks that `value` answers this command; returns the payload that
    /// follows the command byte.
    pub fn check_reply<'a>(&self, value: &'a ViaReportData) -> (r: Result<&'a [u8], VKError>)
        ensures
            reply_matches(r, self.spec_check_reply(value@)),
    {
        if value[0] != self.as_u8() {
            Err(VKError::CorruptedCmd { expected: self.as_u8(), got: value[0] })
        } else {
            Ok(vstd::slice::slice_subrange(value.as_slice(), 1, VIA_REPORT_SIZE))
        }
    }
}

/// A request report ready to be sent to the keyboard: a report id, the
/// command bytes and the payload.
#[derive(Debug, Clone, Copy)]
pub struct VKCommand {
    pub report: [u8; 33],
    pub payload_offset: usize,
}

impl VKCommand {
    /// The payload part of the report.
    pub fn payload(&self) -> (r: &[u8])
        requires
            self.payload_offset <= VIA_REQUEST_SIZE,
        ensures
            r@ == self.report@.subrange(self.payload_offset as int, VIA_REQUEST_SIZE as int),
    {
        vstd::slice::slice_subrange(self.report.as_slice(), self.payload_offset, VIA_REQUEST_SIZE)
    }

    /// Sets the byte at `index` in the payload.
    pub fn set_payload(&mut self, index: usize, value: u8)
        requires
            old(self).payload_offset + index < VIA_REQUEST_SIZE,
        ensures
            final(self).payload_offset == old(self).payload_offset,
            final(self).report@ == old(self).report@.update(
                old(self).payload_offset + index,
                value,
            ),
    {
        let pos = self.payload_offset + index;
        self.report[pos] = value;
    }

    /// Sets every payload byte from `from` on to `value`.
    pub fn fill_payload(&mut self, from: usize, value: u8)
        requires
            old(self).payload_offset + from <= VIA_REQUEST_SIZE,
        ensures
            final(self).payload_offset == old(self).payload_offset,
            final(self).report@ == old(self).report@.subrange(0, old(self).payload_offset + from)
                + Seq::new(
                (VIA_REQUEST_SIZE - old(self).payload_offset - from) as nat,
                |i: int| value,
            ),
    {
        let start = self.payload_offset + from;
        let mut i = start;
        while i < VIA_REQUEST_SIZE
            invariant
                start <= i <= VIA_REQUEST_SIZE,
                self.payload_offset == old(self).payload_offset,
                start == old(self).payload_offset + from,
                self.report@.len() == VIA_REQUEST_SIZE,
                forall|k: int| 0 <= k < start ==> self.report@[k] == old(self).report@[k],
                forall|k: int| start <= k < i ==> self.report@[k] == value,
            decreases VIA_REQUEST_SIZE - i,
        {
            self.report[i] = value;
            i = i + 1;
        }
        assert(self.report@ =~= old(self).report@.subrange(0, start as int) + Seq::new(
            (VIA_REQUEST_SIZE - start) as nat,
            |i: int| value,
        ));
    }
}

/// Copies `data` into `report` from `offset` on, at most `capacity` bytes.
pub fn write_request_data(report: &mut [u8; 33], offset: usize, data: &[u8], capacity: usize)
    requires
        offset + capacity <= VIA_REQUEST_SIZE,
        forall|k: int| offset <= k < VIA_REQUEST_SIZE ==> old(report)@[k] == 0u8,
    ensures
        final(report)@ == request_bytes(
            old(report)@.subrange(0, offset as int),
            data@,
            capacity as nat,
        ),
{
    let n = if data.len() < capacity {
        data.len()
    } else {
        capacity
    };
    let mut i: usize = 0;
    while i < n
        invariant
            n <= capacity,
            n <= data@.len(),
            offset + capacity <= VIA_REQUEST_SIZE,
            i <= n,
            report@.len() == VIA_REQUEST_SIZE,
            forall|k: int| 0 <= k < offset ==> report@[k] == old(report)@[k],
            forall|k: int| offset <= k < offset + i ==> report@[k] == data@[k - offset],
            forall|k: int| offset + i <= k < VIA_REQUEST_SIZE ==> report@[k] == 0u8,
        decreases n - i,
    {
        report[offset + i] = data[i];
        i = i + 1;
    }
    assert(report@ =~= request_bytes(
        old(report)@.subrange(0, offset as int),
        data@,
        capacity as nat,
    ));
}

/// A request report of zeros.
pub fn blank_report() -> (r: [u8; 33])
    ensures
        r@ == zeros(VIA_REQUEST_SIZE as int),
{
    let r = [0u8; 33];
    assert forall|i: int| 0 <= i < 33 implies r@[i] == 0u8 by {
        assert(r == vstd::array::spec_array_fill_for_copy_type::<u8, 33>(0u8));
    }
    assert(r@ =~= zeros(VIA_REQUEST_SIZE as int));
    r
}

/// Something that can be turned into a request report.
pub trait VKCommandMaker: Sized {
    /// The leading bytes of every report built from this command.
    spec fn cmd_header(self) -> Seq<u8>;

    /// The number of data bytes that [VKCommandMaker::to_req] copies at most.
    spec fn req_capacity(self) -> nat;

    /// A report holding only the command bytes.
    fn to_cmd(self) -> (r: VKCommand)
        ensures
            r.report@ == self.cmd_header() + zeros(VIA_REQUEST_SIZE - self.cmd_header().len()),
            r.payload_offset == self.cmd_header().len(),
    ;

    /// A report holding the command bytes followed by `data`, truncated to
    /// what the report can carry.
    fn to_req(self, data: &[u8]) -> (r: VKCommand)
        ensures
            r.report@ == request_bytes(self.cmd_header(), data@, self.req_capacity()),
            r.payload_offset == self.cmd_header().len(),
    ;
}

impl VKCommandMaker for VKCommandId {
    open spec fn cmd_header(self) -> Seq<u8> {
        seq![0u8, self.spec_as_u8()]
    }

    open spec fn req_capacity(self) -> nat {
        (VIA_REPORT_SIZE - 2) as nat
    }

    fn to_cmd(self) -> (r: VKCommand) {
        let mut report = blank_report();
        report[1] = self.as_u8();
        let r = VKCommand { report, payload_offset: 2 };
        assert(r.report@ =~= self.cmd_header() + zeros(VIA_REQUEST_SIZE - 2));
        r
    }

    fn to_req(self, data: &[u8]) -> (r: VKCommand) {
        let mut ret = self.to_cmd();
        write_request_data(&mut ret.report, 2, data, VIA_REPORT_SIZE - 2);
        assert(ret.report@.subrange(0, 2) =~= self.cmd_header());
        ret
    }
}

} // verus!
