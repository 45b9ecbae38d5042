use vstd::prelude::*;
use vstd::utf8::{decode_utf8, valid_utf8};

use crate::data::ViaReportData;
use crate::error::VKError;
use crate::misc::VKMiscCommandId;
use crate::text::utf8_to_string;

verus! {

/// Kinds of entries in a DFU info reply.
#[derive(Debug, Clone, Copy, PartialEq, Eq, Structural)]
pub enum VKDfuInfoType {
    End,
    ChipName,
    ChipType,
}

impl VKDfuInfoType {
    pub open spec fn spec_as_u8(self) -> u8 {
        match self {
            VKDfuInfoType::End => 0,
            VKDfuInfoType::ChipName => 1,
            VKDfuInfoType::ChipType => 2,
        }
    }

    /// The byte of each value on the wire, as the keyboard firmware numbers
    /// them.
    pub proof fn lemma_byte_table()
        ensures
            VKDfuInfoType::End.spec_as_u8() == 0,
            VKDfuInfoType::ChipName.spec_as_u8() == 1,
            VKDfuInfoType::ChipType.spec_as_u8() == 2,
    {
    }

    /// The byte that identifies this entry kind on the wire.
    #[verifier::when_used_as_spec(spec_as_u8)]
    pub fn as_u8(self) -> (r: u8)
        ensures
            r == self.spec_as_u8(),
    {
        match self {
            VKDfuInfoType::End => 0,
            VKDfuInfoType::ChipName => 1,
            VKDfuInfoType::ChipType => 2,
        }
    }

    /// Decodes an entry kind byte.
    pub fn try_from(value: u8) -> (r: Result<VKDfuInfoType, VKError>)
        ensures
            value > 2 <==> r == Err::<VKDfuInfoType, VKError>(VKError::InvalidDfuInfoType(value)),
            r is Ok <==> value <= 2,
            r matches Ok(t) ==> t.as_u8() == value,
    {
        match value {
            0 => Ok(VKDfuInfoType::End),
            1 => Ok(VKDfuInfoType::ChipName),
            2 => Ok(VKDfuInfoType::ChipType),
            _ => Err(VKError::InvalidDfuInfoType(value)),
        }
    }
}

/// Chip families of the keyboard's DFU.
#[derive(Debug, Default, Clone, Copy, PartialEq, Eq, Structural)]
pub enum VKDfuChipType {
    #[default]
    Unknown,
    STM32,
    WB32,
}

impl VKDfuChipType {
    pub open spec fn spec_as_u8(self) -> u8 {
        match self {
            VKDfuChipType::Unknown => 0,
            VKDfuChipType::STM32 => 1,
            VKDfuChipType::WB32 => 2,
        }
    }

    /// The byte of each value on the wire, as the keyboard firmware numbers
    /// them.
    pub proof fn lemma_byte_table()
        ensures
            VKDfuChipType::Unknown.spec_as_u8() == 0,
            VKDfuChipType::STM32.spec_as_u8() == 1,
            VKDfuChipType::WB32.spec_as_u8() == 2,
    {
    }

    /// The byte that identifies this chip family on the wire.
    #[verifier::when_used_as_spec(spec_as_u8)]
    pub fn as_u8(self) -> (r: u8)
        ensures
            r == self.spec_as_u8(),
    {
        match self {
            VKDfuChipType::Unknown => 0,
            VKDfuChipType::STM32 => 1,
            VKDfuChipType::WB32 => 2,
        }
    }

    /// The chip family of byte `value`, which must be at most 2.
    pub open spec fn spec_from_u8(value: u8) -> VKDfuChipType {
        if value == 0 {
            VKDfuChipType::Unknown
        } else if value == 1 {
            VKDfuChipType::STM32
        } else {
            VKDfuChipType::WB32
        }
    }

    /// Decodes a chip family byte.
    pub fn try_from(value: u8) -> (r: Result<VKDfuChipType, VKError>)
        ensures
            value > 2 ==> r == Err::<VKDfuChipType, VKError>(VKError::InvalidDfuChipType(value)),
            value <= 2 ==> r == Ok::<VKDfuChipType, VKError>(Self::spec_from_u8(value)),
            r matches Ok(t) ==> t.as_u8() == value,
    {
        match value {
            0 => Ok(VKDfuChipType::Unknown),
            1 => Ok(VKDfuChipType::STM32),
            2 => Ok(VKDfuChipType::WB32),
            _ => Err(VKError::InvalidDfuChipType(value)),
        }
    }
}

/// What `parse_dfu_str` gives for `data`, a length byte followed by that
/// many UTF-8 bytes: the bytes of the string, an error, or `None` when the
/// length byte is 255, on which the length computation overflows.
pub open spec fn spec_parse_dfu_str(data: Seq<u8>) -> Option<Result<Seq<u8>, VKError>> {
    if data.len() == 0 {
        Some(Err(VKError::DfuStringEmpty))
    } else if data[0] == 255 {
        None
    } else if data.len() < data[0] + 1 {
        Some(Err(VKError::DfuStringTooLarge))
    } else if !valid_utf8(data.subrange(1, data[0] + 1)) {
        Some(Err(VKError::InvalidUtf8))
    } else {
        Some(Ok(data.subrange(1, data[0] + 1)))
    }
}

/// Decodes a length-prefixed DFU string.
fn parse_dfu_str(data: &[u8]) -> (r: Result<String, VKError>)
    requires
        spec_parse_dfu_str(data@) is Some,
    ensures
        match spec_parse_dfu_str(data@) {
            Some(Ok(bytes)) => r matches Ok(s) && s@ == decode_utf8(bytes),
            Some(Err(e)) => r == Err::<String, VKError>(e),
            None => false,
        },
{
    if data.len() == 0 {
        Err(VKError::DfuStringEmpty)
    } else {
        let len = data[0];
        if data.len() < (len + 1) as usize {
            Err(VKError::DfuStringTooLarge)
        } else {
            let bytes = vstd::slice::slice_subrange(data, 1, (len + 1) as usize);
            match utf8_to_string(bytes) {
                Some(s) => Ok(s),
                None => Err(VKError::InvalidUtf8),
            }
        }
    }
}

/// The entries of a DFU info payload `p`, scanned from `idx` on, with the
/// name bytes and chip found so far: the final name bytes and chip, an
/// error, or `None` when a name entry's length byte is 255.
///
/// An entry is a kind byte: a chip name entry is followed by a length byte
/// and the name; a chip type entry takes three bytes, its chip byte last, and
/// is read only when a byte follows it; an end entry, or a chip type entry
/// without a following byte, ends the scan.
pub open spec fn spec_dfu_scan(
    p: Seq<u8>,
    idx: int,
    name: Seq<u8>,
    chip: VKDfuChipType,
) -> Option<Result<(Seq<u8>, VKDfuChipType), VKError>>
    decreases p.len() - idx,
{
    if idx < 0 || idx >= p.len() {
        Some(Ok((name, chip)))
    } else if p[idx] > 2 {
        Some(Err(VKError::InvalidDfuInfoType(p[idx])))
    } else if p[idx] == 1 {
        match spec_parse_dfu_str(p.subrange(idx + 1, p.len() as int)) {
            None => None,
            Some(Err(e)) => Some(Err(e)),
            Some(Ok(bytes)) => spec_dfu_scan(p, idx + 2 + bytes.len(), bytes, chip),
        }
    } else if p[idx] == 2 && idx + 3 < p.len() {
        if p[idx + 2] > 2 {
            Some(Err(VKError::InvalidDfuChipType(p[idx + 2])))
        } else {
            spec_dfu_scan(p, idx + 3, name, VKDfuChipType::spec_from_u8(p[idx + 2]))
        }
    } else {
        Some(Ok((name, chip)))
    }
}

/// What [VKDfuInfo::try_from] gives for the reply `value`: the name bytes
/// and chip, an error, or `None` when the reply holds a name entry whose
/// length byte is 255.  The info is complete only with a non-empty name and
/// a known chip.
pub open spec fn spec_dfu_info(value: Seq<u8>) -> Option<Result<(Seq<u8>, VKDfuChipType), VKError>> {
    match VKMiscCommandId::DfuInfoGet.spec_check_reply(value) {
        Err(e) => Some(Err(e)),
        Ok(p) => match spec_dfu_scan(p, 0, Seq::empty(), VKDfuChipType::Unknown) {
            None => None,
            Some(Err(e)) => Some(Err(e)),
            Some(Ok((name, chip))) => if name.len() == 0 || chip == VKDfuChipType::Unknown {
                Some(Err(VKError::InvalidDfuInfo))
            } else {
                Some(Ok((name, chip)))
            },
        },
    }
}

/// DFU information of the keyboard.
#[derive(Debug, Default)]
pub struct VKDfuInfo {
    pub name: String,
    pub chip: VKDfuChipType,
}

impl VKDfuInfo {
    /// Whether [VKDfuInfo::try_from] can decode `value` without overflowing
    /// a name length.
    pub fn is_decodable(value: &ViaReportData) -> (r: bool)
        ensures
            r == (spec_dfu_info(value@) is Some),
    {
        match VKMiscCommandId::DfuInfoGet.check_reply(value) {
            Err(_) => true,
            Ok(p) => {
                let mut idx: usize = 0;
                let ghost mut name: Seq<u8> = Seq::empty();
                let ghost mut chip = VKDfuChipType::Unknown;
                while idx < p.len()
                    invariant
                        VKMiscCommandId::DfuInfoGet.spec_check_reply(value@) == Ok::<
                            Seq<u8>,
                            VKError,
                        >(p@),
                        p@.len() == 29,
                        spec_dfu_scan(p@, 0, Seq::empty(), VKDfuChipType::Unknown)
                            == spec_dfu_scan(p@, idx as int, name, chip),
                    decreases p.len() - idx,
                {
                    let t = p[idx];
                    if t > 2 {
                        return true;
                    } else if t == 1 {
                        if idx + 1 >= p.len() {
                            return true;
                        }
                        let len = p[idx + 1];
                        if len == 255 {
                            return false;
                        }
                        if p.len() - (idx + 1) < len as usize + 1 {
                            return true;
                        }
                        let bytes = vstd::slice::slice_subrange(p, idx + 2, idx + 2 + len as usize);
                        proof {
                            assert(p@.subrange(idx + 1, p@.len() as int).subrange(1, len + 1)
                                =~= bytes@);
                        }
                        if utf8_to_string(bytes).is_none() {
                            return true;
                        }
                        proof {
                            name = bytes@;
                        }
                        idx = idx + 2 + len as usize;
                    } else if t == 2 && idx + 3 < p.len() {
                        if p[idx + 2] > 2 {
                            return true;
                        }
                        proof {
                            chip = VKDfuChipType::spec_from_u8(p@[idx + 2]);
                        }
                        idx = idx + 3;
                    } else {
                        return true;
                    }
                }
                true
            },
        }
    }

    /// Decodes the reply to [VKMiscCommandId::DfuInfoGet].
    pub fn try_from(value: ViaReportData) -> (r: Result<Self, VKError>)
        requires
            spec_dfu_info(value@) is Some,
        ensures
            match spec_dfu_info(value@) {
                Some(Ok((name, chip))) => r matches Ok(info) && info.name@ == decode_utf8(name)
                    && info.chip == chip,
                Some(Err(e)) => r matches Err(f) && f == e,
                None => false,
            },
    {
        let payload = VKMiscCommandId::DfuInfoGet.check_reply(&value)?;
        let mut ret = VKDfuInfo { name: String::new(), chip: VKDfuChipType::Unknown };
        let mut name_len: usize = 0;
        let mut idx: usize = 0;
        let ghost mut name: Seq<u8> = Seq::empty();
        proof {
            assert(ret.name@ == decode_utf8(Seq::<u8>::empty()));
        }
        while idx < payload.len()
            invariant_except_break
                VKMiscCommandId::DfuInfoGet.spec_check_reply(value@) == Ok::<Seq<u8>, VKError>(
                    payload@,
                ),
                spec_dfu_info(value@) is Some,
                payload@.len() == 29,
                spec_dfu_scan(payload@, 0, Seq::empty(), VKDfuChipType::Unknown)
                    == spec_dfu_scan(payload@, idx as int, name, ret.chip),
                spec_dfu_scan(payload@, idx as int, name, ret.chip) is Some,
                ret.name@ == decode_utf8(name),
                name_len == name.len(),
            ensures
                VKMiscCommandId::DfuInfoGet.spec_check_reply(value@) == Ok::<Seq<u8>, VKError>(
                    payload@,
                ),
                payload@.len() == 29,
                spec_dfu_scan(payload@, 0, Seq::empty(), VKDfuChipType::Unknown) == Some(
                    Ok::<(Seq<u8>, VKDfuChipType), VKError>((name, ret.chip)),
                ),
                ret.name@ == decode_utf8(name),
                name_len == name.len(),
            decreases payload.len() - idx,
        {
            let t = VKDfuInfoType::try_from(payload[idx])?;
            match t {
                VKDfuInfoType::ChipName => {
                    let rest = vstd::slice::slice_subrange(payload, idx + 1, payload.len());
                    proof {
                        assert(rest@ =~= payload@.subrange(idx + 1, payload@.len() as int));
                    }
                    ret.name = parse_dfu_str(rest)?;
                    let len = rest[0] as usize;
                    proof {
                        name = rest@.subrange(1, len + 1);
                    }
                    name_len = len;
                    idx = idx + 2 + len;
                },
                VKDfuInfoType::ChipType => {
                    if idx + 3 < payload.len() {
                        ret.chip = VKDfuChipType::try_from(payload[idx + 2])?;
                        idx = idx + 3;
                    } else {
                        break ;
                    }
                },
                VKDfuInfoType::End => break ,
            }
        }
        if name_len == 0 || ret.chip == VKDfuChipType::Unknown {
            Err(VKError::InvalidDfuInfo)
        } else {
            Ok(ret)
        }
    }
}

} // verus!
