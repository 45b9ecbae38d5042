use vstd::prelude::*;

use crate::command::{request_bytes, VKCommand, VKCommandMaker};
use crate::data::ViaReportData;
use crate::error::VKError;
use crate::misc::VKMiscCommandId;

verus! {

/// Snap click (SOCD) resolution modes.
#[derive(Debug, Clone, Copy, PartialEq, Eq, Structural)]
pub enum VKSnapClickType {
    /// Snap click disabled
    Off,
    Regular,
    LastInput,
    FirstKey,
    SecondKey,
    Neutral,
}

impl VKSnapClickType {
    pub open spec fn spec_as_u8(self) -> u8 {
        match self {
            VKSnapClickType::Off => 0,
            VKSnapClickType::Regular => 1,
            VKSnapClickType::LastInput => 2,
            VKSnapClickType::FirstKey => 3,
            VKSnapClickType::SecondKey => 4,
            VKSnapClickType::Neutral => 5,
        }
    }

    /// The byte of each value on the wire, as the keyboard firmware numbers
    /// them.
    pub proof fn lemma_byte_table()
        ensures
            VKSnapClickType::Off.spec_as_u8() == 0,
            VKSnapClickType::Regular.spec_as_u8() == 1,
            VKSnapClickType::LastInput.spec_as_u8() == 2,
            VKSnapClickType::FirstKey.spec_as_u8() == 3,
            VKSnapClickType::SecondKey.spec_as_u8() == 4,
            VKSnapClickType::Neutral.spec_as_u8() == 5,
    {
    }

    /// The byte that identifies this mode on the wire.
    #[verifier::when_used_as_spec(spec_as_u8)]
    pub fn as_u8(self) -> (r: u8)
        ensures
            r == self.spec_as_u8(),
    {
        match self {
            VKSnapClickType::Off => 0,
            VKSnapClickType::Regular => 1,
            VKSnapClickType::LastInput => 2,
            VKSnapClickType::FirstKey => 3,
            VKSnapClickType::SecondKey => 4,
            VKSnapClickType::Neutral => 5,
        }
    }

    /// The mode of byte `value`, which must be at most 5.
    pub open spec fn spec_from_u8(value: u8) -> VKSnapClickType {
        if value == 0 {
            VKSnapClickType::Off
        } else if value == 1 {
            VKSnapClickType::Regular
        } else if value == 2 {
            VKSnapClickType::LastInput
        } else if value == 3 {
            VKSnapClickType::FirstKey
        } else if value == 4 {
            VKSnapClickType::SecondKey
        } else {
            VKSnapClickType::Neutral
        }
    }

    /// Decoding a mode byte follows the firmware's numbering, and gives back
    /// the mode whose byte it is.
    pub proof fn lemma_decode_table(t: VKSnapClickType)
        ensures
            Self::spec_from_u8(0) == VKSnapClickType::Off,
            Self::spec_from_u8(1) == VKSnapClickType::Regular,
            Self::spec_from_u8(2) == VKSnapClickType::LastInput,
            Self::spec_from_u8(3) == VKSnapClickType::FirstKey,
            Self::spec_from_u8(4) == VKSnapClickType::SecondKey,
            Self::spec_from_u8(5) == VKSnapClickType::Neutral,
            Self::spec_from_u8(t.spec_as_u8()) == t,
    {
    }

    /// Decodes a mode byte.
    pub fn try_from(value: u8) -> (r: Result<VKSnapClickType, VKError>)
        ensures
            value > 5 ==> r == Err::<VKSnapClickType, VKError>(
                VKError::InvalidSnapClickType(value),
            ),
            value <= 5 ==> r == Ok::<VKSnapClickType, VKError>(Self::spec_from_u8(value)),
            r matches Ok(t) ==> t.as_u8() == value,
    {
        match value {
            0 => Ok(VKSnapClickType::Off),
            1 => Ok(VKSnapClickType::Regular),
            2 => Ok(VKSnapClickType::LastInput),
            3 => Ok(VKSnapClickType::FirstKey),
            4 => Ok(VKSnapClickType::SecondKey),
            5 => Ok(VKSnapClickType::Neutral),
            _ => Err(VKError::InvalidSnapClickType(value)),
        }
    }

    /// Every mode, in the order of their bytes.
    pub fn iter() -> (r: Vec<VKSnapClickType>)
        ensures
            r@.len() == 6,
            forall|i: int| 0 <= i < 6 ==> (#[trigger] r@[i]).as_u8() == i,
    {
        let mut r: Vec<VKSnapClickType> = Vec::new();
        let mut i: u8 = 0;
        while i <= 5
            invariant
                i <= 6,
                r@.len() == i,
                forall|k: int| 0 <= k < i ==> (#[trigger] r@[k]).as_u8() == k,
            decreases 6 - i,
        {
            match VKSnapClickType::try_from(i) {
                Ok(t) => r.push(t),
                Err(_) => {},
            }
            i = i + 1;
        }
        r
    }
}

/// One snap click pair: its mode and the keycode bytes.
#[derive(Debug, Clone, Copy)]
pub struct VKSnapClick {
    pub snap_type: VKSnapClickType,
    pub keycode: [u8; 2],
}

/// The three bytes that encode `c`.
pub open spec fn snap_click_bytes(c: VKSnapClick) -> Seq<u8> {
    seq![c.snap_type.spec_as_u8(), c.keycode@[0], c.keycode@[1]]
}

/// What [VKSnapClick::try_from] gives for `b`: an error, or `Ok(())` when
/// the first three bytes of `b` encode a snap click.
pub open spec fn spec_snap_click_check(b: Seq<u8>) -> Result<(), VKError> {
    if b.len() < 3 {
        Err(VKError::SnapClickTooShort)
    } else if b[0] > 5 {
        Err(VKError::InvalidSnapClickType(b[0]))
    } else {
        Ok(())
    }
}

/// The first error among the first `n` snap clicks encoded in `b`, three
/// bytes each.
pub open spec fn spec_snap_clicks_error(b: Seq<u8>, n: nat) -> Option<VKError>
    decreases n,
{
    if n == 0 {
        None
    } else {
        match spec_snap_clicks_error(b, (n - 1) as nat) {
            Some(e) => Some(e),
            None => match spec_snap_click_check(b.subrange(3 * (n - 1), b.len() as int)) {
                Err(e) => Some(e),
                Ok(_) => None,
            },
        }
    }
}

/// `items` are the first `n` snap clicks encoded in `b`.
pub open spec fn snap_clicks_decode(b: Seq<u8>, n: nat, items: Seq<VKSnapClick>) -> bool {
    &&& items.len() == n
    &&& forall|i: int|
        0 <= i < n ==> snap_click_bytes(#[trigger] items[i]) == b.subrange(3 * i, 3 * i + 3)
}

/// The bytes that encode `items`, three bytes each.
pub open spec fn snap_clicks_bytes(items: Seq<VKSnapClick>) -> Seq<u8>
    decreases items.len(),
{
    if items.len() == 0 {
        Seq::empty()
    } else {
        snap_clicks_bytes(items.drop_last()) + snap_click_bytes(items.last())
    }
}

/// The encoding of `items` takes three bytes per pair, pair `i` at `3 * i`.
pub proof fn lemma_snap_clicks_bytes(items: Seq<VKSnapClick>)
    ensures
        snap_clicks_bytes(items).len() == 3 * items.len(),
        forall|i: int|
            0 <= i < items.len() ==> snap_clicks_bytes(items).subrange(3 * i, 3 * i + 3)
                == snap_click_bytes(#[trigger] items[i]),
    decreases items.len(),
{
    if items.len() > 0 {
        let init = items.drop_last();
        lemma_snap_clicks_bytes(init);
        let b = snap_clicks_bytes(items);
        assert forall|i: int| 0 <= i < items.len() implies b.subrange(3 * i, 3 * i + 3)
            == snap_click_bytes(#[trigger] items[i]) by {
            if i < init.len() {
                assert(b.subrange(3 * i, 3 * i + 3) =~= snap_clicks_bytes(init).subrange(
                    3 * i,
                    3 * i + 3,
                ));
                assert(init[i] == items[i]);
            } else {
                assert(b.subrange(3 * i, 3 * i + 3) =~= snap_click_bytes(items.last()));
            }
        }
    }
}

/// Pairs written by [VKSnapClickConfig::send_request] read back unchanged:
/// a payload that starts with their encoding decodes to the same pairs.
pub proof fn lemma_snap_clicks_roundtrip(items: Seq<VKSnapClick>, p: Seq<u8>)
    requires
        p.len() >= 3 * items.len(),
        p.subrange(0, 3 * items.len() as int) == snap_clicks_bytes(items),
    ensures
        spec_snap_clicks_error(p, items.len()) is None,
        snap_clicks_decode(p, items.len(), items),
{
    lemma_snap_clicks_bytes(items);
    assert forall|i: int| 0 <= i < items.len() implies p.subrange(3 * i, 3 * i + 3)
        == snap_click_bytes(#[trigger] items[i]) by {
        assert(p.subrange(3 * i, 3 * i + 3) =~= snap_clicks_bytes(items).subrange(
            3 * i,
            3 * i + 3,
        ));
    }
    lemma_snap_clicks_no_error(items, p, items.len());
}

proof fn lemma_snap_clicks_no_error(items: Seq<VKSnapClick>, p: Seq<u8>, n: nat)
    requires
        n <= items.len(),
        p.len() >= 3 * items.len(),
        forall|i: int|
            0 <= i < items.len() ==> p.subrange(3 * i, 3 * i + 3) == snap_click_bytes(
                #[trigger] items[i],
            ),
    ensures
        spec_snap_clicks_error(p, n) is None,
    decreases n,
{
    if n > 0 {
        lemma_snap_clicks_no_error(items, p, (n - 1) as nat);
        let k = n - 1;
        assert(p.subrange(3 * k, 3 * k + 3) == snap_click_bytes(items[k]));
        assert(p[3 * k] == p.subrange(3 * k, 3 * k + 3)[0]);
        assert(p.subrange(3 * k, p.len() as int)[0] == p[3 * k]);
    }
}

impl VKSnapClick {
    pub const BYTE_SIZE: usize = 3;

    /// Decodes a snap click from the first three bytes of `value`.
    pub fn try_from(value: &[u8]) -> (r: Result<VKSnapClick, VKError>)
        ensures
            match spec_snap_click_check(value@) {
                Err(e) => r matches Err(f) && f == e,
                Ok(_) => r matches Ok(c) && snap_click_bytes(c) == value@.subrange(0, 3),
            },
    {
        if value.len() < 3 {
            Err(VKError::SnapClickTooShort)
        } else {
            let snap_type = VKSnapClickType::try_from(value[0])?;
            let c = VKSnapClick { snap_type, keycode: [value[1], value[2]] };
            assert(snap_click_bytes(c) =~= value@.subrange(0, 3));
            Ok(c)
        }
    }
}

/// Decodes the first `n` snap clicks encoded in `b`.
fn parse_snap_clicks(b: &[u8], n: usize) -> (r: Result<Vec<VKSnapClick>, VKError>)
    requires
        3 * n <= b@.len(),
    ensures
        match spec_snap_clicks_error(b@, n as nat) {
            Some(e) => r matches Err(f) && f == e,
            None => r matches Ok(items) && snap_clicks_decode(b@, n as nat, items@),
        },
{
    let mut items: Vec<VKSnapClick> = Vec::new();
    let blen = b.len();
    let mut i: usize = 0;
    while i < n
        invariant
            blen == b@.len(),
            3 * n <= b@.len(),
            i <= n,
            spec_snap_clicks_error(b@, i as nat) is None,
            snap_clicks_decode(b@, i as nat, items@),
        decreases n - i,
    {
        let rest = vstd::slice::slice_subrange(b, 3 * i, blen);
        assert(rest@ =~= b@.subrange(3 * i, b@.len() as int));
        let c = match VKSnapClick::try_from(rest) {
            Ok(c) => c,
            Err(e) => {
                proof {
                    lemma_snap_clicks_error_stays(b@, (i + 1) as nat, n as nat);
                }
                return Err(e);
            },
        };
        assert(rest@.subrange(0, 3) =~= b@.subrange(3 * i, 3 * i + 3));
        items.push(c);
        i = i + 1;
    }
    Ok(items)
}

/// Once an error is found among the first `m` snap clicks, it is the first
/// error among any larger number of them.
proof fn lemma_snap_clicks_error_stays(b: Seq<u8>, m: nat, n: nat)
    requires
        m <= n,
        spec_snap_clicks_error(b, m) is Some,
    ensures
        spec_snap_clicks_error(b, n) == spec_snap_clicks_error(b, m),
    decreases n - m,
{
    if m < n {
        lemma_snap_clicks_error_stays(b, m, (n - 1) as nat);
    }
}

/// Snap click configuration: the pairs from index `start` on.
#[derive(Debug)]
pub struct VKSnapClickConfig {
    pub start: u8,
    pub config: Vec<VKSnapClick>,
}

/// The number of pairs of the next request when `loaded` of `total` pairs
/// are loaded.
pub open spec fn snap_click_chunk(loaded: nat, total: nat) -> nat {
    if total - loaded < 9 {
        (total - loaded) as nat
    } else {
        9
    }
}

/// A snap click load of `total` pairs ends with exactly `total` pairs:
/// while pairs are missing, each accepted reply adds at least one pair and
/// never passes `total`, and [VKSnapClickConfig::load_request] asks for more
/// exactly while pairs are missing.
pub proof fn lemma_snap_click_load_progress(loaded: nat, total: nat)
    requires
        loaded < total,
    ensures
        loaded < loaded + snap_click_chunk(loaded, total) <= total,
{
}

impl VKSnapClickConfig {
    /// Most pairs that one request can carry.
    pub const MAX_REQ_ITEMS: usize = 9;

    /// What [VKSnapClickConfig::try_from] gives for the reply `value`: the
    /// error, or `None` when the nine pairs that the payload holds decode.
    pub open spec fn spec_try_from_error(value: Seq<u8>) -> Option<VKError> {
        match VKMiscCommandId::SnapClickGet.spec_check_reply(value) {
            Err(e) => Some(e),
            Ok(p) => spec_snap_clicks_error(p, 9),
        }
    }

    /// Decodes the reply to [VKMiscCommandId::SnapClickGet]: the nine whole
    /// pairs that its payload holds.
    pub fn try_from(value: ViaReportData) -> (r: Result<Self, VKError>)
        ensures
            match Self::spec_try_from_error(value@) {
                Some(e) => r matches Err(f) && f == e,
                None => r matches Ok(c) && c.start == 0 && snap_clicks_decode(
                    VKMiscCommandId::SnapClickGet.spec_check_reply(value@)->Ok_0,
                    9,
                    c.config@,
                ),
            },
    {
        let payload = VKMiscCommandId::SnapClickGet.check_reply(&value)?;
        let config = parse_snap_clicks(payload, 9)?;
        Ok(VKSnapClickConfig { start: 0, config })
    }

    /// Decodes the reply to the request for pairs from `start` on.
    pub fn from_part_reply(value: ViaReportData, start: u8) -> (r: Result<Self, VKError>)
        ensures
            match Self::spec_try_from_error(value@) {
                Some(e) => r matches Err(f) && f == e,
                None => r matches Ok(c) && c.start == start && snap_clicks_decode(
                    VKMiscCommandId::SnapClickGet.spec_check_reply(value@)->Ok_0,
                    9,
                    c.config@,
                ),
            },
    {
        let mut ret = Self::try_from(value)?;
        ret.start = start;
        Ok(ret)
    }

    /// The request for `count` pairs from index `start` on.
    pub fn part_request(start: u8, count: u8) -> (r: VKCommand)
        ensures
            r.report@ == request_bytes(
                VKMiscCommandId::SnapClickGet.cmd_header(),
                seq![start, count],
                VKMiscCommandId::SnapClickGet.req_capacity(),
            ),
    {
        let data = [start, count];
        assert(data@ =~= seq![start, count]);
        VKMiscCommandId::SnapClickGet.to_req(data.as_slice())
    }

    /// Decodes the reply to [VKMiscCommandId::SnapClickGetInfo]: the number
    /// of pairs the keyboard supports.
    pub fn count_from_reply(value: &ViaReportData) -> (r: Result<u8, VKError>)
        ensures
            match VKMiscCommandId::SnapClickGetInfo.spec_check_reply(value@) {
                Err(e) => r == Err::<u8, VKError>(e),
                Ok(p) => r == Ok::<u8, VKError>(p[0]),
            },
    {
        let payload = VKMiscCommandId::SnapClickGetInfo.check_reply(value)?;
        Ok(payload[0])
    }

    /// An empty configuration, ready to load pairs from index 0 on.
    pub fn new_load() -> (r: Self)
        ensures
            r.start == 0,
            r.config@.len() == 0,
    {
        VKSnapClickConfig { start: 0, config: Vec::new() }
    }

    /// The next request of a load of `total` pairs, `None` when every pair
    /// is loaded.
    pub fn load_request(&self, total: u8) -> (r: Option<VKCommand>)
        ensures
            self.config@.len() >= total ==> r is None,
            self.config@.len() < total ==> (r matches Some(c) && c.report@ == request_bytes(
                VKMiscCommandId::SnapClickGet.cmd_header(),
                seq![
                    self.config@.len() as u8,
                    snap_click_chunk(self.config@.len(), total as nat) as u8,
                ],
                VKMiscCommandId::SnapClickGet.req_capacity(),
            )),
    {
        let loaded = self.config.len();
        if loaded >= total as usize {
            None
        } else {
            let count = if total as usize - loaded < Self::MAX_REQ_ITEMS {
                total as usize - loaded
            } else {
                Self::MAX_REQ_ITEMS
            };
            Some(Self::part_request(loaded as u8, count as u8))
        }
    }

    /// Adds the pairs of `value`, the reply to [VKSnapClickConfig::load_request],
    /// to a load of `total` pairs.
    pub fn load_reply(&mut self, total: u8, value: &ViaReportData) -> (r: Result<(), VKError>)
        requires
            old(self).config@.len() < total,
        ensures
            final(self).start == old(self).start,
            match VKMiscCommandId::SnapClickGet.spec_check_reply(value@) {
                Err(e) => r == Err::<(), VKError>(e) && final(self).config@ == old(self).config@,
                Ok(p) => {
                    let n = snap_click_chunk(old(self).config@.len(), total as nat);
                    match spec_snap_clicks_error(p, n) {
                        Some(e) => r == Err::<(), VKError>(e) && final(self).config@ == old(
                            self,
                        ).config@,
                        None => r is Ok && final(self).config@.len() == old(self).config@.len()
                            + n && final(self).config@.subrange(0, old(self).config@.len() as int)
                            == old(self).config@ && snap_clicks_decode(
                            p,
                            n,
                            final(self).config@.subrange(
                                old(self).config@.len() as int,
                                final(self).config@.len() as int,
                            ),
                        ),
                    }
                },
            },
    {
        let loaded = self.config.len();
        let count = if total as usize - loaded < Self::MAX_REQ_ITEMS {
            total as usize - loaded
        } else {
            Self::MAX_REQ_ITEMS
        };
        let payload = VKMiscCommandId::SnapClickGet.check_reply(value)?;
        let items = parse_snap_clicks(payload, count)?;
        let mut i: usize = 0;
        while i < items.len()
            invariant
                self.start == old(self).start,
                i <= items@.len(),
                self.config@.len() == loaded + i,
                self.config@.subrange(0, loaded as int) == old(self).config@,
                loaded == old(self).config@.len(),
                forall|k: int| 0 <= k < i ==> self.config@[loaded + k] == items@[k],
            decreases items.len() - i,
        {
            self.config.push(items[i]);
            i = i + 1;
        }
        assert(self.config@.subrange(loaded as int, self.config@.len() as int) =~= items@);
        Ok(())
    }

    /// The request that writes the pairs to the keyboard: the start index,
    /// the number of pairs and the pairs; refused beyond nine pairs.
    pub fn send_request(&self) -> (r: Result<VKCommand, VKError>)
        ensures
            self.config@.len() > 9 ==> r == Err::<VKCommand, VKError>(
                VKError::TooManySnapClicks(self.config@.len() as usize),
            ),
            self.config@.len() <= 9 ==> (r matches Ok(c) && c.report@ == request_bytes(
                VKMiscCommandId::SnapClickSet.cmd_header(),
                seq![self.start, self.config@.len() as u8] + snap_clicks_bytes(self.config@),
                VKMiscCommandId::SnapClickSet.req_capacity(),
            )),
    {
        if self.config.len() > 9 {
            return Err(VKError::TooManySnapClicks(self.config.len()));
        }
        let mut data: Vec<u8> = Vec::new();
        data.push(self.start);
        data.push(self.config.len() as u8);
        let mut i: usize = 0;
        while i < self.config.len()
            invariant
                i <= self.config@.len() <= 9,
                data@ == seq![self.start, self.config@.len() as u8] + snap_clicks_bytes(
                    self.config@.subrange(0, i as int),
                ),
            decreases self.config.len() - i,
        {
            let c = self.config[i];
            data.push(c.snap_type.as_u8());
            data.push(c.keycode[0]);
            data.push(c.keycode[1]);
            assert(self.config@.subrange(0, i + 1).drop_last() =~= self.config@.subrange(
                0,
                i as int,
            ));
            assert(data@ =~= seq![self.start, self.config@.len() as u8] + snap_clicks_bytes(
                self.config@.subrange(0, i + 1),
            ));
            i = i + 1;
        }
        assert(self.config@.subrange(0, self.config@.len() as int) =~= self.config@);
        Ok(VKMiscCommandId::SnapClickSet.to_req(data.as_slice()))
    }
}

} // verus!
