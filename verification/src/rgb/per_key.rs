use vstd::prelude::*;

use crate::command::{request_bytes, VKCommand, VKCommandMaker};
use crate::data::ViaReportData;
use crate::error::VKError;
use crate::rgb::{chunk_start_fits, chunk_starts_fit, hsv_bytes, hsv_of, min_int, VKHsv, VKRgbCommandId};

verus! {

/// Per-key lighting modes.
#[derive(Debug, Clone, Copy, PartialEq, Eq, Structural)]
pub enum VKRgbPerKeyType {
    Solid,
    Breathing,
    ReactiveSimple,
    ReactiveMultiWide,
    ReactiveSplash,
}

impl VKRgbPerKeyType {
    pub open spec fn spec_as_u8(self) -> u8 {
        match self {
            VKRgbPerKeyType::Solid => 0,
            VKRgbPerKeyType::Breathing => 1,
            VKRgbPerKeyType::ReactiveSimple => 2,
            VKRgbPerKeyType::ReactiveMultiWide => 3,
            VKRgbPerKeyType::ReactiveSplash => 4,
        }
    }

    /// The byte of each value on the wire, as the keyboard firmware numbers
    /// them.
    pub proof fn lemma_byte_table()
        ensures
            VKRgbPerKeyType::Solid.spec_as_u8() == 0,
            VKRgbPerKeyType::Breathing.spec_as_u8() == 1,
            VKRgbPerKeyType::ReactiveSimple.spec_as_u8() == 2,
            VKRgbPerKeyType::ReactiveMultiWide.spec_as_u8() == 3,
            VKRgbPerKeyType::ReactiveSplash.spec_as_u8() == 4,
    {
    }

    /// The byte that identifies this mode on the wire.
    #[verifier::when_used_as_spec(spec_as_u8)]
    pub fn as_u8(self) -> (r: u8)
        ensures
            r == self.spec_as_u8(),
    {
        match self {
            VKRgbPerKeyType::Solid => 0,
            VKRgbPerKeyType::Breathing => 1,
            VKRgbPerKeyType::ReactiveSimple => 2,
            VKRgbPerKeyType::ReactiveMultiWide => 3,
            VKRgbPerKeyType::ReactiveSplash => 4,
        }
    }

    /// Decodes a mode byte.
    pub fn try_from(value: u8) -> (r: Result<VKRgbPerKeyType, VKError>)
        ensures
            value > 4 ==> r == Err::<VKRgbPerKeyType, VKError>(VKError::InvalidPerKeyType(value)),
            r is Ok <==> value <= 4,
            r matches Ok(t) ==> t.as_u8() == value,
    {
        match value {
            0 => Ok(VKRgbPerKeyType::Solid),
            1 => Ok(VKRgbPerKeyType::Breathing),
            2 => Ok(VKRgbPerKeyType::ReactiveSimple),
            3 => Ok(VKRgbPerKeyType::ReactiveMultiWide),
            4 => Ok(VKRgbPerKeyType::ReactiveSplash),
            _ => Err(VKError::InvalidPerKeyType(value)),
        }
    }

    /// Decodes the reply to [VKRgbCommandId::PerKeyRgbGetType].
    pub fn from_reply(value: ViaReportData) -> (r: Result<VKRgbPerKeyType, VKError>)
        ensures
            match VKRgbCommandId::PerKeyRgbGetType.spec_check_reply(value@) {
                Err(e) => r == Err::<VKRgbPerKeyType, VKError>(e),
                Ok(p) => if p[0] > 4 {
                    r == Err::<VKRgbPerKeyType, VKError>(VKError::InvalidPerKeyType(p[0]))
                } else {
                    r matches Ok(t) && t.as_u8() == p[0]
                },
            },
    {
        let payload = VKRgbCommandId::PerKeyRgbGetType.check_reply(&value)?;
        VKRgbPerKeyType::try_from(payload[0])
    }

    /// The request that selects this mode on the keyboard.
    pub fn set_request(&self) -> (r: VKCommand)
        ensures
            r.report@ == request_bytes(
                VKRgbCommandId::PerKeyRgbSetType.cmd_header(),
                seq![self.as_u8()],
                VKRgbCommandId::PerKeyRgbSetType.req_capacity(),
            ),
    {
        let data = [self.as_u8()];
        assert(data@ =~= seq![self.as_u8()]);
        VKRgbCommandId::PerKeyRgbSetType.to_req(data.as_slice())
    }
}

/// `items` are the colors encoded in the first `3 * items.len()` bytes of
/// `b`.
pub open spec fn hsvs_decode(b: Seq<u8>, items: Seq<VKHsv>) -> bool {
    forall|i: int| 0 <= i < items.len() ==> #[trigger] items[i] == hsv_of(b.subrange(3 * i, 3 * i + 3))
}

/// The bytes that encode `items`, three bytes each.
pub open spec fn hsvs_bytes(items: Seq<VKHsv>) -> Seq<u8>
    decreases items.len(),
{
    if items.len() == 0 {
        Seq::empty()
    } else {
        hsvs_bytes(items.drop_last()) + hsv_bytes(items.last())
    }
}

/// Decodes the first `n` colors of a reply payload `p`.
fn parse_hsvs(p: &[u8], n: usize) -> (r: Result<Vec<VKHsv>, VKError>)
    requires
        p@.len() == 29,
    ensures
        n > 9 ==> r == Err::<Vec<VKHsv>, VKError>(VKError::InvalidHsv),
        n <= 9 ==> (r matches Ok(items) && items@.len() == n && hsvs_decode(p@, items@)),
{
    let mut items: Vec<VKHsv> = Vec::new();
    let mut i: usize = 0;
    while i < n
        invariant
            p@.len() == 29,
            i <= n,
            i <= 9,
            items@.len() == i,
            hsvs_decode(p@, items@),
        decreases n - i,
    {
        let rest = vstd::slice::slice_subrange(p, 3 * i, 29);
        let c = VKHsv::try_from(rest)?;
        assert(rest@.subrange(0, 3) =~= p@.subrange(3 * i, 3 * i + 3));
        items.push(c);
        i = i + 1;
    }
    Ok(items)
}

/// The data of the `k`-th request that writes the colors `config` from LED
/// `start` on.
pub open spec fn per_key_chunk_data(start: u8, config: Seq<VKHsv>, k: int) -> Seq<u8> {
    let s = 9 * k;
    let n = min_int(config.len() - s, 9);
    seq![(start + (s as u8)) as u8, n as u8] + hsvs_bytes(config.subrange(s, s + n))
}

/// Per-key colors, from LED `start` on.
#[derive(Debug, Clone, PartialEq, Eq)]
pub struct VKRgbPerKeyConfig {
    pub start: u8,
    pub config: Vec<VKHsv>,
}

impl VKRgbPerKeyConfig {
    /// Most colors that one request can carry.
    pub const MAX_REQ_ITEMS: usize = 9;

    /// The request for the colors of `count` LEDs from LED `start` on.
    pub fn part_request(start: u8, count: u8) -> (r: VKCommand)
        ensures
            r.report@ == request_bytes(
                VKRgbCommandId::PerKeyRgbGetColor.cmd_header(),
                seq![start, count],
                VKRgbCommandId::PerKeyRgbGetColor.req_capacity(),
            ),
    {
        let data = [start, count];
        assert(data@ =~= seq![start, count]);
        VKRgbCommandId::PerKeyRgbGetColor.to_req(data.as_slice())
    }

    /// Decodes the reply to [VKRgbPerKeyConfig::part_request]: a reply holds
    /// at most nine colors.
    pub fn from_part_reply(value: &ViaReportData, start: u8, count: u8) -> (r: Result<
        Self,
        VKError,
    >)
        ensures
            match VKRgbCommandId::PerKeyRgbGetColor.spec_check_reply(value@) {
                Err(e) => r matches Err(f) && f == e,
                Ok(p) => if count > 9 {
                    r matches Err(f) && f == VKError::InvalidHsv
                } else {
                    r matches Ok(c) && c.start == start && c.config@.len() == count && hsvs_decode(
                        p,
                        c.config@,
                    )
                },
            },
    {
        let payload = VKRgbCommandId::PerKeyRgbGetColor.check_reply(value)?;
        let config = parse_hsvs(payload, count as usize)?;
        Ok(VKRgbPerKeyConfig { start, config })
    }

    /// An empty configuration, ready to load colors from LED 0 on.
    pub fn new_load() -> (r: Self)
        ensures
            r.start == 0,
            r.config@.len() == 0,
    {
        VKRgbPerKeyConfig { start: 0, config: Vec::new() }
    }

    /// The next request of a load of `total` colors, `None` when every color
    /// is loaded.
    pub fn load_request(&self, total: usize) -> (r: Option<VKCommand>)
        ensures
            self.config@.len() >= total ==> r is None,
            self.config@.len() < total ==> (r matches Some(c) && c.report@ == request_bytes(
                VKRgbCommandId::PerKeyRgbGetColor.cmd_header(),
                seq![self.config@.len() as u8, min_int(total - self.config@.len(), 9) as u8],
                VKRgbCommandId::PerKeyRgbGetColor.req_capacity(),
            )),
    {
        let loaded = self.config.len();
        if loaded >= total {
            None
        } else {
            let count = if total - loaded < Self::MAX_REQ_ITEMS {
                total - loaded
            } else {
                Self::MAX_REQ_ITEMS
            };
            Some(Self::part_request(loaded as u8, count as u8))
        }
    }

    /// Adds the colors of `value`, the reply to
    /// [VKRgbPerKeyConfig::load_request], to a load of `total` colors.
    pub fn load_reply(&mut self, total: usize, value: &ViaReportData) -> (r: Result<(), VKError>)
        requires
            old(self).config@.len() < total,
        ensures
            final(self).start == old(self).start,
            match VKRgbCommandId::PerKeyRgbGetColor.spec_check_reply(value@) {
                Err(e) => r == Err::<(), VKError>(e) && final(self).config@ == old(self).config@,
                Ok(p) => r is Ok && final(self).config@.len() == old(self).config@.len()
                    + min_int(total - old(self).config@.len(), 9) && final(self).config@.subrange(
                    0,
                    old(self).config@.len() as int,
                ) == old(self).config@ && hsvs_decode(
                    p,
                    final(self).config@.subrange(
                        old(self).config@.len() as int,
                        final(self).config@.len() as int,
                    ),
                ),
            },
    {
        let loaded = self.config.len();
        let count = if total - loaded < Self::MAX_REQ_ITEMS {
            total - loaded
        } else {
            Self::MAX_REQ_ITEMS
        };
        let payload = VKRgbCommandId::PerKeyRgbGetColor.check_reply(value)?;
        let items = match parse_hsvs(payload, count) {
            Ok(items) => items,
            Err(e) => {
                assert(false);
                return Err(e);
            },
        };
        let mut i: usize = 0;
        while i < items.len()
            invariant
                self.start == old(self).start,
                i <= items@.len(),
                self.config@.len() == loaded + i,
                self.config@.subrange(0, loaded as int) == old(self).config@,
                loaded == old(self).config@.len(),
                forall|k: int| 0 <= k < i ==> self.config@[loaded + k] == items@[k],
            decreases items.len() - i,
        {
            self.config.push(items[i]);
            i = i + 1;
        }
        assert(self.config@.subrange(loaded as int, self.config@.len() as int) =~= items@);
        Ok(())
    }

    /// The requests that write the colors to the keyboard, by chunks of nine
    /// LEDs.
    pub fn send_requests(&self) -> (r: Vec<VKCommand>)
        requires
            chunk_starts_fit(self.start, self.config@.len() as int, 9),
        ensures
            r@.len() > 0 ==> 9 * (r@.len() - 1) < self.config@.len(),
            9 * r@.len() >= self.config@.len(),
            forall|k: int|
                0 <= k < r@.len() ==> (#[trigger] r@[k]).report@ == request_bytes(
                    VKRgbCommandId::PerKeyRgbSetColor.cmd_header(),
                    per_key_chunk_data(self.start, self.config@, k),
                    VKRgbCommandId::PerKeyRgbSetColor.req_capacity(),
                ),
    {
        let len = self.config.len();
        let mut reqs: Vec<VKCommand> = Vec::new();
        let mut start: usize = 0;
        while start < len
            invariant
                len == self.config@.len(),
                chunk_starts_fit(self.start, self.config@.len() as int, 9),
                start == min_int(9 * reqs@.len() as int, len as int),
                reqs@.len() > 0 ==> 9 * (reqs@.len() - 1) < self.config@.len(),
                forall|k: int|
                    0 <= k < reqs@.len() ==> (#[trigger] reqs@[k]).report@ == request_bytes(
                        VKRgbCommandId::PerKeyRgbSetColor.cmd_header(),
                        per_key_chunk_data(self.start, self.config@, k),
                        VKRgbCommandId::PerKeyRgbSetColor.req_capacity(),
                    ),
            decreases len - start,
        {
            let ghost k = reqs@.len() as int;
            let count = if len - start < Self::MAX_REQ_ITEMS {
                len - start
            } else {
                Self::MAX_REQ_ITEMS
            };
            assert(chunk_start_fits(self.start, 9, k));
            let mut data: Vec<u8> = Vec::new();
            data.push(start as u8 + self.start);
            data.push(count as u8);
            let mut i: usize = 0;
            while i < count
                invariant
                    i <= count <= 9,
                    start + count <= len,
                    len == self.config@.len(),
                    data@ == seq![((start as u8) + self.start) as u8, count as u8] + hsvs_bytes(
                        self.config@.subrange(start as int, start + i),
                    ),
                decreases count - i,
            {
                let c = self.config[start + i];
                data.push(c.hue);
                data.push(c.saturation);
                data.push(c.value);
                assert(self.config@.subrange(start as int, start + i + 1).drop_last()
                    =~= self.config@.subrange(start as int, start + i));
                assert(data@ =~= seq![((start as u8) + self.start) as u8, count as u8] + hsvs_bytes(
                    self.config@.subrange(start as int, start + i + 1),
                ));
                i = i + 1;
            }
            assert(data@ =~= per_key_chunk_data(self.start, self.config@, k));
            reqs.push(VKRgbCommandId::PerKeyRgbSetColor.to_req(data.as_slice()));
            start = start + count;
        }
        reqs
    }
}

} // verus!
