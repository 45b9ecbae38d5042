use vstd::prelude::*;

use crate::command::{request_bytes, VKCommand, VKCommandMaker};
use crate::data::{le_u32, le_u32_bytes, lemma_le_u32_roundtrip, u32_from_le_bytes, u32_to_le_bytes, ViaReportData};
use crate::error::VKError;
use crate::rgb::VKRgbCommandId;

verus! {

/// The smaller of `a` and `b`.
pub open spec fn min_int(a: int, b: int) -> int {
    if a < b {
        a
    } else {
        b
    }
}

/// Mixed effect information: the number of regions and of effects per
/// region.
#[derive(Debug)]
pub struct VKRgbMixedInfo {
    data: Vec<u8>,
}

impl View for VKRgbMixedInfo {
    type V = Seq<u8>;

    /// The raw information bytes.
    closed spec fn view(&self) -> Seq<u8> {
        self.data@
    }
}

impl Clone for VKRgbMixedInfo {
    fn clone(&self) -> (r: Self)
        ensures
            r@ == self@,
    {
        proof {
            use_type_invariant(self);
        }
        VKRgbMixedInfo { data: self.data.clone() }
    }
}

impl VKRgbMixedInfo {
    #[verifier::type_invariant]
    spec fn wf(self) -> bool {
        self.data@.len() == 29
    }

    /// Decodes the reply to [VKRgbCommandId::MixedEffectRgbGetInfo].
    pub fn try_from(value: ViaReportData) -> (r: Result<Self, VKError>)
        ensures
            r matches Ok(c) ==> c@.len() == 29,
            match VKRgbCommandId::MixedEffectRgbGetInfo.spec_check_reply(value@) {
                Ok(p) => r matches Ok(c) && c@ == p,
                Err(e) => r matches Err(f) && f == e,
            },
    {
        let payload = VKRgbCommandId::MixedEffectRgbGetInfo.check_reply(&value)?;
        Ok(VKRgbMixedInfo { data: vstd::slice::slice_to_vec(payload) })
    }

    /// Number of regions (layers) of mixed mode.
    pub fn get_region_count(&self) -> (r: u8)
        ensures
            self@.len() == 29,
            r == self@[0],
    {
        proof {
            use_type_invariant(self);
        }
        self.data[0]
    }

    /// Number of effects per region in mixed mode.
    pub fn get_effects_per_region(&self) -> (r: u8)
        ensures
            self@.len() == 29,
            r == self@[1],
    {
        proof {
            use_type_invariant(self);
        }
        self.data[1]
    }
}

/// Region of each LED, from LED `start` on.
#[derive(Debug, Clone, PartialEq, Eq)]
pub struct VKRgbMixedRegions {
    pub start: u8,
    pub regions: Vec<u8>,
}

/// The data of the `k`-th request that writes `regions` from LED `start`
/// on: its first LED, its number of LEDs, and their regions.
pub open spec fn regions_chunk_data(start: u8, regions: Seq<u8>, k: int) -> Seq<u8> {
    let s = 28 * k;
    let n = min_int(regions.len() - s, 28);
    seq![(start + (s as u8)) as u8, n as u8] + regions.subrange(s, s + n)
}

/// The first LED of every request that writes `len` items by chunks of
/// `max` from item `start` on fits in a byte.
pub open spec fn chunk_starts_fit(start: u8, len: int, max: int) -> bool {
    forall|k: int| 0 <= k && max * k < len ==> #[trigger] chunk_start_fits(start, max, k)
}

/// A chunked load of `total` items by chunks of at most `max` ends with
/// exactly `total` items: while items are missing, each accepted reply adds
/// at least one item and never passes `total`, and `load_request` asks for
/// more exactly while items are missing.  This covers the mixed regions
/// (chunks of 28), the mixed effects (3) and the per-key colors (9).
pub proof fn lemma_chunk_load_progress(loaded: nat, total: nat, max: nat)
    requires
        loaded < total,
        max > 0,
    ensures
        loaded < loaded + min_int(total - loaded, max as int) <= total,
{
}

/// The first item of the `k`-th chunk of `max` items from item `start` on
/// fits in a byte.
pub open spec fn chunk_start_fits(start: u8, max: int, k: int) -> bool {
    start + ((max * k) as u8) <= 255
}

impl VKRgbMixedRegions {
    /// Most regions that one request can carry.
    pub const MAX_REQ_ITEMS: usize = 28;

    /// What [VKRgbMixedRegions::try_from] gives for the reply `value` to a
    /// request for `count` LEDs: their regions, or the error.
    pub open spec fn spec_try_from(value: Seq<u8>, count: u8) -> Result<Seq<u8>, VKError> {
        if count > 28 {
            Err(VKError::InvalidRegionCount(count))
        } else {
            match VKRgbCommandId::MixedEffectRgbGetRegions.spec_check_reply(value) {
                Err(e) => Err(e),
                Ok(p) => Ok(p.subrange(0, count as int)),
            }
        }
    }

    /// Decodes the reply to a request for the regions of `count` LEDs from
    /// LED `start` on.
    pub fn try_from(value: ViaReportData, start: u8, count: u8) -> (r: Result<Self, VKError>)
        ensures
            match Self::spec_try_from(value@, count) {
                Err(e) => r matches Err(f) && f == e,
                Ok(regions) => r matches Ok(c) && c.start == start && c.regions@ == regions,
            },
    {
        if count > Self::MAX_REQ_ITEMS as u8 {
            return Err(VKError::InvalidRegionCount(count));
        }
        let payload = VKRgbCommandId::MixedEffectRgbGetRegions.check_reply(&value)?;
        let regions = vstd::slice::slice_to_vec(
            vstd::slice::slice_subrange(payload, 0, count as usize),
        );
        Ok(VKRgbMixedRegions { start, regions })
    }

    /// The request for the regions of `count` LEDs from LED `start` on.
    pub fn part_request(start: u8, count: u8) -> (r: VKCommand)
        ensures
            r.report@ == request_bytes(
                VKRgbCommandId::MixedEffectRgbGetRegions.cmd_header(),
                seq![start, count],
                VKRgbCommandId::MixedEffectRgbGetRegions.req_capacity(),
            ),
    {
        let data = [start, count];
        assert(data@ =~= seq![start, count]);
        VKRgbCommandId::MixedEffectRgbGetRegions.to_req(data.as_slice())
    }

    /// An empty map, ready to load regions from LED 0 on.
    pub fn new_load() -> (r: Self)
        ensures
            r.start == 0,
            r.regions@.len() == 0,
    {
        VKRgbMixedRegions { start: 0, regions: Vec::new() }
    }

    /// The next request of a load of `total` regions, `None` when every
    /// region is loaded.
    pub fn load_request(&self, total: usize) -> (r: Option<VKCommand>)
        ensures
            self.regions@.len() >= total ==> r is None,
            self.regions@.len() < total ==> (r matches Some(c) && c.report@ == request_bytes(
                VKRgbCommandId::MixedEffectRgbGetRegions.cmd_header(),
                seq![
                    self.regions@.len() as u8,
                    min_int(total - self.regions@.len(), 28) as u8,
                ],
                VKRgbCommandId::MixedEffectRgbGetRegions.req_capacity(),
            )),
    {
        let loaded = self.regions.len();
        if loaded >= total {
            None
        } else {
            let count = if total - loaded < Self::MAX_REQ_ITEMS {
                total - loaded
            } else {
                Self::MAX_REQ_ITEMS
            };
            Some(Self::part_request(loaded as u8, count as u8))
        }
    }

    /// Adds the regions of `value`, the reply to
    /// [VKRgbMixedRegions::load_request], to a load of `total` regions.
    pub fn load_reply(&mut self, total: usize, value: &ViaReportData) -> (r: Result<(), VKError>)
        requires
            old(self).regions@.len() < total,
        ensures
            final(self).start == old(self).start,
            match VKRgbCommandId::MixedEffectRgbGetRegions.spec_check_reply(value@) {
                Err(e) => r == Err::<(), VKError>(e) && final(self).regions@ == old(self).regions@,
                Ok(p) => r is Ok && final(self).regions@ == old(self).regions@ + p.subrange(
                    0,
                    min_int(total - old(self).regions@.len(), 28),
                ),
            },
    {
        let loaded = self.regions.len();
        let count = if total - loaded < Self::MAX_REQ_ITEMS {
            total - loaded
        } else {
            Self::MAX_REQ_ITEMS
        };
        let payload = VKRgbCommandId::MixedEffectRgbGetRegions.check_reply(value)?;
        let part = vstd::slice::slice_subrange(payload, 0, count);
        self.regions.extend_from_slice(part);
        Ok(())
    }

    /// The requests that write the regions to the keyboard, by chunks of 28
    /// LEDs.
    pub fn send_requests(&self) -> (r: Vec<VKCommand>)
        requires
            chunk_starts_fit(self.start, self.regions@.len() as int, 28),
        ensures
            r@.len() > 0 ==> 28 * (r@.len() - 1) < self.regions@.len(),
            28 * r@.len() >= self.regions@.len(),
            forall|k: int|
                0 <= k < r@.len() ==> (#[trigger] r@[k]).report@ == request_bytes(
                    VKRgbCommandId::MixedEffectRgbSetRegions.cmd_header(),
                    regions_chunk_data(self.start, self.regions@, k),
                    VKRgbCommandId::MixedEffectRgbSetRegions.req_capacity(),
                ),
    {
        let len = self.regions.len();
        let mut reqs: Vec<VKCommand> = Vec::new();
        let mut start: usize = 0;
        while start < len
            invariant
                len == self.regions@.len(),
                chunk_starts_fit(self.start, self.regions@.len() as int, 28),
                start == min_int(28 * reqs@.len() as int, len as int),
                reqs@.len() > 0 ==> 28 * (reqs@.len() - 1) < self.regions@.len(),
                forall|k: int|
                    0 <= k < reqs@.len() ==> (#[trigger] reqs@[k]).report@ == request_bytes(
                        VKRgbCommandId::MixedEffectRgbSetRegions.cmd_header(),
                        regions_chunk_data(self.start, self.regions@, k),
                        VKRgbCommandId::MixedEffectRgbSetRegions.req_capacity(),
                    ),
            decreases len - start,
        {
            let ghost k = reqs@.len() as int;
            let count = if len - start < Self::MAX_REQ_ITEMS {
                len - start
            } else {
                Self::MAX_REQ_ITEMS
            };
            assert(chunk_start_fits(self.start, 28, k));
            let mut data: Vec<u8> = Vec::new();
            data.push(self.start + start as u8);
            data.push(count as u8);
            data.extend_from_slice(
                vstd::slice::slice_subrange(self.regions.as_slice(), start, start + count),
            );
            assert(data@ =~= regions_chunk_data(self.start, self.regions@, k));
            reqs.push(VKRgbCommandId::MixedEffectRgbSetRegions.to_req(data.as_slice()));
            start = start + count;
        }
        reqs
    }
}

/// One mixed effect.
#[derive(Debug, Clone, Copy, PartialEq, Eq, Structural)]
pub struct VKRgbMixedEffect {
    pub effect: u8,
    pub hue: u8,
    pub saturation: u8,
    pub speed: u8,
    pub time: u32,
}

/// The eight bytes that encode `e`, its time little-endian.
pub open spec fn effect_bytes(e: VKRgbMixedEffect) -> Seq<u8> {
    seq![e.effect, e.hue, e.saturation, e.speed] + le_u32_bytes(e.time)
}

/// The effect encoded by the first eight bytes of `b`.
pub open spec fn effect_of(b: Seq<u8>) -> VKRgbMixedEffect {
    VKRgbMixedEffect {
        effect: b[0],
        hue: b[1],
        saturation: b[2],
        speed: b[3],
        time: le_u32(b[4], b[5], b[6], b[7]),
    }
}

/// An effect written by [VKRgbMixedEffect::serialize] reads back unchanged
/// through [VKRgbMixedEffect::try_from].
pub proof fn lemma_effect_roundtrip(e: VKRgbMixedEffect, rest: Seq<u8>)
    ensures
        effect_of(effect_bytes(e) + rest) == e,
{
    lemma_le_u32_roundtrip(e.time);
    let b = effect_bytes(e) + rest;
    assert(b[4] == le_u32_bytes(e.time)[0]);
    assert(b[5] == le_u32_bytes(e.time)[1]);
    assert(b[6] == le_u32_bytes(e.time)[2]);
    assert(b[7] == le_u32_bytes(e.time)[3]);
}

impl VKRgbMixedEffect {
    pub const BYTE_SIZE: usize = 8;

    /// Decodes an effect from the first eight bytes of `value`.
    pub fn try_from(value: &[u8]) -> (r: Result<VKRgbMixedEffect, VKError>)
        ensures
            value@.len() < 8 ==> r == Err::<VKRgbMixedEffect, VKError>(
                VKError::InvalidMixedEffect,
            ),
            value@.len() >= 8 ==> r == Ok::<VKRgbMixedEffect, VKError>(effect_of(value@)),
    {
        if value.len() < 8 {
            Err(VKError::InvalidMixedEffect)
        } else {
            Ok(VKRgbMixedEffect {
                effect: value[0],
                hue: value[1],
                saturation: value[2],
                speed: value[3],
                time: u32_from_le_bytes(value[4], value[5], value[6], value[7]),
            })
        }
    }

    /// Writes the effect into the first eight bytes of `buffer`.
    pub fn serialize(&self, buffer: &mut [u8]) -> (r: Result<(), VKError>)
        ensures
            old(buffer)@.len() < 8 ==> r == Err::<(), VKError>(
                VKError::MixedEffectBufferTooSmall,
            ) && final(buffer)@ == old(buffer)@,
            old(buffer)@.len() >= 8 ==> r is Ok && final(buffer)@ == effect_bytes(*self) + old(
                buffer,
            )@.subrange(8, old(buffer)@.len() as int),
    {
        if buffer.len() < 8 {
            Err(VKError::MixedEffectBufferTooSmall)
        } else {
            let t = u32_to_le_bytes(self.time);
            buffer[0] = self.effect;
            buffer[1] = self.hue;
            buffer[2] = self.saturation;
            buffer[3] = self.speed;
            buffer[4] = t[0];
            buffer[5] = t[1];
            buffer[6] = t[2];
            buffer[7] = t[3];
            assert(buffer@ =~= effect_bytes(*self) + old(buffer)@.subrange(
                8,
                old(buffer)@.len() as int,
            ));
            Ok(())
        }
    }
}

/// Appends the eight bytes of `e` to `buf`.
fn push_effect(buf: &mut Vec<u8>, e: &VKRgbMixedEffect)
    ensures
        final(buf)@ == old(buf)@ + effect_bytes(*e),
{
    let t = u32_to_le_bytes(e.time);
    buf.push(e.effect);
    buf.push(e.hue);
    buf.push(e.saturation);
    buf.push(e.speed);
    buf.push(t[0]);
    buf.push(t[1]);
    buf.push(t[2]);
    buf.push(t[3]);
    assert(buf@ =~= old(buf)@ + effect_bytes(*e));
}

/// `items` are the effects encoded in the first `8 * items.len()` bytes of
/// `b`.
pub open spec fn effects_decode(b: Seq<u8>, items: Seq<VKRgbMixedEffect>) -> bool {
    forall|i: int|
        0 <= i < items.len() ==> #[trigger] items[i] == effect_of(b.subrange(8 * i, 8 * i + 8))
}

/// The bytes that encode `items`, eight bytes each.
pub open spec fn effects_bytes(items: Seq<VKRgbMixedEffect>) -> Seq<u8>
    decreases items.len(),
{
    if items.len() == 0 {
        Seq::empty()
    } else {
        effects_bytes(items.drop_last()) + effect_bytes(items.last())
    }
}

/// Decoding reads back what encoding writes: the encoding of `items` takes
/// eight bytes per effect, effect `i` at `8 * i`, and the effects decoded
/// from it, whatever follows, are `items`.
pub proof fn lemma_effects_roundtrip(items: Seq<VKRgbMixedEffect>, rest: Seq<u8>)
    ensures
        effects_bytes(items).len() == 8 * items.len(),
        effects_decode(effects_bytes(items) + rest, items),
    decreases items.len(),
{
    if items.len() > 0 {
        let init = items.drop_last();
        let last = items.last();
        lemma_effects_roundtrip(init, effect_bytes(last) + rest);
        let b = effects_bytes(items) + rest;
        assert(b =~= effects_bytes(init) + (effect_bytes(last) + rest));
        lemma_effect_roundtrip(last, Seq::empty());
        assert forall|i: int| 0 <= i < items.len() implies #[trigger] items[i] == effect_of(
            b.subrange(8 * i, 8 * i + 8),
        ) by {
            if i < init.len() {
                assert(items[i] == init[i]);
            } else {
                assert(b.subrange(8 * i, 8 * i + 8) =~= effect_bytes(last) + Seq::<u8>::empty());
            }
        }
    }
}

/// Decodes the first `n` effects of a reply payload `p`.
fn parse_effects(p: &[u8], n: usize) -> (r: Result<Vec<VKRgbMixedEffect>, VKError>)
    requires
        p@.len() == 29,
    ensures
        n > 3 ==> r == Err::<Vec<VKRgbMixedEffect>, VKError>(VKError::InvalidMixedEffect),
        n <= 3 ==> (r matches Ok(items) && items@.len() == n && effects_decode(p@, items@)),
{
    let mut items: Vec<VKRgbMixedEffect> = Vec::new();
    let mut i: usize = 0;
    while i < n
        invariant
            p@.len() == 29,
            i <= n,
            i <= 3,
            items@.len() == i,
            effects_decode(p@, items@),
        decreases n - i,
    {
        let rest = vstd::slice::slice_subrange(p, 8 * i, 29);
        let e = VKRgbMixedEffect::try_from(rest)?;
        assert(rest@.subrange(0, 8) =~= p@.subrange(8 * i, 8 * i + 8));
        items.push(e);
        i = i + 1;
    }
    Ok(items)
}

/// The data of the `k`-th request that writes the effects `effects` of
/// region `region` from effect `start` on.
pub open spec fn effects_chunk_data(
    region: u8,
    start: u8,
    effects: Seq<VKRgbMixedEffect>,
    k: int,
) -> Seq<u8> {
    let s = 3 * k;
    let n = min_int(effects.len() - s, 3);
    seq![region, (start + (s as u8)) as u8, n as u8] + effects_bytes(effects.subrange(s, s + n))
}

/// The effects of a region, from effect `start` on.
#[derive(Debug, Clone, PartialEq, Eq)]
pub struct VKRgbMixedEffectList {
    pub region: u8,
    pub start: u8,
    pub effects: Vec<VKRgbMixedEffect>,
}

impl VKRgbMixedEffectList {
    /// Most effects that one request can carry.
    pub const MAX_REQ_ITEMS: usize = 3;

    /// The request for `count` effects of region `region` from effect
    /// `start` on.
    pub fn part_request(region: u8, start: u8, count: u8) -> (r: VKCommand)
        ensures
            r.report@ == request_bytes(
                VKRgbCommandId::MixedEffectRgbGetEffectList.cmd_header(),
                seq![region, start, count],
                VKRgbCommandId::MixedEffectRgbGetEffectList.req_capacity(),
            ),
    {
        let data = [region, start, count];
        assert(data@ =~= seq![region, start, count]);
        VKRgbCommandId::MixedEffectRgbGetEffectList.to_req(data.as_slice())
    }

    /// Decodes the reply to [VKRgbMixedEffectList::part_request]: a reply
    /// holds at most three effects.
    pub fn from_part_reply(value: &ViaReportData, region: u8, start: u8, count: u8) -> (r: Result<
        Self,
        VKError,
    >)
        ensures
            match VKRgbCommandId::MixedEffectRgbGetEffectList.spec_check_reply(value@) {
                Err(e) => r matches Err(f) && f == e,
                Ok(p) => if count > 3 {
                    r matches Err(f) && f == VKError::InvalidMixedEffect
                } else {
                    r matches Ok(l) && l.region == region && l.start == start && l.effects@.len()
                        == count && effects_decode(p, l.effects@)
                },
            },
    {
        let payload = VKRgbCommandId::MixedEffectRgbGetEffectList.check_reply(value)?;
        let effects = parse_effects(payload, count as usize)?;
        Ok(VKRgbMixedEffectList { region, start, effects })
    }

    /// An empty list of the effects of `region`, ready to load from effect
    /// 0 on.
    pub fn new_load(region: u8) -> (r: Self)
        ensures
            r.region == region,
            r.start == 0,
            r.effects@.len() == 0,
    {
        VKRgbMixedEffectList { region, start: 0, effects: Vec::new() }
    }

    /// The next request of a load of `total` effects, `None` when every
    /// effect is loaded.
    pub fn load_request(&self, total: usize) -> (r: Option<VKCommand>)
        ensures
            self.effects@.len() >= total ==> r is None,
            self.effects@.len() < total ==> (r matches Some(c) && c.report@ == request_bytes(
                VKRgbCommandId::MixedEffectRgbGetEffectList.cmd_header(),
                seq![
                    self.region,
                    self.effects@.len() as u8,
                    min_int(total - self.effects@.len(), 3) as u8,
                ],
                VKRgbCommandId::MixedEffectRgbGetEffectList.req_capacity(),
            )),
    {
        let loaded = self.effects.len();
        if loaded >= total {
            None
        } else {
            let count = if total - loaded < Self::MAX_REQ_ITEMS {
                total - loaded
            } else {
                Self::MAX_REQ_ITEMS
            };
            Some(Self::part_request(self.region, loaded as u8, count as u8))
        }
    }

    /// Adds the effects of `value`, the reply to
    /// [VKRgbMixedEffectList::load_request], to a load of `total` effects.
    pub fn load_reply(&mut self, total: usize, value: &ViaReportData) -> (r: Result<(), VKError>)
        requires
            old(self).effects@.len() < total,
        ensures
            final(self).region == old(self).region,
            final(self).start == old(self).start,
            match VKRgbCommandId::MixedEffectRgbGetEffectList.spec_check_reply(value@) {
                Err(e) => r == Err::<(), VKError>(e) && final(self).effects@ == old(self).effects@,
                Ok(p) => r is Ok && final(self).effects@.len() == old(self).effects@.len()
                    + min_int(total - old(self).effects@.len(), 3) && final(self).effects@.subrange(
                    0,
                    old(self).effects@.len() as int,
                ) == old(self).effects@ && effects_decode(
                    p,
                    final(self).effects@.subrange(
                        old(self).effects@.len() as int,
                        final(self).effects@.len() as int,
                    ),
                ),
            },
    {
        let loaded = self.effects.len();
        let count = if total - loaded < Self::MAX_REQ_ITEMS {
            total - loaded
        } else {
            Self::MAX_REQ_ITEMS
        };
        let payload = VKRgbCommandId::MixedEffectRgbGetEffectList.check_reply(value)?;
        let items = match parse_effects(payload, count) {
            Ok(items) => items,
            Err(e) => {
                assert(false);
                return Err(e);
            },
        };
        let mut i: usize = 0;
        while i < items.len()
            invariant
                self.region == old(self).region,
                self.start == old(self).start,
                i <= items@.len(),
                self.effects@.len() == loaded + i,
                self.effects@.subrange(0, loaded as int) == old(self).effects@,
                loaded == old(self).effects@.len(),
                forall|k: int| 0 <= k < i ==> self.effects@[loaded + k] == items@[k],
            decreases items.len() - i,
        {
            self.effects.push(items[i]);
            i = i + 1;
        }
        assert(self.effects@.subrange(loaded as int, self.effects@.len() as int) =~= items@);
        Ok(())
    }

    /// The requests that write the effects to the keyboard, by chunks of
    /// three effects.
    pub fn send_requests(&self) -> (r: Vec<VKCommand>)
        requires
            chunk_starts_fit(self.start, self.effects@.len() as int, 3),
        ensures
            r@.len() > 0 ==> 3 * (r@.len() - 1) < self.effects@.len(),
            3 * r@.len() >= self.effects@.len(),
            forall|k: int|
                0 <= k < r@.len() ==> (#[trigger] r@[k]).report@ == request_bytes(
                    VKRgbCommandId::MixedEffectRgbSetEffectList.cmd_header(),
                    effects_chunk_data(self.region, self.start, self.effects@, k),
                    VKRgbCommandId::MixedEffectRgbSetEffectList.req_capacity(),
                ),
    {
        let len = self.effects.len();
        let mut reqs: Vec<VKCommand> = Vec::new();
        let mut start: usize = 0;
        while start < len
            invariant
                len == self.effects@.len(),
                chunk_starts_fit(self.start, self.effects@.len() as int, 3),
                start == min_int(3 * reqs@.len() as int, len as int),
                reqs@.len() > 0 ==> 3 * (reqs@.len() - 1) < self.effects@.len(),
                forall|k: int|
                    0 <= k < reqs@.len() ==> (#[trigger] reqs@[k]).report@ == request_bytes(
                        VKRgbCommandId::MixedEffectRgbSetEffectList.cmd_header(),
                        effects_chunk_data(self.region, self.start, self.effects@, k),
                        VKRgbCommandId::MixedEffectRgbSetEffectList.req_capacity(),
                    ),
            decreases len - start,
        {
            let ghost k = reqs@.len() as int;
            let count = if len - start < Self::MAX_REQ_ITEMS {
                len - start
            } else {
                Self::MAX_REQ_ITEMS
            };
            assert(chunk_start_fits(self.start, 3, k));
            let mut data: Vec<u8> = Vec::new();
            data.push(self.region);
            data.push(self.start + start as u8);
            data.push(count as u8);
            let mut i: usize = 0;
            while i < count
                invariant
                    i <= count <= 3,
                    start + count <= len,
                    len == self.effects@.len(),
                    data@ == seq![self.region, (self.start + (start as u8)) as u8, count as u8]
                        + effects_bytes(self.effects@.subrange(start as int, start + i)),
                decreases count - i,
            {
                push_effect(&mut data, &self.effects[start + i]);
                assert(self.effects@.subrange(start as int, start + i + 1).drop_last()
                    =~= self.effects@.subrange(start as int, start + i));
                i = i + 1;
            }
            assert(data@ =~= effects_chunk_data(self.region, self.start, self.effects@, k));
            reqs.push(VKRgbCommandId::MixedEffectRgbSetEffectList.to_req(data.as_slice()));
            start = start + count;
        }
        reqs
    }
}

} // verus!
