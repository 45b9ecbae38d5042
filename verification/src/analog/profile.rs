use vstd::prelude::*;

use crate::analog::key_config::{spec_key_mode, VKAnalogGamepadData, VKAnalogKeyConfig};
use crate::analog::okmc::{VKOkmcConfig, VKOkmcTravel};
use crate::analog::socd::{VKSocdConfig, VKSocdType};
use crate::analog::VKAnalogCommandId;
use crate::command::{request_bytes, zeros, VKCommand, VKCommandMaker};
use crate::data::{le_u16, u16_from_le_bytes, ViaReportData};
use crate::error::VKError;
use crate::rgb::min_int;
use crate::text::{
    lemma_utf16_encode_nonzero, lemma_utf16_roundtrip, str_to_utf16, utf16_decode, utf16_encode,
    utf16_to_string,
};

verus! {

/// Profile information of an analog keyboard, as read from it: current
/// profile, profile count, raw profile size, OKMC and SOCD counts, matrix
/// rows and columns.
#[derive(Debug, Clone, PartialEq, Eq)]
pub struct VKAnalogProfileInfo {
    pub data: Vec<u8>,
}

impl VKAnalogProfileInfo {
    /// Decodes the reply to [VKAnalogCommandId::GetProfilesInfo].
    pub fn try_from(value: ViaReportData) -> (r: Result<Self, VKError>)
        ensures
            match VKAnalogCommandId::GetProfilesInfo.spec_check_reply(value@) {
                Err(e) => r matches Err(f) && f == e,
                Ok(p) => r matches Ok(i) && i.data@ == p,
            },
    {
        let payload = VKAnalogCommandId::GetProfilesInfo.check_reply(&value)?;
        Ok(VKAnalogProfileInfo { data: vstd::slice::slice_to_vec(payload) })
    }

    /// The request for the matrix size, which the profile information
    /// reply leaves out.
    pub fn key_count_request() -> (r: VKCommand)
        ensures
            r.report@ == request_bytes(
                VKAnalogCommandId::GetCalibratedValue.cmd_header(),
                seq![0xFFu8, 0xFFu8],
                VKAnalogCommandId::GetCalibratedValue.req_capacity(),
            ),
    {
        let data = [0xFFu8, 0xFFu8];
        assert(data@ =~= seq![0xFFu8, 0xFFu8]);
        VKAnalogCommandId::GetCalibratedValue.to_req(data.as_slice())
    }

    /// Takes the matrix rows and columns from `value`, the reply to
    /// [VKAnalogProfileInfo::key_count_request].
    pub fn load_key_count(&mut self, value: &ViaReportData) -> (r: Result<(), VKError>)
        requires
            old(self).data@.len() >= 8,
        ensures
            match VKAnalogCommandId::GetCalibratedValue.spec_check_reply(value@) {
                Err(e) => r == Err::<(), VKError>(e) && final(self).data@ == old(self).data@,
                Ok(p) => r is Ok && final(self).data@ == old(self).data@.update(6, p[0]).update(
                    7,
                    p[2],
                ),
            },
    {
        let payload = VKAnalogCommandId::GetCalibratedValue.check_reply(value)?;
        self.data.set(6, payload[0]);
        self.data.set(7, payload[2]);
        Ok(())
    }

    /// The request that makes profile `index` the current one.
    pub fn select_request(index: usize) -> (r: VKCommand)
        ensures
            r.report@ == request_bytes(
                VKAnalogCommandId::SelectProfile.cmd_header(),
                seq![index as u8],
                VKAnalogCommandId::SelectProfile.req_capacity(),
            ),
    {
        let data = [#[verifier::truncate] (index as u8)];
        assert(data@ =~= seq![index as u8]);
        VKAnalogCommandId::SelectProfile.to_req(data.as_slice())
    }

    /// Records profile `index` as the current one, once the keyboard has
    /// accepted [VKAnalogProfileInfo::select_request].
    pub fn set_current_profile(&mut self, index: usize)
        requires
            old(self).data@.len() >= 1,
        ensures
            final(self).data@ == old(self).data@.update(0, index as u8),
    {
        self.data.set(0, #[verifier::truncate] (index as u8));
    }

    /// The request that saves profile `index`.
    pub fn save_request(index: usize) -> (r: VKCommand)
        ensures
            r.report@ == request_bytes(
                VKAnalogCommandId::SaveProfile.cmd_header(),
                seq![index as u8],
                VKAnalogCommandId::SaveProfile.req_capacity(),
            ),
    {
        let data = [#[verifier::truncate] (index as u8)];
        assert(data@ =~= seq![index as u8]);
        VKAnalogCommandId::SaveProfile.to_req(data.as_slice())
    }

    /// The index of the current profile.
    pub fn get_current_profile(&self) -> (r: usize)
        requires
            self.data@.len() >= 1,
        ensures
            r == self.data@[0],
    {
        self.data[0] as usize
    }

    /// The number of profiles.
    pub fn get_profile_count(&self) -> (r: usize)
        requires
            self.data@.len() >= 2,
        ensures
            r == self.data@[1],
    {
        self.data[1] as usize
    }

    /// The size of a raw profile in bytes.
    pub fn get_raw_profile_byte_size(&self) -> (r: usize)
        requires
            self.data@.len() >= 4,
        ensures
            r == le_u16(self.data@[2], self.data@[3]),
    {
        u16_from_le_bytes(self.data[2], self.data[3]) as usize
    }

    /// The number of one-key-multiple-commands configurations.
    pub fn get_okmc_count(&self) -> (r: usize)
        requires
            self.data@.len() >= 5,
        ensures
            r == self.data@[4],
    {
        self.data[4] as usize
    }

    /// The number of simultaneous-opposing-cardinal-directions
    /// configurations.
    pub fn get_socd_count(&self) -> (r: usize)
        requires
            self.data@.len() >= 6,
        ensures
            r == self.data@[5],
    {
        self.data[5] as usize
    }

    /// The number of matrix rows.
    pub fn get_row_count(&self) -> (r: usize)
        requires
            self.data@.len() >= 7,
        ensures
            r == self.data@[6],
    {
        self.data[6] as usize
    }

    /// The number of matrix columns.
    pub fn get_col_count(&self) -> (r: usize)
        requires
            self.data@.len() >= 8,
        ensures
            r == self.data@[7],
    {
        self.data[7] as usize
    }

    /// The number of keys: rows times columns.
    pub fn get_key_count(&self) -> (r: usize)
        requires
            self.data@.len() >= 8,
        ensures
            r == self.data@[6] * self.data@[7],
    {
        let rows = self.get_row_count();
        let cols = self.get_col_count();
        assert(rows * cols <= 255 * 255) by (nonlinear_arith)
            requires
                rows <= 255,
                cols <= 255,
        ;
        rows * cols
    }
}

/// The offset of the configuration of key `index` in a raw profile; the
/// global configuration comes first.
pub open spec fn key_config_offset(index: int) -> int {
    (1 + index) * 4
}

/// The offset of OKMC configuration `index` in a raw profile of
/// `key_count` keys.
pub open spec fn okmc_config_offset(key_count: int, index: int) -> int {
    (1 + key_count) * 4 + index * 19
}

/// The offset of SOCD configuration `index` in a raw profile of
/// `key_count` keys and `okmc_count` OKMC configurations.
pub open spec fn socd_config_offset(key_count: int, okmc_count: int, index: int) -> int {
    (1 + key_count) * 4 + okmc_count * 19 + index * 3
}

/// The offset of the name in a raw profile.
pub open spec fn name_offset(key_count: int, okmc_count: int, socd_count: int) -> int {
    socd_config_offset(key_count, okmc_count, socd_count)
}

/// The parts of a raw profile are packed back to back, each with its own
/// size: the global key configuration at 0, one key configuration after it
/// per key, then the OKMC configurations (travel bytes, then two bytes per
/// keycode and two action bytes per keycode), then the SOCD configurations,
/// then the name.
pub proof fn lemma_profile_layout(key_count: int, okmc_count: int, socd_count: int, i: int)
    ensures
        key_config_offset(-1) == 0,
        key_config_offset(i + 1) == key_config_offset(i) + VKAnalogKeyConfig::BYTE_SIZE,
        okmc_config_offset(key_count, 0) == key_config_offset(key_count),
        okmc_config_offset(key_count, i + 1) == okmc_config_offset(key_count, i)
            + VKOkmcConfig::BYTE_SIZE,
        VKOkmcConfig::BYTE_SIZE == VKOkmcTravel::BYTE_SIZE + 2 * VKOkmcConfig::KEYCODE_COUNT + 2
            * VKOkmcConfig::KEYCODE_COUNT,
        socd_config_offset(key_count, okmc_count, 0) == okmc_config_offset(key_count, okmc_count),
        socd_config_offset(key_count, okmc_count, i + 1) == socd_config_offset(
            key_count,
            okmc_count,
            i,
        ) + VKSocdConfig::BYTE_SIZE,
        name_offset(key_count, okmc_count, socd_count) == socd_config_offset(
            key_count,
            okmc_count,
            socd_count,
        ),
{
}

/// The configuration bytes of key `index` in the raw profile `d`.
pub open spec fn key_config_bytes(d: Seq<u8>, index: int) -> Seq<u8> {
    d.subrange(key_config_offset(index), key_config_offset(index) + 4)
}

/// The indices below `n` of the keys of the raw profile `d` whose mode is
/// valid, in increasing order.
pub open spec fn valid_key_indices(d: Seq<u8>, n: nat) -> Seq<usize>
    decreases n,
{
    if n == 0 {
        Seq::empty()
    } else {
        let prev = valid_key_indices(d, (n - 1) as nat);
        if spec_key_mode(key_config_bytes(d, n - 1)) is Ok {
            prev.push((n - 1) as usize)
        } else {
            prev
        }
    }
}

/// The bytes of SOCD configuration `index` in the raw profile `d`.
pub open spec fn socd_config_bytes(d: Seq<u8>, key_count: int, okmc_count: int, index: int) -> Seq<
    u8,
> {
    d.subrange(
        socd_config_offset(key_count, okmc_count, index),
        socd_config_offset(key_count, okmc_count, index) + 3,
    )
}

/// The indices below `n` of the SOCD configurations of the raw profile `d`
/// whose type is valid, in increasing order.
pub open spec fn valid_socd_indices(d: Seq<u8>, key_count: int, okmc_count: int, n: nat) -> Seq<
    usize,
>
    decreases n,
{
    if n == 0 {
        Seq::empty()
    } else {
        let prev = valid_socd_indices(d, key_count, okmc_count, (n - 1) as nat);
        if VKSocdType::spec_try_from(socd_config_bytes(d, key_count, okmc_count, n - 1)[2]) is Ok {
            prev.push((n - 1) as usize)
        } else {
            prev
        }
    }
}

/// The 16-bit value of the big-endian bytes `hi`, `lo`.
pub open spec fn be_u16(hi: u8, lo: u8) -> u16 {
    (hi * 256 + lo) as u16
}

/// The big-endian 16-bit values of the byte pairs of `b`; a trailing odd
/// byte is left out.
pub open spec fn be_pairs(b: Seq<u8>) -> Seq<u16> {
    Seq::new(b.len() / 2, |i: int| be_u16(b[2 * i], b[2 * i + 1]))
}

/// The big-endian bytes of the 16-bit values `u`.
pub open spec fn be_bytes(u: Seq<u16>) -> Seq<u8> {
    Seq::new(
        2 * u.len(),
        |i: int|
            if i % 2 == 0 {
                (u[i / 2] / 256) as u8
            } else {
                (u[i / 2] % 256) as u8
            },
    )
}

/// The values of `u` up to, not including, the first zero.
pub open spec fn units_until_zero(u: Seq<u16>) -> Seq<u16>
    decreases u.len(),
{
    if u.len() == 0 || u[0] == 0 {
        Seq::empty()
    } else {
        seq![u[0]] + units_until_zero(u.subrange(1, u.len() as int))
    }
}

/// When the first `k` values of `u` are nonzero and the one after them is
/// zero or missing, they are the values up to the first zero.
proof fn lemma_units_until_zero_prefix(u: Seq<u16>, k: int)
    requires
        0 <= k <= u.len(),
        forall|j: int| 0 <= j < k ==> u[j] != 0,
        k == u.len() || u[k] == 0,
    ensures
        units_until_zero(u) == u.subrange(0, k),
    decreases k,
{
    if k == 0 {
        assert(u.subrange(0, 0) =~= Seq::<u16>::empty());
    } else {
        let rest = u.subrange(1, u.len() as int);
        lemma_units_until_zero_prefix(rest, k - 1);
        assert(seq![u[0]] + rest.subrange(0, k - 1) =~= u.subrange(0, k));
    }
}

/// The name of a raw profile `d` whose name starts at `pos`: big-endian
/// UTF-16 up to the first zero unit, in the bytes up to the last two.
pub open spec fn spec_profile_name(d: Seq<u8>, pos: int) -> Result<Seq<char>, VKError> {
    match utf16_decode(units_until_zero(be_pairs(d.subrange(pos, d.len() - 2)))) {
        Some(s) => Ok(s),
        None => Err(VKError::InvalidUtf16),
    }
}

/// The 28 bytes of the name field holding `s`: its big-endian UTF-16 bytes,
/// cut to the field or padded with zeros.
pub open spec fn name_field(s: Seq<char>) -> Seq<u8> {
    let b = be_bytes(utf16_encode(s));
    if b.len() <= 28 {
        b + zeros(28 - b.len())
    } else {
        b.subrange(0, 28)
    }
}

/// The raw profile `d` with the name field at `pos` holding `s`.
pub open spec fn with_name(d: Seq<u8>, pos: int, s: Seq<char>) -> Seq<u8> {
    d.subrange(0, pos) + name_field(s) + d.subrange(pos + 28, d.len() as int)
}

/// Whether `s` fits in the name field: 14 UTF-16 code units at most.
pub open spec fn name_fits(s: Seq<char>) -> bool {
    utf16_encode(s).len() <= 14
}

/// A name written into the name field of a raw profile that ends with it
/// reads back unchanged, when it fits and holds no NUL character.
pub proof fn lemma_profile_name_roundtrip(d: Seq<u8>, pos: int, s: Seq<char>)
    requires
        0 <= pos,
        d.len() == pos + 30,
        name_fits(s),
        forall|i: int| 0 <= i < s.len() ==> s[i] != '\0',
    ensures
        spec_profile_name(with_name(d, pos, s), pos) == Ok::<Seq<char>, VKError>(s),
{
    let u = utf16_encode(s);
    let n = u.len() as int;
    let e = with_name(d, pos, s);
    let b = e.subrange(pos, e.len() - 2);
    lemma_utf16_encode_nonzero(s);
    lemma_utf16_roundtrip(s);
    assert(b =~= be_bytes(u) + zeros(28 - 2 * n));
    let p = be_pairs(b);
    assert(p.len() == 14);
    assert forall|j: int| 0 <= j < n implies p[j] == u[j] by {
        assert(b[2 * j] == (u[j] / 256) as u8);
        assert(b[2 * j + 1] == (u[j] % 256) as u8);
    }
    assert forall|j: int| n <= j < 14 implies p[j] == 0 by {
        assert(b[2 * j] == 0 && b[2 * j + 1] == 0);
    }
    assert forall|j: int| 0 <= j < n implies p[j] != 0 by {
        assert(u[j] != 0);
    }
    lemma_units_until_zero_prefix(p, n);
    assert(p.subrange(0, n) =~= u);
}

/// A raw profile load ends with exactly `total` bytes: while bytes are
/// missing, each accepted reply adds at least one byte and never passes
/// `total`, and [VKAnalogProfile::load_request] asks for more exactly
/// while bytes are missing.
pub proof fn lemma_raw_load_progress(loaded: nat, total: nat)
    requires
        loaded < total,
    ensures
        loaded < loaded + min_int(total - loaded, 26) <= total,
{
}

/// The argument an advanced mode is set with.
pub enum VKAdvModeArg<'a> {
    Okmc(&'a VKOkmcConfig),
    GamePad(VKAnalogGamepadData),
}

/// The bytes of the request for `size` raw profile bytes of profile `index`
/// from `offset` on.
pub open spec fn raw_request_bytes(index: usize, offset: int, size: int) -> Seq<u8> {
    request_bytes(
        VKAnalogCommandId::GetProfileRaw.cmd_header(),
        seq![index as u8, (offset % 256) as u8, ((offset / 256) % 256) as u8, size as u8],
        VKAnalogCommandId::GetProfileRaw.req_capacity(),
    )
}

/// An analog profile: its raw bytes, its index and the counts that locate
/// its parts.  The raw bytes hold the global key configuration, one
/// configuration per key, the OKMC configurations, the SOCD configurations
/// and the name.
#[derive(Debug, Clone)]
pub struct VKAnalogProfile {
    pub data: Vec<u8>,
    pub index: usize,
    pub key_count: usize,
    pub okmc_count: usize,
    pub socd_count: usize,
    pub row_count: usize,
    pub col_count: usize,
}

impl VKAnalogProfile {
    /// Most raw bytes that one reply carries.
    pub const MAX_REQ_RAW_BYTES: usize = 26;

    /// Longest name in bytes, without its terminating zero.
    pub const MAX_NAME_LEN: usize = 28;

    /// The offset of the name.
    pub open spec fn spec_name_offset(&self) -> int {
        name_offset(self.key_count as int, self.okmc_count as int, self.socd_count as int)
    }

    /// The offset of the configuration of key `index`.
    fn get_key_config_offset(&self, index: usize) -> (r: usize)
        requires
            key_config_offset(index as int) <= usize::MAX,
        ensures
            r == key_config_offset(index as int),
    {
        (1 + index) * 4
    }

    /// The offset of OKMC configuration `index`.
    fn get_okmc_config_offset(&self, index: usize) -> (r: usize)
        requires
            okmc_config_offset(self.key_count as int, index as int) <= usize::MAX,
        ensures
            r == okmc_config_offset(self.key_count as int, index as int),
    {
        (1 + self.key_count) * 4 + index * 19
    }

    /// The global key configuration.
    pub fn get_global_key_config(&self) -> (r: Result<VKAnalogKeyConfig, VKError>)
        requires
            self.data@.len() >= 4,
        ensures
            match spec_key_mode(self.data@.subrange(0, 4)) {
                Err(e) => r == Err::<VKAnalogKeyConfig, VKError>(e),
                Ok(_) => r matches Ok(c) && c.data@ == self.data@.subrange(0, 4) && c.index is None
                    && c.profile is None,
            },
    {
        VKAnalogKeyConfig::try_from(vstd::slice::slice_subrange(self.data.as_slice(), 0, 4))
    }

    /// The configuration of key `index`, tied to this profile.
    pub fn get_key_config(&self, index: usize) -> (r: Result<VKAnalogKeyConfig, VKError>)
        requires
            index < self.key_count ==> key_config_offset(index as int) + 4 <= self.data@.len(),
        ensures
            index >= self.key_count ==> r == Err::<VKAnalogKeyConfig, VKError>(
                VKError::NoSuchKey(index),
            ),
            index < self.key_count ==> match spec_key_mode(key_config_bytes(self.data@, index as int)) {
                Err(e) => r == Err::<VKAnalogKeyConfig, VKError>(e),
                Ok(_) => r matches Ok(c) && c.data@ == key_config_bytes(self.data@, index as int)
                    && c.index == Some(index) && c.profile == Some(self.index),
            },
    {
        if index >= self.key_count {
            return Err(VKError::NoSuchKey(index));
        }
        let n = self.data.len();
        assert(key_config_offset(index as int) + 4 <= n);
        let pos = self.get_key_config_offset(index);
        let mut c = VKAnalogKeyConfig::try_from(
            vstd::slice::slice_subrange(self.data.as_slice(), pos, pos + 4),
        )?;
        c.index = Some(index);
        c.profile = Some(self.index);
        Ok(c)
    }

    /// The configurations of the keys whose mode is valid, in key order.
    pub fn iter_key_config(&self) -> (r: Vec<VKAnalogKeyConfig>)
        requires
            key_config_offset(self.key_count as int) <= self.data@.len(),
        ensures
            r@.len() == valid_key_indices(self.data@, self.key_count as nat).len(),
            forall|j: int|
                0 <= j < r@.len() ==> {
                    let i = #[trigger] valid_key_indices(self.data@, self.key_count as nat)[j];
                    &&& r@[j].data@ == key_config_bytes(self.data@, i as int)
                    &&& r@[j].index == Some(i)
                    &&& r@[j].profile == Some(self.index)
                },
    {
        let mut r: Vec<VKAnalogKeyConfig> = Vec::new();
        let mut i: usize = 0;
        while i < self.key_count
            invariant
                i <= self.key_count,
                key_config_offset(self.key_count as int) <= self.data@.len(),
                r@.len() == valid_key_indices(self.data@, i as nat).len(),
                forall|j: int|
                    0 <= j < r@.len() ==> {
                        let k = #[trigger] valid_key_indices(self.data@, i as nat)[j];
                        &&& r@[j].data@ == key_config_bytes(self.data@, k as int)
                        &&& r@[j].index == Some(k)
                        &&& r@[j].profile == Some(self.index)
                    },
            decreases self.key_count - i,
        {
            let ghost prev = valid_key_indices(self.data@, i as nat);
            assert(valid_key_indices(self.data@, (i + 1) as nat) == if spec_key_mode(
                key_config_bytes(self.data@, i as int),
            ) is Ok {
                prev.push(i)
            } else {
                prev
            });
            match self.get_key_config(i) {
                Ok(c) => {
                    r.push(c);
                },
                Err(_) => {},
            }
            i = i + 1;
        }
        r
    }

    /// OKMC configuration `index`.
    pub fn get_okmc_config(&self, index: usize) -> (r: Result<VKOkmcConfig, VKError>)
        requires
            index < self.okmc_count ==> okmc_config_offset(self.key_count as int, index as int) + 19
                <= self.data@.len(),
        ensures
            index >= self.okmc_count ==> r == Err::<VKOkmcConfig, VKError>(VKError::NoSuchOkmc(index)),
            index < self.okmc_count ==> (r matches Ok(c) && c.data@ == self.data@.subrange(
                okmc_config_offset(self.key_count as int, index as int),
                okmc_config_offset(self.key_count as int, index as int) + 19,
            ) && c.index == index),
    {
        if index >= self.okmc_count {
            return Err(VKError::NoSuchOkmc(index));
        }
        let n = self.data.len();
        assert(okmc_config_offset(self.key_count as int, index as int) + 19 <= n);
        let pos = self.get_okmc_config_offset(index);
        VKOkmcConfig::try_from(
            vstd::slice::slice_subrange(self.data.as_slice(), pos, pos + 19),
            index,
        )
    }

    /// Every OKMC configuration, in order.
    pub fn iter_okmc_config(&self) -> (r: Vec<VKOkmcConfig>)
        requires
            okmc_config_offset(self.key_count as int, self.okmc_count as int) <= self.data@.len(),
        ensures
            r@.len() == self.okmc_count,
            forall|j: int|
                0 <= j < r@.len() ==> (#[trigger] r@[j]).data@ == self.data@.subrange(
                    okmc_config_offset(self.key_count as int, j),
                    okmc_config_offset(self.key_count as int, j) + 19,
                ) && r@[j].index == j,
    {
        let mut r: Vec<VKOkmcConfig> = Vec::new();
        let mut i: usize = 0;
        while i < self.okmc_count
            invariant
                i <= self.okmc_count,
                okmc_config_offset(self.key_count as int, self.okmc_count as int) <= self.data@.len(),
                r@.len() == i,
                forall|j: int|
                    0 <= j < i ==> (#[trigger] r@[j]).data@ == self.data@.subrange(
                        okmc_config_offset(self.key_count as int, j),
                        okmc_config_offset(self.key_count as int, j) + 19,
                    ) && r@[j].index == j,
            decreases self.okmc_count - i,
        {
            match self.get_okmc_config(i) {
                Ok(c) => r.push(c),
                Err(_) => {
                    assert(false);
                },
            }
            i = i + 1;
        }
        r
    }

    /// SOCD configuration `index`, on this profile's column count cut to a
    /// byte.
    pub fn get_socd_config(&self, index: usize) -> (r: Result<VKSocdConfig, VKError>)
        requires
            index < self.socd_count ==> socd_config_offset(
                self.key_count as int,
                self.okmc_count as int,
                index as int,
            ) + 3 <= self.data@.len(),
        ensures
            index >= self.socd_count ==> r == Err::<VKSocdConfig, VKError>(VKError::NoSuchSocd(index)),
            index < self.socd_count ==> match VKSocdType::spec_try_from(
                socd_config_bytes(
                    self.data@,
                    self.key_count as int,
                    self.okmc_count as int,
                    index as int,
                )[2],
            ) {
                Err(e) => r == Err::<VKSocdConfig, VKError>(e),
                Ok(_) => r matches Ok(c) && c@ == socd_config_bytes(
                    self.data@,
                    self.key_count as int,
                    self.okmc_count as int,
                    index as int,
                ) && c.spec_col_count() == self.col_count as u8,
            },
    {
        if index >= self.socd_count {
            return Err(VKError::NoSuchSocd(index));
        }
        let n = self.data.len();
        assert(socd_config_offset(self.key_count as int, self.okmc_count as int, index as int) + 3
            <= n);
        let pos = (1 + self.key_count) * 4 + self.okmc_count * 19 + index * 3;
        VKSocdConfig::try_from(
            vstd::slice::slice_subrange(self.data.as_slice(), pos, pos + 3),
            #[verifier::truncate] (self.col_count as u8),
        )
    }

    /// The SOCD configurations whose type is valid, in order.
    pub fn iter_socd_config(&self) -> (r: Vec<VKSocdConfig>)
        requires
            socd_config_offset(self.key_count as int, self.okmc_count as int, self.socd_count as int)
                <= self.data@.len(),
        ensures
            r@.len() == valid_socd_indices(
                self.data@,
                self.key_count as int,
                self.okmc_count as int,
                self.socd_count as nat,
            ).len(),
            forall|j: int|
                0 <= j < r@.len() ==> {
                    let i = #[trigger] valid_socd_indices(
                        self.data@,
                        self.key_count as int,
                        self.okmc_count as int,
                        self.socd_count as nat,
                    )[j];
                    &&& r@[j]@ == socd_config_bytes(
                        self.data@,
                        self.key_count as int,
                        self.okmc_count as int,
                        i as int,
                    )
                    &&& r@[j].spec_col_count() == self.col_count as u8
                },
    {
        let mut r: Vec<VKSocdConfig> = Vec::new();
        let mut i: usize = 0;
        while i < self.socd_count
            invariant
                i <= self.socd_count,
                socd_config_offset(
                    self.key_count as int,
                    self.okmc_count as int,
                    self.socd_count as int,
                ) <= self.data@.len(),
                r@.len() == valid_socd_indices(
                    self.data@,
                    self.key_count as int,
                    self.okmc_count as int,
                    i as nat,
                ).len(),
                forall|j: int|
                    0 <= j < r@.len() ==> {
                        let k = #[trigger] valid_socd_indices(
                            self.data@,
                            self.key_count as int,
                            self.okmc_count as int,
                            i as nat,
                        )[j];
                        &&& r@[j]@ == socd_config_bytes(
                            self.data@,
                            self.key_count as int,
                            self.okmc_count as int,
                            k as int,
                        )
                        &&& r@[j].spec_col_count() == self.col_count as u8
                    },
            decreases self.socd_count - i,
        {
            let ghost prev = valid_socd_indices(
                self.data@,
                self.key_count as int,
                self.okmc_count as int,
                i as nat,
            );
            assert(valid_socd_indices(
                self.data@,
                self.key_count as int,
                self.okmc_count as int,
                (i + 1) as nat,
            ) == if VKSocdType::spec_try_from(
                socd_config_bytes(self.data@, self.key_count as int, self.okmc_count as int, i as int)[2],
            ) is Ok {
                prev.push(i)
            } else {
                prev
            });
            match self.get_socd_config(i) {
                Ok(c) => {
                    r.push(c);
                },
                Err(_) => {},
            }
            i = i + 1;
        }
        r
    }
    /// The name: big-endian UTF-16 from the name offset up to the first
    /// zero unit or the last two bytes.
    pub fn get_name(&self) -> (r: Result<String, VKError>)
        requires
            self.spec_name_offset() + 2 <= self.data@.len(),
        ensures
            match spec_profile_name(self.data@, self.spec_name_offset()) {
                Ok(s) => r matches Ok(t) && t@ == s,
                Err(e) => r matches Err(f) && f == e,
            },
    {
        let n = self.data.len();
        let pos = (1 + self.key_count) * 4 + self.okmc_count * 19 + self.socd_count * 3;
        let end = n - 2;
        let ghost b = self.data@.subrange(pos as int, end as int);
        let ghost p = be_pairs(b);
        let mut units: Vec<u16> = Vec::new();
        let mut i = pos;
        let mut done = false;
        while !done && i + 1 < end
            invariant
                pos <= i <= end,
                n == self.data@.len(),
                end == n - 2,
                b == self.data@.subrange(pos as int, end as int),
                p == be_pairs(b),
                (i - pos) % 2 == 0,
                units@ == p.subrange(0, (i - pos) / 2),
                forall|j: int| 0 <= j < units@.len() ==> units@[j] != 0,
                done ==> (i - pos) / 2 < p.len() && p[(i - pos) / 2] == 0,
            decreases end - i, if done { 0int } else { 1int },
        {
            let hi = self.data[i];
            let lo = self.data[i + 1];
            let u = ((hi as u16) << 8u16) | (lo as u16);
            assert(((hi as u16) << 8u16) | (lo as u16) == be_u16(hi, lo)) by (bit_vector);
            assert(p[(i - pos) / 2] == be_u16(b[i - pos], b[i - pos + 1]));
            if u == 0 {
                done = true;
            } else {
                units.push(u);
                i = i + 2;
                assert(units@ =~= p.subrange(0, (i - pos) / 2));
            }
        }
        proof {
            let k = (i - pos) / 2;
            assert forall|j: int| 0 <= j < k implies p[j] != 0 by {
                assert(units@[j] == p[j]);
            }
            lemma_units_until_zero_prefix(p, k);
        }
        match utf16_to_string(units.as_slice()) {
            Some(name) => Ok(name),
            None => Err(VKError::InvalidUtf16),
        }
    }

    /// Writes `name` into the name field, as big-endian UTF-16 padded with
    /// zeros; a name longer than the field fails with its first 28 bytes
    /// written.
    pub fn set_name(&mut self, name: &str) -> (r: Result<(), VKError>)
        requires
            old(self).spec_name_offset() + 28 <= old(self).data@.len(),
        ensures
            final(self).data@ == with_name(old(self).data@, old(self).spec_name_offset(), name@),
            r is Ok <==> name_fits(name@),
            r matches Err(e) ==> e == VKError::NameTooLong,
            final(self).index == old(self).index,
            final(self).key_count == old(self).key_count,
            final(self).okmc_count == old(self).okmc_count,
            final(self).socd_count == old(self).socd_count,
            final(self).row_count == old(self).row_count,
            final(self).col_count == old(self).col_count,
    {
        let n = self.data.len();
        let pos = (1 + self.key_count) * 4 + self.okmc_count * 19 + self.socd_count * 3;
        let units = str_to_utf16(name);
        let ghost d = self.data@;
        let ghost u = units@;
        let mut k: usize = 0;
        while k < units.len()
            invariant
                pos + 28 <= n,
                n == d.len(),
                u == units@,
                u == utf16_encode(name@),
                k <= u.len(),
                2 * k <= 28,
                pos == old(self).spec_name_offset(),
                d == old(self).data@,
                self.index == old(self).index,
                self.key_count == old(self).key_count,
                self.okmc_count == old(self).okmc_count,
                self.socd_count == old(self).socd_count,
                self.row_count == old(self).row_count,
                self.col_count == old(self).col_count,
                self.data@ == d.subrange(0, pos as int) + be_bytes(u.subrange(0, k as int))
                    + d.subrange(pos + 2 * k, n as int),
            decreases units.len() - k,
        {
            if 2 * k + 2 > 28 {
                proof {
                    assert(be_bytes(u).subrange(0, 28) =~= be_bytes(u.subrange(0, k as int)));
                    assert(self.data@ =~= with_name(d, pos as int, name@));
                }
                return Err(VKError::NameTooLong);
            }
            let v = units[k];
            let hi = #[verifier::truncate] ((v >> 8u16) as u8);
            let lo = #[verifier::truncate] ((v & 0xFF) as u8);
            assert(((v >> 8u16) as u8) == (v / 256) as u8 && ((v & 0xFF) as u8) == (v % 256) as u8)
                by (bit_vector);
            self.data.set(pos + 2 * k, hi);
            self.data.set(pos + 2 * k + 1, lo);
            k = k + 1;
            assert(self.data@ =~= d.subrange(0, pos as int) + be_bytes(u.subrange(0, k as int))
                + d.subrange(pos + 2 * k, n as int));
        }
        assert(u.subrange(0, k as int) =~= u);
        let mut j = pos + 2 * k;
        while j < pos + 28
            invariant
                pos + 2 * k <= j <= pos + 28,
                pos + 28 <= n,
                n == self.data@.len(),
                self.data@.len() == d.len(),
                self.index == old(self).index,
                self.key_count == old(self).key_count,
                self.okmc_count == old(self).okmc_count,
                self.socd_count == old(self).socd_count,
                self.row_count == old(self).row_count,
                self.col_count == old(self).col_count,
                self.data@ == d.subrange(0, pos as int) + be_bytes(u) + zeros(j - pos - 2 * k)
                    + d.subrange(j as int, n as int),
            decreases pos + 28 - j,
        {
            self.data.set(j, 0);
            j = j + 1;
            assert(self.data@ =~= d.subrange(0, pos as int) + be_bytes(u) + zeros(j - pos - 2 * k)
                + d.subrange(j as int, n as int));
        }
        assert(self.data@ =~= with_name(d, pos as int, name@));
        Ok(())
    }

    /// The request that writes the name field to the keyboard.
    pub fn name_request(&self) -> (r: VKCommand)
        requires
            self.spec_name_offset() + 28 <= self.data@.len(),
        ensures
            r.report@ == request_bytes(
                VKAnalogCommandId::SetProfileName.cmd_header(),
                seq![self.index as u8, 28u8] + self.data@.subrange(
                    self.spec_name_offset(),
                    self.spec_name_offset() + 28,
                ),
                VKAnalogCommandId::SetProfileName.req_capacity(),
            ),
    {
        let n = self.data.len();
        let pos = (1 + self.key_count) * 4 + self.okmc_count * 19 + self.socd_count * 3;
        let mut payload: Vec<u8> = Vec::new();
        payload.push(#[verifier::truncate] (self.index as u8));
        payload.push(28);
        payload.extend_from_slice(vstd::slice::slice_subrange(self.data.as_slice(), pos, pos + 28));
        assert(payload@ =~= seq![self.index as u8, 28u8] + self.data@.subrange(
            pos as int,
            pos + 28,
        ));
        VKAnalogCommandId::SetProfileName.to_req(payload.as_slice())
    }

    /// The request that makes this profile the current one.
    pub fn select_request(&self) -> (r: VKCommand)
        ensures
            r.report@ == request_bytes(
                VKAnalogCommandId::SelectProfile.cmd_header(),
                seq![self.index as u8],
                VKAnalogCommandId::SelectProfile.req_capacity(),
            ),
    {
        VKAnalogProfileInfo::select_request(self.index)
    }

    /// The state of a load of profile `index`: no raw byte yet, the counts
    /// taken from `info`.
    pub fn new_load(index: usize, info: &VKAnalogProfileInfo) -> (r: Self)
        requires
            info.data@.len() >= 8,
        ensures
            r.data@.len() == 0,
            r.index == index,
            r.key_count == info.data@[6] * info.data@[7],
            r.okmc_count == info.data@[4],
            r.socd_count == info.data@[5],
            r.row_count == info.data@[6],
            r.col_count == info.data@[7],
    {
        VKAnalogProfile {
            data: Vec::new(),
            index,
            okmc_count: info.get_okmc_count(),
            socd_count: info.get_socd_count(),
            key_count: info.get_key_count(),
            row_count: info.get_row_count(),
            col_count: info.get_col_count(),
        }
    }

    /// The next request of a load of `total` raw bytes, `None` when every
    /// byte is loaded: at most 26 bytes from the first one missing.
    pub fn load_request(&self, total: usize) -> (r: Option<VKCommand>)
        ensures
            self.data@.len() >= total ==> r is None,
            self.data@.len() < total ==> (r matches Some(c) && c.report@ == raw_request_bytes(
                self.index,
                self.data@.len() as int,
                min_int(total - self.data@.len(), 26),
            )),
    {
        let offset = self.data.len();
        if offset >= total {
            return None;
        }
        let size = if total - offset < Self::MAX_REQ_RAW_BYTES {
            total - offset
        } else {
            Self::MAX_REQ_RAW_BYTES
        };
        let lo = #[verifier::truncate] ((offset & 0xFF) as u8);
        let hi = #[verifier::truncate] (((offset >> 8usize) & 0xFF) as u8);
        assert(((offset & 0xFF) as u8) == (offset % 256) as u8) by (bit_vector);
        assert((((offset >> 8usize) & 0xFF) as u8) == ((offset / 256) % 256) as u8) by (bit_vector);
        let data = [#[verifier::truncate] (self.index as u8), lo, hi, size as u8];
        assert(data@ =~= seq![self.index as u8, lo, hi, size as u8]);
        Some(VKAnalogCommandId::GetProfileRaw.to_req(data.as_slice()))
    }

    /// Adds the raw bytes of `value`, the reply to
    /// [VKAnalogProfile::load_request], to a load of `total` raw bytes.
    pub fn load_reply(&mut self, total: usize, value: &ViaReportData) -> (r: Result<(), VKError>)
        requires
            old(self).data@.len() < total,
        ensures
            final(self).index == old(self).index,
            final(self).key_count == old(self).key_count,
            final(self).okmc_count == old(self).okmc_count,
            final(self).socd_count == old(self).socd_count,
            final(self).row_count == old(self).row_count,
            final(self).col_count == old(self).col_count,
            match VKAnalogCommandId::GetProfileRaw.spec_check_reply(value@) {
                Err(e) => r == Err::<(), VKError>(e) && final(self).data@ == old(self).data@,
                Ok(p) => r is Ok && final(self).data@ == old(self).data@ + p.subrange(
                    4,
                    4 + min_int(total - old(self).data@.len(), 26),
                ),
            },
    {
        let offset = self.data.len();
        let size = if total - offset < Self::MAX_REQ_RAW_BYTES {
            total - offset
        } else {
            Self::MAX_REQ_RAW_BYTES
        };
        let payload = VKAnalogCommandId::GetProfileRaw.check_reply(value)?;
        self.data.extend_from_slice(vstd::slice::slice_subrange(payload, 4, 4 + size));
        assert(self.data@ =~= old(self).data@ + payload@.subrange(4, 4 + size));
        Ok(())
    }
}

} // verus!
