use vstd::prelude::*;

verus! {

/// Size in bytes of a VIA report, as exchanged with the keyboard.
pub const VIA_REPORT_SIZE: usize = 32;

/// Size in bytes of an outgoing report: a report id followed by a VIA report.
pub const VIA_REQUEST_SIZE: usize = 33;

/// HID usage page of the VIA interface.
pub const VIA_USAGE_PAGE: u16 = 0xFF60;

/// HID usage of the VIA interface.
pub const VIA_USAGE: u16 = 0x61;

/// The data of a VIA report.
pub type ViaReportData = [u8; 32];

/// The little-endian 16-bit value of the bytes `lo`, `hi`.
pub open spec fn le_u16(lo: u8, hi: u8) -> u16 {
    (lo + 256 * hi) as u16
}

/// Builds a 16-bit value from its little-endian bytes.
pub fn u16_from_le_bytes(lo: u8, hi: u8) -> (r: u16)
    ensures
        r == le_u16(lo, hi),
        r as int == lo + 256 * hi,
{
    let r = (lo as u16) | ((hi as u16) << 8);
    assert((lo as u16) | ((hi as u16) << 8) == lo + 256 * hi) by (bit_vector);
    r
}

/// The low byte of `v`.
pub open spec fn low_byte(v: u16) -> u8 {
    (v % 256) as u8
}

/// The high byte of `v`.
pub open spec fn high_byte(v: u16) -> u8 {
    (v / 256) as u8
}

/// Splits a 16-bit value into its little-endian bytes.
pub fn u16_to_le_bytes(v: u16) -> (r: (u8, u8))
    ensures
        r.0 == low_byte(v),
        r.1 == high_byte(v),
        le_u16(r.0, r.1) == v,
{
    let lo = (v & 0xFF) as u8;
    let hi = (v >> 8) as u8;
    assert((v & 0xFF) as u8 == (v % 256) as u8) by (bit_vector);
    assert((v >> 8) as u8 == (v / 256) as u8) by (bit_vector);
    (lo, hi)
}

/// The little-endian 32-bit value of the bytes `b0` (lowest) to `b3`.
pub open spec fn le_u32(b0: u8, b1: u8, b2: u8, b3: u8) -> u32 {
    (b0 + 256 * b1 + 65536 * b2 + 16777216 * b3) as u32
}

/// The four little-endian bytes of `v`, lowest first.
pub open spec fn le_u32_bytes(v: u32) -> Seq<u8> {
    seq![
        (v % 256) as u8,
        ((v / 256) % 256) as u8,
        ((v / 65536) % 256) as u8,
        (v / 16777216) as u8,
    ]
}

/// Builds a 32-bit value from its little-endian bytes.
pub fn u32_from_le_bytes(b0: u8, b1: u8, b2: u8, b3: u8) -> (r: u32)
    ensures
        r == le_u32(b0, b1, b2, b3),
{
    let r = (b0 as u32) | ((b1 as u32) << 8) | ((b2 as u32) << 16) | ((b3 as u32) << 24);
    assert((b0 as u32) | ((b1 as u32) << 8) | ((b2 as u32) << 16) | ((b3 as u32) << 24) == b0
        + 256 * b1 + 65536 * b2 + 16777216 * b3) by (bit_vector);
    r
}

/// Splits a 32-bit value into its little-endian bytes, lowest first.
pub fn u32_to_le_bytes(v: u32) -> (r: [u8; 4])
    ensures
        r@ == le_u32_bytes(v),
{
    let r = [(v & 0xFF) as u8, ((v >> 8) & 0xFF) as u8, ((v >> 16) & 0xFF) as u8, (v >> 24) as u8];
    assert((v & 0xFF) as u8 == (v % 256) as u8) by (bit_vector);
    assert(((v >> 8) & 0xFF) as u8 == ((v / 256) % 256) as u8) by (bit_vector);
    assert(((v >> 16) & 0xFF) as u8 == ((v / 65536) % 256) as u8) by (bit_vector);
    assert((v >> 24) as u8 == (v / 16777216) as u8) by (bit_vector);
    assert(r@ =~= le_u32_bytes(v));
    r
}

/// The little-endian bytes of a 32-bit value give it back.
pub proof fn lemma_le_u32_roundtrip(v: u32)
    ensures
        le_u32(le_u32_bytes(v)[0], le_u32_bytes(v)[1], le_u32_bytes(v)[2], le_u32_bytes(v)[3]) == v,
{
    assert(((v % 256) as u8) + 256 * (((v / 256) % 256) as u8) + 65536 * (((v / 65536) % 256) as u8)
        + 16777216 * ((v / 16777216) as u8) == v) by (bit_vector);
}

/// Miscellaneous features of the device.
#[derive(Debug, Clone, Copy, PartialEq, Eq, Structural)]
pub struct VKMiscFeatures {
    bits: u8,
}

impl VKMiscFeatures {
    /// DFU info is available
    pub const DFU_INFO: u8 = 0b1;
    /// Language is available
    pub const LANGUAGE: u8 = 0b10;
    /// Debounce is available
    pub const DEBOUNCE: u8 = 0b100;
    /// Snap click is available
    pub const SNAP_CLICK: u8 = 0b1000;
    /// Wireless LPM is available
    pub const WIRELESS_LPM: u8 = 0b1_0000;
    /// Report rate is available
    pub const REPORT_RATE: u8 = 0b10_0000;
    /// Quick start is available
    pub const QUICK_START: u8 = 0b100_0000;
    /// NKRO is available
    pub const NKRO: u8 = 0b1000_0000;

    /// The raw flag bits.
    pub closed spec fn spec_bits(&self) -> u8 {
        self.bits
    }

    /// Flags with exactly the given bits set, unknown bits included.
    pub fn from_bits_retain(bits: u8) -> (r: Self)
        ensures
            r.spec_bits() == bits,
    {
        VKMiscFeatures { bits }
    }

    /// The raw flag bits.
    #[verifier::when_used_as_spec(spec_bits)]
    pub fn bits(&self) -> (r: u8)
        ensures
            r == self.spec_bits(),
    {
        self.bits
    }

    /// Whether every bit of `flags` is set.
    pub fn contains(&self, flags: u8) -> (r: bool)
        ensures
            r == (self.spec_bits() & flags == flags),
    {
        self.bits & flags == flags
    }
}

} // verus!
