//! Capability masks and parameter selectors of PCM streams.
//!
//! Formats and rates appear twice on the wire: as an 8-bit selector in a
//! request and as one bit of a 64-bit mask in a capability report. The two
//! are related by the tables of this module and by nothing else.

use vstd::prelude::*;
use vstd::std_specs::convert::FromSpecImpl;

verus! {

/// Device feature: the device supports control elements.
pub const VIRTIO_SND_F_CTLS: u64 = 0x1;

/// Every device feature bit that the driver knows.
pub const SOUND_FEATURES_ALL: u64 = 0x1;

/// Stream feature: sharing a host memory with a guest.
pub const PCM_F_SHMEM_HOST: u32 = 0x01;

/// Stream feature: sharing a guest memory with a host.
pub const PCM_F_SHMEM_GUEST: u32 = 0x02;

/// Stream feature: polling mode for message-based transport.
pub const PCM_F_MSG_POLLING: u32 = 0x04;

/// Stream feature: elapsed period notifications for shared memory transport.
pub const PCM_F_EVT_SHMEM_PERIODS: u32 = 0x08;

/// Stream feature: underrun and overrun notifications.
pub const PCM_F_EVT_XRUNS: u32 = 0x10;

/// Every stream feature bit that the driver knows.
pub const PCM_FEATURES_ALL: u32 = 0x1f;

/// Every format bit that the driver knows: bits 0 to 24.
pub const PCM_FORMATS_ALL: u64 = 0x1ff_ffff;

/// Every rate bit that the driver knows: bits 0 to 13.
pub const PCM_RATES_ALL: u64 = 0x3fff;
/// Format bit: IMA ADPCM format.
pub const PCM_FMT_IMA_ADPCM: u64 = 0x1;
/// Format bit: Mu-law format.
pub const PCM_FMT_MU_LAW: u64 = 0x2;
/// Format bit: A-law format.
pub const PCM_FMT_A_LAW: u64 = 0x4;
/// Format bit: Signed 8-bit format.
pub const PCM_FMT_S8: u64 = 0x8;
/// Format bit: Unsigned 8-bit format.
pub const PCM_FMT_U8: u64 = 0x10;
/// Format bit: Signed 16-bit format.
pub const PCM_FMT_S16: u64 = 0x20;
/// Format bit: Unsigned 16-bit format.
pub const PCM_FMT_U16: u64 = 0x40;
/// Format bit: Signed 18.3-bit format.
pub const PCM_FMT_S18_3: u64 = 0x80;
/// Format bit: Unsigned 18.3-bit format.
pub const PCM_FMT_U18_3: u64 = 0x100;
/// Format bit: Signed 20.3-bit format.
pub const PCM_FMT_S20_3: u64 = 0x200;
/// Format bit: Unsigned 20.3-bit format.
pub const PCM_FMT_U20_3: u64 = 0x400;
/// Format bit: Signed 24.3-bit format.
pub const PCM_FMT_S24_3: u64 = 0x800;
/// Format bit: Unsigned 24.3-bit format.
pub const PCM_FMT_U24_3: u64 = 0x1000;
/// Format bit: Signed 20-bit format.
pub const PCM_FMT_S20: u64 = 0x2000;
/// Format bit: Unsigned 20-bit format.
pub const PCM_FMT_U20: u64 = 0x4000;
/// Format bit: Signed 24-bit format.
pub const PCM_FMT_S24: u64 = 0x8000;
/// Format bit: Unsigned 24-bit format.
pub const PCM_FMT_U24: u64 = 0x10000;
/// Format bit: Signed 32-bit format.
pub const PCM_FMT_S32: u64 = 0x20000;
/// Format bit: Unsigned 32-bit format.
pub const PCM_FMT_U32: u64 = 0x40000;
/// Format bit: 32-bit floating-point format.
pub const PCM_FMT_FLOAT: u64 = 0x80000;
/// Format bit: 64-bit floating-point format.
pub const PCM_FMT_FLOAT64: u64 = 0x100000;
/// Format bit: DSD unsigned 8-bit format.
pub const PCM_FMT_DSD_U8: u64 = 0x200000;
/// Format bit: DSD unsigned 16-bit format.
pub const PCM_FMT_DSD_U16: u64 = 0x400000;
/// Format bit: DSD unsigned 32-bit format.
pub const PCM_FMT_DSD_U32: u64 = 0x800000;
/// Format bit: IEC958 subframe format.
pub const PCM_FMT_IEC958_SUBFRAME: u64 = 0x1000000;
/// Rate bit: 5512 Hz.
pub const PCM_RATE_5512: u64 = 0x1;
/// Rate bit: 8000 Hz.
pub const PCM_RATE_8000: u64 = 0x2;
/// Rate bit: 11025 Hz.
pub const PCM_RATE_11025: u64 = 0x4;
/// Rate bit: 16000 Hz.
pub const PCM_RATE_16000: u64 = 0x8;
/// Rate bit: 22050 Hz.
pub const PCM_RATE_22050: u64 = 0x10;
/// Rate bit: 32000 Hz.
pub const PCM_RATE_32000: u64 = 0x20;
/// Rate bit: 44100 Hz.
pub const PCM_RATE_44100: u64 = 0x40;
/// Rate bit: 48000 Hz.
pub const PCM_RATE_48000: u64 = 0x80;
/// Rate bit: 64000 Hz.
pub const PCM_RATE_64000: u64 = 0x100;
/// Rate bit: 88200 Hz.
pub const PCM_RATE_88200: u64 = 0x200;
/// Rate bit: 96000 Hz.
pub const PCM_RATE_96000: u64 = 0x400;
/// Rate bit: 176400 Hz.
pub const PCM_RATE_176400: u64 = 0x800;
/// Rate bit: 192000 Hz.
pub const PCM_RATE_192000: u64 = 0x1000;
/// Rate bit: 384000 Hz.
pub const PCM_RATE_384000: u64 = 0x2000;

/// Device features.
#[derive(Debug, Clone, Copy, PartialEq, Eq, Structural)]
pub struct SoundFeatures {
    pub bits: u64,
}

impl SoundFeatures {
    /// Whether no bit outside the known ones is set.
    pub open spec fn known(self) -> bool {
        self.bits & !SOUND_FEATURES_ALL == 0
    }

    /// Whether every bit of `other` is set in `self`.
    pub open spec fn has(self, other: Self) -> bool {
        self.bits & other.bits == other.bits
    }

    /// The empty set.
    pub fn empty() -> (r: Self)
        ensures
            r.bits == 0,
    {
        SoundFeatures { bits: 0 }
    }

    /// Every known bit.
    pub fn all() -> (r: Self)
        ensures
            r.bits == SOUND_FEATURES_ALL,
    {
        SoundFeatures { bits: SOUND_FEATURES_ALL }
    }

    /// The bits as a number.
    pub fn bits(&self) -> (r: u64)
        ensures
            r == self.bits,
    {
        self.bits
    }

    /// The set with the given bits, unless a bit is set that the driver does
    /// not know.
    pub fn from_bits(bits: u64) -> (r: Option<Self>)
        ensures
            r == (if bits & !SOUND_FEATURES_ALL == 0 {
                Some(SoundFeatures { bits })
            } else {
                None
            }),
    {
        if bits & !SOUND_FEATURES_ALL == 0 {
            Some(SoundFeatures { bits })
        } else {
            None
        }
    }

    /// The set with those of the given bits that the driver knows.
    pub fn from_bits_truncate(bits: u64) -> (r: Self)
        ensures
            r.bits == bits & SOUND_FEATURES_ALL,
            r.known(),
    {
        assert((bits & SOUND_FEATURES_ALL) & !SOUND_FEATURES_ALL == 0) by (bit_vector);
        SoundFeatures { bits: bits & SOUND_FEATURES_ALL }
    }

    /// Whether no bit is set.
    pub fn is_empty(&self) -> (r: bool)
        ensures
            r == (self.bits == 0),
    {
        self.bits == 0
    }

    /// Whether every bit of `other` is set in `self`.
    pub fn contains(&self, other: Self) -> (r: bool)
        ensures
            r == self.has(other),
    {
        self.bits & other.bits == other.bits
    }
}

/// Supported PCM stream features.
#[derive(Debug, Clone, Copy, PartialEq, Eq, Structural)]
pub struct PcmFeatures {
    pub bits: u32,
}

impl PcmFeatures {
    /// Whether no bit outside the known ones is set.
    pub open spec fn known(self) -> bool {
        self.bits & !PCM_FEATURES_ALL == 0
    }

    /// Whether every bit of `other` is set in `self`.
    pub open spec fn has(self, other: Self) -> bool {
        self.bits & other.bits == other.bits
    }

    /// The empty set.
    pub fn empty() -> (r: Self)
        ensures
            r.bits == 0,
    {
        PcmFeatures { bits: 0 }
    }

    /// Every known bit.
    pub fn all() -> (r: Self)
        ensures
            r.bits == PCM_FEATURES_ALL,
    {
        PcmFeatures { bits: PCM_FEATURES_ALL }
    }

    /// The bits as a number.
    pub fn bits(&self) -> (r: u32)
        ensures
            r == self.bits,
    {
        self.bits
    }

    /// The set with the given bits, unless a bit is set that the driver does
    /// not know.
    pub fn from_bits(bits: u32) -> (r: Option<Self>)
        ensures
            r == (if bits & !PCM_FEATURES_ALL == 0 {
                Some(PcmFeatures { bits })
            } else {
                None
            }),
    {
        if bits & !PCM_FEATURES_ALL == 0 {
            Some(PcmFeatures { bits })
        } else {
            None
        }
    }

    /// The set with those of the given bits that the driver knows.
    pub fn from_bits_truncate(bits: u32) -> (r: Self)
        ensures
            r.bits == bits & PCM_FEATURES_ALL,
            r.known(),
    {
        assert((bits & PCM_FEATURES_ALL) & !PCM_FEATURES_ALL == 0) by (bit_vector);
        PcmFeatures { bits: bits & PCM_FEATURES_ALL }
    }

    /// Whether no bit is set.
    pub fn is_empty(&self) -> (r: bool)
        ensures
            r == (self.bits == 0),
    {
        self.bits == 0
    }

    /// Whether every bit of `other` is set in `self`.
    pub fn contains(&self, other: Self) -> (r: bool)
        ensures
            r == self.has(other),
    {
        self.bits & other.bits == other.bits
    }
}

/// Supported PCM sample formats.
#[derive(Debug, Clone, Copy, PartialEq, Eq, Structural)]
pub struct PcmFormats {
    pub bits: u64,
}

impl PcmFormats {
    /// Whether no bit outside the known ones is set.
    pub open spec fn known(self) -> bool {
        self.bits & !PCM_FORMATS_ALL == 0
    }

    /// Whether every bit of `other` is set in `self`.
    pub open spec fn has(self, other: Self) -> bool {
        self.bits & other.bits == other.bits
    }

    /// The empty set.
    pub fn empty() -> (r: Self)
        ensures
            r.bits == 0,
    {
        PcmFormats { bits: 0 }
    }

    /// Every known bit.
    pub fn all() -> (r: Self)
        ensures
            r.bits == PCM_FORMATS_ALL,
    {
        PcmFormats { bits: PCM_FORMATS_ALL }
    }

    /// The bits as a number.
    pub fn bits(&self) -> (r: u64)
        ensures
            r == self.bits,
    {
        self.bits
    }

    /// The set with the given bits, unless a bit is set that the driver does
    /// not know.
    pub fn from_bits(bits: u64) -> (r: Option<Self>)
        ensures
            r == (if bits & !PCM_FORMATS_ALL == 0 {
                Some(PcmFormats { bits })
            } else {
                None
            }),
    {
        if bits & !PCM_FORMATS_ALL == 0 {
            Some(PcmFormats { bits })
        } else {
            None
        }
    }

    /// The set with those of the given bits that the driver knows.
    pub fn from_bits_truncate(bits: u64) -> (r: Self)
        ensures
            r.bits == bits & PCM_FORMATS_ALL,
            r.known(),
    {
        assert((bits & PCM_FORMATS_ALL) & !PCM_FORMATS_ALL == 0) by (bit_vector);
        PcmFormats { bits: bits & PCM_FORMATS_ALL }
    }

    /// Whether no bit is set.
    pub fn is_empty(&self) -> (r: bool)
        ensures
            r == (self.bits == 0),
    {
        self.bits == 0
    }

    /// Whether every bit of `other` is set in `self`.
    pub fn contains(&self, other: Self) -> (r: bool)
        ensures
            r == self.has(other),
    {
        self.bits & other.bits == other.bits
    }
}

/// Supported PCM frame rates.
#[derive(Debug, Clone, Copy, PartialEq, Eq, Structural)]
pub struct PcmRates {
    pub bits: u64,
}

impl PcmRates {
    /// Whether no bit outside the known ones is set.
    pub open spec fn known(self) -> bool {
        self.bits & !PCM_RATES_ALL == 0
    }

    /// Whether every bit of `other` is set in `self`.
    pub open spec fn has(self, other: Self) -> bool {
        self.bits & other.bits == other.bits
    }

    /// The empty set.
    pub fn empty() -> (r: Self)
        ensures
            r.bits == 0,
    {
        PcmRates { bits: 0 }
    }

    /// Every known bit.
    pub fn all() -> (r: Self)
        ensures
            r.bits == PCM_RATES_ALL,
    {
        PcmRates { bits: PCM_RATES_ALL }
    }

    /// The bits as a number.
    pub fn bits(&self) -> (r: u64)
        ensures
            r == self.bits,
    {
        self.bits
    }

    /// The set with the given bits, unless a bit is set that the driver does
    /// not know.
    pub fn from_bits(bits: u64) -> (r: Option<Self>)
        ensures
            r == (if bits & !PCM_RATES_ALL == 0 {
                Some(PcmRates { bits })
            } else {
                None
            }),
    {
        if bits & !PCM_RATES_ALL == 0 {
            Some(PcmRates { bits })
        } else {
            None
        }
    }

    /// The set with those of the given bits that the driver knows.
    pub fn from_bits_truncate(bits: u64) -> (r: Self)
        ensures
            r.bits == bits & PCM_RATES_ALL,
            r.known(),
    {
        assert((bits & PCM_RATES_ALL) & !PCM_RATES_ALL == 0) by (bit_vector);
        PcmRates { bits: bits & PCM_RATES_ALL }
    }

    /// Whether no bit is set.
    pub fn is_empty(&self) -> (r: bool)
        ensures
            r == (self.bits == 0),
    {
        self.bits == 0
    }

    /// Whether every bit of `other` is set in `self`.
    pub fn contains(&self, other: Self) -> (r: bool)
        ensures
            r == self.has(other),
    {
        self.bits & other.bits == other.bits
    }
}
/// A PCM sample format.
#[derive(Debug, Clone, Copy, PartialEq, Eq, Structural)]
pub enum PcmFormat {
    /// IMA ADPCM format.
    ImaAdpcm,
    /// Mu-law format.
    MuLaw,
    /// A-law format.
    ALaw,
    /// Signed 8-bit format.
    S8,
    /// Unsigned 8-bit format.
    U8,
    /// Signed 16-bit format.
    S16,
    /// Unsigned 16-bit format.
    U16,
    /// Signed 18.3-bit format.
    S18_3,
    /// Unsigned 18.3-bit format.
    U18_3,
    /// Signed 20.3-bit format.
    S20_3,
    /// Unsigned 20.3-bit format.
    U20_3,
    /// Signed 24.3-bit format.
    S24_3,
    /// Unsigned 24.3-bit format.
    U24_3,
    /// Signed 20-bit format.
    S20,
    /// Unsigned 20-bit format.
    U20,
    /// Signed 24-bit format.
    S24,
    /// Unsigned 24-bit format.
    U24,
    /// Signed 32-bit format.
    S32,
    /// Unsigned 32-bit format.
    U32,
    /// 32-bit floating-point format.
    FLOAT,
    /// 64-bit floating-point format.
    FLOAT64,
    /// DSD unsigned 8-bit format.
    DsdU8,
    /// DSD unsigned 16-bit format.
    DsdU16,
    /// DSD unsigned 32-bit format.
    DsdU32,
    /// IEC958 subframe format.
    Iec958Subframe,
}
impl PcmFormat {
    /// The selector that names the format in a request.
    pub open spec fn selector_spec(self) -> u8 {
        match self {
            PcmFormat::ImaAdpcm => 0,
            PcmFormat::MuLaw => 1,
            PcmFormat::ALaw => 2,
            PcmFormat::S8 => 3,
            PcmFormat::U8 => 4,
            PcmFormat::S16 => 5,
            PcmFormat::U16 => 6,
            PcmFormat::S18_3 => 7,
            PcmFormat::U18_3 => 8,
            PcmFormat::S20_3 => 9,
            PcmFormat::U20_3 => 10,
            PcmFormat::S24_3 => 11,
            PcmFormat::U24_3 => 12,
            PcmFormat::S20 => 13,
            PcmFormat::U20 => 14,
            PcmFormat::S24 => 15,
            PcmFormat::U24 => 16,
            PcmFormat::S32 => 17,
            PcmFormat::U32 => 18,
            PcmFormat::FLOAT => 19,
            PcmFormat::FLOAT64 => 20,
            PcmFormat::DsdU8 => 21,
            PcmFormat::DsdU16 => 22,
            PcmFormat::DsdU32 => 23,
            PcmFormat::Iec958Subframe => 24,
        }
    }

    /// The bit that stands for the format in a capability mask.
    pub open spec fn mask_spec(self) -> u64 {
        match self {
            PcmFormat::ImaAdpcm => PCM_FMT_IMA_ADPCM,
            PcmFormat::MuLaw => PCM_FMT_MU_LAW,
            PcmFormat::ALaw => PCM_FMT_A_LAW,
            PcmFormat::S8 => PCM_FMT_S8,
            PcmFormat::U8 => PCM_FMT_U8,
            PcmFormat::S16 => PCM_FMT_S16,
            PcmFormat::U16 => PCM_FMT_U16,
            PcmFormat::S18_3 => PCM_FMT_S18_3,
            PcmFormat::U18_3 => PCM_FMT_U18_3,
            PcmFormat::S20_3 => PCM_FMT_S20_3,
            PcmFormat::U20_3 => PCM_FMT_U20_3,
            PcmFormat::S24_3 => PCM_FMT_S24_3,
            PcmFormat::U24_3 => PCM_FMT_U24_3,
            PcmFormat::S20 => PCM_FMT_S20,
            PcmFormat::U20 => PCM_FMT_U20,
            PcmFormat::S24 => PCM_FMT_S24,
            PcmFormat::U24 => PCM_FMT_U24,
            PcmFormat::S32 => PCM_FMT_S32,
            PcmFormat::U32 => PCM_FMT_U32,
            PcmFormat::FLOAT => PCM_FMT_FLOAT,
            PcmFormat::FLOAT64 => PCM_FMT_FLOAT64,
            PcmFormat::DsdU8 => PCM_FMT_DSD_U8,
            PcmFormat::DsdU16 => PCM_FMT_DSD_U16,
            PcmFormat::DsdU32 => PCM_FMT_DSD_U32,
            PcmFormat::Iec958Subframe => PCM_FMT_IEC958_SUBFRAME,
        }
    }

    /// The selector that names the format in a request.
    pub fn selector(self) -> (r: u8)
        ensures
            r == self.selector_spec(),
    {
        match self {
            PcmFormat::ImaAdpcm => 0,
            PcmFormat::MuLaw => 1,
            PcmFormat::ALaw => 2,
            PcmFormat::S8 => 3,
            PcmFormat::U8 => 4,
            PcmFormat::S16 => 5,
            PcmFormat::U16 => 6,
            PcmFormat::S18_3 => 7,
            PcmFormat::U18_3 => 8,
            PcmFormat::S20_3 => 9,
            PcmFormat::U20_3 => 10,
            PcmFormat::S24_3 => 11,
            PcmFormat::U24_3 => 12,
            PcmFormat::S20 => 13,
            PcmFormat::U20 => 14,
            PcmFormat::S24 => 15,
            PcmFormat::U24 => 16,
            PcmFormat::S32 => 17,
            PcmFormat::U32 => 18,
            PcmFormat::FLOAT => 19,
            PcmFormat::FLOAT64 => 20,
            PcmFormat::DsdU8 => 21,
            PcmFormat::DsdU16 => 22,
            PcmFormat::DsdU32 => 23,
            PcmFormat::Iec958Subframe => 24,
        }
    }

    /// The bit that stands for the format in a capability mask.
    pub fn mask(self) -> (r: u64)
        ensures
            r == self.mask_spec(),
    {
        match self {
            PcmFormat::ImaAdpcm => PCM_FMT_IMA_ADPCM,
            PcmFormat::MuLaw => PCM_FMT_MU_LAW,
            PcmFormat::ALaw => PCM_FMT_A_LAW,
            PcmFormat::S8 => PCM_FMT_S8,
            PcmFormat::U8 => PCM_FMT_U8,
            PcmFormat::S16 => PCM_FMT_S16,
            PcmFormat::U16 => PCM_FMT_U16,
            PcmFormat::S18_3 => PCM_FMT_S18_3,
            PcmFormat::U18_3 => PCM_FMT_U18_3,
            PcmFormat::S20_3 => PCM_FMT_S20_3,
            PcmFormat::U20_3 => PCM_FMT_U20_3,
            PcmFormat::S24_3 => PCM_FMT_S24_3,
            PcmFormat::U24_3 => PCM_FMT_U24_3,
            PcmFormat::S20 => PCM_FMT_S20,
            PcmFormat::U20 => PCM_FMT_U20,
            PcmFormat::S24 => PCM_FMT_S24,
            PcmFormat::U24 => PCM_FMT_U24,
            PcmFormat::S32 => PCM_FMT_S32,
            PcmFormat::U32 => PCM_FMT_U32,
            PcmFormat::FLOAT => PCM_FMT_FLOAT,
            PcmFormat::FLOAT64 => PCM_FMT_FLOAT64,
            PcmFormat::DsdU8 => PCM_FMT_DSD_U8,
            PcmFormat::DsdU16 => PCM_FMT_DSD_U16,
            PcmFormat::DsdU32 => PCM_FMT_DSD_U32,
            PcmFormat::Iec958Subframe => PCM_FMT_IEC958_SUBFRAME,
        }
    }

    /// The format that a selector names, if any.
    pub fn from_selector(selector: u8) -> (r: Option<Self>)
        ensures
            match r {
                Some(f) => f.selector_spec() == selector,
                None => selector > 24,
            },
    {
        match selector {
            0 => Some(PcmFormat::ImaAdpcm),
            1 => Some(PcmFormat::MuLaw),
            2 => Some(PcmFormat::ALaw),
            3 => Some(PcmFormat::S8),
            4 => Some(PcmFormat::U8),
            5 => Some(PcmFormat::S16),
            6 => Some(PcmFormat::U16),
            7 => Some(PcmFormat::S18_3),
            8 => Some(PcmFormat::U18_3),
            9 => Some(PcmFormat::S20_3),
            10 => Some(PcmFormat::U20_3),
            11 => Some(PcmFormat::S24_3),
            12 => Some(PcmFormat::U24_3),
            13 => Some(PcmFormat::S20),
            14 => Some(PcmFormat::U20),
            15 => Some(PcmFormat::S24),
            16 => Some(PcmFormat::U24),
            17 => Some(PcmFormat::S32),
            18 => Some(PcmFormat::U32),
            19 => Some(PcmFormat::FLOAT),
            20 => Some(PcmFormat::FLOAT64),
            21 => Some(PcmFormat::DsdU8),
            22 => Some(PcmFormat::DsdU16),
            23 => Some(PcmFormat::DsdU32),
            24 => Some(PcmFormat::Iec958Subframe),
            _ => None,
        }
    }
}
impl Default for PcmFormat {
    fn default() -> (r: Self)
        ensures
            r == PcmFormat::ImaAdpcm,
    {
        PcmFormat::ImaAdpcm
    }
}

impl From<PcmFormat> for PcmFormats {
    fn from(format: PcmFormat) -> (r: Self) {
        PcmFormats { bits: format.mask() }
    }
}

impl FromSpecImpl<PcmFormat> for PcmFormats {
    open spec fn obeys_from_spec() -> bool {
        true
    }

    open spec fn from_spec(format: PcmFormat) -> Self {
        PcmFormats { bits: format.mask_spec() }
    }
}

impl From<PcmFormat> for u8 {
    fn from(format: PcmFormat) -> (r: u8) {
        format.selector()
    }
}

impl FromSpecImpl<PcmFormat> for u8 {
    open spec fn obeys_from_spec() -> bool {
        true
    }

    open spec fn from_spec(format: PcmFormat) -> u8 {
        format.selector_spec()
    }
}
/// A PCM frame rate.
#[derive(Debug, Clone, Copy, PartialEq, Eq, Structural)]
pub enum PcmRate {
    /// 5512 Hz PCM rate.
    Rate5512,
    /// 8000 Hz PCM rate.
    Rate8000,
    /// 11025 Hz PCM rate.
    Rate11025,
    /// 16000 Hz PCM rate.
    Rate16000,
    /// 22050 Hz PCM rate.
    Rate22050,
    /// 32000 Hz PCM rate.
    Rate32000,
    /// 44100 Hz PCM rate.
    Rate44100,
    /// 48000 Hz PCM rate.
    Rate48000,
    /// 64000 Hz PCM rate.
    Rate64000,
    /// 88200 Hz PCM rate.
    Rate88200,
    /// 96000 Hz PCM rate.
    Rate96000,
    /// 176400 Hz PCM rate.
    Rate176400,
    /// 192000 Hz PCM rate.
    Rate192000,
    /// 384000 Hz PCM rate.
    Rate384000,
}
impl PcmRate {
    /// The selector that names the rate in a request.
    pub open spec fn selector_spec(self) -> u8 {
        match self {
            PcmRate::Rate5512 => 0,
            PcmRate::Rate8000 => 1,
            PcmRate::Rate11025 => 2,
            PcmRate::Rate16000 => 3,
            PcmRate::Rate22050 => 4,
            PcmRate::Rate32000 => 5,
            PcmRate::Rate44100 => 6,
            PcmRate::Rate48000 => 7,
            PcmRate::Rate64000 => 8,
            PcmRate::Rate88200 => 9,
            PcmRate::Rate96000 => 10,
            PcmRate::Rate176400 => 11,
            PcmRate::Rate192000 => 12,
            PcmRate::Rate384000 => 13,
        }
    }

    /// The bit that stands for the rate in a capability mask.
    pub open spec fn mask_spec(self) -> u64 {
        match self {
            PcmRate::Rate5512 => PCM_RATE_5512,
            PcmRate::Rate8000 => PCM_RATE_8000,
            PcmRate::Rate11025 => PCM_RATE_11025,
            PcmRate::Rate16000 => PCM_RATE_16000,
            PcmRate::Rate22050 => PCM_RATE_22050,
            PcmRate::Rate32000 => PCM_RATE_32000,
            PcmRate::Rate44100 => PCM_RATE_44100,
            PcmRate::Rate48000 => PCM_RATE_48000,
            PcmRate::Rate64000 => PCM_RATE_64000,
            PcmRate::Rate88200 => PCM_RATE_88200,
            PcmRate::Rate96000 => PCM_RATE_96000,
            PcmRate::Rate176400 => PCM_RATE_176400,
            PcmRate::Rate192000 => PCM_RATE_192000,
            PcmRate::Rate384000 => PCM_RATE_384000,
        }
    }

    /// The rate in frames per second.
    pub open spec fn hertz_spec(self) -> u32 {
        match self {
            PcmRate::Rate5512 => 5512,
            PcmRate::Rate8000 => 8000,
            PcmRate::Rate11025 => 11025,
            PcmRate::Rate16000 => 16000,
            PcmRate::Rate22050 => 22050,
            PcmRate::Rate32000 => 32000,
            PcmRate::Rate44100 => 44100,
            PcmRate::Rate48000 => 48000,
            PcmRate::Rate64000 => 64000,
            PcmRate::Rate88200 => 88200,
            PcmRate::Rate96000 => 96000,
            PcmRate::Rate176400 => 176400,
            PcmRate::Rate192000 => 192000,
            PcmRate::Rate384000 => 384000,
        }
    }

    /// The selector that names the rate in a request.
    pub fn selector(self) -> (r: u8)
        ensures
            r == self.selector_spec(),
    {
        match self {
            PcmRate::Rate5512 => 0,
            PcmRate::Rate8000 => 1,
            PcmRate::Rate11025 => 2,
            PcmRate::Rate16000 => 3,
            PcmRate::Rate22050 => 4,
            PcmRate::Rate32000 => 5,
            PcmRate::Rate44100 => 6,
            PcmRate::Rate48000 => 7,
            PcmRate::Rate64000 => 8,
            PcmRate::Rate88200 => 9,
            PcmRate::Rate96000 => 10,
            PcmRate::Rate176400 => 11,
            PcmRate::Rate192000 => 12,
            PcmRate::Rate384000 => 13,
        }
    }

    /// The bit that stands for the rate in a capability mask.
    pub fn mask(self) -> (r: u64)
        ensures
            r == self.mask_spec(),
    {
        match self {
            PcmRate::Rate5512 => PCM_RATE_5512,
            PcmRate::Rate8000 => PCM_RATE_8000,
            PcmRate::Rate11025 => PCM_RATE_11025,
            PcmRate::Rate16000 => PCM_RATE_16000,
            PcmRate::Rate22050 => PCM_RATE_22050,
            PcmRate::Rate32000 => PCM_RATE_32000,
            PcmRate::Rate44100 => PCM_RATE_44100,
            PcmRate::Rate48000 => PCM_RATE_48000,
            PcmRate::Rate64000 => PCM_RATE_64000,
            PcmRate::Rate88200 => PCM_RATE_88200,
            PcmRate::Rate96000 => PCM_RATE_96000,
            PcmRate::Rate176400 => PCM_RATE_176400,
            PcmRate::Rate192000 => PCM_RATE_192000,
            PcmRate::Rate384000 => PCM_RATE_384000,
        }
    }

    /// The rate in frames per second.
    pub fn hertz(self) -> (r: u32)
        ensures
            r == self.hertz_spec(),
    {
        match self {
            PcmRate::Rate5512 => 5512,
            PcmRate::Rate8000 => 8000,
            PcmRate::Rate11025 => 11025,
            PcmRate::Rate16000 => 16000,
            PcmRate::Rate22050 => 22050,
            PcmRate::Rate32000 => 32000,
            PcmRate::Rate44100 => 44100,
            PcmRate::Rate48000 => 48000,
            PcmRate::Rate64000 => 64000,
            PcmRate::Rate88200 => 88200,
            PcmRate::Rate96000 => 96000,
            PcmRate::Rate176400 => 176400,
            PcmRate::Rate192000 => 192000,
            PcmRate::Rate384000 => 384000,
        }
    }

    /// The rate that a selector names, if any.
    pub fn from_selector(selector: u8) -> (r: Option<Self>)
        ensures
            match r {
                Some(f) => f.selector_spec() == selector,
                None => selector > 13,
            },
    {
        match selector {
            0 => Some(PcmRate::Rate5512),
            1 => Some(PcmRate::Rate8000),
            2 => Some(PcmRate::Rate11025),
            3 => Some(PcmRate::Rate16000),
            4 => Some(PcmRate::Rate22050),
            5 => Some(PcmRate::Rate32000),
            6 => Some(PcmRate::Rate44100),
            7 => Some(PcmRate::Rate48000),
            8 => Some(PcmRate::Rate64000),
            9 => Some(PcmRate::Rate88200),
            10 => Some(PcmRate::Rate96000),
            11 => Some(PcmRate::Rate176400),
            12 => Some(PcmRate::Rate192000),
            13 => Some(PcmRate::Rate384000),
            _ => None,
        }
    }
}
impl Default for PcmRate {
    fn default() -> (r: Self)
        ensures
            r == PcmRate::Rate5512,
    {
        PcmRate::Rate5512
    }
}

impl From<PcmRate> for PcmRates {
    fn from(rate: PcmRate) -> (r: Self) {
        PcmRates { bits: rate.mask() }
    }
}

impl FromSpecImpl<PcmRate> for PcmRates {
    open spec fn obeys_from_spec() -> bool {
        true
    }

    open spec fn from_spec(rate: PcmRate) -> Self {
        PcmRates { bits: rate.mask_spec() }
    }
}

impl From<PcmRate> for u8 {
    fn from(rate: PcmRate) -> (r: u8) {
        rate.selector()
    }
}

impl FromSpecImpl<PcmRate> for u8 {
    open spec fn obeys_from_spec() -> bool {
        true
    }

    open spec fn from_spec(rate: PcmRate) -> u8 {
        rate.selector_spec()
    }
}

/// The mask bit of a format is the bit at the place that its selector
/// gives, and a known one; two formats with one selector or one bit are one
/// format.
pub proof fn lemma_format_tables(a: PcmFormat, b: PcmFormat)
    ensures
        a.mask_spec() == 1u64 << (a.selector_spec() as u64),
        a.selector_spec() <= 24,
        (PcmFormats { bits: a.mask_spec() }).known(),
        a.selector_spec() == b.selector_spec() ==> a == b,
        a.mask_spec() == b.mask_spec() ==> a == b,
{
    let s = a.selector_spec();
    let m = a.mask_spec();
    assert(s <= 24 && m == 1u64 << (s as u64) && m & !0x1ff_ffffu64 == 0) by {
        lemma_bit_places();
    }
}

/// The mask bit of a rate is the bit at the place that its selector gives,
/// and a known one; two rates with one selector or one bit are one rate.
pub proof fn lemma_rate_tables(a: PcmRate, b: PcmRate)
    ensures
        a.mask_spec() == 1u64 << (a.selector_spec() as u64),
        a.selector_spec() <= 13,
        (PcmRates { bits: a.mask_spec() }).known(),
        a.selector_spec() == b.selector_spec() ==> a == b,
        a.mask_spec() == b.mask_spec() ==> a == b,
{
    let s = a.selector_spec();
    let m = a.mask_spec();
    assert(s <= 13 && m == 1u64 << (s as u64) && m & !0x3fffu64 == 0) by {
        lemma_bit_places();
    }
}

/// The first 25 powers of two, written out.
proof fn lemma_bit_places()
    ensures
        1u64 << 0u64 == 0x1,
        1u64 << 1u64 == 0x2,
        1u64 << 2u64 == 0x4,
        1u64 << 3u64 == 0x8,
        1u64 << 4u64 == 0x10,
        1u64 << 5u64 == 0x20,
        1u64 << 6u64 == 0x40,
        1u64 << 7u64 == 0x80,
        1u64 << 8u64 == 0x100,
        1u64 << 9u64 == 0x200,
        1u64 << 10u64 == 0x400,
        1u64 << 11u64 == 0x800,
        1u64 << 12u64 == 0x1000,
        1u64 << 13u64 == 0x2000,
        1u64 << 14u64 == 0x4000,
        1u64 << 15u64 == 0x8000,
        1u64 << 16u64 == 0x10000,
        1u64 << 17u64 == 0x20000,
        1u64 << 18u64 == 0x40000,
        1u64 << 19u64 == 0x80000,
        1u64 << 20u64 == 0x100000,
        1u64 << 21u64 == 0x200000,
        1u64 << 22u64 == 0x400000,
        1u64 << 23u64 == 0x800000,
        1u64 << 24u64 == 0x1000000,
        0x1u64 & !0x1ff_ffffu64 == 0,
        0x2u64 & !0x1ff_ffffu64 == 0,
        0x4u64 & !0x1ff_ffffu64 == 0,
        0x8u64 & !0x1ff_ffffu64 == 0,
        0x10u64 & !0x1ff_ffffu64 == 0,
        0x20u64 & !0x1ff_ffffu64 == 0,
        0x40u64 & !0x1ff_ffffu64 == 0,
        0x80u64 & !0x1ff_ffffu64 == 0,
        0x100u64 & !0x1ff_ffffu64 == 0,
        0x200u64 & !0x1ff_ffffu64 == 0,
        0x400u64 & !0x1ff_ffffu64 == 0,
        0x800u64 & !0x1ff_ffffu64 == 0,
        0x1000u64 & !0x1ff_ffffu64 == 0,
        0x2000u64 & !0x1ff_ffffu64 == 0,
        0x4000u64 & !0x1ff_ffffu64 == 0,
        0x8000u64 & !0x1ff_ffffu64 == 0,
        0x10000u64 & !0x1ff_ffffu64 == 0,
        0x20000u64 & !0x1ff_ffffu64 == 0,
        0x40000u64 & !0x1ff_ffffu64 == 0,
        0x80000u64 & !0x1ff_ffffu64 == 0,
        0x100000u64 & !0x1ff_ffffu64 == 0,
        0x200000u64 & !0x1ff_ffffu64 == 0,
        0x400000u64 & !0x1ff_ffffu64 == 0,
        0x800000u64 & !0x1ff_ffffu64 == 0,
        0x1000000u64 & !0x1ff_ffffu64 == 0,
        0x1u64 & !0x3fffu64 == 0,
        0x2u64 & !0x3fffu64 == 0,
        0x4u64 & !0x3fffu64 == 0,
        0x8u64 & !0x3fffu64 == 0,
        0x10u64 & !0x3fffu64 == 0,
        0x20u64 & !0x3fffu64 == 0,
        0x40u64 & !0x3fffu64 == 0,
        0x80u64 & !0x3fffu64 == 0,
        0x100u64 & !0x3fffu64 == 0,
        0x200u64 & !0x3fffu64 == 0,
        0x400u64 & !0x3fffu64 == 0,
        0x800u64 & !0x3fffu64 == 0,
        0x1000u64 & !0x3fffu64 == 0,
        0x2000u64 & !0x3fffu64 == 0,
{
    assert(
        1u64 << 0u64 == 0x1
        && 1u64 << 1u64 == 0x2
        && 1u64 << 2u64 == 0x4
        && 1u64 << 3u64 == 0x8
        && 1u64 << 4u64 == 0x10
        && 1u64 << 5u64 == 0x20
        && 1u64 << 6u64 == 0x40
        && 1u64 << 7u64 == 0x80
        && 1u64 << 8u64 == 0x100
        && 1u64 << 9u64 == 0x200
        && 1u64 << 10u64 == 0x400
        && 1u64 << 11u64 == 0x800
        && 1u64 << 12u64 == 0x1000
        && 1u64 << 13u64 == 0x2000
        && 1u64 << 14u64 == 0x4000
        && 1u64 << 15u64 == 0x8000
        && 1u64 << 16u64 == 0x10000
        && 1u64 << 17u64 == 0x20000
        && 1u64 << 18u64 == 0x40000
        && 1u64 << 19u64 == 0x80000
        && 1u64 << 20u64 == 0x100000
        && 1u64 << 21u64 == 0x200000
        && 1u64 << 22u64 == 0x400000
        && 1u64 << 23u64 == 0x800000
        && 1u64 << 24u64 == 0x1000000
        && 0x1u64 & !0x1ff_ffffu64 == 0
        && 0x2u64 & !0x1ff_ffffu64 == 0
        && 0x4u64 & !0x1ff_ffffu64 == 0
        && 0x8u64 & !0x1ff_ffffu64 == 0
        && 0x10u64 & !0x1ff_ffffu64 == 0
        && 0x20u64 & !0x1ff_ffffu64 == 0
        && 0x40u64 & !0x1ff_ffffu64 == 0
        && 0x80u64 & !0x1ff_ffffu64 == 0
        && 0x100u64 & !0x1ff_ffffu64 == 0
        && 0x200u64 & !0x1ff_ffffu64 == 0
        && 0x400u64 & !0x1ff_ffffu64 == 0
        && 0x800u64 & !0x1ff_ffffu64 == 0
        && 0x1000u64 & !0x1ff_ffffu64 == 0
        && 0x2000u64 & !0x1ff_ffffu64 == 0
        && 0x4000u64 & !0x1ff_ffffu64 == 0
        && 0x8000u64 & !0x1ff_ffffu64 == 0
        && 0x10000u64 & !0x1ff_ffffu64 == 0
        && 0x20000u64 & !0x1ff_ffffu64 == 0
        && 0x40000u64 & !0x1ff_ffffu64 == 0
        && 0x80000u64 & !0x1ff_ffffu64 == 0
        && 0x100000u64 & !0x1ff_ffffu64 == 0
        && 0x200000u64 & !0x1ff_ffffu64 == 0
        && 0x400000u64 & !0x1ff_ffffu64 == 0
        && 0x800000u64 & !0x1ff_ffffu64 == 0
        && 0x1000000u64 & !0x1ff_ffffu64 == 0
        && 0x1u64 & !0x3fffu64 == 0
        && 0x2u64 & !0x3fffu64 == 0
        && 0x4u64 & !0x3fffu64 == 0
        && 0x8u64 & !0x3fffu64 == 0
        && 0x10u64 & !0x3fffu64 == 0
        && 0x20u64 & !0x3fffu64 == 0
        && 0x40u64 & !0x3fffu64 == 0
        && 0x80u64 & !0x3fffu64 == 0
        && 0x100u64 & !0x3fffu64 == 0
        && 0x200u64 & !0x3fffu64 == 0
        && 0x400u64 & !0x3fffu64 == 0
        && 0x800u64 & !0x3fffu64 == 0
        && 0x1000u64 & !0x3fffu64 == 0
        && 0x2000u64 & !0x3fffu64 == 0
    ) by (bit_vector);
}

} // verus!
