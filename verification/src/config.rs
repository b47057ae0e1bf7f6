//! The device's configuration space.

use vstd::prelude::*;
use crate::bytes::get_u32;
use crate::bytes::le_u32;
use crate::bytes::put_u32;
use crate::bytes::u32_of_le;

verus! {

/// Size of the configuration space in bytes.
pub const SOUND_CONFIG_SIZE: usize = 16;

/// Place of `jacks` in the configuration space.
pub const CONFIG_OFFSET_JACKS: usize = 0;

/// Place of `streams` in the configuration space.
pub const CONFIG_OFFSET_STREAMS: usize = 4;

/// Place of `chmaps` in the configuration space.
pub const CONFIG_OFFSET_CHMAPS: usize = 8;

/// Place of `controls` in the configuration space.
pub const CONFIG_OFFSET_CONTROLS: usize = 12;

/// What the device's configuration space says.
#[derive(Debug, Clone, Copy, PartialEq, Eq, Structural)]
pub struct VirtioSoundConfig {
    /// Total number of all available jacks.
    pub jacks: u32,
    /// Total number of all available PCM streams.
    pub streams: u32,
    /// Total number of all available channel maps.
    pub chmaps: u32,
    /// Total number of all available control elements, where the feature
    /// that brings them was negotiated.
    pub controls: u32,
}

impl VirtioSoundConfig {
    /// The bytes that stand for the record on the wire.
    pub open spec fn encoding(self) -> Seq<u8> {
        le_u32(self.jacks) + le_u32(self.streams) + le_u32(self.chmaps) + le_u32(self.controls)
    }

    /// The record as it stands on the wire.
    pub fn to_bytes(&self) -> (r: Vec<u8>)
        ensures
            r@ == self.encoding(),
    {
        let mut out: Vec<u8> = Vec::new();
        put_u32(&mut out, self.jacks);
        put_u32(&mut out, self.streams);
        put_u32(&mut out, self.chmaps);
        put_u32(&mut out, self.controls);
        assert(out@ =~= self.encoding());
        out
    }

    /// A view of the configuration space: `config_mem` holds its bytes where
    /// the transport has such a region, and `ctls_negotiated` says whether
    /// the device and the driver agreed on control elements.
    pub fn new_manager(config_mem: Option<Vec<u8>>, ctls_negotiated: bool) -> (r: ConfigManager)
        ensures
            r.region == config_mem,
            r.ctls_negotiated == ctls_negotiated,
    {
        ConfigManager { region: config_mem, ctls_negotiated }
    }
}

/// A read-only view of the device's configuration space.
#[derive(Debug)]
pub struct ConfigManager {
    /// The bytes of the configuration region, if the transport has one.
    pub region: Option<Vec<u8>>,
    /// Whether control elements were negotiated.
    pub ctls_negotiated: bool,
}

/// The 32-bit field at `offset` of the region, where the region exists and
/// holds the whole field.
pub open spec fn field_at(region: Option<Seq<u8>>, offset: int) -> Option<u32> {
    match region {
        Some(bytes) => if offset + 4 <= bytes.len() {
            Some(u32_of_le(bytes.skip(offset)))
        } else {
            None
        },
        None => None,
    }
}

/// The field at `offset`, or zero where it cannot be read.
pub open spec fn field_or_zero(region: Option<Seq<u8>>, offset: int) -> u32 {
    match field_at(region, offset) {
        Some(v) => v,
        None => 0,
    }
}

/// What a configuration region says: the three counters that are always
/// there, and the number of control elements where they were negotiated. A
/// field that cannot be read counts as zero.
pub open spec fn config_of(region: Option<Seq<u8>>, ctls_negotiated: bool) -> VirtioSoundConfig {
    VirtioSoundConfig {
        jacks: field_or_zero(region, CONFIG_OFFSET_JACKS as int),
        streams: field_or_zero(region, CONFIG_OFFSET_STREAMS as int),
        chmaps: field_or_zero(region, CONFIG_OFFSET_CHMAPS as int),
        controls: if ctls_negotiated {
            field_or_zero(region, CONFIG_OFFSET_CONTROLS as int)
        } else {
            0
        },
    }
}

impl ConfigManager {
    /// The bytes of the region as a sequence.
    pub open spec fn region_view(&self) -> Option<Seq<u8>> {
        match self.region {
            Some(bytes) => Some(bytes@),
            None => None,
        }
    }

    /// What the configuration space says.
    pub open spec fn config(&self) -> VirtioSoundConfig {
        config_of(self.region_view(), self.ctls_negotiated)
    }

    /// Reads the 32-bit field at `offset`, if there is a region and it holds
    /// the whole field.
    pub fn read_once(&self, offset: usize) -> (r: Option<u32>)
        ensures
            r == field_at(self.region_view(), offset as int),
    {
        match &self.region {
            Some(bytes) => {
                if offset > bytes.len() || bytes.len() - offset < 4 {
                    None
                } else {
                    Some(get_u32(bytes.as_slice(), offset))
                }
            },
            None => None,
        }
    }

    /// Reads the configuration space.
    pub fn read_config(&self) -> (r: VirtioSoundConfig)
        ensures
            r == self.config(),
    {
        let jacks: u32 = match self.read_once(CONFIG_OFFSET_JACKS) {
            Some(v) => v,
            None => 0,
        };
        let streams: u32 = match self.read_once(CONFIG_OFFSET_STREAMS) {
            Some(v) => v,
            None => 0,
        };
        let chmaps: u32 = match self.read_once(CONFIG_OFFSET_CHMAPS) {
            Some(v) => v,
            None => 0,
        };
        let controls: u32 = if self.ctls_negotiated {
            match self.read_once(CONFIG_OFFSET_CONTROLS) {
                Some(v) => v,
                None => 0,
            }
        } else {
            0
        };
        VirtioSoundConfig { jacks, streams, chmaps, controls }
    }
}

/// A region that holds the bytes of a configuration reads back as that
/// configuration, but for the control elements, which read as zero unless
/// they were negotiated.
pub proof fn lemma_config_round_trip(c: VirtioSoundConfig, ctls_negotiated: bool)
    ensures
        c.encoding().len() == SOUND_CONFIG_SIZE,
        config_of(Some(c.encoding()), ctls_negotiated) == (VirtioSoundConfig {
            controls: if ctls_negotiated {
                c.controls
            } else {
                0
            },
            ..c
        }),
        config_of(None, ctls_negotiated) == (VirtioSoundConfig {
            jacks: 0,
            streams: 0,
            chmaps: 0,
            controls: 0,
        }),
{
    let e = c.encoding();
    crate::bytes::lemma_le_u32_round_trip(c.jacks);
    crate::bytes::lemma_le_u32_round_trip(c.streams);
    crate::bytes::lemma_le_u32_round_trip(c.chmaps);
    crate::bytes::lemma_le_u32_round_trip(c.controls);
    assert(u32_of_le(e.skip(0)) == u32_of_le(le_u32(c.jacks)));
    assert(u32_of_le(e.skip(4)) == u32_of_le(le_u32(c.streams)));
    assert(u32_of_le(e.skip(8)) == u32_of_le(le_u32(c.chmaps)));
    assert(u32_of_le(e.skip(12)) == u32_of_le(le_u32(c.controls)));
}

} // verus!
