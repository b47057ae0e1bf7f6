//! The life cycle of a PCM stream and the parameters that it runs with.

use vstd::prelude::*;
use crate::flags::PcmFeatures;
use crate::flags::PcmFormat;
use crate::flags::PcmRate;

verus! {

/// The state of a PCM stream, named after the command that led to it.
#[derive(Debug, Clone, Copy, PartialEq, Eq, Structural)]
pub enum PCMState {
    SetParameters,
    Prepare,
    Release,
    Start,
    Stop,
}

impl Default for PCMState {
    fn default() -> (r: Self)
        ensures
            r == PCMState::SetParameters,
    {
        PCMState::SetParameters
    }
}

impl PCMState {
    /// Whether a stream in state `self` accepts the command that leads to `to`.
    pub open spec fn allows(self, to: PCMState) -> bool {
        match self {
            PCMState::SetParameters => to == PCMState::SetParameters || to == PCMState::Prepare,
            PCMState::Prepare => to == PCMState::SetParameters || to == PCMState::Prepare || to
                == PCMState::Start || to == PCMState::Release,
            PCMState::Start => to == PCMState::Stop,
            PCMState::Stop => to == PCMState::Start || to == PCMState::Release,
            PCMState::Release => to == PCMState::SetParameters || to == PCMState::Prepare,
        }
    }

    /// The state of a stream after the command that leads to `to` was tried
    /// in state `self`: `to` if the command was allowed and the device
    /// agreed, `self` otherwise.
    pub open spec fn after(self, to: PCMState, device_ok: bool) -> PCMState {
        if self.allows(to) && device_ok {
            to
        } else {
            self
        }
    }

    /// Whether a stream in state `self` accepts the command that leads to `to`.
    pub fn can_transition_to(self, to: PCMState) -> (r: bool)
        ensures
            r == self.allows(to),
    {
        match self {
            PCMState::SetParameters => matches!(to, PCMState::SetParameters | PCMState::Prepare),
            PCMState::Prepare => matches!(
                to,
                PCMState::SetParameters | PCMState::Prepare | PCMState::Start | PCMState::Release
            ),
            PCMState::Start => matches!(to, PCMState::Stop),
            PCMState::Stop => matches!(to, PCMState::Start | PCMState::Release),
            PCMState::Release => matches!(to, PCMState::SetParameters | PCMState::Prepare),
        }
    }
}

/// The state reached from `start` by a sequence of commands, each given by
/// the state that it leads to and by whether the device agreed to it.
pub open spec fn after_all(start: PCMState, commands: Seq<(PCMState, bool)>) -> PCMState
    decreases commands.len(),
{
    if commands.len() == 0 {
        start
    } else {
        after_all(start, commands.drop_last()).after(commands.last().0, commands.last().1)
    }
}

/// The transitions of the life cycle, one line for each state that a stream
/// can be in.
pub proof fn lemma_transition_table()
    ensures
        forall|to: PCMState|
            PCMState::SetParameters.allows(to) <==> to == PCMState::SetParameters || to
                == PCMState::Prepare,
        forall|to: PCMState|
            PCMState::Prepare.allows(to) <==> to == PCMState::SetParameters || to
                == PCMState::Prepare || to == PCMState::Start || to == PCMState::Release,
        forall|to: PCMState| PCMState::Start.allows(to) <==> to == PCMState::Stop,
        forall|to: PCMState|
            PCMState::Stop.allows(to) <==> to == PCMState::Start || to == PCMState::Release,
        forall|to: PCMState|
            PCMState::Release.allows(to) <==> to == PCMState::SetParameters || to
                == PCMState::Prepare,
{
}

/// Whatever commands are tried, each step of a stream's life follows the
/// table: a command that the state does not allow, or that the device
/// refuses, changes nothing, and any other leads to its own state.
pub proof fn lemma_life_cycle_follows_table(start: PCMState, commands: Seq<(PCMState, bool)>)
    ensures
        forall|k: int|
            0 <= k < commands.len() ==> {
                let before = #[trigger] after_all(start, commands.take(k));
                let now = after_all(start, commands.take(k + 1));
                if before.allows(commands[k].0) && commands[k].1 {
                    now == commands[k].0
                } else {
                    now == before
                }
            },
{
    assert forall|k: int| 0 <= k < commands.len() implies {
        let before = #[trigger] after_all(start, commands.take(k));
        let now = after_all(start, commands.take(k + 1));
        if before.allows(commands[k].0) && commands[k].1 {
            now == commands[k].0
        } else {
            now == before
        }
    } by {
        let t = commands.take(k + 1);
        assert(t.drop_last() =~= commands.take(k));
        assert(t.last() == commands[k]);
    }
}

/// Whether a buffer of `buffer_bytes` is a whole number of periods of
/// `period_bytes`, at least one.
pub open spec fn sizes_valid(buffer_bytes: u32, period_bytes: u32) -> bool {
    period_bytes > 0 && period_bytes <= buffer_bytes && buffer_bytes % period_bytes == 0
}

/// Tells whether a buffer of `buffer_bytes` is a whole number of periods of
/// `period_bytes`, at least one.
pub fn check_sizes(buffer_bytes: u32, period_bytes: u32) -> (r: bool)
    ensures
        r == sizes_valid(buffer_bytes, period_bytes),
{
    period_bytes != 0 && period_bytes <= buffer_bytes && buffer_bytes % period_bytes == 0
}

/// The parameters of one stream as the driver last set them.
#[derive(Debug, Clone, Copy, PartialEq, Eq)]
pub struct PcmParameters {
    /// Whether the device has accepted parameters for the stream.
    pub setup: bool,
    pub buffer_bytes: u32,
    pub period_bytes: u32,
    pub features: PcmFeatures,
    pub channels: u8,
    pub format: PcmFormat,
    pub rate: PcmRate,
}

impl PcmParameters {
    /// The parameters of a stream for which none were set.
    pub open spec fn unset() -> Self {
        PcmParameters {
            setup: false,
            buffer_bytes: 0,
            period_bytes: 0,
            features: PcmFeatures { bits: 0 },
            channels: 0,
            format: PcmFormat::ImaAdpcm,
            rate: PcmRate::Rate5512,
        }
    }

    /// Parameters that are set keep the relation between buffer and period.
    pub open spec fn wf(self) -> bool {
        self.setup ==> sizes_valid(self.buffer_bytes, self.period_bytes)
    }
}

impl Default for PcmParameters {
    fn default() -> (r: Self)
        ensures
            r == PcmParameters::unset(),
    {
        PcmParameters {
            setup: false,
            buffer_bytes: 0,
            period_bytes: 0,
            features: PcmFeatures::empty(),
            channels: 0,
            format: PcmFormat::ImaAdpcm,
            rate: PcmRate::Rate5512,
        }
    }
}

} // verus!
