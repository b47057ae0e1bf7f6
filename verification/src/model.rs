//! What the sound device does, as mathematics.
//!
//! The device is a state machine: an operation is begun, its request goes
//! to the device, and the answer of the device takes it further. This module
//! holds the states ([`SoundDeviceView`]), the steps between them
//! ([`SoundDeviceView::begun`], [`SoundDeviceView::resumed`] and their like
//! for playback, capture and events), and the invariant that every step
//! keeps ([`SoundDeviceView::wf`]). The code that takes the steps is in
//! [`crate::device`]; what follows from them is in [`crate::laws`].

use vstd::prelude::*;
use crate::bytes::le_u32;
use crate::bytes::u32_of_le;
use crate::codes::VIRTIO_SND_D_INPUT;
use crate::codes::VIRTIO_SND_D_OUTPUT;
use crate::codes::VIRTIO_SND_R_CHMAP_INFO;
use crate::codes::VIRTIO_SND_R_PCM_INFO;
use crate::codes::VIRTIO_SND_R_PCM_PREPARE;
use crate::codes::VIRTIO_SND_R_PCM_RELEASE;
use crate::codes::VIRTIO_SND_R_PCM_SET_PARAMS;
use crate::codes::VIRTIO_SND_R_PCM_START;
use crate::codes::VIRTIO_SND_R_PCM_STOP;
use crate::codes::VIRTIO_SND_S_OK;
use crate::config::VirtioSoundConfig;
use crate::dma::DmaStreamView;
use crate::dma::read_of;
use crate::dma::written;
use crate::error::VirtioDeviceError;
use crate::flags::PCM_FEATURES_ALL;
use crate::flags::PCM_FORMATS_ALL;
use crate::flags::PCM_RATES_ALL;
use crate::flags::PcmFeatures;
use crate::flags::PcmFormat;
use crate::flags::PcmFormats;
use crate::flags::PcmRate;
use crate::flags::PcmRates;
use crate::pcm::PcmParameters;
use crate::pcm::PCMState;
use crate::pcm::sizes_valid;
use crate::queue::added;
use crate::queue::DmaBuf;
use crate::queue::fresh_queue;
use crate::queue::popped;
use crate::queue::queue_size_for;
use crate::queue::QueueError;
use crate::queue::QueueTransport;
use crate::queue::VIRTQ_USED_F_NO_NOTIFY;
use crate::queue::VirtQueueView;
use crate::wire::CHMAP_INFO_SIZE;
use crate::wire::Notification;
use crate::wire::PCM_INFO_SIZE;
use crate::wire::PCM_SET_PARAMS_SIZE;
use crate::wire::PCM_STATUS_SIZE;
use crate::wire::PCM_XFER_SIZE;
use crate::wire::SND_EVENT_SIZE;
use crate::wire::SND_HDR_SIZE;
use crate::wire::VirtioSndChmapInfo;
use crate::wire::VirtioSndHdr;
use crate::wire::VirtioSndPcmHdr;
use crate::wire::VirtioSndPcmInfo;
use crate::wire::VirtioSndPcmSetParams;
use crate::wire::VirtioSndQueryInfo;

verus! {

/// The size that the driver asks for each of its queues.
pub const QUEUE_SIZE: u16 = 16;

/// Index of the queue for control messages from the driver to the device.
pub const CONTROLQ_INDEX: u16 = 0;

/// Index of the queue for notifications from the device to the driver.
pub const EVENTQ_INDEX: u16 = 1;

/// Index of the queue for PCM frames of output streams.
pub const TXQ_INDEX: u16 = 2;

/// Index of the queue for PCM frames of input streams.
pub const RXQ_INDEX: u16 = 3;

/// Smallest queue that the driver can work with: a PCM transfer takes three
/// descriptors.
pub const MIN_QUEUE_SIZE: u16 = 4;

/// Size of the slot that each descriptor has in the transfer buffer: the
/// stream header of a PCM transfer at its front, the status record behind.
pub const XFER_SLOT_SIZE: usize = 16;

/// Place of the status record in a slot of the transfer buffer.
pub const XFER_STATUS_OFFSET: usize = 8;

/// One of the four queues of the device.
#[derive(Debug, Clone, Copy, PartialEq, Eq, Structural)]
pub enum QueueId {
    Control,
    Event,
    Tx,
    Rx,
}

/// One of the buffers that the device shares with the driver.
#[derive(Debug, Clone, Copy, PartialEq, Eq, Structural)]
pub enum BufferId {
    /// Control requests, read by the device.
    Request,
    /// Control responses, written by the device.
    Response,
    /// Event notifications, written by the device.
    Event,
    /// PCM frames for playback, read by the device.
    Send,
    /// PCM frames from capture, written by the device.
    Receive,
    /// One slot for each descriptor: the stream header of a PCM transfer,
    /// read by the device, and its status record, written by the device.
    Xfer,
}

/// Where a buffer lies in the device's address space.
#[derive(Debug, Clone, Copy, PartialEq, Eq, Structural)]
pub struct DmaRegion {
    pub daddr: u64,
    pub nbytes: usize,
}

/// The regions that were mapped for the device's buffers.
#[derive(Debug, Clone, Copy, PartialEq, Eq, Structural)]
pub struct DmaPlan {
    pub request: DmaRegion,
    pub response: DmaRegion,
    pub event: DmaRegion,
    pub send: DmaRegion,
    pub receive: DmaRegion,
    pub xfer: DmaRegion,
}

/// A chain that was handed to a queue: its token, and whether the device
/// asks to be told.
#[derive(Debug, Clone, Copy, PartialEq, Eq, Structural)]
pub struct Submitted {
    pub token: u16,
    pub notify: bool,
}

/// The mathematical content of a [`SoundDeviceInner`].
pub struct SoundDeviceInnerView {
    pub config: VirtioSoundConfig,
    pub control: VirtQueueView,
    pub event: VirtQueueView,
    pub tx: VirtQueueView,
    pub rx: VirtQueueView,
    pub request: DmaStreamView,
    pub response: DmaStreamView,
    pub event_buffer: DmaStreamView,
    pub send: DmaStreamView,
    pub receive: DmaStreamView,
    pub xfer: DmaStreamView,
    /// The token of the chain that offers the event buffer to the device.
    pub event_token: u16,
    /// The number of subscribers to events.
    pub callbacks: nat,
}

/// The place in the transfer buffer of the stream header that belongs to
/// the chain with the given token.
pub open spec fn header_offset(token: u16) -> nat {
    (XFER_SLOT_SIZE * token) as nat
}

/// The place in the transfer buffer of the status record that belongs to
/// the chain with the given token.
pub open spec fn status_offset(token: u16) -> nat {
    (XFER_SLOT_SIZE * token + XFER_STATUS_OFFSET) as nat
}

impl SoundDeviceInnerView {
    /// The invariant of the queues and buffers.
    pub open spec fn wf(self) -> bool {
        &&& self.control.wf()
        &&& self.event.wf()
        &&& self.tx.wf()
        &&& self.rx.wf()
        &&& self.control.size >= MIN_QUEUE_SIZE
        &&& self.event.size >= MIN_QUEUE_SIZE
        &&& self.tx.size >= MIN_QUEUE_SIZE
        &&& self.rx.size >= MIN_QUEUE_SIZE
        &&& self.request.wf()
        &&& self.response.wf()
        &&& self.event_buffer.wf()
        &&& self.send.wf()
        &&& self.receive.wf()
        &&& self.xfer.wf()
        &&& self.request.bytes.len() >= PCM_SET_PARAMS_SIZE
        &&& self.response.bytes.len() >= SND_HDR_SIZE
        &&& self.event_buffer.bytes.len() >= SND_EVENT_SIZE
        &&& self.send.bytes.len() >= 1
        &&& self.receive.bytes.len() >= 1
        &&& self.xfer.bytes.len() >= XFER_SLOT_SIZE * self.tx.size
        &&& self.xfer.bytes.len() >= XFER_SLOT_SIZE * self.rx.size
        &&& self.event_posted()
    }

    /// The event buffer is with the device: the event queue holds one chain,
    /// of one descriptor, which offers the first bytes of the event buffer
    /// for writing.
    pub open spec fn event_posted(self) -> bool {
        &&& self.event.chains.dom() =~= set![self.event_token as int]
        &&& self.event.num_used == 1
        &&& self.event.chain_bufs(self.event_token) == seq![
            (self.event_buffer.daddr, SND_EVENT_SIZE as u32, true),
        ]
    }

    /// The queue with the given name.
    pub open spec fn queue(self, id: QueueId) -> VirtQueueView {
        match id {
            QueueId::Control => self.control,
            QueueId::Event => self.event,
            QueueId::Tx => self.tx,
            QueueId::Rx => self.rx,
        }
    }

    /// The buffer with the given name.
    pub open spec fn buffer(self, id: BufferId) -> DmaStreamView {
        match id {
            BufferId::Request => self.request,
            BufferId::Response => self.response,
            BufferId::Event => self.event_buffer,
            BufferId::Send => self.send,
            BufferId::Receive => self.receive,
            BufferId::Xfer => self.xfer,
        }
    }

    /// The buffer in which the `len` bytes at `addr` lie, as the device
    /// counts addresses, and their place in it; where several buffers hold
    /// them, the first in the order of [`BufferId`].
    pub open spec fn locate(self, addr: u64, len: u32) -> Option<(BufferId, usize)> {
        if self.request.holds(addr, len) {
            Some((BufferId::Request, (addr - self.request.daddr) as usize))
        } else if self.response.holds(addr, len) {
            Some((BufferId::Response, (addr - self.response.daddr) as usize))
        } else if self.event_buffer.holds(addr, len) {
            Some((BufferId::Event, (addr - self.event_buffer.daddr) as usize))
        } else if self.send.holds(addr, len) {
            Some((BufferId::Send, (addr - self.send.daddr) as usize))
        } else if self.receive.holds(addr, len) {
            Some((BufferId::Receive, (addr - self.receive.daddr) as usize))
        } else if self.xfer.holds(addr, len) {
            Some((BufferId::Xfer, (addr - self.xfer.daddr) as usize))
        } else {
            None
        }
    }

    /// The same queues and buffers, with another one for one queue.
    pub open spec fn with_queue(self, id: QueueId, q: VirtQueueView) -> Self {
        match id {
            QueueId::Control => SoundDeviceInnerView { control: q, ..self },
            QueueId::Event => SoundDeviceInnerView { event: q, ..self },
            QueueId::Tx => SoundDeviceInnerView { tx: q, ..self },
            QueueId::Rx => SoundDeviceInnerView { rx: q, ..self },
        }
    }

    /// The same queues and buffers, with another one for one buffer.
    pub open spec fn with_buffer(self, id: BufferId, b: DmaStreamView) -> Self {
        match id {
            BufferId::Request => SoundDeviceInnerView { request: b, ..self },
            BufferId::Response => SoundDeviceInnerView { response: b, ..self },
            BufferId::Event => SoundDeviceInnerView { event_buffer: b, ..self },
            BufferId::Send => SoundDeviceInnerView { send: b, ..self },
            BufferId::Receive => SoundDeviceInnerView { receive: b, ..self },
            BufferId::Xfer => SoundDeviceInnerView { xfer: b, ..self },
        }
    }
}

/// Whether a region can hold a buffer of at least `least` bytes.
pub open spec fn region_fits(region: DmaRegion, least: nat) -> bool {
    &&& region.nbytes <= u32::MAX
    &&& region.daddr + region.nbytes <= u64::MAX
    &&& region.nbytes >= least
}

/// What the queues of the sound device need to know of the transport below
/// them.
#[derive(Debug, Clone, Copy, PartialEq, Eq)]
pub enum SoundTransport {
    /// A modern transport: the driver chooses the size of each queue.
    Modern,
    /// A legacy transport: the device dictates the size of each queue.
    Legacy { control: u16, event: u16, tx: u16, rx: u16 },
}

impl SoundTransport {
    /// What one queue needs to know of the transport.
    pub open spec fn of(self, id: QueueId) -> QueueTransport {
        match self {
            SoundTransport::Modern => QueueTransport::Modern,
            SoundTransport::Legacy { control, event, tx, rx } => QueueTransport::Legacy {
                max_queue_size: match id {
                    QueueId::Control => control,
                    QueueId::Event => event,
                    QueueId::Tx => tx,
                    QueueId::Rx => rx,
                },
            },
        }
    }

    /// What one queue needs to know of the transport.
    pub fn queue(self, id: QueueId) -> (r: QueueTransport)
        ensures
            r == self.of(id),
    {
        match self {
            SoundTransport::Modern => QueueTransport::Modern,
            SoundTransport::Legacy { control, event, tx, rx } => QueueTransport::Legacy {
                max_queue_size: match id {
                    QueueId::Control => control,
                    QueueId::Event => event,
                    QueueId::Tx => tx,
                    QueueId::Rx => rx,
                },
            },
        }
    }
}

/// The number of descriptors of each of the four queues.
pub struct QueueSizes {
    pub control: u16,
    pub event: u16,
    pub tx: u16,
    pub rx: u16,
}

/// The size that one queue of the sound device gets on a transport, if the
/// driver can work with it: the size that a queue of [`QUEUE_SIZE`] gets
/// there, where that is at least [`MIN_QUEUE_SIZE`].
pub open spec fn sound_queue_size(transport: SoundTransport, id: QueueId) -> Option<u16> {
    match queue_size_for(QUEUE_SIZE, transport.of(id)) {
        Some(n) => if n >= MIN_QUEUE_SIZE {
            Some(n)
        } else {
            None
        },
        None => None,
    }
}

/// The sizes that the four queues get on a transport, if the driver can
/// work with each of them.
pub open spec fn queue_sizes(transport: SoundTransport) -> Option<QueueSizes> {
    if sound_queue_size(transport, QueueId::Control) is Some && sound_queue_size(
        transport,
        QueueId::Event,
    ) is Some && sound_queue_size(transport, QueueId::Tx) is Some && sound_queue_size(
        transport,
        QueueId::Rx,
    ) is Some {
        Some(
            QueueSizes {
                control: sound_queue_size(transport, QueueId::Control)->Some_0,
                event: sound_queue_size(transport, QueueId::Event)->Some_0,
                tx: sound_queue_size(transport, QueueId::Tx)->Some_0,
                rx: sound_queue_size(transport, QueueId::Rx)->Some_0,
            },
        )
    } else {
        None
    }
}

/// Whether the regions of a plan can hold the buffers of a device whose
/// queues have the given sizes: the transfer buffer has a slot for each
/// descriptor of the tx queue and of the rx queue.
pub open spec fn plan_fits(plan: DmaPlan, sizes: QueueSizes) -> bool {
    &&& region_fits(plan.request, PCM_SET_PARAMS_SIZE as nat)
    &&& region_fits(plan.response, SND_HDR_SIZE as nat)
    &&& region_fits(plan.event, SND_EVENT_SIZE as nat)
    &&& region_fits(plan.send, 1)
    &&& region_fits(plan.receive, 1)
    &&& region_fits(plan.xfer, (XFER_SLOT_SIZE * sizes.tx) as nat)
    &&& region_fits(plan.xfer, (XFER_SLOT_SIZE * sizes.rx) as nat)
}

/// A buffer of zero bytes in the given region.
pub open spec fn zeroed(region: DmaRegion) -> DmaStreamView {
    DmaStreamView { daddr: region.daddr, bytes: Seq::new(region.nbytes as nat, |i: int| 0u8) }
}

/// The event buffer as the event queue is told of it.
pub open spec fn event_slice(daddr: u64) -> DmaBuf {
    DmaBuf { daddr, len: SND_EVENT_SIZE as u32 }
}

/// The queues and buffers of a device that was just brought up: four empty
/// queues of the given sizes, but for the event buffer, which is offered to
/// the device on the event queue; every buffer zeroed; no subscriber.
pub open spec fn initial_inner(
    config_mem: Option<Seq<u8>>,
    ctls_negotiated: bool,
    modern: bool,
    sizes: QueueSizes,
    plan: DmaPlan,
) -> SoundDeviceInnerView {
    SoundDeviceInnerView {
        config: crate::config::config_of(config_mem, ctls_negotiated),
        control: fresh_queue(CONTROLQ_INDEX, sizes.control, modern),
        event: added(
            fresh_queue(EVENTQ_INDEX, sizes.event, modern),
            Seq::empty(),
            seq![event_slice(plan.event.daddr)],
        ),
        tx: fresh_queue(TXQ_INDEX, sizes.tx, modern),
        rx: fresh_queue(RXQ_INDEX, sizes.rx, modern),
        request: zeroed(plan.request),
        response: zeroed(plan.response),
        event_buffer: zeroed(plan.event),
        send: zeroed(plan.send),
        receive: zeroed(plan.receive),
        xfer: zeroed(plan.xfer),
        event_token: 0,
        callbacks: 0,
    }
}

/// An operation of the sound device.
#[derive(Debug, Clone, Copy, PartialEq, Eq)]
pub enum Op {
    /// Set the device up, if that was not done.
    SetUp,
    /// Ask for the records of `count` streams from `start_id` on.
    PcmInfo { start_id: u32, count: u32 },
    /// Ask for the records of `count` channel maps from `start_id` on.
    ChmapInfo { start_id: u32, count: u32 },
    /// Set the parameters of a stream.
    SetParams {
        stream_id: u32,
        buffer_bytes: u32,
        period_bytes: u32,
        features: PcmFeatures,
        channels: u8,
        format: PcmFormat,
        rate: PcmRate,
    },
    Prepare { stream_id: u32 },
    Release { stream_id: u32 },
    Start { stream_id: u32 },
    Stop { stream_id: u32 },
    /// List the output streams.
    OutputStreams,
    /// List the input streams.
    InputStreams,
    RatesSupported { stream_id: u32 },
    FormatsSupported { stream_id: u32 },
    ChannelRangeSupported { stream_id: u32 },
    FeaturesSupported { stream_id: u32 },
}

/// The request that is with the device: which part of the operation it
/// belongs to.
#[derive(Debug, Clone, Copy, PartialEq, Eq, Structural)]
pub enum Stage {
    /// The stream records are asked for, as the first part of set-up.
    SetUpPcmInfo,
    /// The channel map records are asked for, as the second part of set-up.
    SetUpChmapInfo,
    /// The request of the operation itself.
    Main,
}

/// The operation that is under way, and the token of its request.
#[derive(Debug, Clone, Copy, PartialEq, Eq)]
pub struct Pending {
    pub stage: Stage,
    pub op: Op,
    pub token: u16,
}

/// What an operation gives back.
#[derive(Debug, Clone, PartialEq, Eq)]
pub enum Reply {
    /// The operation was carried out.
    Done,
    PcmInfos(Vec<VirtioSndPcmInfo>),
    ChmapInfos(Vec<VirtioSndChmapInfo>),
    /// The streams of one direction, in ascending order.
    Streams(Vec<u32>),
    Rates(PcmRates),
    Formats(PcmFormats),
    /// The smallest and the largest number of channels.
    ChannelRange(u8, u8),
    Features(PcmFeatures),
}

/// The mathematical content of a [`Reply`].
pub enum ReplyView {
    Done,
    PcmInfos(Seq<VirtioSndPcmInfo>),
    ChmapInfos(Seq<VirtioSndChmapInfo>),
    Streams(Seq<u32>),
    Rates(PcmRates),
    Formats(PcmFormats),
    ChannelRange(u8, u8),
    Features(PcmFeatures),
}

impl View for Reply {
    type V = ReplyView;

    open spec fn view(&self) -> ReplyView {
        match self {
            Reply::Done => ReplyView::Done,
            Reply::PcmInfos(v) => ReplyView::PcmInfos(v@),
            Reply::ChmapInfos(v) => ReplyView::ChmapInfos(v@),
            Reply::Streams(v) => ReplyView::Streams(v@),
            Reply::Rates(r) => ReplyView::Rates(*r),
            Reply::Formats(f) => ReplyView::Formats(*f),
            Reply::ChannelRange(lo, hi) => ReplyView::ChannelRange(*lo, *hi),
            Reply::Features(f) => ReplyView::Features(*f),
        }
    }
}

/// How far an operation has come.
#[derive(Debug, PartialEq, Eq)]
pub enum Step {
    /// A request is with the device. Notify the device if it asks for that,
    /// wait for its answer, bring the answer in and call
    /// [`SoundDevice::resume`].
    Wait(Submitted),
    /// The operation has ended.
    Done(Result<Reply, VirtioDeviceError>),
}

/// The mathematical content of a [`Step`].
pub enum StepView {
    Wait(Submitted),
    Done(Result<ReplyView, VirtioDeviceError>),
}

impl View for Step {
    type V = StepView;

    open spec fn view(&self) -> StepView {
        match self {
            Step::Wait(s) => StepView::Wait(*s),
            Step::Done(Ok(reply)) => StepView::Done(Ok(reply@)),
            Step::Done(Err(e)) => StepView::Done(Err(*e)),
        }
    }
}

impl Op {
    /// Whether the operation runs set-up first on a device that has not
    /// been set up.
    pub open spec fn needs_set_up(self) -> bool {
        !(self is PcmInfo || self is ChmapInfo)
    }

    /// Whether the operation is answered from what set-up has stored.
    pub open spec fn is_query(self) -> bool {
        self is SetUp || self is OutputStreams || self is InputStreams || self is RatesSupported
            || self is FormatsSupported || self is ChannelRangeSupported
            || self is FeaturesSupported
    }

    /// The stream that the operation names, if it names one.
    pub open spec fn stream(self) -> Option<u32> {
        match self {
            Op::SetParams { stream_id, .. } => Some(stream_id),
            Op::Prepare { stream_id } => Some(stream_id),
            Op::Release { stream_id } => Some(stream_id),
            Op::Start { stream_id } => Some(stream_id),
            Op::Stop { stream_id } => Some(stream_id),
            Op::RatesSupported { stream_id } => Some(stream_id),
            Op::FormatsSupported { stream_id } => Some(stream_id),
            Op::ChannelRangeSupported { stream_id } => Some(stream_id),
            Op::FeaturesSupported { stream_id } => Some(stream_id),
            _ => None,
        }
    }

    /// The state to which the operation takes its stream, if it is a
    /// command of the life cycle.
    pub open spec fn target(self) -> Option<PCMState> {
        match self {
            Op::SetParams { .. } => Some(PCMState::SetParameters),
            Op::Prepare { .. } => Some(PCMState::Prepare),
            Op::Release { .. } => Some(PCMState::Release),
            Op::Start { .. } => Some(PCMState::Start),
            Op::Stop { .. } => Some(PCMState::Stop),
            _ => None,
        }
    }

    /// The bytes of the request that the operation sends to the device.
    pub open spec fn request(self) -> Seq<u8> {
        match self {
            Op::PcmInfo { start_id, count } => info_query(
                VIRTIO_SND_R_PCM_INFO,
                start_id,
                count,
                PCM_INFO_SIZE as u32,
            ),
            Op::ChmapInfo { start_id, count } => info_query(
                VIRTIO_SND_R_CHMAP_INFO,
                start_id,
                count,
                CHMAP_INFO_SIZE as u32,
            ),
            Op::SetParams {
                stream_id,
                buffer_bytes,
                period_bytes,
                features,
                channels,
                format,
                rate,
            } => (VirtioSndPcmSetParams {
                hdr: VirtioSndPcmHdr {
                    hdr: VirtioSndHdr { code: VIRTIO_SND_R_PCM_SET_PARAMS },
                    stream_id,
                },
                buffer_bytes,
                period_bytes,
                features: features.bits,
                channels,
                format: format.selector_spec(),
                rate: rate.selector_spec(),
                padding: 0,
            }).encoding(),
            Op::Prepare { stream_id } => pcm_command(VIRTIO_SND_R_PCM_PREPARE, stream_id),
            Op::Release { stream_id } => pcm_command(VIRTIO_SND_R_PCM_RELEASE, stream_id),
            Op::Start { stream_id } => pcm_command(VIRTIO_SND_R_PCM_START, stream_id),
            Op::Stop { stream_id } => pcm_command(VIRTIO_SND_R_PCM_STOP, stream_id),
            _ => Seq::empty(),
        }
    }

    /// The number of bytes that the driver offers to the device for the
    /// response: a header, and behind it one record for each item that an
    /// information request asks about.
    pub open spec fn response_len(self) -> nat {
        match self {
            Op::PcmInfo { start_id, count } => (SND_HDR_SIZE + count * PCM_INFO_SIZE) as nat,
            Op::ChmapInfo { start_id, count } => (SND_HDR_SIZE + count * CHMAP_INFO_SIZE) as nat,
            _ => SND_HDR_SIZE as nat,
        }
    }
}

/// The bytes of a request for information.
pub open spec fn info_query(code: u32, start_id: u32, count: u32, size: u32) -> Seq<u8> {
    (VirtioSndQueryInfo { hdr: VirtioSndHdr { code }, start_id, count, size }).encoding()
}

/// The bytes of a command of the life cycle: the header and the stream.
pub open spec fn pcm_command(code: u32, stream_id: u32) -> Seq<u8> {
    (VirtioSndPcmHdr { hdr: VirtioSndHdr { code }, stream_id }).encoding()
}

/// The stream that the self-test plays on.
pub const TEST_STREAM: u32 = 0;

/// The size of the buffer in the self-test.
pub const TEST_BUFFER_BYTES: u32 = 80000;

/// The size of a period in the self-test.
pub const TEST_PERIOD_BYTES: u32 = 100;

/// The commands of the self-test, in order.
pub open spec fn test_script() -> Seq<Op> {
    seq![
        Op::SetParams {
            stream_id: TEST_STREAM,
            buffer_bytes: TEST_BUFFER_BYTES,
            period_bytes: TEST_PERIOD_BYTES,
            features: PcmFeatures { bits: 0 },
            channels: 1,
            format: PcmFormat::U8,
            rate: PcmRate::Rate8000,
        },
        Op::Prepare { stream_id: TEST_STREAM },
        Op::Start { stream_id: TEST_STREAM },
        Op::Stop { stream_id: TEST_STREAM },
        Op::Release { stream_id: TEST_STREAM },
    ]
}

/// The streams among `infos` that flow in the given direction, in ascending
/// order.
pub open spec fn streams_in(infos: Seq<VirtioSndPcmInfo>, direction: u8) -> Seq<u32>
    decreases infos.len(),
{
    if infos.len() == 0 {
        Seq::empty()
    } else if infos.last().direction == direction {
        streams_in(infos.drop_last(), direction).push((infos.len() - 1) as u32)
    } else {
        streams_in(infos.drop_last(), direction)
    }
}

/// The number of descriptors that a blocking playback keeps with the
/// device at most.
pub const QUEUE_CAPACITY: usize = 16;

/// The number of descriptors that one chunk takes: stream header, frames
/// and status.
pub const CHUNK_DESCRIPTORS: usize = 3;

/// The number of chunks that a blocking playback keeps with the device at
/// most: as many as [`QUEUE_CAPACITY`] descriptors make.
pub const MAX_CHUNKS: usize = 5;

/// The mathematical content of a [`PcmXfer`].
pub struct PcmXferView {
    pub stream_id: u32,
    /// The number of bytes in a chunk, but for the last one.
    pub period: nat,
    /// The frames to play.
    pub frames: Seq<u8>,
    /// The place in `frames` of the next chunk to hand to the device.
    pub next: nat,
    /// The tokens of the chunks that are with the device, oldest first.
    pub window: Seq<u16>,
    /// The first status other than `VIRTIO_SND_S_OK` that a chunk came
    /// back with, if one did.
    pub bad: Option<u32>,
    /// The number of completions that were taken.
    pub reaped: nat,
    /// The number of the first chunk that came back with such a status,
    /// counted from one, if one did.
    pub failed: Option<nat>,
}

impl PcmXferView {
    /// The number of bytes in the next chunk: a period, or what is left of
    /// the frames where that is less.
    pub open spec fn chunk_len(self) -> nat {
        if self.frames.len() - self.next < self.period {
            (self.frames.len() - self.next) as nat
        } else {
            self.period
        }
    }

    /// The next chunk.
    pub open spec fn chunk(self) -> Seq<u8> {
        self.frames.subrange(self.next as int, (self.next + self.chunk_len()) as int)
    }

    /// How the playback ends once nothing is with the device.
    pub open spec fn outcome(self) -> Result<(), VirtioDeviceError> {
        match self.bad {
            None => Ok(()),
            Some(code) => Err(VirtioDeviceError::IoError(Some(code))),
        }
    }
}

/// A capture that is under way.
#[derive(Debug, Clone, Copy, PartialEq, Eq)]
pub struct Capture {
    pub stream_id: u32,
    /// The number of bytes asked for.
    pub want: usize,
    /// The number of bytes recorded so far.
    pub filled: usize,
    /// The number of bytes of the receive buffer that are with the device.
    pub posted: usize,
    /// The token under which they are.
    pub token: u16,
}

/// How far a blocking playback has come.
#[derive(Debug, Clone, Copy, PartialEq, Eq)]
pub enum XferStep {
    /// The playback goes on. Notify the device if `notify` says so, bring
    /// in what the device has written, and call
    /// [`SoundDevice::pcm_xfer_step`] again.
    Continue { notify: bool },
    /// The playback has ended.
    Finished(Result<(), VirtioDeviceError>),
}

/// How far a capture has come.
#[derive(Debug, Clone, Copy, PartialEq, Eq)]
pub enum RecordStep {
    /// A part of the receive buffer is with the device. Notify the device
    /// if it asks for that, wait, bring in what it has written and call
    /// [`SoundDevice::record_resume`].
    Wait(Submitted),
    /// The capture has ended after `filled` bytes.
    Finished { filled: usize },
    /// The capture was given up after `filled` bytes.
    Failed { filled: usize, error: VirtioDeviceError },
}

/// What an interrupt of the event queue brought.
#[derive(Debug, Clone, PartialEq, Eq)]
pub struct EventDelivery {
    /// The bytes that the device wrote to the event buffer.
    pub payload: Vec<u8>,
    /// The notification that the bytes stand for, if they stand for one.
    pub notification: Option<Notification>,
    /// The number of subscribers to hand the payload to, each once: all
    /// that are registered where the bytes stand for a notification, none
    /// otherwise.
    pub subscribers: usize,
    /// Whether the device asks to be told that the event buffer was
    /// offered again.
    pub notify: bool,
}

/// The mathematical content of a [`SoundDevice`].
pub struct SoundDeviceView {
    pub inner: SoundDeviceInnerView,
    /// The stream records, once set-up has fetched them.
    pub pcm_infos: Option<Seq<VirtioSndPcmInfo>>,
    /// The channel map records, once set-up has fetched them.
    pub chmap_infos: Option<Seq<VirtioSndChmapInfo>>,
    /// The parameters of each stream.
    pub parameters: Seq<PcmParameters>,
    pub set_up: bool,
    /// The state of each stream.
    pub states: Seq<PCMState>,
    /// The tokens of the transfers that were submitted without waiting and
    /// have not been acknowledged.
    pub outstanding: Set<u16>,
    /// The control request that is with the device, if one is.
    pub pending: Option<Pending>,
    /// The blocking playback that is under way, if one is.
    pub xfer: Option<PcmXferView>,
    /// The capture that is under way, if one is.
    pub capture: Option<Capture>,
}

impl SoundDeviceView {
    /// The number of streams that the device has.
    pub open spec fn streams(self) -> nat {
        self.inner.config.streams as nat
    }

    /// The number of channel maps that the device has.
    pub open spec fn chmaps(self) -> nat {
        self.inner.config.chmaps as nat
    }

    /// The number of bytes that the response buffer holds.
    pub open spec fn response_capacity(self) -> nat {
        self.inner.response.bytes.len()
    }

    /// Why an operation is refused before the device is asked, if it is: a
    /// range of items that the device does not have, a stream that it does
    /// not have, or sizes of buffer and period that do not go together
    /// (`InvalidParam`); a response that the response buffer cannot hold
    /// (`BufferOverflow`); a command that the state of the stream does not
    /// allow (`IoError`).
    pub open spec fn precheck(self, op: Op) -> Option<VirtioDeviceError> {
        match op {
            Op::PcmInfo { start_id, count } => if start_id + count > self.streams() {
                Some(VirtioDeviceError::InvalidParam)
            } else if op.response_len() > self.response_capacity() {
                Some(VirtioDeviceError::BufferOverflow)
            } else {
                None
            },
            Op::ChmapInfo { start_id, count } => if start_id + count > self.chmaps() {
                Some(VirtioDeviceError::InvalidParam)
            } else if op.response_len() > self.response_capacity() {
                Some(VirtioDeviceError::BufferOverflow)
            } else {
                None
            },
            Op::SetUp => None,
            Op::OutputStreams => None,
            Op::InputStreams => None,
            _ => {
                let stream_id = op.stream().unwrap();
                if stream_id >= self.streams() {
                    Some(VirtioDeviceError::InvalidParam)
                } else {
                    match op {
                        Op::SetParams { buffer_bytes, period_bytes, .. } => if !sizes_valid(
                            buffer_bytes,
                            period_bytes,
                        ) {
                            Some(VirtioDeviceError::InvalidParam)
                        } else if !self.states[stream_id as int].allows(PCMState::SetParameters) {
                            Some(VirtioDeviceError::IoError(None))
                        } else {
                            None
                        },
                        _ => match op.target() {
                            Some(to) => if !self.states[stream_id as int].allows(to) {
                                Some(VirtioDeviceError::IoError(None))
                            } else {
                                None
                            },
                            None => None,
                        },
                    }
                }
            },
        }
    }

    /// What a query gives on a device that was set up.
    pub open spec fn query_reply(self, op: Op) -> ReplyView {
        let infos = self.pcm_infos.unwrap();
        match op {
            Op::OutputStreams => ReplyView::Streams(streams_in(infos, VIRTIO_SND_D_OUTPUT)),
            Op::InputStreams => ReplyView::Streams(streams_in(infos, VIRTIO_SND_D_INPUT)),
            Op::RatesSupported { stream_id } => ReplyView::Rates(
                PcmRates { bits: infos[stream_id as int].rates & PCM_RATES_ALL },
            ),
            Op::FormatsSupported { stream_id } => ReplyView::Formats(
                PcmFormats { bits: infos[stream_id as int].formats & PCM_FORMATS_ALL },
            ),
            Op::ChannelRangeSupported { stream_id } => ReplyView::ChannelRange(
                infos[stream_id as int].channels_min,
                infos[stream_id as int].channels_max,
            ),
            Op::FeaturesSupported { stream_id } => ReplyView::Features(
                PcmFeatures { bits: infos[stream_id as int].features & PCM_FEATURES_ALL },
            ),
            _ => ReplyView::Done,
        }
    }

    /// The device after a request of `request` bytes was handed to the
    /// control queue for the given part of `op`, and the step that tells of
    /// it: the request stands at the front of the request buffer; the
    /// control queue holds one chain more, made of the request, which the
    /// device reads, and of the first `response_len` bytes of the response
    /// buffer, which it writes.
    pub open spec fn submit(self, stage: Stage, op: Op, request: Seq<u8>, response_len: nat) -> (
        SoundDeviceView,
        StepView,
    ) {
        let token = self.inner.control.free_head;
        (
            SoundDeviceView {
                inner: SoundDeviceInnerView {
                    control: added(
                        self.inner.control,
                        seq![self.inner.request.slice(0, request.len())],
                        seq![self.inner.response.slice(0, response_len)],
                    ),
                    request: DmaStreamView {
                        bytes: written(self.inner.request.bytes, 0, request),
                        ..self.inner.request
                    },
                    ..self.inner
                },
                pending: Some(Pending { stage, op, token }),
                ..self
            },
            StepView::Wait(
                Submitted {
                    token,
                    notify: self.inner.control.used_flags & VIRTQ_USED_F_NO_NOTIFY == 0,
                },
            ),
        )
    }

    /// The device and the step after `op` was taken up on a device that
    /// needs no set-up for it: a query is answered at once, anything else
    /// sends its request.
    pub open spec fn run(self, op: Op) -> (SoundDeviceView, StepView) {
        if op.is_query() {
            (self, StepView::Done(Ok(self.query_reply(op))))
        } else {
            self.submit(Stage::Main, op, op.request(), op.response_len())
        }
    }

    /// The device and the step after `op` was begun.
    ///
    /// While a request is with the device, nothing is begun (`Busy`). An
    /// operation that `precheck` refuses ends at once and leaves the device
    /// as it was. On a device that was not set up, any operation but a
    /// request for information first asks for the records of all streams.
    pub open spec fn begun(self, op: Op) -> (SoundDeviceView, StepView) {
        if self.pending is Some {
            (self, StepView::Done(Err(VirtioDeviceError::Busy)))
        } else {
            match self.precheck(op) {
                Some(e) => (self, StepView::Done(Err(e))),
                None => if op.needs_set_up() && !self.set_up {
                    let query = Op::PcmInfo { start_id: 0, count: self.inner.config.streams };
                    if query.response_len() > self.response_capacity() {
                        (self, StepView::Done(Err(VirtioDeviceError::BufferOverflow)))
                    } else {
                        self.submit(Stage::SetUpPcmInfo, op, query.request(), query.response_len())
                    }
                } else {
                    self.run(op)
                },
            }
        }
    }

    /// The device and the step after the device's answer to the request of
    /// `op` itself was taken: a status other than `VIRTIO_SND_S_OK` is an
    /// `IoError` that carries it and changes nothing; otherwise a request
    /// for information gives the records that stand in the response, and a
    /// command of the life cycle takes the stream to its state. Setting
    /// parameters stores them; releasing a stream marks its parameters as
    /// not set.
    pub open spec fn applied(self, op: Op, code: u32) -> (SoundDeviceView, StepView) {
        if code != VIRTIO_SND_S_OK {
            (self, StepView::Done(Err(VirtioDeviceError::IoError(Some(code)))))
        } else {
            match op {
                Op::PcmInfo { start_id, count } => (
                    self,
                    StepView::Done(
                        Ok(
                            ReplyView::PcmInfos(
                                crate::wire::pcm_infos_of(self.inner.response.bytes, count as nat),
                            ),
                        ),
                    ),
                ),
                Op::ChmapInfo { start_id, count } => (
                    self,
                    StepView::Done(
                        Ok(
                            ReplyView::ChmapInfos(
                                crate::wire::chmap_infos_of(
                                    self.inner.response.bytes,
                                    count as nat,
                                ),
                            ),
                        ),
                    ),
                ),
                Op::SetParams {
                    stream_id,
                    buffer_bytes,
                    period_bytes,
                    features,
                    channels,
                    format,
                    rate,
                } => (
                    SoundDeviceView {
                        parameters: self.parameters.update(
                            stream_id as int,
                            PcmParameters {
                                setup: true,
                                buffer_bytes,
                                period_bytes,
                                features,
                                channels,
                                format,
                                rate,
                            },
                        ),
                        states: self.states.update(stream_id as int, PCMState::SetParameters),
                        ..self
                    },
                    StepView::Done(Ok(ReplyView::Done)),
                ),
                Op::Release { stream_id } => (
                    SoundDeviceView {
                        parameters: self.parameters.update(
                            stream_id as int,
                            PcmParameters { setup: false, ..self.parameters[stream_id as int] },
                        ),
                        states: self.states.update(stream_id as int, PCMState::Release),
                        ..self
                    },
                    StepView::Done(Ok(ReplyView::Done)),
                ),
                _ => match op.target() {
                    Some(to) => (
                        SoundDeviceView {
                            states: self.states.update(op.stream().unwrap() as int, to),
                            ..self
                        },
                        StepView::Done(Ok(ReplyView::Done)),
                    ),
                    None => (self, StepView::Done(Ok(ReplyView::Done))),
                },
            }
        }
    }

    /// The device and the step after set-up has its channel map records and
    /// goes on to the operation that asked for it.
    pub open spec fn set_up_done(self, chmap_infos: Seq<VirtioSndChmapInfo>, op: Op) -> (
        SoundDeviceView,
        StepView,
    ) {
        (SoundDeviceView { chmap_infos: Some(chmap_infos), set_up: true, ..self }).run(op)
    }

    /// The device and the step after `resume`.
    ///
    /// With no request under way there is nothing to resume (`NotReady`).
    /// While the device has not answered, the step is to wait on. An answer
    /// to another request than the one under way is refused and stays
    /// (`WrongToken`). Otherwise the answer is taken from the queue and
    /// read from the response buffer.
    ///
    /// Set-up asks for the stream records first: a status other than
    /// `VIRTIO_SND_S_OK` ends the operation with an `IoError` and the
    /// device is not set up. Then it asks for the channel map records,
    /// unless the response buffer cannot hold them; where they are not
    /// asked for, or the device refuses, the list of channel maps is empty.
    /// With that the device is set up, and the operation that asked for
    /// set-up is taken up.
    pub open spec fn resumed(self) -> (SoundDeviceView, StepView) {
        match self.pending {
            None => (self, StepView::Done(Err(VirtioDeviceError::QueueError(QueueError::NotReady)))),
            Some(p) => if !self.inner.control.can_pop() {
                (self, StepView::Wait(Submitted { token: p.token, notify: false }))
            } else if self.inner.control.next_used_token() != p.token {
                (self, StepView::Done(Err(VirtioDeviceError::QueueError(QueueError::WrongToken))))
            } else {
                let taken = SoundDeviceView {
                    inner: SoundDeviceInnerView {
                        control: popped(self.inner.control),
                        ..self.inner
                    },
                    pending: None,
                    ..self
                };
                let code = crate::bytes::u32_of_le(self.inner.response.bytes);
                match p.stage {
                    Stage::Main => taken.applied(p.op, code),
                    Stage::SetUpPcmInfo => if code != VIRTIO_SND_S_OK {
                        (taken, StepView::Done(Err(VirtioDeviceError::IoError(Some(code)))))
                    } else {
                        let with_infos = SoundDeviceView {
                            pcm_infos: Some(
                                crate::wire::pcm_infos_of(
                                    self.inner.response.bytes,
                                    self.streams(),
                                ),
                            ),
                            ..taken
                        };
                        let query = Op::ChmapInfo { start_id: 0, count: self.inner.config.chmaps };
                        if query.response_len() > self.response_capacity() {
                            with_infos.set_up_done(Seq::empty(), p.op)
                        } else {
                            with_infos.submit(
                                Stage::SetUpChmapInfo,
                                p.op,
                                query.request(),
                                query.response_len(),
                            )
                        }
                    },
                    Stage::SetUpChmapInfo => taken.set_up_done(
                        if code == VIRTIO_SND_S_OK {
                            crate::wire::chmap_infos_of(self.inner.response.bytes, self.chmaps())
                        } else {
                            Seq::empty()
                        },
                        p.op,
                    ),
                }
            },
        }
    }

    /// The device after the hardware has answered the request that is
    /// under way with the given response and the answer was brought in: the
    /// response stands at the front of the response buffer, and the used
    /// ring of the control queue holds one completion more, that of the
    /// request.
    pub open spec fn answered(self, response: Seq<u8>) -> SoundDeviceView {
        let q = self.inner.control;
        SoundDeviceView {
            inner: SoundDeviceInnerView {
                control: VirtQueueView {
                    used_ring: q.used_ring.update(
                        (q.used_idx % q.size) as int,
                        crate::queue::UsedElem {
                            id: self.pending->Some_0.token as u32,
                            len: response.len() as u32,
                        },
                    ),
                    used_idx: crate::queue::next_ring_idx(q.used_idx),
                    ..q
                },
                response: DmaStreamView {
                    bytes: written(self.inner.response.bytes, 0, response),
                    ..self.inner.response
                },
                ..self.inner
            },
            ..self
        }
    }

    /// What holds of the request that is under way.
    pub open spec fn pending_wf(self, p: Pending) -> bool {
        &&& self.inner.control.chains.dom() =~= set![p.token as int]
        &&& self.inner.control.chains[p.token as int].len() == 2
        &&& self.inner.control.num_used == 2
        &&& self.precheck(p.op) is None
        &&& match p.stage {
            Stage::Main => !p.op.is_query() && (p.op.needs_set_up() ==> self.set_up),
            Stage::SetUpPcmInfo => !self.set_up && p.op.needs_set_up() && SND_HDR_SIZE
                + self.streams() * PCM_INFO_SIZE <= self.response_capacity(),
            Stage::SetUpChmapInfo => !self.set_up && p.op.needs_set_up() && SND_HDR_SIZE
                + self.chmaps() * CHMAP_INFO_SIZE <= self.response_capacity()
                && self.pcm_infos is Some && self.pcm_infos->Some_0.len() == self.streams(),
        }
    }

    /// The invariant of the device.
    pub open spec fn wf(self) -> bool {
        &&& self.inner.wf()
        &&& self.parameters.len() == self.streams()
        &&& self.states.len() == self.streams()
        &&& forall|i: int| 0 <= i < self.parameters.len() ==> (#[trigger] self.parameters[i]).wf()
        &&& self.set_up ==> self.pcm_infos is Some && self.chmap_infos is Some
            && self.pcm_infos->Some_0.len() == self.streams()
        &&& !self.set_up ==> self.states =~= Seq::new(
            self.streams(),
            |i: int| PCMState::SetParameters,
        )
        &&& match self.pending {
            None => self.inner.control.chains.dom() =~= Set::<int>::empty()
                && self.inner.control.num_used == 0,
            Some(p) => self.pending_wf(p),
        }
        &&& forall|t: u16| #[trigger] self.outstanding.contains(t) ==> self.inner.tx.in_flight(t)
        &&& match self.xfer {
            None => true,
            Some(x) => self.xfer_wf(x),
        }
        &&& match self.capture {
            None => true,
            Some(c) => c.filled < c.want && 1 <= c.posted <= c.want - c.filled && c.posted
                <= self.inner.receive.bytes.len(),
        }
    }

    /// What holds of the blocking playback that is under way: a period is
    /// at least one byte and fits into the send buffer; no more than
    /// [`MAX_CHUNKS`] chunks are with the device; each of them is in flight
    /// on the tx queue, under a token of its own that no transfer submitted
    /// without waiting holds; a chunk has failed exactly where a status is
    /// kept, and no more than `MAX_CHUNKS - 1` chunks were handed over
    /// behind the first that failed.
    pub open spec fn xfer_wf(self, x: PcmXferView) -> bool {
        &&& 1 <= x.period <= self.inner.send.bytes.len()
        &&& x.next <= x.frames.len()
        &&& x.window.len() <= MAX_CHUNKS
        &&& x.reaped + x.window.len() <= x.next
        &&& x.bad is Some <==> x.failed is Some
        &&& x.failed is Some ==> 1 <= x.failed->Some_0 <= x.reaped && x.reaped + x.window.len()
            < x.failed->Some_0 + MAX_CHUNKS
        &&& x.window.no_duplicates()
        &&& forall|k: int|
            0 <= k < x.window.len() ==> self.inner.tx.in_flight(#[trigger] x.window[k])
                && !self.outstanding.contains(x.window[k])
    }
}

/// The device as it stands before anything was asked of it: no stream
/// records, every stream in its first state and without parameters, no
/// transfer outstanding, no request under way.
pub open spec fn initial_device(inner: SoundDeviceInnerView) -> SoundDeviceView {
    SoundDeviceView {
        inner,
        pcm_infos: None,
        chmap_infos: None,
        parameters: Seq::new(inner.config.streams as nat, |i: int| PcmParameters::unset()),
        set_up: false,
        states: Seq::new(inner.config.streams as nat, |i: int| PCMState::SetParameters),
        outstanding: Set::empty(),
        pending: None,
        xfer: None,
        capture: None,
    }
}

/// The queues and buffers after a PCM transfer for `stream_id` was handed
/// to the tx queue: the payload stands at the front of the send buffer and
/// the stream header in the slot of the chain's token; the chain is made of
/// the header and the payload, which the device reads, and of the status
/// record in the same slot, which it writes.
pub open spec fn playback_submitted(v: SoundDeviceInnerView, stream_id: u32, payload: Seq<u8>)
    -> SoundDeviceInnerView {
    let token = v.tx.free_head;
    SoundDeviceInnerView {
        tx: added(
            v.tx,
            seq![
                v.xfer.slice(header_offset(token), PCM_XFER_SIZE as nat),
                v.send.slice(0, payload.len()),
            ],
            seq![v.xfer.slice(status_offset(token), PCM_STATUS_SIZE as nat)],
        ),
        send: DmaStreamView { bytes: written(v.send.bytes, 0, payload), ..v.send },
        xfer: DmaStreamView {
            bytes: written(v.xfer.bytes, header_offset(token) as int, le_u32(stream_id)),
            ..v.xfer
        },
        ..v
    }
}

/// The queues and buffers after the first `len` bytes of the receive
/// buffer were handed to the rx queue for a capture from `stream_id`: the
/// chain is made of the stream header, which the device reads, and of the
/// part of the receive buffer and the status record, which it writes.
pub open spec fn capture_submitted(v: SoundDeviceInnerView, stream_id: u32, len: nat)
    -> SoundDeviceInnerView {
    let token = v.rx.free_head;
    SoundDeviceInnerView {
        rx: added(
            v.rx,
            seq![v.xfer.slice(header_offset(token), PCM_XFER_SIZE as nat)],
            seq![v.receive.slice(0, len), v.xfer.slice(status_offset(token), PCM_STATUS_SIZE as nat)],
        ),
        xfer: DmaStreamView {
            bytes: written(v.xfer.bytes, header_offset(token) as int, le_u32(stream_id)),
            ..v.xfer
        },
        ..v
    }
}

impl SoundDeviceView {
    /// The state in which a blocking playback of `frames` on `stream_id`
    /// starts, or why it does not start: another one is under way
    /// (`Busy`), the device has no such stream (`InvalidParam`), the stream
    /// has no parameters (`IoError`), or a period does not fit into the
    /// send buffer (`BufferOverflow`).
    pub open spec fn xfer_begun(self, stream_id: u32, frames: Seq<u8>) -> Result<
        PcmXferView,
        VirtioDeviceError,
    > {
        if self.xfer is Some {
            Err(VirtioDeviceError::Busy)
        } else if stream_id >= self.streams() {
            Err(VirtioDeviceError::InvalidParam)
        } else if !self.parameters[stream_id as int].setup {
            Err(VirtioDeviceError::IoError(None))
        } else if self.parameters[stream_id as int].period_bytes > self.inner.send.bytes.len() {
            Err(VirtioDeviceError::BufferOverflow)
        } else {
            Ok(
                PcmXferView {
                    stream_id,
                    period: self.parameters[stream_id as int].period_bytes as nat,
                    frames,
                    next: 0,
                    window: Seq::empty(),
                    bad: None,
                    reaped: 0,
                    failed: None,
                },
            )
        }
    }

    /// The second half of a step of a blocking playback: where a chunk is
    /// with the device and the tx queue holds a completion, the completion
    /// must be that of the oldest chunk (`WrongToken` otherwise, which
    /// gives the playback up); it is taken, and the first status other than
    /// `VIRTIO_SND_S_OK` is kept.
    pub open spec fn xfer_reaped(self, notify: bool) -> (SoundDeviceView, XferStep) {
        let x = self.xfer->Some_0;
        if x.window.len() == 0 || !self.inner.tx.can_pop() {
            (self, XferStep::Continue { notify })
        } else if self.inner.tx.next_used_token() != x.window[0] {
            (
                SoundDeviceView { xfer: None, ..self },
                XferStep::Finished(Err(VirtioDeviceError::QueueError(QueueError::WrongToken))),
            )
        } else {
            let status = u32_of_le(self.inner.xfer.bytes.skip(status_offset(x.window[0]) as int));
            (
                SoundDeviceView {
                    inner: SoundDeviceInnerView { tx: popped(self.inner.tx), ..self.inner },
                    xfer: Some(
                        PcmXferView {
                            window: x.window.skip(1),
                            bad: if x.bad is None && status != VIRTIO_SND_S_OK {
                                Some(status)
                            } else {
                                x.bad
                            },
                            reaped: x.reaped + 1,
                            failed: if x.bad is None && status != VIRTIO_SND_S_OK {
                                Some(x.reaped + 1)
                            } else {
                                x.failed
                            },
                            ..x
                        },
                    ),
                    ..self
                },
                XferStep::Continue { notify },
            )
        }
    }

    /// One step of a blocking playback.
    ///
    /// Where the tx queue has three descriptors free: the next chunk is
    /// handed to the device, if there is one, no chunk has failed and fewer
    /// than [`MAX_CHUNKS`] are with the device; or else, if nothing is
    /// left to hand over and nothing is with the device, the playback ends,
    /// with an `IoError` that carries the status of the first chunk that
    /// failed, if one did. Then a completion is taken, if there is one.
    pub open spec fn xfer_stepped(self) -> (SoundDeviceView, XferStep) {
        match self.xfer {
            None => (
                self,
                XferStep::Finished(Err(VirtioDeviceError::QueueError(QueueError::NotReady))),
            ),
            Some(x) => {
                let room = self.inner.tx.size - self.inner.tx.num_used >= 3;
                let more = x.bad is None && x.next < x.frames.len();
                if room && more && x.window.len() < MAX_CHUNKS {
                    (SoundDeviceView {
                        inner: playback_submitted(self.inner, x.stream_id, x.chunk()),
                        xfer: Some(
                            PcmXferView {
                                next: x.next + x.chunk_len(),
                                window: x.window.push(self.inner.tx.free_head),
                                ..x
                            },
                        ),
                        ..self
                    }).xfer_reaped(self.inner.tx.used_flags & VIRTQ_USED_F_NO_NOTIFY == 0)
                } else if room && !more && x.window.len() == 0 {
                    (SoundDeviceView { xfer: None, ..self }, XferStep::Finished(x.outcome()))
                } else {
                    self.xfer_reaped(false)
                }
            },
        }
    }

    /// The device and the step after a blocking playback was begun: its
    /// first step, where it starts.
    pub open spec fn xfer_started(self, stream_id: u32, frames: Seq<u8>) -> (
        SoundDeviceView,
        XferStep,
    ) {
        match self.xfer_begun(stream_id, frames) {
            Err(e) => (self, XferStep::Finished(Err(e))),
            Ok(x) => (SoundDeviceView { xfer: Some(x), ..self }).xfer_stepped(),
        }
    }

    /// The device and the result after a transfer was submitted without
    /// waiting: refused where the device has no such stream or the frames
    /// are not one period (`InvalidParam`), the stream has no parameters
    /// (`IoError`), a period does not fit into the send buffer
    /// (`BufferOverflow`) or the tx queue has no three descriptors free
    /// (`BufferTooSmall`); otherwise handed to the device and noted as
    /// outstanding under its token.
    pub open spec fn nb_submitted(self, stream_id: u32, frames: Seq<u8>) -> (
        SoundDeviceView,
        Result<Submitted, VirtioDeviceError>,
    ) {
        if stream_id >= self.streams() {
            (self, Err(VirtioDeviceError::InvalidParam))
        } else if !self.parameters[stream_id as int].setup {
            (self, Err(VirtioDeviceError::IoError(None)))
        } else if frames.len() != self.parameters[stream_id as int].period_bytes {
            (self, Err(VirtioDeviceError::InvalidParam))
        } else if frames.len() > self.inner.send.bytes.len() {
            (self, Err(VirtioDeviceError::BufferOverflow))
        } else if self.inner.tx.size - self.inner.tx.num_used < 3 {
            (self, Err(VirtioDeviceError::QueueError(QueueError::BufferTooSmall)))
        } else {
            (
                SoundDeviceView {
                    inner: playback_submitted(self.inner, stream_id, frames),
                    outstanding: self.outstanding.insert(self.inner.tx.free_head),
                    ..self
                },
                Ok(
                    Submitted {
                        token: self.inner.tx.free_head,
                        notify: self.inner.tx.used_flags & VIRTQ_USED_F_NO_NOTIFY == 0,
                    },
                ),
            )
        }
    }

    /// The device and the result after the completion of an outstanding
    /// transfer was acknowledged: refused where no transfer is outstanding
    /// under the token (`InvalidParam`), the tx queue holds no completion
    /// (`NotReady`) or its next completion is another one (`WrongToken`);
    /// otherwise the completion is taken and the token is no longer
    /// outstanding.
    pub open spec fn nb_acknowledged(self, token: u16) -> (
        SoundDeviceView,
        Result<(), VirtioDeviceError>,
    ) {
        if !self.outstanding.contains(token) {
            (self, Err(VirtioDeviceError::InvalidParam))
        } else if !self.inner.tx.can_pop() {
            (self, Err(VirtioDeviceError::QueueError(QueueError::NotReady)))
        } else if self.inner.tx.next_used_token() != token {
            (self, Err(VirtioDeviceError::QueueError(QueueError::WrongToken)))
        } else {
            (
                SoundDeviceView {
                    inner: SoundDeviceInnerView { tx: popped(self.inner.tx), ..self.inner },
                    outstanding: self.outstanding.remove(token),
                    ..self
                },
                Ok(()),
            )
        }
    }
}

/// The mathematical content of an [`EventDelivery`].
pub struct EventDeliveryView {
    pub payload: Seq<u8>,
    /// The type and the data of the notification.
    pub notification: Option<(crate::codes::NotificationType, u32)>,
    pub subscribers: nat,
    pub notify: bool,
}

impl View for EventDelivery {
    type V = EventDeliveryView;

    open spec fn view(&self) -> EventDeliveryView {
        EventDeliveryView {
            payload: self.payload@,
            notification: match self.notification {
                Some(n) => Some((n.spec_notification_type(), n.spec_data())),
                None => None,
            },
            subscribers: self.subscribers as nat,
            notify: self.notify,
        }
    }
}

/// The notification that the bytes of an event stand for: none where they
/// are fewer than an event has or the code is not that of an event.
pub open spec fn notification_of(payload: Seq<u8>) -> Option<(crate::codes::NotificationType, u32)> {
    if payload.len() < SND_EVENT_SIZE {
        None
    } else {
        match crate::codes::NotificationType::n_spec(u32_of_le(payload)) {
            Some(t) => Some((t, u32_of_le(payload.skip(4)))),
            None => None,
        }
    }
}

impl SoundDeviceView {
    /// The device after an interrupt of the event queue, and what the
    /// interrupt brought.
    ///
    /// Where the event queue holds no completion, or one that is not that
    /// of the event buffer, nothing happens. Otherwise the completion is
    /// taken; the payload is what the device wrote, the first bytes of the
    /// event buffer, as many as the completion says and no more than the
    /// buffer has; and the event buffer is offered to the device again.
    pub open spec fn event_handled(self) -> (SoundDeviceView, Option<EventDeliveryView>) {
        let q = self.inner.event;
        if !q.can_pop() || q.next_used_token() != self.inner.event_token {
            (self, None)
        } else {
            let payload = read_of(self.inner.event_buffer.bytes, 0, q.next_used().len as nat);
            let notification = notification_of(payload);
            let taken = popped(q);
            (
                SoundDeviceView {
                    inner: SoundDeviceInnerView {
                        event: added(
                            taken,
                            Seq::empty(),
                            seq![event_slice(self.inner.event_buffer.daddr)],
                        ),
                        event_token: taken.free_head,
                        ..self.inner
                    },
                    ..self
                },
                Some(
                    EventDeliveryView {
                        payload,
                        notification,
                        subscribers: if notification is Some {
                            self.inner.callbacks
                        } else {
                            0
                        },
                        notify: q.used_flags & VIRTQ_USED_F_NO_NOTIFY == 0,
                    },
                ),
            )
        }
    }

    /// The device and the step after a part of the receive buffer was
    /// offered to the device for a capture that has `filled` of `want`
    /// bytes: as much as is still wanted and no more than the receive
    /// buffer holds, unless the rx queue has no three descriptors free
    /// (`BufferTooSmall`).
    pub open spec fn capture_posted(self, stream_id: u32, want: usize, filled: usize) -> (
        SoundDeviceView,
        RecordStep,
    ) {
        if self.inner.rx.size - self.inner.rx.num_used < 3 {
            (
                SoundDeviceView { capture: None, ..self },
                RecordStep::Failed {
                    filled,
                    error: VirtioDeviceError::QueueError(QueueError::BufferTooSmall),
                },
            )
        } else {
            let posted: usize = if want - filled > self.inner.receive.bytes.len() {
                self.inner.receive.bytes.len() as usize
            } else {
                (want - filled) as usize
            };
            (
                SoundDeviceView {
                    inner: capture_submitted(self.inner, stream_id, posted as nat),
                    capture: Some(
                        Capture { stream_id, want, filled, posted, token: self.inner.rx.free_head },
                    ),
                    ..self
                },
                RecordStep::Wait(
                    Submitted {
                        token: self.inner.rx.free_head,
                        notify: self.inner.rx.used_flags & VIRTQ_USED_F_NO_NOTIFY == 0,
                    },
                ),
            )
        }
    }

    /// The device and the step after a capture of `want` bytes was begun.
    ///
    /// Nothing is recorded on a device that was not set up or has no input
    /// stream, and nothing where nothing is wanted. Otherwise the capture
    /// is from the first input stream.
    pub open spec fn record_begun(self, want: usize) -> (SoundDeviceView, RecordStep) {
        if self.capture is Some {
            (self, RecordStep::Failed { filled: 0, error: VirtioDeviceError::Busy })
        } else if !self.set_up || want == 0 || streams_in(
            self.pcm_infos->Some_0,
            VIRTIO_SND_D_INPUT,
        ).len() == 0 {
            (self, RecordStep::Finished { filled: 0 })
        } else {
            self.capture_posted(streams_in(self.pcm_infos->Some_0, VIRTIO_SND_D_INPUT)[0], want, 0)
        }
    }

    /// The device, the recording and the step after a capture was resumed.
    ///
    /// While the device has not answered, the step is to wait on. A
    /// completion that is not that of the capture gives the capture up
    /// (`WrongToken`), and so does a status other than `VIRTIO_SND_S_OK`
    /// (`IoError`). Otherwise the bytes that were offered to the device
    /// are appended to the recording, and the capture ends, if it has all
    /// that was wanted, or offers the receive buffer again.
    pub open spec fn record_resumed(self, recording: Seq<u8>) -> (
        SoundDeviceView,
        Seq<u8>,
        RecordStep,
    ) {
        match self.capture {
            None => (
                self,
                recording,
                RecordStep::Failed {
                    filled: 0,
                    error: VirtioDeviceError::QueueError(QueueError::NotReady),
                },
            ),
            Some(c) => {
                let q = self.inner.rx;
                if !q.can_pop() {
                    (self, recording, RecordStep::Wait(Submitted { token: c.token, notify: false }))
                } else if q.next_used_token() != c.token || !q.in_flight(c.token) {
                    (
                        SoundDeviceView { capture: None, ..self },
                        recording,
                        RecordStep::Failed {
                            filled: c.filled,
                            error: VirtioDeviceError::QueueError(QueueError::WrongToken),
                        },
                    )
                } else {
                    let taken = SoundDeviceView {
                        inner: SoundDeviceInnerView { rx: popped(q), ..self.inner },
                        capture: None,
                        ..self
                    };
                    let status = u32_of_le(
                        self.inner.xfer.bytes.skip(status_offset(c.token) as int),
                    );
                    if status != VIRTIO_SND_S_OK {
                        (
                            taken,
                            recording,
                            RecordStep::Failed {
                                filled: c.filled,
                                error: VirtioDeviceError::IoError(Some(status)),
                            },
                        )
                    } else {
                        let longer = recording + self.inner.receive.bytes.take(c.posted as int);
                        let filled = (c.filled + c.posted) as usize;
                        if filled == c.want {
                            (taken, longer, RecordStep::Finished { filled })
                        } else {
                            let (after, step) = taken.capture_posted(c.stream_id, c.want, filled);
                            (after, longer, step)
                        }
                    }
                }
            },
        }
    }
}

/// How far a blocking playback is from its end: twice the bytes that are
/// still to hand over, which count no longer once a chunk has failed, and
/// the chunks that are with the device.
pub open spec fn playback_left(x: PcmXferView) -> nat {
    (if x.bad is None {
        2 * (x.frames.len() - x.next)
    } else {
        0
    }) as nat + x.window.len()
}


/// Whether the tx queue is ready for a playback against a device that
/// answers: the driver has taken every completion, and three descriptors
/// are free.
pub open spec fn tx_ready(v: SoundDeviceView) -> bool {
    !v.inner.tx.can_pop() && v.inner.tx.size - v.inner.tx.num_used >= CHUNK_DESCRIPTORS
}

/// Whether a step has ended a playback as it must: the step was taken on
/// `last`, where nothing was with the device and either a failure was kept
/// or every chunk was handed over; the result is what the kept failure
/// gives; and the tx queue is as it was.
pub open spec fn play_ended(
    last: SoundDeviceView,
    after: SoundDeviceView,
    result: Result<(), VirtioDeviceError>,
) -> bool {
    let x = last.xfer->Some_0;
    &&& result == x.outcome()
    &&& x.window.len() == 0
    &&& x.bad is Some || x.next == x.frames.len()
    &&& after.xfer is None
    &&& after.inner.tx == last.inner.tx
}

/// Whether a playback of `len` bytes in periods of `period` against a
/// device that answers with the statuses of a list has ended as it must,
/// with `result`, after `taken` completions: the result is what the first
/// failure among the chunks that came back gives; every chunk that came
/// back is a chunk of the frames; where the playback ended well, the chunks
/// that came back are all the frames; and where it did not, fewer than
/// [`MAX_CHUNKS`] chunks came back behind the first that failed.
pub open spec fn run_ended(
    statuses: Seq<u32>,
    period: nat,
    len: nat,
    result: Result<(), VirtioDeviceError>,
    taken: nat,
) -> bool {
    &&& result == playback_result(statuses, taken)
    &&& taken > 0 ==> (taken - 1) * period < len
    &&& result is Ok ==> len <= taken * period
    &&& result is Err ==> taken <= first_failure(statuses, taken)->Some_0 + MAX_CHUNKS
}

/// The status that a device gives the chunk with the given number, counted
/// from zero, where it answers the chunks of a playback with the statuses
/// of a list, in order: the one in the list, and `VIRTIO_SND_S_OK` beyond
/// the end of the list.
pub open spec fn status_at(statuses: Seq<u32>, i: nat) -> u32 {
    if i < statuses.len() {
        statuses[i as int]
    } else {
        VIRTIO_SND_S_OK
    }
}

/// The number of the first among the first `n` chunks that such a device
/// gives another status than `VIRTIO_SND_S_OK`, if it does so to one.
pub open spec fn first_failure(statuses: Seq<u32>, n: nat) -> Option<nat>
    decreases n,
{
    if n == 0 {
        None
    } else {
        match first_failure(statuses, (n - 1) as nat) {
            Some(k) => Some(k),
            None => if status_at(statuses, (n - 1) as nat) != VIRTIO_SND_S_OK {
                Some((n - 1) as nat)
            } else {
                None
            },
        }
    }
}

/// How a playback against such a device ends once `taken` chunks have come
/// back: well if none of them failed, and with an `IoError` that carries
/// the status of the first that failed otherwise.
pub open spec fn playback_result(statuses: Seq<u32>, taken: nat) -> Result<(), VirtioDeviceError> {
    match first_failure(statuses, taken) {
        None => Ok(()),
        Some(k) => Err(VirtioDeviceError::IoError(Some(status_at(statuses, k)))),
    }
}

impl SoundDeviceView {
    /// The device after the hardware has played the oldest chunk of the
    /// playback under way and given it `status`, and the answer was brought
    /// in: the status record stands in the slot of the chunk's token, and
    /// the used ring of the tx queue holds the completion of the chunk.
    pub open spec fn chunk_answered(self, status: u32) -> SoundDeviceView {
        let token = self.xfer->Some_0.window[0];
        SoundDeviceView {
            inner: SoundDeviceInnerView {
                tx: crate::queue::completed(self.inner.tx, token as u32, PCM_STATUS_SIZE as u32),
                xfer: DmaStreamView {
                    bytes: written(
                        self.inner.xfer.bytes,
                        status_offset(token) as int,
                        (crate::wire::VirtioSndPcmStatus { status, latency_bytes: 0 }).encoding(),
                    ),
                    ..self.inner.xfer
                },
                ..self.inner
            },
            ..self
        }
    }

    /// The device after such a device has had its turn: it has answered the
    /// oldest chunk that is with it, if one is, with the status that the
    /// list has for it.
    pub open spec fn heard(self, statuses: Seq<u32>) -> SoundDeviceView {
        let x = self.xfer->Some_0;
        if x.window.len() > 0 {
            self.chunk_answered(status_at(statuses, x.reaped))
        } else {
            self
        }
    }

    /// What holds between the steps of a playback against such a device,
    /// where `base` descriptors of the tx queue are held by others: the
    /// driver has taken every completion; each chunk that is with the device
    /// holds three descriptors; the failure that is kept is the first among
    /// the chunks that came back; and the chunks that were handed over are
    /// whole periods from the front of the frames, but for the last one.
    pub open spec fn playing(self, statuses: Seq<u32>, base: nat) -> bool {
        let x = self.xfer->Some_0;
        let q = self.inner.tx;
        let sent = x.reaped + x.window.len();
        &&& self.xfer is Some
        &&& !q.can_pop()
        &&& q.num_used == base + CHUNK_DESCRIPTORS * x.window.len()
        &&& q.size - base >= CHUNK_DESCRIPTORS
        &&& forall|k: int|
            0 <= k < x.window.len() ==> q.chains[#[trigger] x.window[k] as int].len()
                == CHUNK_DESCRIPTORS
        &&& x.bad == (match first_failure(statuses, x.reaped) {
            Some(k) => Some(status_at(statuses, k)),
            None => None,
        })
        &&& x.failed == (match first_failure(statuses, x.reaped) {
            Some(k) => Some(k + 1),
            None => None,
        })
        &&& x.next == (if sent * x.period <= x.frames.len() {
            sent * x.period
        } else {
            x.frames.len()
        })
        &&& sent > 0 ==> (sent - 1) * x.period < x.frames.len()
    }
}

} // verus!

