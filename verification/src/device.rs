//! The sound device: its queues and buffers, the registry of its streams,
//! and the engine that takes one control request at a time to the device.
//!
//! Nothing here waits. An operation that needs the device hands its request
//! to the control queue and returns [`Step::Wait`]; once the device has
//! answered, [`SoundDevice::resume`] takes the operation further. What the
//! device has written is brought in through [`SoundDevice::device_used`] and
//! [`SoundDevice::device_write`]. Every function does to the device exactly
//! what [`crate::model`] says of it.

use vstd::prelude::*;
use std::collections::BTreeMap;
use std::collections::VecDeque;
use crate::bytes::le_u32;
use crate::bytes::u32_of_le;
use crate::codes::VIRTIO_SND_D_INPUT;
use crate::codes::VIRTIO_SND_D_OUTPUT;
use crate::codes::VIRTIO_SND_R_CHMAP_INFO;
use crate::codes::VIRTIO_SND_R_PCM_INFO;
use crate::codes::VIRTIO_SND_R_PCM_PREPARE;
use crate::codes::VIRTIO_SND_R_PCM_RELEASE;
use crate::codes::VIRTIO_SND_R_PCM_SET_PARAMS;
use crate::codes::VIRTIO_SND_R_PCM_START;
use crate::codes::VIRTIO_SND_R_PCM_STOP;
use crate::codes::VIRTIO_SND_S_OK;
use crate::config::ConfigManager;
use crate::config::VirtioSoundConfig;
use crate::dma::DmaStream;
use crate::dma::DmaStreamView;
use crate::dma::written;
use crate::error::VirtioDeviceError;
use crate::flags::PcmFeatures;
use crate::flags::PcmFormat;
use crate::flags::PcmFormats;
use crate::flags::PcmRate;
use crate::flags::PcmRates;
use crate::flags::SOUND_FEATURES_ALL;
use crate::flags::SoundFeatures;
use crate::laws::lemma_control_round;
use crate::laws::lemma_event_posted;
use crate::laws::lemma_only_chain_popped;
use crate::laws::lemma_played_step;
use crate::laws::lemma_run_result;
use crate::model::BufferId;
use crate::model::Capture;
use crate::model::capture_submitted;
use crate::model::CHUNK_DESCRIPTORS;
use crate::model::CONTROLQ_INDEX;
use crate::model::DmaPlan;
use crate::model::DmaRegion;
use crate::model::event_slice;
use crate::model::EventDelivery;
use crate::model::EVENTQ_INDEX;
use crate::model::initial_device;
use crate::model::initial_inner;
use crate::model::MAX_CHUNKS;
use crate::model::MIN_QUEUE_SIZE;
use crate::model::Op;
use crate::model::PcmXferView;
use crate::model::Pending;
use crate::model::plan_fits;
use crate::model::play_ended;
use crate::model::playback_left;
use crate::model::playback_submitted;
use crate::model::QUEUE_SIZE;
use crate::model::queue_sizes;
use crate::model::QueueId;
use crate::model::RecordStep;
use crate::model::region_fits;
use crate::model::Reply;
use crate::model::run_ended;
use crate::model::RXQ_INDEX;
use crate::model::sound_queue_size;
use crate::model::SoundDeviceInnerView;
use crate::model::SoundDeviceView;
use crate::model::SoundTransport;
use crate::model::Stage;
use crate::model::status_offset;
use crate::model::Step;
use crate::model::streams_in;
use crate::model::Submitted;
use crate::model::TEST_BUFFER_BYTES;
use crate::model::TEST_PERIOD_BYTES;
use crate::model::test_script;
use crate::model::TEST_STREAM;
use crate::model::tx_ready;
use crate::model::TXQ_INDEX;
use crate::model::XFER_SLOT_SIZE;
use crate::model::XFER_STATUS_OFFSET;
use crate::model::XferStep;
use crate::model::zeroed;
use crate::pcm::check_sizes;
use crate::pcm::PcmParameters;
use crate::pcm::PCMState;
use crate::queue::added;
use crate::queue::DmaBuf;
use crate::queue::fresh_queue;
use crate::queue::lemma_added_wf;
use crate::queue::lemma_recycled_wf;
use crate::queue::popped;
use crate::queue::QueueError;
use crate::queue::UsedRing;
use crate::queue::VIRTQ_USED_F_NO_NOTIFY;
use crate::queue::VirtQueue;
use crate::queue::VirtQueueView;
use crate::wire::CHMAP_INFO_SIZE;
use crate::wire::Notification;
use crate::wire::PCM_INFO_SIZE;
use crate::wire::PCM_SET_PARAMS_SIZE;
use crate::wire::PCM_STATUS_SIZE;
use crate::wire::PCM_XFER_SIZE;
use crate::wire::SND_EVENT_SIZE;
use crate::wire::SND_HDR_SIZE;
use crate::wire::VirtioSndChmapInfo;
use crate::wire::VirtioSndEvent;
use crate::wire::VirtioSndHdr;
use crate::wire::VirtioSndPcmHdr;
use crate::wire::VirtioSndPcmInfo;
use crate::wire::VirtioSndPcmSetParams;
use crate::wire::VirtioSndPcmStatus;
use crate::wire::VirtioSndPcmXfer;
use crate::wire::VirtioSndQueryInfo;

verus! {

/// The queues and buffers through which the driver talks to the device.
pub struct SoundDeviceInner {
    config_manager: ConfigManager,
    control_queue: VirtQueue,
    event_queue: VirtQueue,
    tx_queue: VirtQueue,
    rx_queue: VirtQueue,
    request_buffer: DmaStream,
    response_buffer: DmaStream,
    event_buffer: DmaStream,
    send_buffer: DmaStream,
    receive_buffer: DmaStream,
    xfer_buffer: DmaStream,
    event_token: u16,
    callbacks: usize,
}

impl View for SoundDeviceInner {
    type V = SoundDeviceInnerView;

    closed spec fn view(&self) -> SoundDeviceInnerView {
        SoundDeviceInnerView {
            config: self.config_manager.config(),
            control: self.control_queue@,
            event: self.event_queue@,
            tx: self.tx_queue@,
            rx: self.rx_queue@,
            request: self.request_buffer@,
            response: self.response_buffer@,
            event_buffer: self.event_buffer@,
            send: self.send_buffer@,
            receive: self.receive_buffer@,
            xfer: self.xfer_buffer@,
            event_token: self.event_token,
            callbacks: self.callbacks as nat,
        }
    }
}

fn make_buffer(region: DmaRegion, least: usize) -> (r: Result<DmaStream, VirtioDeviceError>)
    ensures
        region_fits(region, least as nat) ==> r is Ok && r->Ok_0@ == zeroed(region)
            && r->Ok_0@.wf(),
        !region_fits(region, least as nat) ==> r == Err::<DmaStream, VirtioDeviceError>(
            VirtioDeviceError::InvalidParam,
        ),
{
    if region.nbytes < least {
        return Err(VirtioDeviceError::InvalidParam);
    }
    match DmaStream::new(region.daddr, region.nbytes) {
        Some(b) => Ok(b),
        None => Err(VirtioDeviceError::InvalidParam),
    }
}

fn make_queue(id: QueueId, idx: u16, transport: SoundTransport) -> (r: Result<
    VirtQueue,
    VirtioDeviceError,
>)
    ensures
        match sound_queue_size(transport, id) {
            Some(n) => r is Ok && r->Ok_0@ == fresh_queue(idx, n, transport is Modern)
                && r->Ok_0@.wf(),
            None => r == Err::<VirtQueue, VirtioDeviceError>(
                VirtioDeviceError::QueueError(QueueError::InvalidArgs),
            ),
        },
{
    match VirtQueue::new(idx, QUEUE_SIZE, transport.queue(id)) {
        Ok(q) => {
            if q.size() < MIN_QUEUE_SIZE {
                Err(VirtioDeviceError::QueueError(QueueError::InvalidArgs))
            } else {
                Ok(q)
            }
        },
        Err(e) => Err(VirtioDeviceError::QueueError(e)),
    }
}

impl SoundDeviceInner {
    /// Sets the device's queues and buffers up: four queues of
    /// [`QUEUE_SIZE`] descriptors, or each of as many as a legacy device
    /// dictates for it; a zeroed buffer in each region of `plan`; the event
    /// buffer offered to the device on the event queue.
    ///
    /// `config_mem` holds the bytes of the configuration space, if the
    /// transport has such a region, and `ctls_negotiated` says whether
    /// control elements were negotiated.
    #[verifier::rlimit(40)]
    pub fn set(
        config_mem: Option<Vec<u8>>,
        ctls_negotiated: bool,
        transport: SoundTransport,
        plan: DmaPlan,
    ) -> (r: Result<Self, VirtioDeviceError>)
        ensures
            match queue_sizes(transport) {
                Some(n) => if !plan_fits(plan, n) {
                    r is Err && r->Err_0 == VirtioDeviceError::InvalidParam
                } else {
                    &&& r is Ok
                    &&& r->Ok_0@.wf()
                    &&& r->Ok_0@ == initial_inner(
                        match config_mem {
                            Some(bytes) => Some(bytes@),
                            None => None,
                        },
                        ctls_negotiated,
                        transport is Modern,
                        n,
                        plan,
                    )
                },
                None => r is Err && r->Err_0 == VirtioDeviceError::QueueError(
                    QueueError::InvalidArgs,
                ),
            },
    {
        let config_manager = VirtioSoundConfig::new_manager(config_mem, ctls_negotiated);
        let control_queue = match make_queue(QueueId::Control, CONTROLQ_INDEX, transport) {
            Ok(q) => q,
            Err(e) => {
                return Err(e);
            },
        };
        let mut event_queue = match make_queue(QueueId::Event, EVENTQ_INDEX, transport) {
            Ok(q) => q,
            Err(e) => {
                return Err(e);
            },
        };
        let tx_queue = match make_queue(QueueId::Tx, TXQ_INDEX, transport) {
            Ok(q) => q,
            Err(e) => {
                return Err(e);
            },
        };
        let rx_queue = match make_queue(QueueId::Rx, RXQ_INDEX, transport) {
            Ok(q) => q,
            Err(e) => {
                return Err(e);
            },
        };
        let size: u16 = if tx_queue.size() < rx_queue.size() {
            rx_queue.size()
        } else {
            tx_queue.size()
        };
        let request_buffer = match make_buffer(plan.request, PCM_SET_PARAMS_SIZE) {
            Ok(b) => b,
            Err(e) => {
                return Err(e);
            },
        };
        let response_buffer = match make_buffer(plan.response, SND_HDR_SIZE) {
            Ok(b) => b,
            Err(e) => {
                return Err(e);
            },
        };
        let event_buffer = match make_buffer(plan.event, SND_EVENT_SIZE) {
            Ok(b) => b,
            Err(e) => {
                return Err(e);
            },
        };
        let send_buffer = match make_buffer(plan.send, 1) {
            Ok(b) => b,
            Err(e) => {
                return Err(e);
            },
        };
        let receive_buffer = match make_buffer(plan.receive, 1) {
            Ok(b) => b,
            Err(e) => {
                return Err(e);
            },
        };
        let xfer_buffer = match make_buffer(plan.xfer, XFER_SLOT_SIZE * (size as usize)) {
            Ok(b) => b,
            Err(e) => {
                return Err(e);
            },
        };
        let ghost fresh_event = event_queue@;
        let slice = DmaBuf { daddr: event_buffer.daddr(), len: SND_EVENT_SIZE as u32 };
        let outputs = [slice];
        let inputs: [DmaBuf; 0] = [];
        let posted = event_queue.add_dma_buf(inputs.as_slice(), outputs.as_slice());
        proof {
            assert(inputs@ =~= Seq::<DmaBuf>::empty());
            assert(outputs@ =~= seq![event_slice(plan.event.daddr)]);
            lemma_event_posted(fresh_event, event_buffer@.daddr);
        }
        let event_token = match posted {
            Ok(t) => t,
            Err(e) => {
                return Err(VirtioDeviceError::QueueError(e));
            },
        };
        Ok(
            SoundDeviceInner {
                config_manager,
                control_queue,
                event_queue,
                tx_queue,
                rx_queue,
                request_buffer,
                response_buffer,
                event_buffer,
                send_buffer,
                receive_buffer,
                xfer_buffer,
                event_token,
                callbacks: 0,
            },
        )
    }
}

/// A blocking playback that is under way.
#[derive(Debug)]
pub struct PcmXfer {
    stream_id: u32,
    period: usize,
    frames: Vec<u8>,
    next: usize,
    window: VecDeque<u16>,
    bad: Option<u32>,
    reaped: usize,
    failed: Option<usize>,
}

impl View for PcmXfer {
    type V = PcmXferView;

    closed spec fn view(&self) -> PcmXferView {
        PcmXferView {
            stream_id: self.stream_id,
            period: self.period as nat,
            frames: self.frames@,
            next: self.next as nat,
            window: self.window@,
            bad: self.bad,
            reaped: self.reaped as nat,
            failed: match self.failed {
                Some(k) => Some(k as nat),
                None => None,
            },
        }
    }
}

/// The sound device.
pub struct SoundDevice {
    sound_inner: SoundDeviceInner,
    pcm_infos: Option<Vec<VirtioSndPcmInfo>>,
    chmap_infos: Option<Vec<VirtioSndChmapInfo>>,
    pcm_parameters: Vec<PcmParameters>,
    set_up: bool,
    pcm_states: Vec<PCMState>,
    /// The tokens of the transfers that were submitted without waiting.
    token_buf: BTreeMap<u16, u16>,
    pending: Option<Pending>,
    xfer: Option<PcmXfer>,
    capture: Option<Capture>,
}

impl View for SoundDevice {
    type V = SoundDeviceView;

    closed spec fn view(&self) -> SoundDeviceView {
        SoundDeviceView {
            inner: self.sound_inner@,
            pcm_infos: match self.pcm_infos {
                Some(v) => Some(v@),
                None => None,
            },
            chmap_infos: match self.chmap_infos {
                Some(v) => Some(v@),
                None => None,
            },
            parameters: self.pcm_parameters@,
            set_up: self.set_up,
            states: self.pcm_states@,
            outstanding: self.token_buf@.dom(),
            pending: self.pending,
            xfer: match self.xfer {
                Some(x) => Some(x@),
                None => None,
            },
            capture: self.capture,
        }
    }
}

impl SoundDeviceInner {
    /// One of the queues.
    pub fn queue(&self, id: QueueId) -> (r: &VirtQueue)
        ensures
            r@ == self@.queue(id),
    {
        match id {
            QueueId::Control => &self.control_queue,
            QueueId::Event => &self.event_queue,
            QueueId::Tx => &self.tx_queue,
            QueueId::Rx => &self.rx_queue,
        }
    }

    /// One of the buffers.
    pub fn buffer(&self, id: BufferId) -> (r: &DmaStream)
        ensures
            r@ == self@.buffer(id),
    {
        match id {
            BufferId::Request => &self.request_buffer,
            BufferId::Response => &self.response_buffer,
            BufferId::Event => &self.event_buffer,
            BufferId::Send => &self.send_buffer,
            BufferId::Receive => &self.receive_buffer,
            BufferId::Xfer => &self.xfer_buffer,
        }
    }

    /// What the configuration space says.
    pub fn config(&self) -> (r: VirtioSoundConfig)
        ensures
            r == self@.config,
    {
        self.config_manager.read_config()
    }

    /// Writes `request` to the front of the request buffer and hands it to
    /// the control queue, together with the first `response_len` bytes of
    /// the response buffer for the answer.
    #[verifier::rlimit(40)]
    fn submit_control(&mut self, request: &[u8], response_len: usize) -> (r: Submitted)
        requires
            old(self)@.wf(),
            old(self)@.control.num_used == 0,
            old(self)@.control.chains.dom() =~= Set::<int>::empty(),
            request@.len() <= PCM_SET_PARAMS_SIZE,
            response_len <= old(self)@.response.bytes.len(),
        ensures
            final(self)@.wf(),
            final(self)@ == (SoundDeviceInnerView {
                control: added(
                    old(self)@.control,
                    seq![old(self)@.request.slice(0, request@.len())],
                    seq![old(self)@.response.slice(0, response_len as nat)],
                ),
                request: DmaStreamView {
                    bytes: written(old(self)@.request.bytes, 0, request@),
                    ..old(self)@.request
                },
                ..old(self)@
            }),
            r == (Submitted {
                token: old(self)@.control.free_head,
                notify: old(self)@.control.used_flags & VIRTQ_USED_F_NO_NOTIFY == 0,
            }),
            final(self)@.control.chains.dom() =~= set![r.token as int],
            final(self)@.control.chains[r.token as int].len() == 2,
            final(self)@.control.num_used == 2,
    {
        let n: usize = self.request_buffer.write(0, request);
        assert(request@.take(n as int) =~= request@);
        let req_slice = self.request_buffer.slice(0, request.len()).unwrap();
        let resp_slice = self.response_buffer.slice(0, response_len).unwrap();
        proof {
            lemma_control_round(old(self)@.control, req_slice, resp_slice);
        }
        let inputs = [req_slice];
        let outputs = [resp_slice];
        assert(inputs@ =~= seq![req_slice]);
        assert(outputs@ =~= seq![resp_slice]);
        let token = self.control_queue.add_dma_buf(inputs.as_slice(), outputs.as_slice()).unwrap();
        let notify = self.control_queue.should_notify();
        Submitted { token, notify }
    }
}

/// The number of bytes of a response that holds a header and `count`
/// records of `item_size` bytes.
fn info_span(count: u32, item_size: usize) -> (r: u64)
    requires
        item_size <= 32,
    ensures
        r == SND_HDR_SIZE + count * item_size,
{
    assert(count * item_size <= 0xffff_ffff * 32) by (nonlinear_arith)
        requires
            count <= 0xffff_ffff,
            item_size <= 32,
    ;
    SND_HDR_SIZE as u64 + (count as u64) * (item_size as u64)
}

/// The bytes of the request that `op` sends.
pub fn build_request(op: Op) -> (r: Vec<u8>)
    ensures
        r@ == op.request(),
        r@.len() <= PCM_SET_PARAMS_SIZE,
{
    proof {
        crate::wire::lemma_request_encodings(
            VirtioSndPcmHdr { hdr: VirtioSndHdr { code: 0 }, stream_id: 0 },
            VirtioSndPcmHdr { hdr: VirtioSndHdr { code: 0 }, stream_id: 0 },
            VirtioSndQueryInfo { hdr: VirtioSndHdr { code: 0 }, start_id: 0, count: 0, size: 0 },
            VirtioSndQueryInfo { hdr: VirtioSndHdr { code: 0 }, start_id: 0, count: 0, size: 0 },
            VirtioSndPcmSetParams {
                hdr: VirtioSndPcmHdr { hdr: VirtioSndHdr { code: 0 }, stream_id: 0 },
                buffer_bytes: 0,
                period_bytes: 0,
                features: 0,
                channels: 0,
                format: 0,
                rate: 0,
                padding: 0,
            },
            VirtioSndPcmSetParams {
                hdr: VirtioSndPcmHdr { hdr: VirtioSndHdr { code: 0 }, stream_id: 0 },
                buffer_bytes: 0,
                period_bytes: 0,
                features: 0,
                channels: 0,
                format: 0,
                rate: 0,
                padding: 0,
            },
        );
    }
    match op {
        Op::PcmInfo { start_id, count } => (VirtioSndQueryInfo {
            hdr: VirtioSndHdr { code: VIRTIO_SND_R_PCM_INFO },
            start_id,
            count,
            size: PCM_INFO_SIZE as u32,
        }).to_bytes(),
        Op::ChmapInfo { start_id, count } => (VirtioSndQueryInfo {
            hdr: VirtioSndHdr { code: VIRTIO_SND_R_CHMAP_INFO },
            start_id,
            count,
            size: CHMAP_INFO_SIZE as u32,
        }).to_bytes(),
        Op::SetParams {
            stream_id,
            buffer_bytes,
            period_bytes,
            features,
            channels,
            format,
            rate,
        } => (VirtioSndPcmSetParams {
            hdr: VirtioSndPcmHdr {
                hdr: VirtioSndHdr { code: VIRTIO_SND_R_PCM_SET_PARAMS },
                stream_id,
            },
            buffer_bytes,
            period_bytes,
            features: features.bits(),
            channels,
            format: format.selector(),
            rate: rate.selector(),
            padding: 0,
        }).to_bytes(),
        Op::Prepare { stream_id } => (VirtioSndPcmHdr {
            hdr: VirtioSndHdr { code: VIRTIO_SND_R_PCM_PREPARE },
            stream_id,
        }).to_bytes(),
        Op::Release { stream_id } => (VirtioSndPcmHdr {
            hdr: VirtioSndHdr { code: VIRTIO_SND_R_PCM_RELEASE },
            stream_id,
        }).to_bytes(),
        Op::Start { stream_id } => (VirtioSndPcmHdr {
            hdr: VirtioSndHdr { code: VIRTIO_SND_R_PCM_START },
            stream_id,
        }).to_bytes(),
        Op::Stop { stream_id } => (VirtioSndPcmHdr {
            hdr: VirtioSndHdr { code: VIRTIO_SND_R_PCM_STOP },
            stream_id,
        }).to_bytes(),
        _ => Vec::new(),
    }
}

/// The commands of the self-test, in order: the first stream is given
/// parameters for one channel of unsigned bytes at 8000 Hz, with a buffer
/// of 80000 bytes in periods of 100, and is then prepared, started, stopped
/// and released. The test tone is played between start and stop.
pub fn test_commands() -> (r: Vec<Op>)
    ensures
        r@ == test_script(),
{
    let mut out: Vec<Op> = Vec::new();
    out.push(
        Op::SetParams {
            stream_id: TEST_STREAM,
            buffer_bytes: TEST_BUFFER_BYTES,
            period_bytes: TEST_PERIOD_BYTES,
            features: PcmFeatures::empty(),
            channels: 1,
            format: PcmFormat::U8,
            rate: PcmRate::Rate8000,
        },
    );
    out.push(Op::Prepare { stream_id: TEST_STREAM });
    out.push(Op::Start { stream_id: TEST_STREAM });
    out.push(Op::Stop { stream_id: TEST_STREAM });
    out.push(Op::Release { stream_id: TEST_STREAM });
    assert(out@ =~= test_script());
    out
}

/// The streams among `infos` that flow in the given direction, in ascending
/// order.
pub fn list_streams(infos: &Vec<VirtioSndPcmInfo>, direction: u8) -> (r: Vec<u32>)
    requires
        infos@.len() <= u32::MAX,
    ensures
        r@ == streams_in(infos@, direction),
{
    let mut out: Vec<u32> = Vec::new();
    let mut i: usize = 0;
    while i < infos.len()
        invariant
            i <= infos@.len() <= u32::MAX,
            out@ == streams_in(infos@.take(i as int), direction),
        decreases infos@.len() - i,
    {
        proof {
            assert(infos@.take(i + 1).drop_last() =~= infos@.take(i as int));
            assert(infos@.take(i + 1).last() == infos@[i as int]);
        }
        if infos[i].direction == direction {
            out.push(i as u32);
        }
        i = i + 1;
    }
    assert(infos@.take(infos@.len() as int) =~= infos@);
    out
}

impl SoundDevice {
    /// The features that the driver accepts among those that the device
    /// offers: control elements and nothing else.
    pub fn negotiate_features(features: u64) -> (r: u64)
        ensures
            r == features & SOUND_FEATURES_ALL,
    {
        let features = SoundFeatures::from_bits_truncate(features);
        features.bits()
    }

    /// Brings the sound device up: sets up its queues and buffers and
    /// gives every stream that the configuration space counts its first
    /// state and no parameters.
    ///
    /// `config_mem` holds the bytes of the configuration space, if the
    /// transport has such a region; `ctls_negotiated` says whether control
    /// elements were negotiated; `plan` says where the buffers were mapped.
    #[verifier::rlimit(40)]
    pub fn init(
        config_mem: Option<Vec<u8>>,
        ctls_negotiated: bool,
        transport: SoundTransport,
        plan: DmaPlan,
    ) -> (r: Result<Self, VirtioDeviceError>)
        ensures
            match queue_sizes(transport) {
                Some(n) => if !plan_fits(plan, n) {
                    r is Err && r->Err_0 == VirtioDeviceError::InvalidParam
                } else {
                    &&& r is Ok
                    &&& r->Ok_0@.wf()
                    &&& r->Ok_0@ == initial_device(
                        initial_inner(
                            match config_mem {
                                Some(bytes) => Some(bytes@),
                                None => None,
                            },
                            ctls_negotiated,
                            transport is Modern,
                            n,
                            plan,
                        ),
                    )
                },
                None => r is Err && r->Err_0 == VirtioDeviceError::QueueError(
                    QueueError::InvalidArgs,
                ),
            },
    {
        let inner = match SoundDeviceInner::set(config_mem, ctls_negotiated, transport, plan) {
            Ok(inner) => inner,
            Err(e) => {
                return Err(e);
            },
        };
        let streams: u32 = inner.config_manager.read_config().streams;
        let mut pcm_parameters: Vec<PcmParameters> = Vec::new();
        let mut pcm_states: Vec<PCMState> = Vec::new();
        let mut i: u32 = 0;
        while i < streams
            invariant
                i <= streams,
                pcm_parameters@ == Seq::new(i as nat, |j: int| PcmParameters::unset()),
                pcm_states@ == Seq::new(i as nat, |j: int| PCMState::SetParameters),
            decreases streams - i,
        {
            pcm_parameters.push(PcmParameters::default());
            pcm_states.push(PCMState::default());
            assert(pcm_parameters@ =~= Seq::new((i + 1) as nat, |j: int| PcmParameters::unset()));
            assert(pcm_states@ =~= Seq::new((i + 1) as nat, |j: int| PCMState::SetParameters));
            i = i + 1;
        }
        let device = SoundDevice {
            sound_inner: inner,
            pcm_infos: None,
            chmap_infos: None,
            pcm_parameters,
            set_up: false,
            pcm_states,
            token_buf: BTreeMap::new(),
            pending: None,
            xfer: None,
            capture: None,
        };
        assert(device@.outstanding =~= Set::<u16>::empty());
        Ok(device)
    }

    /// Whether a control request is with the device.
    pub fn is_busy(&self) -> (r: bool)
        ensures
            r == (self@.pending is Some),
    {
        self.pending.is_some()
    }

    /// Whether the device was set up.
    pub fn is_set_up(&self) -> (r: bool)
        ensures
            r == self@.set_up,
    {
        self.set_up
    }

    /// The state of a stream, if the device has the stream.
    pub fn pcm_state(&self, stream_id: u32) -> (r: Option<PCMState>)
        requires
            self@.wf(),
        ensures
            r == (if stream_id < self@.streams() {
                Some(self@.states[stream_id as int])
            } else {
                None
            }),
    {
        if (stream_id as usize) < self.pcm_states.len() {
            Some(self.pcm_states[stream_id as usize])
        } else {
            None
        }
    }

    /// The parameters of a stream, if the device has the stream.
    pub fn pcm_parameters(&self, stream_id: u32) -> (r: Option<PcmParameters>)
        requires
            self@.wf(),
        ensures
            r == (if stream_id < self@.streams() {
                Some(self@.parameters[stream_id as int])
            } else {
                None
            }),
    {
        if (stream_id as usize) < self.pcm_parameters.len() {
            Some(self.pcm_parameters[stream_id as usize])
        } else {
            None
        }
    }

    /// The stream records, once set-up has fetched them.
    pub fn pcm_infos(&self) -> (r: &Option<Vec<VirtioSndPcmInfo>>)
        ensures
            match *r {
                Some(v) => self@.pcm_infos == Some(v@),
                None => self@.pcm_infos is None,
            },
    {
        &self.pcm_infos
    }

    /// The channel map records, once set-up has fetched them.
    pub fn chmap_infos(&self) -> (r: &Option<Vec<VirtioSndChmapInfo>>)
        ensures
            match *r {
                Some(v) => self@.chmap_infos == Some(v@),
                None => self@.chmap_infos is None,
            },
    {
        &self.chmap_infos
    }

    /// What the configuration space says.
    pub fn config(&self) -> (r: VirtioSoundConfig)
        ensures
            r == self@.inner.config,
    {
        self.sound_inner.config_manager.read_config()
    }

    /// Why an operation is refused before the device is asked, if it is.
    pub fn precheck(&self, op: Op) -> (r: Option<VirtioDeviceError>)
        requires
            self@.wf(),
        ensures
            r == self@.precheck(op),
    {
        let config = self.sound_inner.config_manager.read_config();
        let capacity: u64 = self.sound_inner.response_buffer.nbytes() as u64;
        match op {
            Op::PcmInfo { start_id, count } => {
                if start_id as u64 + count as u64 > config.streams as u64 {
                    Some(VirtioDeviceError::InvalidParam)
                } else if info_span(count, PCM_INFO_SIZE) > capacity {
                    Some(VirtioDeviceError::BufferOverflow)
                } else {
                    None
                }
            },
            Op::ChmapInfo { start_id, count } => {
                if start_id as u64 + count as u64 > config.chmaps as u64 {
                    Some(VirtioDeviceError::InvalidParam)
                } else if info_span(count, CHMAP_INFO_SIZE) > capacity {
                    Some(VirtioDeviceError::BufferOverflow)
                } else {
                    None
                }
            },
            Op::SetUp => None,
            Op::OutputStreams => None,
            Op::InputStreams => None,
            Op::SetParams { stream_id, buffer_bytes, period_bytes, .. } => {
                if stream_id >= config.streams {
                    Some(VirtioDeviceError::InvalidParam)
                } else if !check_sizes(buffer_bytes, period_bytes) {
                    Some(VirtioDeviceError::InvalidParam)
                } else if !self.pcm_states[stream_id as usize].can_transition_to(
                    PCMState::SetParameters,
                ) {
                    Some(VirtioDeviceError::IoError(None))
                } else {
                    None
                }
            },
            Op::Prepare { stream_id } => self.check_command(stream_id, PCMState::Prepare),
            Op::Release { stream_id } => self.check_command(stream_id, PCMState::Release),
            Op::Start { stream_id } => self.check_command(stream_id, PCMState::Start),
            Op::Stop { stream_id } => self.check_command(stream_id, PCMState::Stop),
            Op::RatesSupported { stream_id } => self.check_stream(stream_id),
            Op::FormatsSupported { stream_id } => self.check_stream(stream_id),
            Op::ChannelRangeSupported { stream_id } => self.check_stream(stream_id),
            Op::FeaturesSupported { stream_id } => self.check_stream(stream_id),
        }
    }

    fn check_stream(&self, stream_id: u32) -> (r: Option<VirtioDeviceError>)
        requires
            self@.wf(),
        ensures
            r == (if stream_id >= self@.streams() {
                Some(VirtioDeviceError::InvalidParam)
            } else {
                None
            }),
    {
        if stream_id >= self.sound_inner.config_manager.read_config().streams {
            Some(VirtioDeviceError::InvalidParam)
        } else {
            None
        }
    }

    fn check_command(&self, stream_id: u32, to: PCMState) -> (r: Option<VirtioDeviceError>)
        requires
            self@.wf(),
        ensures
            r == (if stream_id >= self@.streams() {
                Some(VirtioDeviceError::InvalidParam)
            } else if !self@.states[stream_id as int].allows(to) {
                Some(VirtioDeviceError::IoError(None))
            } else {
                None
            }),
    {
        if stream_id >= self.sound_inner.config_manager.read_config().streams {
            Some(VirtioDeviceError::InvalidParam)
        } else if !self.pcm_states[stream_id as usize].can_transition_to(to) {
            Some(VirtioDeviceError::IoError(None))
        } else {
            None
        }
    }

    /// Answers a query from what set-up has stored.
    fn query(&self, op: Op) -> (r: Reply)
        requires
            self@.wf(),
            self@.set_up,
            op.is_query(),
            self@.precheck(op) is None,
        ensures
            r@ == self@.query_reply(op),
    {
        match &self.pcm_infos {
            Some(infos) => {
                match op {
                    Op::OutputStreams => Reply::Streams(list_streams(infos, VIRTIO_SND_D_OUTPUT)),
                    Op::InputStreams => Reply::Streams(list_streams(infos, VIRTIO_SND_D_INPUT)),
                    Op::RatesSupported { stream_id } => Reply::Rates(
                        PcmRates::from_bits_truncate(infos[stream_id as usize].rates),
                    ),
                    Op::FormatsSupported { stream_id } => Reply::Formats(
                        PcmFormats::from_bits_truncate(infos[stream_id as usize].formats),
                    ),
                    Op::ChannelRangeSupported { stream_id } => Reply::ChannelRange(
                        infos[stream_id as usize].channels_min,
                        infos[stream_id as usize].channels_max,
                    ),
                    Op::FeaturesSupported { stream_id } => Reply::Features(
                        PcmFeatures::from_bits_truncate(infos[stream_id as usize].features),
                    ),
                    _ => Reply::Done,
                }
            },
            None => Reply::Done,
        }
    }

    /// Hands a request to the control queue for the given part of `op`.
    fn submit(&mut self, stage: Stage, op: Op, request: Vec<u8>, response_len: usize) -> (r: Step)
        requires
            old(self)@.inner.wf(),
            old(self)@.pending is None,
            old(self)@.inner.control.num_used == 0,
            old(self)@.inner.control.chains.dom() =~= Set::<int>::empty(),
            request@.len() <= PCM_SET_PARAMS_SIZE,
            response_len <= old(self)@.response_capacity(),
        ensures
            (final(self)@, r@) == old(self)@.submit(stage, op, request@, response_len as nat),
            final(self)@.inner.wf(),
            final(self)@.inner.control.chains.dom() =~= set![final(self)@.pending->Some_0.token as int],
            final(self)@.inner.control.chains[final(self)@.pending->Some_0.token as int].len() == 2,
            final(self)@.inner.control.num_used == 2,
    {
        let submitted = self.sound_inner.submit_control(request.as_slice(), response_len);
        self.pending = Some(Pending { stage, op, token: submitted.token });
        Step::Wait(submitted)
    }

    /// Takes `op` up on a device that needs no set-up for it.
    fn run(&mut self, op: Op) -> (r: Step)
        requires
            old(self)@.wf(),
            old(self)@.pending is None,
            old(self)@.precheck(op) is None,
            op.needs_set_up() ==> old(self)@.set_up,
        ensures
            (final(self)@, r@) == old(self)@.run(op),
            final(self)@.wf(),
    {
        match op {
            Op::SetUp | Op::OutputStreams | Op::InputStreams | Op::RatesSupported { .. }
            | Op::FormatsSupported { .. } | Op::ChannelRangeSupported { .. }
            | Op::FeaturesSupported { .. } => {
                Step::Done(Ok(self.query(op)))
            },
            _ => {
                let request = build_request(op);
                let response_len: usize = match op {
                    Op::PcmInfo { count, .. } => info_span(count, PCM_INFO_SIZE) as usize,
                    Op::ChmapInfo { count, .. } => info_span(count, CHMAP_INFO_SIZE) as usize,
                    _ => SND_HDR_SIZE,
                };
                self.submit(Stage::Main, op, request, response_len)
            },
        }
    }

    /// Begins an operation.
    #[verifier::rlimit(40)]
    pub fn begin(&mut self, op: Op) -> (r: Step)
        requires
            old(self)@.wf(),
        ensures
            (final(self)@, r@) == old(self)@.begun(op),
            final(self)@.wf(),
    {
        if self.pending.is_some() {
            return Step::Done(Err(VirtioDeviceError::Busy));
        }
        match self.precheck(op) {
            Some(e) => {
                return Step::Done(Err(e));
            },
            None => {},
        }
        let needs_set_up: bool = !matches!(op, Op::PcmInfo { .. } | Op::ChmapInfo { .. });
        if needs_set_up && !self.set_up {
            let streams: u32 = self.sound_inner.config_manager.read_config().streams;
            let query = Op::PcmInfo { start_id: 0, count: streams };
            let capacity: u64 = self.sound_inner.response_buffer.nbytes() as u64;
            let span: u64 = info_span(streams, PCM_INFO_SIZE);
            if span > capacity {
                return Step::Done(Err(VirtioDeviceError::BufferOverflow));
            }
            let request = build_request(query);
            let response_len: usize = span as usize;
            self.submit(Stage::SetUpPcmInfo, op, request, response_len)
        } else {
            self.run(op)
        }
    }

    /// Takes the device's answer to the request of `op` itself.
    #[verifier::rlimit(40)]
    fn apply(&mut self, op: Op, code: u32) -> (r: Step)
        requires
            old(self)@.wf(),
            old(self)@.pending is None,
            old(self)@.precheck(op) is None,
            !op.is_query(),
            op.needs_set_up() ==> old(self)@.set_up,
        ensures
            (final(self)@, r@) == old(self)@.applied(op, code),
            final(self)@.wf(),
    {
        if code != VIRTIO_SND_S_OK {
            return Step::Done(Err(VirtioDeviceError::IoError(Some(code))));
        }
        match op {
            Op::PcmInfo { count, .. } => {
                let infos = crate::wire::parse_pcm_infos(
                    self.sound_inner.response_buffer.bytes(),
                    count as usize,
                );
                Step::Done(Ok(Reply::PcmInfos(infos)))
            },
            Op::ChmapInfo { count, .. } => {
                let infos = crate::wire::parse_chmap_infos(
                    self.sound_inner.response_buffer.bytes(),
                    count as usize,
                );
                Step::Done(Ok(Reply::ChmapInfos(infos)))
            },
            Op::SetParams {
                stream_id,
                buffer_bytes,
                period_bytes,
                features,
                channels,
                format,
                rate,
            } => {
                self.pcm_parameters.set(
                    stream_id as usize,
                    PcmParameters {
                        setup: true,
                        buffer_bytes,
                        period_bytes,
                        features,
                        channels,
                        format,
                        rate,
                    },
                );
                self.pcm_states.set(stream_id as usize, PCMState::SetParameters);
                Step::Done(Ok(Reply::Done))
            },
            Op::Prepare { stream_id } => {
                self.pcm_states.set(stream_id as usize, PCMState::Prepare);
                Step::Done(Ok(Reply::Done))
            },
            Op::Release { stream_id } => {
                let old_parameters: PcmParameters = self.pcm_parameters[stream_id as usize];
                self.pcm_parameters.set(
                    stream_id as usize,
                    PcmParameters {
                        setup: false,
                        buffer_bytes: old_parameters.buffer_bytes,
                        period_bytes: old_parameters.period_bytes,
                        features: old_parameters.features,
                        channels: old_parameters.channels,
                        format: old_parameters.format,
                        rate: old_parameters.rate,
                    },
                );
                self.pcm_states.set(stream_id as usize, PCMState::Release);
                Step::Done(Ok(Reply::Done))
            },
            Op::Start { stream_id } => {
                self.pcm_states.set(stream_id as usize, PCMState::Start);
                Step::Done(Ok(Reply::Done))
            },
            Op::Stop { stream_id } => {
                self.pcm_states.set(stream_id as usize, PCMState::Stop);
                Step::Done(Ok(Reply::Done))
            },
            _ => Step::Done(Ok(Reply::Done)),
        }
    }

    /// Ends set-up with the given channel map records and takes up the
    /// operation that asked for it.
    fn finish_set_up(&mut self, chmap_infos: Vec<VirtioSndChmapInfo>, op: Op) -> (r: Step)
        requires
            old(self)@.inner.wf(),
            old(self)@.pending is None,
            old(self)@.inner.control.num_used == 0,
            old(self)@.inner.control.chains.dom() =~= Set::<int>::empty(),
            (SoundDeviceView { chmap_infos: Some(chmap_infos@), set_up: true, ..old(self)@ }).wf(),
            old(self)@.precheck(op) is None,
        ensures
            (final(self)@, r@) == old(self)@.set_up_done(chmap_infos@, op),
            final(self)@.wf(),
    {
        self.chmap_infos = Some(chmap_infos);
        self.set_up = true;
        self.run(op)
    }

    /// Takes an operation further once the device has answered.
    #[verifier::rlimit(40)]
    pub fn resume(&mut self) -> (r: Step)
        requires
            old(self)@.wf(),
        ensures
            (final(self)@, r@) == old(self)@.resumed(),
            final(self)@.wf(),
    {
        let p: Pending = match self.pending {
            Some(p) => p,
            None => {
                return Step::Done(Err(VirtioDeviceError::QueueError(QueueError::NotReady)));
            },
        };
        if !self.sound_inner.control_queue.can_pop() {
            return Step::Wait(Submitted { token: p.token, notify: false });
        }
        proof {
            if self@.inner.control.next_used_token() == p.token {
                lemma_only_chain_popped(self@.inner.control, p.token);
            }
        }
        match self.sound_inner.control_queue.pop_used_with_token(p.token) {
            Ok(_) => {},
            Err(e) => {
                return Step::Done(Err(VirtioDeviceError::QueueError(e)));
            },
        }
        self.pending = None;
        let code: u32 = VirtioSndHdr::from_bytes(self.sound_inner.response_buffer.bytes()).unwrap().code;
        match p.stage {
            Stage::Main => self.apply(p.op, code),
            Stage::SetUpPcmInfo => {
                if code != VIRTIO_SND_S_OK {
                    return Step::Done(Err(VirtioDeviceError::IoError(Some(code))));
                }
                let config = self.sound_inner.config_manager.read_config();
                let infos = crate::wire::parse_pcm_infos(
                    self.sound_inner.response_buffer.bytes(),
                    config.streams as usize,
                );
                self.pcm_infos = Some(infos);
                let capacity: u64 = self.sound_inner.response_buffer.nbytes() as u64;
                let span: u64 = info_span(config.chmaps, CHMAP_INFO_SIZE);
                if span > capacity {
                    self.finish_set_up(Vec::new(), p.op)
                } else {
                    let query = Op::ChmapInfo { start_id: 0, count: config.chmaps };
                    let request = build_request(query);
                    let response_len: usize = span as usize;
                    self.submit(Stage::SetUpChmapInfo, p.op, request, response_len)
                }
            },
            Stage::SetUpChmapInfo => {
                let infos: Vec<VirtioSndChmapInfo> = if code == VIRTIO_SND_S_OK {
                    let chmaps: u32 = self.sound_inner.config_manager.read_config().chmaps;
                    crate::wire::parse_chmap_infos(
                        self.sound_inner.response_buffer.bytes(),
                        chmaps as usize,
                    )
                } else {
                    Vec::new()
                };
                self.finish_set_up(infos, p.op)
            },
        }
    }
}

/// A step that goes on keeps the frames and the period of the playback.
proof fn taken_is_counted(before: SoundDeviceView, after: SoundDeviceView, statuses: Seq<u32>)
    requires
        before.xfer is Some,
        after == before.heard(statuses).xfer_stepped().0,
        before.heard(statuses).xfer_stepped().1 is Continue,
    ensures
        after.xfer is Some,
        after.xfer->Some_0.period == before.xfer->Some_0.period,
        after.xfer->Some_0.frames == before.xfer->Some_0.frames,
{
}

/// Appends `bytes` to `out`.
fn append(out: &mut Vec<u8>, bytes: &[u8])
    ensures
        final(out)@ == old(out)@ + bytes@,
{
    let mut i: usize = 0;
    while i < bytes.len()
        invariant
            i <= bytes@.len(),
            out@ == old(out)@ + bytes@.take(i as int),
        decreases bytes@.len() - i,
    {
        out.push(bytes[i]);
        assert(out@ =~= old(out)@ + bytes@.take(i + 1));
        i = i + 1;
    }
    assert(bytes@.take(bytes@.len() as int) =~= bytes@);
}

/// Notes a token as that of an outstanding transfer.
fn note_outstanding(table: &mut BTreeMap<u16, u16>, token: u16)
    ensures
        final(table)@.dom() == old(table)@.dom().insert(token),
{
    broadcast use vstd::std_specs::btree::group_btree_axioms;
    broadcast use vstd::laws_cmp::group_laws_cmp;

    table.insert(token, token);
}

/// Whether a transfer is outstanding under the token.
fn is_outstanding(table: &BTreeMap<u16, u16>, token: u16) -> (r: bool)
    ensures
        r == table@.dom().contains(token),
{
    broadcast use vstd::std_specs::btree::group_btree_axioms;
    broadcast use vstd::laws_cmp::group_laws_cmp;

    table.contains_key(&token)
}

/// Strikes a token from the outstanding transfers.
fn drop_outstanding(table: &mut BTreeMap<u16, u16>, token: u16)
    ensures
        final(table)@.dom() == old(table)@.dom().remove(token),
{
    broadcast use vstd::std_specs::btree::group_btree_axioms;
    broadcast use vstd::laws_cmp::group_laws_cmp;

    table.remove(&token);
}

impl SoundDeviceInner {
    /// Hands a PCM transfer for `stream_id` to the tx queue.
    #[verifier::rlimit(40)]
    fn submit_playback(&mut self, stream_id: u32, payload: &[u8]) -> (r: Submitted)
        requires
            old(self)@.wf(),
            old(self)@.tx.size - old(self)@.tx.num_used >= 3,
            1 <= payload@.len() <= old(self)@.send.bytes.len(),
        ensures
            final(self)@ == playback_submitted(old(self)@, stream_id, payload@),
            final(self)@.wf(),
            r == (Submitted {
                token: old(self)@.tx.free_head,
                notify: old(self)@.tx.used_flags & VIRTQ_USED_F_NO_NOTIFY == 0,
            }),
            !old(self)@.tx.in_flight(r.token),
            final(self)@.tx.in_flight(r.token),
            forall|t: u16| old(self)@.tx.in_flight(t) ==> #[trigger] final(self)@.tx.in_flight(t),
    {
        let token: u16 = self.tx_queue.next_token();
        let header = (VirtioSndPcmXfer { stream_id }).to_bytes();
        let slot: usize = XFER_SLOT_SIZE * (token as usize);
        let n: usize = self.xfer_buffer.write(slot, header.as_slice());
        assert(header@.take(n as int) =~= header@);
        let m: usize = self.send_buffer.write(0, payload);
        assert(payload@.take(m as int) =~= payload@);
        let h = self.xfer_buffer.slice(slot, PCM_XFER_SIZE).unwrap();
        let p = self.send_buffer.slice(0, payload.len()).unwrap();
        let st = self.xfer_buffer.slice(slot + XFER_STATUS_OFFSET, PCM_STATUS_SIZE).unwrap();
        let inputs = [h, p];
        let outputs = [st];
        proof {
            assert(inputs@ =~= seq![h, p]);
            assert(outputs@ =~= seq![st]);
            lemma_added_wf(old(self)@.tx, inputs@, outputs@);
            assert forall|t: u16| old(self)@.tx.in_flight(t) implies #[trigger] added(
                old(self)@.tx,
                inputs@,
                outputs@,
            ).in_flight(t) by {
                crate::queue::lemma_added_keeps(old(self)@.tx, inputs@, outputs@, t);
            }
        }
        let token2 = self.tx_queue.add_dma_buf(inputs.as_slice(), outputs.as_slice()).unwrap();
        let notify = self.tx_queue.should_notify();
        Submitted { token: token2, notify }
    }

    /// Hands the first `len` bytes of the receive buffer to the rx queue
    /// for a capture from `stream_id`.
    #[verifier::rlimit(40)]
    fn submit_capture(&mut self, stream_id: u32, len: usize) -> (r: Submitted)
        requires
            old(self)@.wf(),
            old(self)@.rx.size - old(self)@.rx.num_used >= 3,
            1 <= len <= old(self)@.receive.bytes.len(),
        ensures
            final(self)@ == capture_submitted(old(self)@, stream_id, len as nat),
            final(self)@.wf(),
            r == (Submitted {
                token: old(self)@.rx.free_head,
                notify: old(self)@.rx.used_flags & VIRTQ_USED_F_NO_NOTIFY == 0,
            }),
    {
        let token: u16 = self.rx_queue.next_token();
        let header = (VirtioSndPcmXfer { stream_id }).to_bytes();
        let slot: usize = XFER_SLOT_SIZE * (token as usize);
        let n: usize = self.xfer_buffer.write(slot, header.as_slice());
        assert(header@.take(n as int) =~= header@);
        let h = self.xfer_buffer.slice(slot, PCM_XFER_SIZE).unwrap();
        let p = self.receive_buffer.slice(0, len).unwrap();
        let st = self.xfer_buffer.slice(slot + XFER_STATUS_OFFSET, PCM_STATUS_SIZE).unwrap();
        let inputs = [h];
        let outputs = [p, st];
        proof {
            assert(inputs@ =~= seq![h]);
            assert(outputs@ =~= seq![p, st]);
            lemma_added_wf(old(self)@.rx, inputs@, outputs@);
        }
        let token2 = self.rx_queue.add_dma_buf(inputs.as_slice(), outputs.as_slice()).unwrap();
        let notify = self.rx_queue.should_notify();
        Submitted { token: token2, notify }
    }

    /// The status that the device wrote for the chain with the given token.
    fn read_status(&self, token: u16) -> (r: u32)
        requires
            status_offset(token) + 4 <= self@.xfer.bytes.len(),
        ensures
            r == u32_of_le(self@.xfer.bytes.skip(status_offset(token) as int)),
    {
        crate::bytes::get_u32(
            self.xfer_buffer.bytes(),
            XFER_SLOT_SIZE * (token as usize) + XFER_STATUS_OFFSET,
        )
    }
}

impl SoundDevice {
    /// Sets the parameters of a stream.
    pub fn pcm_set_params(
        &mut self,
        stream_id: u32,
        buffer_bytes: u32,
        period_bytes: u32,
        features: PcmFeatures,
        channels: u8,
        format: PcmFormat,
        rate: PcmRate,
    ) -> (r: Step)
        requires
            old(self)@.wf(),
        ensures
            (final(self)@, r@) == old(self)@.begun(
                Op::SetParams {
                    stream_id,
                    buffer_bytes,
                    period_bytes,
                    features,
                    channels,
                    format,
                    rate,
                },
            ),
            final(self)@.wf(),
    {
        self.begin(
            Op::SetParams {
                stream_id,
                buffer_bytes,
                period_bytes,
                features,
                channels,
                format,
                rate,
            },
        )
    }

    /// Prepares a stream.
    pub fn pcm_prepare(&mut self, stream_id: u32) -> (r: Step)
        requires
            old(self)@.wf(),
        ensures
            (final(self)@, r@) == old(self)@.begun(Op::Prepare { stream_id }),
            final(self)@.wf(),
    {
        self.begin(Op::Prepare { stream_id })
    }

    /// Releases a stream.
    pub fn pcm_release(&mut self, stream_id: u32) -> (r: Step)
        requires
            old(self)@.wf(),
        ensures
            (final(self)@, r@) == old(self)@.begun(Op::Release { stream_id }),
            final(self)@.wf(),
    {
        self.begin(Op::Release { stream_id })
    }

    /// Starts a stream.
    pub fn pcm_start(&mut self, stream_id: u32) -> (r: Step)
        requires
            old(self)@.wf(),
        ensures
            (final(self)@, r@) == old(self)@.begun(Op::Start { stream_id }),
            final(self)@.wf(),
    {
        self.begin(Op::Start { stream_id })
    }

    /// Stops a stream.
    pub fn pcm_stop(&mut self, stream_id: u32) -> (r: Step)
        requires
            old(self)@.wf(),
        ensures
            (final(self)@, r@) == old(self)@.begun(Op::Stop { stream_id }),
            final(self)@.wf(),
    {
        self.begin(Op::Stop { stream_id })
    }

    /// Sets the device up, if that was not done: fetches the records of
    /// all streams and of all channel maps.
    pub fn set_up(&mut self) -> (r: Step)
        requires
            old(self)@.wf(),
        ensures
            (final(self)@, r@) == old(self)@.begun(Op::SetUp),
            final(self)@.wf(),
    {
        self.begin(Op::SetUp)
    }

    /// Asks the device for the records of `count` streams from `start_id` on.
    pub fn pcm_info(&mut self, start_id: u32, count: u32) -> (r: Step)
        requires
            old(self)@.wf(),
        ensures
            (final(self)@, r@) == old(self)@.begun(Op::PcmInfo { start_id, count }),
            final(self)@.wf(),
    {
        self.begin(Op::PcmInfo { start_id, count })
    }

    /// Asks the device for the records of `count` channel maps from
    /// `start_id` on.
    pub fn chmap_info(&mut self, start_id: u32, count: u32) -> (r: Step)
        requires
            old(self)@.wf(),
        ensures
            (final(self)@, r@) == old(self)@.begun(Op::ChmapInfo { start_id, count }),
            final(self)@.wf(),
    {
        self.begin(Op::ChmapInfo { start_id, count })
    }

    /// Get all output streams.
    pub fn output_streams(&mut self) -> (r: Step)
        requires
            old(self)@.wf(),
        ensures
            (final(self)@, r@) == old(self)@.begun(Op::OutputStreams),
            final(self)@.wf(),
    {
        self.begin(Op::OutputStreams)
    }

    /// Get all input streams.
    pub fn input_streams(&mut self) -> (r: Step)
        requires
            old(self)@.wf(),
        ensures
            (final(self)@, r@) == old(self)@.begun(Op::InputStreams),
            final(self)@.wf(),
    {
        self.begin(Op::InputStreams)
    }

    /// Get the rates that a stream supports, among those that the driver
    /// knows.
    pub fn rates_supported(&mut self, stream_id: u32) -> (r: Step)
        requires
            old(self)@.wf(),
        ensures
            (final(self)@, r@) == old(self)@.begun(Op::RatesSupported { stream_id }),
            final(self)@.wf(),
    {
        self.begin(Op::RatesSupported { stream_id })
    }

    /// Get the formats that a stream supports, among those that the driver
    /// knows.
    pub fn formats_supported(&mut self, stream_id: u32) -> (r: Step)
        requires
            old(self)@.wf(),
        ensures
            (final(self)@, r@) == old(self)@.begun(Op::FormatsSupported { stream_id }),
            final(self)@.wf(),
    {
        self.begin(Op::FormatsSupported { stream_id })
    }

    /// Get the channel range that a stream supports.
    pub fn channel_range_supported(&mut self, stream_id: u32) -> (r: Step)
        requires
            old(self)@.wf(),
        ensures
            (final(self)@, r@) == old(self)@.begun(Op::ChannelRangeSupported { stream_id }),
            final(self)@.wf(),
    {
        self.begin(Op::ChannelRangeSupported { stream_id })
    }

    /// Get the features that a stream supports, among those that the
    /// driver knows.
    pub fn features_supported(&mut self, stream_id: u32) -> (r: Step)
        requires
            old(self)@.wf(),
        ensures
            (final(self)@, r@) == old(self)@.begun(Op::FeaturesSupported { stream_id }),
            final(self)@.wf(),
    {
        self.begin(Op::FeaturesSupported { stream_id })
    }

    /// Begins the playback of `frames` on a stream and takes its first
    /// step. The frames are handed to the device in chunks of one period;
    /// the last chunk is what is left.
    pub fn pcm_xfer(&mut self, stream_id: u32, frames: &[u8]) -> (r: XferStep)
        requires
            old(self)@.wf(),
        ensures
            (final(self)@, r) == old(self)@.xfer_started(stream_id, frames@),
            final(self)@.wf(),
    {
        if self.xfer.is_some() {
            return XferStep::Finished(Err(VirtioDeviceError::Busy));
        }
        if stream_id >= self.sound_inner.config_manager.read_config().streams {
            return XferStep::Finished(Err(VirtioDeviceError::InvalidParam));
        }
        let parameters: PcmParameters = self.pcm_parameters[stream_id as usize];
        if !parameters.setup {
            return XferStep::Finished(Err(VirtioDeviceError::IoError(None)));
        }
        if parameters.period_bytes as u64 > self.sound_inner.send_buffer.nbytes() as u64 {
            return XferStep::Finished(Err(VirtioDeviceError::BufferOverflow));
        }
        self.begin_xfer(stream_id, frames);
        self.pcm_xfer_step()
    }

    /// How far the blocking playback that is under way has come: the
    /// number of completions that were taken, the number of chunks that are
    /// with the device, and the number of the first chunk that failed, if
    /// one did.
    pub fn pcm_xfer_progress(&self) -> (r: Option<(usize, usize, Option<usize>)>)
        ensures
            match self@.xfer {
                Some(x) => r is Some && r->Some_0.0 == x.reaped && r->Some_0.1 == x.window.len()
                    && match x.failed {
                    Some(k) => r->Some_0.2 is Some && r->Some_0.2->Some_0 == k,
                    None => r->Some_0.2 is None,
                },
                None => r is None,
            },
    {
        match &self.xfer {
            Some(x) => Some((x.reaped, x.window.len(), x.failed)),
            None => None,
        }
    }

    /// Why a blocking playback on a stream does not start, if it does not.
    fn xfer_refusal(&self, stream_id: u32) -> (r: Option<VirtioDeviceError>)
        requires
            self@.wf(),
        ensures
            forall|frames: Seq<u8>|
                (#[trigger] self@.xfer_begun(stream_id, frames)) is Err ==> r == Some(
                    self@.xfer_begun(stream_id, frames)->Err_0,
                ),
            forall|frames: Seq<u8>|
                (#[trigger] self@.xfer_begun(stream_id, frames)) is Ok ==> r is None,
    {
        if self.xfer.is_some() {
            return Some(VirtioDeviceError::Busy);
        }
        if stream_id >= self.sound_inner.config_manager.read_config().streams {
            return Some(VirtioDeviceError::InvalidParam);
        }
        let parameters: PcmParameters = self.pcm_parameters[stream_id as usize];
        if !parameters.setup {
            return Some(VirtioDeviceError::IoError(None));
        }
        if parameters.period_bytes as u64 > self.sound_inner.send_buffer.nbytes() as u64 {
            return Some(VirtioDeviceError::BufferOverflow);
        }
        None
    }

    /// The turn of a device that answers the chunks of the playback under
    /// way with the statuses of a list, in order: it completes the oldest
    /// chunk that is with it, if one is, and gives it its status. Returns
    /// the number of completions that the driver has taken so far.
    #[verifier::rlimit(40)]
    fn answer_chunk(&mut self, statuses: &[u32]) -> (taken: usize)
        requires
            old(self)@.wf(),
            old(self)@.xfer is Some,
        ensures
            final(self)@ == old(self)@.heard(statuses@),
            final(self)@.wf(),
            taken == old(self)@.xfer->Some_0.reaped,
    {
        let (oldest, reaped): (Option<u16>, usize) = match &self.xfer {
            Some(x) => (
                if x.window.len() > 0 {
                    Some(x.window[0])
                } else {
                    None
                },
                x.reaped,
            ),
            None => (None, 0),
        };
        match oldest {
            Some(token) => {
                let status: u32 = if reaped < statuses.len() {
                    statuses[reaped]
                } else {
                    VIRTIO_SND_S_OK
                };
                let record = (VirtioSndPcmStatus { status, latency_bytes: 0 }).to_bytes();
                proof {
                    assert(self@.inner.tx.in_flight(self@.xfer->Some_0.window[0]));
                    crate::wire::lemma_event_encodings(
                        VirtioSndEvent { header: VirtioSndHdr { code: 0 }, data: 0 },
                        VirtioSndEvent { header: VirtioSndHdr { code: 0 }, data: 0 },
                        VirtioSndPcmStatus { status, latency_bytes: 0 },
                        VirtioSndPcmStatus { status, latency_bytes: 0 },
                    );
                }
                let n = self.device_write(
                    BufferId::Xfer,
                    XFER_SLOT_SIZE * (token as usize) + XFER_STATUS_OFFSET,
                    record.as_slice(),
                );
                assert(record@.take(n as int) =~= record@);
                self.device_complete(QueueId::Tx, token as u32, PCM_STATUS_SIZE as u32);
            },
            None => {},
        }
        reaped
    }

    /// Plays `frames` on a stream against a device that answers at once:
    /// after each step of the playback the oldest chunk that is with the
    /// device comes back, the chunk with the number `i`, counted from zero,
    /// with the status `statuses[i]`, and with `VIRTIO_SND_S_OK` beyond the
    /// end of the list. Returns how the playback ends and the number of
    /// completions that were taken.
    ///
    /// The playback is refused where `pcm_xfer` refuses it, and as `Busy`
    /// where the tx queue holds a completion that was not taken or has no
    /// three descriptors free. Otherwise it ends: well, with every chunk of
    /// the frames played, if the device fails none of them; and with an
    /// `IoError` that carries the status of the first chunk that the device
    /// fails otherwise, after fewer than [`MAX_CHUNKS`] chunks behind that
    /// one.
    #[verifier::rlimit(40)]
    pub fn pcm_xfer_answered(&mut self, stream_id: u32, frames: &[u8], statuses: &[u32]) -> (r: (
        Result<(), VirtioDeviceError>,
        usize,
    ))
        requires
            old(self)@.wf(),
        ensures
            final(self)@.wf(),
            match old(self)@.xfer_begun(stream_id, frames@) {
                Err(e) => r == (Err::<(), VirtioDeviceError>(e), 0usize) && final(self)@
                    == old(self)@,
                Ok(x) => if !tx_ready(old(self)@) {
                    r == (Err::<(), VirtioDeviceError>(VirtioDeviceError::Busy), 0usize)
                        && final(self)@ == old(self)@
                } else {
                    &&& run_ended(statuses@, x.period, frames@.len(), r.0, r.1 as nat)
                    &&& final(self)@.xfer is None
                    &&& tx_ready(final(self)@)
                    &&& final(self)@.inner.tx.num_used == old(self)@.inner.tx.num_used
                },
            },
    {
        match self.xfer_refusal(stream_id) {
            Some(e) => {
                return (Err(e), 0);
            },
            None => {},
        }
        if self.sound_inner.tx_queue.can_pop() || self.sound_inner.tx_queue.available_desc()
            < CHUNK_DESCRIPTORS {
            return (Err(VirtioDeviceError::Busy), 0);
        }
        let ghost base = self@.inner.tx.num_used as nat;
        let ghost x0 = self@.xfer_begun(stream_id, frames@)->Ok_0;
        self.begin_xfer(stream_id, frames);
        proof {
            assert(0 * x0.period == 0) by (nonlinear_arith);
            assert(self@.playing(statuses@, base));
        }
        let mut taken: usize = 0;
        let mut ended: Option<Result<(), VirtioDeviceError>> = None;
        while ended.is_none()
            invariant
                self@.wf(),
                old(self)@.inner.tx.num_used == base,
                ended is None ==> self@.playing(statuses@, base) && self@.xfer->Some_0.period
                    == x0.period && self@.xfer->Some_0.frames == frames@,
                ended is Some ==> run_ended(
                    statuses@,
                    x0.period,
                    frames@.len(),
                    ended->Some_0,
                    taken as nat,
                ) && self@.xfer is None && tx_ready(self@) && self@.inner.tx.num_used == base,
            decreases
                    (if ended is None {
                        playback_left(self@.xfer->Some_0) + 1
                    } else {
                        0
                    }),
        {
            let ghost before = self@;
            let (step, reaped) = self.answered_step(statuses, Ghost(base));
            taken = reaped;
            match step {
                XferStep::Finished(result) => {
                    proof {
                        lemma_run_result(before, self@, statuses@, base, result);
                    }
                    ended = Some(result);
                },
                XferStep::Continue { .. } => {},
            }
        }
        match ended {
            Some(result) => (result, taken),
            None => (Ok(()), taken),
        }
    }

    /// Makes a stream's playback of `frames` the one that is under way.
    fn begin_xfer(&mut self, stream_id: u32, frames: &[u8])
        requires
            old(self)@.wf(),
            old(self)@.xfer_begun(stream_id, frames@) is Ok,
        ensures
            final(self)@ == (SoundDeviceView {
                xfer: Some(old(self)@.xfer_begun(stream_id, frames@)->Ok_0),
                ..old(self)@
            }),
            final(self)@.wf(),
    {
        let parameters: PcmParameters = self.pcm_parameters[stream_id as usize];
        assert(self@.parameters[stream_id as int].wf());
        self.xfer = Some(
            PcmXfer {
                stream_id,
                period: parameters.period_bytes as usize,
                frames: vstd::slice::slice_to_vec(frames),
                next: 0,
                window: VecDeque::new(),
                bad: None,
                reaped: 0,
                failed: None,
            },
        );
    }

    /// The turn of such a device and the step of the playback that follows
    /// it. Returns the step and the number of completions that were taken
    /// before it.
    #[verifier::rlimit(40)]
    fn answered_step(&mut self, statuses: &[u32], base: Ghost<nat>) -> (r: (XferStep, usize))
        requires
            old(self)@.wf(),
            old(self)@.playing(statuses@, base@),
        ensures
            final(self)@.wf(),
            r.1 == old(self)@.xfer->Some_0.reaped,
            r.0 is Finished ==> play_ended(old(self)@, final(self)@, r.0->Finished_0),
            r.0 is Continue ==> final(self)@.playing(statuses@, base@) && playback_left(
                final(self)@.xfer->Some_0,
            ) < playback_left(old(self)@.xfer->Some_0) && final(self)@.xfer->Some_0.period
                == old(self)@.xfer->Some_0.period && final(self)@.xfer->Some_0.frames
                == old(self)@.xfer->Some_0.frames,
    {
        let ghost before = self@;
        let taken = self.answer_chunk(statuses);
        proof {
            lemma_played_step(before, statuses@, base@);
        }
        let step = self.pcm_xfer_step();
        proof {
            if step is Continue {
                taken_is_counted(before, self@, statuses@);
            }
        }
        (step, taken)
    }

    /// Takes the next step of the blocking playback that is under way.
    #[verifier::rlimit(40)]
    pub fn pcm_xfer_step(&mut self) -> (r: XferStep)
        requires
            old(self)@.wf(),
        ensures
            (final(self)@, r) == old(self)@.xfer_stepped(),
            final(self)@.wf(),
    {
        let (more, in_window): (bool, usize) = match &self.xfer {
            Some(x) => (x.bad.is_none() && x.next < x.frames.len(), x.window.len()),
            None => {
                return XferStep::Finished(
                    Err(VirtioDeviceError::QueueError(QueueError::NotReady)),
                );
            },
        };
        let room: bool = self.sound_inner.tx_queue.available_desc() >= 3;
        if room && more && in_window < MAX_CHUNKS {
            let notify = self.xfer_submit();
            self.xfer_reap(notify)
        } else if room && !more && in_window == 0 {
            let outcome = match self.xfer.take() {
                Some(x) => match x.bad {
                    None => Ok(()),
                    Some(code) => Err(VirtioDeviceError::IoError(Some(code))),
                },
                None => Ok(()),
            };
            XferStep::Finished(outcome)
        } else {
            self.xfer_reap(false)
        }
    }

    /// Hands the next chunk of the blocking playback to the device.
    #[verifier::rlimit(40)]
    fn xfer_submit(&mut self) -> (notify: bool)
        requires
            old(self)@.wf(),
            old(self)@.xfer is Some,
            old(self)@.inner.tx.size - old(self)@.inner.tx.num_used >= 3,
            old(self)@.xfer->Some_0.next < old(self)@.xfer->Some_0.frames.len(),
            old(self)@.xfer->Some_0.window.len() < MAX_CHUNKS,
            old(self)@.xfer->Some_0.bad is None,
        ensures
            final(self)@ == (SoundDeviceView {
                inner: playback_submitted(
                    old(self)@.inner,
                    old(self)@.xfer->Some_0.stream_id,
                    old(self)@.xfer->Some_0.chunk(),
                ),
                xfer: Some(
                    PcmXferView {
                        next: old(self)@.xfer->Some_0.next + old(self)@.xfer->Some_0.chunk_len(),
                        window: old(self)@.xfer->Some_0.window.push(old(self)@.inner.tx.free_head),
                        ..old(self)@.xfer->Some_0
                    },
                ),
                ..old(self)@
            }),
            notify == (old(self)@.inner.tx.used_flags & VIRTQ_USED_F_NO_NOTIFY == 0),
            final(self)@.wf(),
    {
        let ghost before = self@;
        let mut x: PcmXfer = self.xfer.take().unwrap();
        let ghost x0 = x@;
        let left: usize = x.frames.len() - x.next;
        let n: usize = if left < x.period {
            left
        } else {
            x.period
        };
        let chunk = vstd::slice::slice_subrange(x.frames.as_slice(), x.next, x.next + n);
        let submitted = self.sound_inner.submit_playback(x.stream_id, chunk);
        x.window.push_back(submitted.token);
        x.next = x.next + n;
        proof {
            assert forall|k: int| 0 <= k < x0.window.len() implies x0.window[k]
                != submitted.token by {
                assert(before.inner.tx.in_flight(x0.window[k]));
            }
            assert(x@.window.no_duplicates());
            assert forall|t: u16| #[trigger]
                before.outstanding.contains(t) implies self@.inner.tx.in_flight(t) by {
                assert(before.inner.tx.in_flight(t));
            }
            assert forall|k: int| 0 <= k < x@.window.len() implies self@.inner.tx.in_flight(
                #[trigger] x@.window[k],
            ) && !before.outstanding.contains(x@.window[k]) by {
                if k < x0.window.len() {
                    assert(x@.window[k] == x0.window[k]);
                    assert(before.inner.tx.in_flight(x0.window[k]));
                } else {
                    assert(x@.window[k] == submitted.token);
                    if before.outstanding.contains(submitted.token) {
                        assert(before.inner.tx.in_flight(submitted.token));
                    }
                }
            }
        }
        self.xfer = Some(x);
        submitted.notify
    }

    /// Takes a completion of the blocking playback, if there is one.
    #[verifier::rlimit(40)]
    fn xfer_reap(&mut self, notify: bool) -> (r: XferStep)
        requires
            old(self)@.wf(),
            old(self)@.xfer is Some,
        ensures
            (final(self)@, r) == old(self)@.xfer_reaped(notify),
            final(self)@.wf(),
    {
        let ghost before = self@;
        let ghost x1 = before.xfer->Some_0;
        let in_window: usize = match &self.xfer {
            Some(x) => x.window.len(),
            None => 0,
        };
        if in_window == 0 || !self.sound_inner.tx_queue.can_pop() {
            return XferStep::Continue { notify };
        }
        let mut x: PcmXfer = self.xfer.take().unwrap();
        let token: u16 = x.window[0];
        assert(token == x1.window[0]);
        assert(before.inner.tx.in_flight(x1.window[0]));
        proof {
            lemma_recycled_wf(before.inner.tx, token);
        }
        match self.sound_inner.tx_queue.pop_used_with_token(token) {
            Ok(_) => {},
            Err(e) => {
                return XferStep::Finished(Err(VirtioDeviceError::QueueError(e)));
            },
        }
        let status: u32 = self.sound_inner.read_status(token);
        let popped_token = x.window.pop_front();
        x.reaped = x.reaped + 1;
        if x.bad.is_none() && status != VIRTIO_SND_S_OK {
            x.bad = Some(status);
            x.failed = Some(x.reaped);
        }
        proof {
            assert(x@.window =~= x1.window.skip(1));
            assert forall|t: u16| #[trigger]
                before.outstanding.contains(t) implies self@.inner.tx.in_flight(t) by {
                assert(before.inner.tx.in_flight(t));
                assert(!before.outstanding.contains(x1.window[0]));
                crate::queue::lemma_recycled_keeps(before.inner.tx, token, t);
            }
            assert forall|k: int| 0 <= k < x@.window.len() implies self@.inner.tx.in_flight(
                #[trigger] x@.window[k],
            ) && !before.outstanding.contains(x@.window[k]) by {
                assert(x@.window[k] == x1.window[k + 1]);
                assert(before.inner.tx.in_flight(x1.window[k + 1]));
                assert(x1.window[k + 1] != x1.window[0]);
                crate::queue::lemma_recycled_keeps(before.inner.tx, token, x1.window[k + 1]);
            }
            assert(x@.window.no_duplicates());
        }
        self.xfer = Some(x);
        XferStep::Continue { notify }
    }

    /// Hands one period of frames to the device without waiting for it,
    /// and returns the token of the transfer.
    #[verifier::rlimit(40)]
    pub fn pcm_xfer_nb(&mut self, stream_id: u32, frames: &[u8]) -> (r: Result<
        Submitted,
        VirtioDeviceError,
    >)
        requires
            old(self)@.wf(),
        ensures
            (final(self)@, r) == old(self)@.nb_submitted(stream_id, frames@),
            final(self)@.wf(),
    {
        if stream_id >= self.sound_inner.config_manager.read_config().streams {
            return Err(VirtioDeviceError::InvalidParam);
        }
        let parameters: PcmParameters = self.pcm_parameters[stream_id as usize];
        if !parameters.setup {
            return Err(VirtioDeviceError::IoError(None));
        }
        if frames.len() as u64 != parameters.period_bytes as u64 {
            return Err(VirtioDeviceError::InvalidParam);
        }
        if frames.len() > self.sound_inner.send_buffer.nbytes() {
            return Err(VirtioDeviceError::BufferOverflow);
        }
        if self.sound_inner.tx_queue.available_desc() < 3 {
            return Err(VirtioDeviceError::QueueError(QueueError::BufferTooSmall));
        }
        assert(self@.parameters[stream_id as int].wf());
        let ghost before = self@;
        let submitted = self.sound_inner.submit_playback(stream_id, frames);
        note_outstanding(&mut self.token_buf, submitted.token);
        proof {
            assert(self@.outstanding =~= before.outstanding.insert(submitted.token));
            assert forall|t: u16| #[trigger]
                self@.outstanding.contains(t) implies self@.inner.tx.in_flight(t) by {
                if t != submitted.token {
                    assert(before.outstanding.contains(t));
                    assert(before.inner.tx.in_flight(t));
                }
            }
            match before.xfer {
                Some(x) => {
                    assert forall|k: int| 0 <= k < x.window.len() implies self@.inner.tx.in_flight(
                        #[trigger] x.window[k],
                    ) && !self@.outstanding.contains(x.window[k]) by {
                        assert(before.inner.tx.in_flight(x.window[k]));
                    }
                },
                None => {},
            }
        }
        Ok(submitted)
    }

    /// Acknowledges that the transfer with the given token has completed.
    #[verifier::rlimit(40)]
    pub fn pcm_xfer_ok(&mut self, token: u16) -> (r: Result<(), VirtioDeviceError>)
        requires
            old(self)@.wf(),
        ensures
            (final(self)@, r) == old(self)@.nb_acknowledged(token),
            final(self)@.wf(),
    {
        if !is_outstanding(&self.token_buf, token) {
            return Err(VirtioDeviceError::InvalidParam);
        }
        let ghost before = self@;
        assert(before.outstanding.contains(token));
        assert(before.inner.tx.in_flight(token));
        proof {
            lemma_recycled_wf(before.inner.tx, token);
        }
        match self.sound_inner.tx_queue.pop_used_with_token(token) {
            Ok(_) => {},
            Err(e) => {
                return Err(VirtioDeviceError::QueueError(e));
            },
        }
        drop_outstanding(&mut self.token_buf, token);
        proof {
            assert(self@.outstanding =~= before.outstanding.remove(token));
            assert forall|t: u16| #[trigger]
                self@.outstanding.contains(t) implies self@.inner.tx.in_flight(t) by {
                assert(before.inner.tx.in_flight(t));
                crate::queue::lemma_recycled_keeps(before.inner.tx, token, t);
            }
            match before.xfer {
                Some(x) => {
                    assert forall|k: int| 0 <= k < x.window.len() implies self@.inner.tx.in_flight(
                        #[trigger] x.window[k],
                    ) && !self@.outstanding.contains(x.window[k]) by {
                        assert(before.inner.tx.in_flight(x.window[k]));
                        assert(!before.outstanding.contains(x.window[k]));
                        crate::queue::lemma_recycled_keeps(before.inner.tx, token, x.window[k]);
                    }
                },
                None => {},
            }
        }
        Ok(())
    }
}

impl SoundDeviceInner {
    /// Offers the event buffer to the device on the event queue.
    #[verifier::rlimit(40)]
    fn activate_receive_buffer(&mut self) -> (notify: bool)
        requires
            old(self)@.control.wf(),
            old(self)@.event.wf(),
            old(self)@.event.size >= MIN_QUEUE_SIZE,
            old(self)@.event.num_used == 0,
            old(self)@.event.chains.dom() =~= Set::<int>::empty(),
        ensures
            final(self)@ == (SoundDeviceInnerView {
                event: added(
                    old(self)@.event,
                    Seq::empty(),
                    seq![event_slice(old(self)@.event_buffer.daddr)],
                ),
                event_token: old(self)@.event.free_head,
                ..old(self)@
            }),
            final(self)@.event_posted(),
            final(self)@.event.wf(),
            final(self)@.event.size == old(self)@.event.size,
            notify == (old(self)@.event.used_flags & VIRTQ_USED_F_NO_NOTIFY == 0),
    {
        let slice = DmaBuf { daddr: self.event_buffer.daddr(), len: SND_EVENT_SIZE as u32 };
        let outputs = [slice];
        let inputs: [DmaBuf; 0] = [];
        proof {
            assert(inputs@ =~= Seq::<DmaBuf>::empty());
            assert(outputs@ =~= seq![event_slice(self@.event_buffer.daddr)]);
            lemma_event_posted(self@.event, self@.event_buffer.daddr);
        }
        self.event_token = self.event_queue.add_dma_buf(inputs.as_slice(), outputs.as_slice()).unwrap();
        self.event_queue.should_notify()
    }
}

impl SoundDevice {
    /// Registers one more subscriber to events and returns its number,
    /// counted from zero, unless no more can be counted.
    pub fn register_callback(&mut self) -> (r: Option<usize>)
        requires
            old(self)@.wf(),
        ensures
            r == (if old(self)@.inner.callbacks < usize::MAX {
                Some(old(self)@.inner.callbacks as usize)
            } else {
                None
            }),
            final(self)@ == (SoundDeviceView {
                inner: SoundDeviceInnerView {
                    callbacks: if old(self)@.inner.callbacks < usize::MAX {
                        old(self)@.inner.callbacks + 1
                    } else {
                        old(self)@.inner.callbacks
                    },
                    ..old(self)@.inner
                },
                ..old(self)@
            }),
            final(self)@.wf(),
    {
        if self.sound_inner.callbacks == usize::MAX {
            return None;
        }
        let number: usize = self.sound_inner.callbacks;
        self.sound_inner.callbacks = number + 1;
        Some(number)
    }

    /// Handles an interrupt of the event queue: takes the event that the
    /// device has written, if it has written one, and offers the event
    /// buffer again.
    #[verifier::rlimit(40)]
    pub fn handle_recv_irq(&mut self) -> (r: Option<EventDelivery>)
        requires
            old(self)@.wf(),
        ensures
            (final(self)@, match r {
                Some(d) => Some(d@),
                None => None,
            }) == old(self)@.event_handled(),
            final(self)@.wf(),
    {
        let ghost before = self@;
        proof {
            assert(before.inner.event.in_flight(before.inner.event_token));
            lemma_recycled_wf(before.inner.event, before.inner.event_token);
            assert(before.inner.event.chains[before.inner.event_token as int].len() == 1) by {
                assert(before.inner.event.chain_bufs(before.inner.event_token).len() == 1);
            }
        }
        let len: u32 = match self.sound_inner.event_queue.pop_used() {
            Ok((_, len)) => len,
            Err(_) => {
                return None;
            },
        };
        let payload = self.sound_inner.event_buffer.read(0, len as usize);
        let notification = match VirtioSndEvent::from_bytes(payload.as_slice()) {
            Some(event) => {
                proof {
                    crate::bytes::lemma_le_u32_round_trip(event.header.code);
                    crate::bytes::lemma_le_u32_round_trip(event.data);
                    let e = event.encoding();
                    assert(e.skip(4) =~= le_u32(event.data));
                    assert(payload@.take(8).skip(4) =~= payload@.skip(4).take(4));
                    assert(u32_of_le(payload@.take(8)) == u32_of_le(payload@));
                    assert(u32_of_le(payload@.skip(4).take(4)) == u32_of_le(payload@.skip(4)));
                }
                Notification::from_event(event)
            },
            None => None,
        };
        let subscribers: usize = if notification.is_some() {
            self.sound_inner.callbacks
        } else {
            0
        };
        let notify = self.sound_inner.activate_receive_buffer();
        Some(EventDelivery { payload, notification, subscribers, notify })
    }

    /// Begins a capture of `want` bytes from the first input stream.
    pub fn record(&mut self, want: usize) -> (r: RecordStep)
        requires
            old(self)@.wf(),
        ensures
            (final(self)@, r) == old(self)@.record_begun(want),
            final(self)@.wf(),
    {
        if self.capture.is_some() {
            return RecordStep::Failed { filled: 0, error: VirtioDeviceError::Busy };
        }
        if !self.set_up || want == 0 {
            return RecordStep::Finished { filled: 0 };
        }
        let inputs = match &self.pcm_infos {
            Some(infos) => list_streams(infos, VIRTIO_SND_D_INPUT),
            None => Vec::new(),
        };
        if inputs.len() == 0 {
            return RecordStep::Finished { filled: 0 };
        }
        let stream_id: u32 = inputs[0];
        self.post_capture(stream_id, want, 0)
    }

    /// Offers the receive buffer to the device for a capture.
    #[verifier::rlimit(40)]
    fn post_capture(&mut self, stream_id: u32, want: usize, filled: usize) -> (r: RecordStep)
        requires
            old(self)@.wf(),
            old(self)@.capture is None,
            filled < want,
        ensures
            (final(self)@, r) == old(self)@.capture_posted(stream_id, want, filled),
            final(self)@.wf(),
    {
        if self.sound_inner.rx_queue.available_desc() < 3 {
            return RecordStep::Failed {
                filled,
                error: VirtioDeviceError::QueueError(QueueError::BufferTooSmall),
            };
        }
        let capacity: usize = self.sound_inner.receive_buffer.nbytes();
        let posted: usize = if want - filled > capacity {
            capacity
        } else {
            want - filled
        };
        let submitted = self.sound_inner.submit_capture(stream_id, posted);
        self.capture = Some(Capture { stream_id, want, filled, posted, token: submitted.token });
        RecordStep::Wait(submitted)
    }

    /// Takes a capture further once the device has answered, and appends
    /// what was recorded to `recording`.
    #[verifier::rlimit(40)]
    pub fn record_resume(&mut self, recording: &mut Vec<u8>) -> (r: RecordStep)
        requires
            old(self)@.wf(),
        ensures
            (final(self)@, final(recording)@, r) == old(self)@.record_resumed(old(recording)@),
            final(self)@.wf(),
    {
        let c: Capture = match self.capture {
            Some(c) => c,
            None => {
                return RecordStep::Failed {
                    filled: 0,
                    error: VirtioDeviceError::QueueError(QueueError::NotReady),
                };
            },
        };
        if !self.sound_inner.rx_queue.can_pop() {
            return RecordStep::Wait(Submitted { token: c.token, notify: false });
        }
        let status: u32 = match self.take_capture(c) {
            Ok(status) => status,
            Err(e) => {
                return RecordStep::Failed { filled: c.filled, error: VirtioDeviceError::QueueError(e) };
            },
        };
        if status != VIRTIO_SND_S_OK {
            return RecordStep::Failed {
                filled: c.filled,
                error: VirtioDeviceError::IoError(Some(status)),
            };
        }
        let bytes = self.sound_inner.receive_buffer.read(0, c.posted);
        assert(bytes@ =~= self@.inner.receive.bytes.take(c.posted as int));
        append(recording, bytes.as_slice());
        let filled: usize = c.filled + c.posted;
        if filled == c.want {
            RecordStep::Finished { filled }
        } else {
            self.post_capture(c.stream_id, c.want, filled)
        }
    }

    /// Takes the completion of the capture from the rx queue and reads the
    /// status that the device gave.
    #[verifier::rlimit(40)]
    fn take_capture(&mut self, c: Capture) -> (r: Result<u32, QueueError>)
        requires
            old(self)@.wf(),
            old(self)@.capture == Some(c),
            old(self)@.inner.rx.can_pop(),
        ensures
            final(self)@.wf(),
            final(self)@.capture is None,
            old(self)@.inner.rx.next_used_token() != c.token || !old(self)@.inner.rx.in_flight(
                c.token,
            ) ==> r == Err::<u32, QueueError>(QueueError::WrongToken) && final(self)@ == (
            SoundDeviceView { capture: None, ..old(self)@ }),
            old(self)@.inner.rx.next_used_token() == c.token && old(self)@.inner.rx.in_flight(
                c.token,
            ) ==> r == Ok::<u32, QueueError>(
                u32_of_le(old(self)@.inner.xfer.bytes.skip(status_offset(c.token) as int)),
            ) && final(self)@ == (SoundDeviceView {
                inner: SoundDeviceInnerView {
                    rx: popped(old(self)@.inner.rx),
                    ..old(self)@.inner
                },
                capture: None,
                ..old(self)@
            }),
    {
        let ghost before = self@;
        proof {
            if before.inner.rx.in_flight(c.token) {
                lemma_recycled_wf(before.inner.rx, c.token);
            }
        }
        self.capture = None;
        match self.sound_inner.rx_queue.pop_used_with_token(c.token) {
            Ok(_) => {},
            Err(e) => {
                return Err(e);
            },
        }
        Ok(self.sound_inner.read_status(c.token))
    }

    /// Brings in that the device has completed a chain: the next slot of the
    /// used ring of the queue holds the chain's head and the number of bytes
    /// that the device wrote.
    #[verifier::rlimit(40)]
    pub fn device_complete(&mut self, queue: QueueId, id: u32, len: u32)
        requires
            old(self)@.wf(),
        ensures
            final(self)@ == (SoundDeviceView {
                inner: old(self)@.inner.with_queue(
                    queue,
                    crate::queue::completed(old(self)@.inner.queue(queue), id, len),
                ),
                ..old(self)@
            }),
            final(self)@.wf(),
    {
        let ghost before = self@;
        match queue {
            QueueId::Control => self.sound_inner.control_queue.device_complete(id, len),
            QueueId::Event => self.sound_inner.event_queue.device_complete(id, len),
            QueueId::Tx => self.sound_inner.tx_queue.device_complete(id, len),
            QueueId::Rx => self.sound_inner.rx_queue.device_complete(id, len),
        };
        proof {
            assert(self@.inner.event.chain_bufs(self@.inner.event_token)
                =~= before.inner.event.chain_bufs(before.inner.event_token));
        }
    }

    /// Brings in what the device has written to the used ring of a queue.
    /// A ring with another number of slots than the queue has is refused.
    #[verifier::rlimit(40)]
    pub fn device_used(&mut self, queue: QueueId, used: UsedRing) -> (r: bool)
        requires
            old(self)@.wf(),
        ensures
            r == (used.ring@.len() == old(self)@.inner.queue(queue).size),
            r ==> final(self)@ == (SoundDeviceView {
                inner: old(self)@.inner.with_queue(
                    queue,
                    VirtQueueView {
                        used_flags: used.flags,
                        used_idx: used.idx,
                        used_ring: used.ring@,
                        used_avail_event: used.avail_event,
                        ..old(self)@.inner.queue(queue)
                    },
                ),
                ..old(self)@
            }),
            !r ==> final(self)@ == old(self)@,
            final(self)@.wf(),
    {
        let ghost before = self@;
        let r = match queue {
            QueueId::Control => self.sound_inner.control_queue.set_used(used),
            QueueId::Event => self.sound_inner.event_queue.set_used(used),
            QueueId::Tx => self.sound_inner.tx_queue.set_used(used),
            QueueId::Rx => self.sound_inner.rx_queue.set_used(used),
        };
        proof {
            assert(self@.inner.event.chain_bufs(self@.inner.event_token)
                =~= before.inner.event.chain_bufs(before.inner.event_token));
        }
        r
    }

    /// Brings in bytes that the device has written to a buffer, from
    /// `offset` on, as many of them as fit, and returns their number.
    #[verifier::rlimit(40)]
    pub fn device_write(&mut self, buffer: BufferId, offset: usize, data: &[u8]) -> (r: usize)
        requires
            old(self)@.wf(),
        ensures
            r == crate::dma::copy_len(
                old(self)@.inner.buffer(buffer).bytes.len(),
                offset as nat,
                data@.len(),
            ),
            final(self)@ == (SoundDeviceView {
                inner: old(self)@.inner.with_buffer(
                    buffer,
                    DmaStreamView {
                        bytes: written(
                            old(self)@.inner.buffer(buffer).bytes,
                            offset as int,
                            data@.take(r as int),
                        ),
                        ..old(self)@.inner.buffer(buffer)
                    },
                ),
                ..old(self)@
            }),
            final(self)@.wf(),
    {
        match buffer {
            BufferId::Request => self.sound_inner.request_buffer.write(offset, data),
            BufferId::Response => self.sound_inner.response_buffer.write(offset, data),
            BufferId::Event => self.sound_inner.event_buffer.write(offset, data),
            BufferId::Send => self.sound_inner.send_buffer.write(offset, data),
            BufferId::Receive => self.sound_inner.receive_buffer.write(offset, data),
            BufferId::Xfer => self.sound_inner.xfer_buffer.write(offset, data),
        }
    }

    /// The buffer in which the `len` bytes at `addr` lie, as the device
    /// counts addresses, and their place in it.
    pub fn locate(&self, addr: u64, len: u32) -> (r: Option<(BufferId, usize)>)
        requires
            self@.wf(),
        ensures
            r == self@.inner.locate(addr, len),
    {
        if let Some(at) = self.sound_inner.request_buffer.offset_of(addr, len) {
            Some((BufferId::Request, at))
        } else if let Some(at) = self.sound_inner.response_buffer.offset_of(addr, len) {
            Some((BufferId::Response, at))
        } else if let Some(at) = self.sound_inner.event_buffer.offset_of(addr, len) {
            Some((BufferId::Event, at))
        } else if let Some(at) = self.sound_inner.send_buffer.offset_of(addr, len) {
            Some((BufferId::Send, at))
        } else if let Some(at) = self.sound_inner.receive_buffer.offset_of(addr, len) {
            Some((BufferId::Receive, at))
        } else if let Some(at) = self.sound_inner.xfer_buffer.offset_of(addr, len) {
            Some((BufferId::Xfer, at))
        } else {
            None
        }
    }

    /// One of the queues of the device.
    pub fn queue(&self, id: QueueId) -> (r: &VirtQueue)
        ensures
            r@ == self@.inner.queue(id),
    {
        self.sound_inner.queue(id)
    }

    /// One of the buffers of the device.
    pub fn buffer(&self, id: BufferId) -> (r: &DmaStream)
        ensures
            r@ == self@.inner.buffer(id),
    {
        self.sound_inner.buffer(id)
    }
}

} // verus!
