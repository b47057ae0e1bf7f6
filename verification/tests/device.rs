use virtio_sound::codes::NotificationType;
use virtio_sound::codes::VIRTIO_SND_S_BAD_MSG;
use virtio_sound::codes::VIRTIO_SND_R_CHMAP_INFO;
use virtio_sound::codes::VIRTIO_SND_R_PCM_INFO;
use virtio_sound::codes::VIRTIO_SND_S_IO_ERR;
use virtio_sound::codes::VIRTIO_SND_S_NOT_SUPP;
use virtio_sound::codes::VIRTIO_SND_S_OK;
use virtio_sound::config::VirtioSoundConfig;
use virtio_sound::model::BufferId;
use virtio_sound::model::DmaPlan;
use virtio_sound::model::DmaRegion;
use virtio_sound::model::Op;
use virtio_sound::model::QueueId;
use virtio_sound::model::RecordStep;
use virtio_sound::model::Submitted;
use virtio_sound::model::Reply;
use virtio_sound::device::build_request;
use virtio_sound::device::list_streams;
use virtio_sound::device::test_commands;
use virtio_sound::device::SoundDevice;
use virtio_sound::device::SoundDeviceInner;
use virtio_sound::model::Step;
use virtio_sound::model::XferStep;
use virtio_sound::error::VirtioDeviceError;
use virtio_sound::flags::PcmFeatures;
use virtio_sound::flags::PcmFormat;
use virtio_sound::flags::PcmFormats;
use virtio_sound::flags::PcmRate;
use virtio_sound::flags::PcmRates;
use virtio_sound::pcm::PCMState;
use virtio_sound::queue::QueueError;
use virtio_sound::model::SoundTransport;
use virtio_sound::queue::UsedElem;
use virtio_sound::queue::DESC_F_NEXT;
use virtio_sound::queue::DESC_F_WRITE;
use virtio_sound::wire::VirtioSndChmapInfo;
use virtio_sound::wire::VirtioSndEvent;
use virtio_sound::wire::VirtioSndHdr;
use virtio_sound::wire::VirtioSndInfo;
use virtio_sound::wire::VirtioSndPcmHdr;
use virtio_sound::wire::VirtioSndPcmInfo;
use virtio_sound::wire::VirtioSndPcmStatus;
use virtio_sound::wire::VirtioSndQueryInfo;

const BUFFERS: [BufferId; 6] = [
    BufferId::Request,
    BufferId::Response,
    BufferId::Event,
    BufferId::Send,
    BufferId::Receive,
    BufferId::Xfer,
];

fn plan() -> DmaPlan {
    DmaPlan {
        request: DmaRegion { daddr: 0x1_0000, nbytes: 4096 },
        response: DmaRegion { daddr: 0x2_0000, nbytes: 4096 },
        event: DmaRegion { daddr: 0x3_0000, nbytes: 4096 },
        send: DmaRegion { daddr: 0x4_0000, nbytes: 4096 },
        receive: DmaRegion { daddr: 0x5_0000, nbytes: 4096 },
        xfer: DmaRegion { daddr: 0x6_0000, nbytes: 4096 },
    }
}

fn new_device(streams: u32, chmaps: u32) -> SoundDevice {
    let config = VirtioSoundConfig { jacks: 0, streams, chmaps, controls: 0 };
    match SoundDevice::init(Some(config.to_bytes()), false, SoundTransport::Modern, plan()) {
        Ok(dev) => dev,
        Err(e) => panic!("the device did not come up: {:?}", e),
    }
}

/// The device's side of the queues: how many chains of each it has taken.
struct Host {
    taken: [u16; 4],
    /// Every control request that the device has seen.
    requests: Vec<Vec<u8>>,
    /// Every PCM payload that the device has seen.
    periods: Vec<Vec<u8>>,
}

fn slot(queue: QueueId) -> usize {
    match queue {
        QueueId::Control => 0,
        QueueId::Event => 1,
        QueueId::Tx => 2,
        QueueId::Rx => 3,
    }
}

fn read_mem(dev: &SoundDevice, addr: u64, len: u32) -> Vec<u8> {
    for id in BUFFERS {
        let b = dev.buffer(id);
        if addr >= b.daddr() && addr + len as u64 <= b.daddr() + b.nbytes() as u64 {
            return b.read((addr - b.daddr()) as usize, len as usize);
        }
    }
    panic!("the chain names memory that is in no buffer");
}

fn write_mem(dev: &mut SoundDevice, addr: u64, data: &[u8]) {
    for id in BUFFERS {
        let (base, nbytes) = {
            let b = dev.buffer(id);
            (b.daddr(), b.nbytes() as u64)
        };
        if addr >= base && addr + data.len() as u64 <= base + nbytes {
            assert_eq!(dev.device_write(id, (addr - base) as usize, data), data.len());
            return;
        }
    }
    panic!("the chain names memory that is in no buffer");
}

impl Host {
    fn new() -> Host {
        Host { taken: [0; 4], requests: Vec::new(), periods: Vec::new() }
    }

    /// The next chain that the driver has offered on a queue: its head and
    /// its buffers, with what the device reads first.
    fn next_chain(&mut self, dev: &SoundDevice, queue: QueueId) -> Option<(u16, Vec<(u64, u32, bool)>)> {
        let q = dev.queue(queue);
        let taken = self.taken[slot(queue)];
        if q.avail().idx == taken {
            return None;
        }
        let head = q.avail().ring[(taken % q.size()) as usize];
        let mut bufs = Vec::new();
        let mut at = head;
        loop {
            let d = q.descs()[at as usize];
            bufs.push((d.addr, d.len, d.flags.bits & DESC_F_WRITE != 0));
            if d.flags.bits & DESC_F_NEXT == 0 {
                break;
            }
            at = d.next;
        }
        self.taken[slot(queue)] = taken.wrapping_add(1);
        Some((head, bufs))
    }

    fn complete(&self, dev: &mut SoundDevice, queue: QueueId, head: u16, len: u32) {
        let mut used = dev.queue(queue).used().clone();
        let size = used.ring.len() as u16;
        used.ring[(used.idx % size) as usize] = UsedElem { id: head as u32, len };
        used.idx = used.idx.wrapping_add(1);
        assert!(dev.device_used(queue, used));
    }

    /// Answers the next control request, if there is one.
    fn serve_control(&mut self, dev: &mut SoundDevice, respond: &dyn Fn(&[u8]) -> Vec<u8>) -> bool {
        let Some((head, bufs)) = self.next_chain(dev, QueueId::Control) else {
            return false;
        };
        assert_eq!(bufs.len(), 2);
        assert!(!bufs[0].2);
        assert!(bufs[1].2);
        let request = read_mem(dev, bufs[0].0, bufs[0].1);
        let response = respond(&request);
        assert!(response.len() <= bufs[1].1 as usize);
        write_mem(dev, bufs[1].0, &response);
        self.requests.push(request);
        self.complete(dev, QueueId::Control, head, response.len() as u32);
        true
    }

    /// Plays every transfer that waits on the tx queue and gives each the
    /// status that `status` has for its number.
    fn serve_tx(&mut self, dev: &mut SoundDevice, status: &dyn Fn(usize) -> u32) -> usize {
        let mut served = 0;
        while let Some((head, bufs)) = self.next_chain(dev, QueueId::Tx) {
            assert_eq!(bufs.len(), 3);
            assert_eq!((bufs[0].1, bufs[0].2), (4, false));
            assert!(!bufs[1].2);
            assert_eq!((bufs[2].1, bufs[2].2), (8, true));
            let payload = read_mem(dev, bufs[1].0, bufs[1].1);
            let record =
                VirtioSndPcmStatus { status: status(self.periods.len()), latency_bytes: 0 };
            write_mem(dev, bufs[2].0, &record.to_bytes());
            self.periods.push(payload);
            self.complete(dev, QueueId::Tx, head, 8);
            served += 1;
        }
        served
    }
}

fn info(direction: u8) -> VirtioSndPcmInfo {
    VirtioSndPcmInfo {
        hdr: VirtioSndInfo { hda_fn_nid: 7 },
        features: 0,
        formats: 0x10,
        rates: 0x2,
        direction,
        channels_min: 1,
        channels_max: 2,
        padding: [0; 5],
    }
}

/// A device with one output and one input stream that agrees to everything
/// and has no channel maps.
fn agree(request: &[u8]) -> Vec<u8> {
    let hdr = VirtioSndHdr::from_bytes(request).unwrap();
    let mut out = VirtioSndHdr { code: VIRTIO_SND_S_OK }.to_bytes();
    if hdr.code == VIRTIO_SND_R_PCM_INFO {
        let query = VirtioSndQueryInfo::from_bytes(request).unwrap();
        for i in query.start_id..query.start_id + query.count {
            out.extend(info((i % 2) as u8).to_bytes());
        }
    } else if hdr.code == VIRTIO_SND_R_CHMAP_INFO {
        return VirtioSndHdr { code: VIRTIO_SND_S_NOT_SUPP }.to_bytes();
    }
    out
}

/// Takes an operation to its end against a device that answers with `respond`.
fn finish(
    dev: &mut SoundDevice,
    host: &mut Host,
    first: Step,
    respond: &dyn Fn(&[u8]) -> Vec<u8>,
) -> Result<Reply, VirtioDeviceError> {
    let mut step = first;
    loop {
        match step {
            Step::Done(r) => return r,
            Step::Wait(_) => {
                assert!(host.serve_control(dev, respond));
                step = dev.resume();
            }
        }
    }
}

/// Takes a playback to its end and counts the completions that were taken.
fn play(
    dev: &mut SoundDevice,
    host: &mut Host,
    first: XferStep,
    status: &dyn Fn(usize) -> u32,
) -> (Result<(), VirtioDeviceError>, usize) {
    let mut step = first;
    let mut rounds = 0;
    loop {
        match step {
            XferStep::Finished(r) => return (r, host.periods.len()),
            XferStep::Continue { .. } => {
                host.serve_tx(dev, status);
                step = dev.pcm_xfer_step();
                rounds += 1;
                assert!(rounds < 100_000);
            }
        }
    }
}

fn set_good_params(dev: &mut SoundDevice, host: &mut Host, stream_id: u32, period: u32) {
    let first = dev.pcm_set_params(
        stream_id,
        period * 4,
        period,
        PcmFeatures::empty(),
        2,
        PcmFormat::S16,
        PcmRate::Rate44100,
    );
    assert_eq!(finish(dev, host, first, &agree), Ok(Reply::Done));
}

fn refuse_commands(request: &[u8]) -> Vec<u8> {
    let hdr = VirtioSndHdr::from_bytes(request).unwrap();
    if hdr.code == VIRTIO_SND_R_PCM_INFO || hdr.code == VIRTIO_SND_R_CHMAP_INFO {
        agree(request)
    } else {
        VirtioSndHdr { code: VIRTIO_SND_S_BAD_MSG }.to_bytes()
    }
}

#[test]
fn a_stream_that_the_device_does_not_have_is_refused() {
    let mut dev = new_device(2, 0);
    let refused = Step::Done(Err(VirtioDeviceError::InvalidParam));
    assert_eq!(dev.pcm_prepare(2), refused);
    assert_eq!(dev.pcm_release(2), refused);
    assert_eq!(dev.pcm_start(u32::MAX), refused);
    assert_eq!(dev.pcm_stop(7), refused);
    assert_eq!(
        dev.pcm_set_params(2, 100, 100, PcmFeatures::empty(), 1, PcmFormat::U8, PcmRate::Rate8000),
        refused
    );
    assert_eq!(dev.rates_supported(2), refused);
    assert_eq!(dev.formats_supported(2), refused);
    assert_eq!(dev.channel_range_supported(2), refused);
    assert_eq!(dev.features_supported(2), refused);
    assert_eq!(dev.pcm_xfer(2, &[0; 4]), XferStep::Finished(Err(VirtioDeviceError::InvalidParam)));
    assert_eq!(dev.pcm_xfer_nb(2, &[0; 4]), Err(VirtioDeviceError::InvalidParam));
    assert_eq!(dev.pcm_state(2), None);
    assert_eq!(dev.pcm_parameters(2), None);
    assert_eq!(dev.queue(QueueId::Control).avail().idx, 0);
    assert!(!dev.is_set_up());
}

#[test]
fn commands_that_the_state_does_not_allow_are_io_errors() {
    let mut dev = new_device(2, 0);
    let mut host = Host::new();
    let illegal = Step::Done(Err(VirtioDeviceError::IoError(None)));
    // A fresh stream takes parameters or is prepared, nothing else.
    assert_eq!(dev.pcm_start(0), illegal);
    assert_eq!(dev.pcm_stop(0), illegal);
    assert_eq!(dev.pcm_release(0), illegal);
    assert_eq!(host.requests.len(), 0);
    assert_eq!(dev.queue(QueueId::Control).avail().idx, 0);
    assert!(!dev.is_set_up());

    set_good_params(&mut dev, &mut host, 0, 64);
    let first = dev.pcm_prepare(0);
    assert_eq!(finish(&mut dev, &mut host, first, &agree), Ok(Reply::Done));
    assert_eq!(dev.pcm_stop(0), illegal);
    let first = dev.pcm_prepare(0);
    assert_eq!(finish(&mut dev, &mut host, first, &agree), Ok(Reply::Done));
    let first = dev.pcm_start(0);
    assert_eq!(finish(&mut dev, &mut host, first, &agree), Ok(Reply::Done));

    // A started stream can only be stopped.
    let asked = host.requests.len();
    assert_eq!(dev.pcm_start(0), illegal);
    assert_eq!(dev.pcm_prepare(0), illegal);
    assert_eq!(dev.pcm_release(0), illegal);
    assert_eq!(
        dev.pcm_set_params(0, 100, 100, PcmFeatures::empty(), 1, PcmFormat::U8, PcmRate::Rate8000),
        illegal
    );
    assert_eq!(dev.pcm_state(0), Some(PCMState::Start));
    assert!(host.next_chain(&dev, QueueId::Control).is_none());

    let first = dev.pcm_stop(0);
    assert_eq!(finish(&mut dev, &mut host, first, &agree), Ok(Reply::Done));
    assert_eq!(host.requests.len(), asked + 1);
    assert_eq!(dev.pcm_stop(0), illegal);
    assert_eq!(dev.pcm_prepare(0), illegal);
    let first = dev.pcm_start(0);
    assert_eq!(finish(&mut dev, &mut host, first, &agree), Ok(Reply::Done));
    let first = dev.pcm_stop(0);
    assert_eq!(finish(&mut dev, &mut host, first, &agree), Ok(Reply::Done));
    let first = dev.pcm_release(0);
    assert_eq!(finish(&mut dev, &mut host, first, &agree), Ok(Reply::Done));
    assert_eq!(dev.pcm_start(0), illegal);
    assert_eq!(dev.pcm_release(0), illegal);
    let first = dev.pcm_prepare(0);
    assert_eq!(finish(&mut dev, &mut host, first, &agree), Ok(Reply::Done));
    assert_eq!(dev.pcm_state(0), Some(PCMState::Prepare));
    // The other stream has not moved.
    assert_eq!(dev.pcm_state(1), Some(PCMState::SetParameters));
}

#[test]
fn a_refusal_of_the_device_is_an_io_error_with_its_status() {
    let mut dev = new_device(2, 0);
    let mut host = Host::new();
    let first = dev.pcm_prepare(1);
    assert_eq!(
        finish(&mut dev, &mut host, first, &refuse_commands),
        Err(VirtioDeviceError::IoError(Some(VIRTIO_SND_S_BAD_MSG)))
    );
    assert!(dev.is_set_up());
    assert_eq!(dev.pcm_state(1), Some(PCMState::SetParameters));
    let first = dev.pcm_set_params(
        1,
        400,
        100,
        PcmFeatures::empty(),
        1,
        PcmFormat::U8,
        PcmRate::Rate8000,
    );
    assert_eq!(
        finish(&mut dev, &mut host, first, &refuse_commands),
        Err(VirtioDeviceError::IoError(Some(VIRTIO_SND_S_BAD_MSG)))
    );
    assert!(!dev.pcm_parameters(1).unwrap().setup);
    // The state is as it was, so the same command can be tried again.
    let first = dev.pcm_prepare(1);
    assert_eq!(finish(&mut dev, &mut host, first, &agree), Ok(Reply::Done));
    assert_eq!(dev.pcm_state(1), Some(PCMState::Prepare));
    let sent = VirtioSndPcmHdr::from_bytes(host.requests.last().unwrap()).unwrap();
    assert_eq!(sent, VirtioSndPcmHdr { hdr: VirtioSndHdr { code: 0x0102 }, stream_id: 1 });
}

#[test]
fn one_request_at_a_time() {
    let mut dev = new_device(2, 0);
    let mut host = Host::new();
    assert_eq!(
        dev.resume(),
        Step::Done(Err(VirtioDeviceError::QueueError(QueueError::NotReady)))
    );
    let first = dev.set_up();
    assert_eq!(first, Step::Wait(Submitted { token: 0, notify: true }));
    assert!(dev.is_busy());
    assert_eq!(dev.queue(QueueId::Control).available_desc(), 14);
    assert_eq!(dev.pcm_prepare(0), Step::Done(Err(VirtioDeviceError::Busy)));
    assert_eq!(dev.set_up(), Step::Done(Err(VirtioDeviceError::Busy)));
    assert_eq!(dev.output_streams(), Step::Done(Err(VirtioDeviceError::Busy)));
    assert_eq!(dev.queue(QueueId::Control).available_desc(), 14);
    // While the device has not answered, the step is to wait on.
    assert_eq!(dev.resume(), Step::Wait(Submitted { token: 0, notify: false }));
    assert_eq!(dev.resume(), Step::Wait(Submitted { token: 0, notify: false }));
    assert_eq!(finish(&mut dev, &mut host, first, &agree), Ok(Reply::Done));
    assert!(!dev.is_busy());
    assert_eq!(dev.queue(QueueId::Control).available_desc(), 16);
}

#[test]
fn an_answer_to_another_request_is_refused() {
    let mut dev = new_device(2, 0);
    let host = Host::new();
    let first = dev.set_up();
    assert_eq!(first, Step::Wait(Submitted { token: 0, notify: true }));
    host.complete(&mut dev, QueueId::Control, 5, 4);
    assert_eq!(
        dev.resume(),
        Step::Done(Err(VirtioDeviceError::QueueError(QueueError::WrongToken)))
    );
    // The request is still with the device.
    assert!(dev.is_busy());
    assert_eq!(dev.queue(QueueId::Control).available_desc(), 14);
}

#[test]
fn set_up_asks_for_all_streams_and_all_channel_maps() {
    let mut dev = new_device(3, 2);
    let mut host = Host::new();
    let map = VirtioSndChmapInfo {
        hdr: VirtioSndInfo { hda_fn_nid: 1 },
        direction: 0,
        channels: 2,
        positions: [3, 4, 0, 0, 0, 0, 0, 0, 0, 0, 0, 0, 0, 0, 0, 0, 0, 0],
    };
    let respond = move |request: &[u8]| {
        let hdr = VirtioSndHdr::from_bytes(request).unwrap();
        if hdr.code == VIRTIO_SND_R_CHMAP_INFO {
            let mut out = VirtioSndHdr { code: VIRTIO_SND_S_OK }.to_bytes();
            out.extend(map.to_bytes());
            out.extend(map.to_bytes());
            out
        } else {
            agree(request)
        }
    };
    let first = dev.output_streams();
    // The first request offers room for a header and three stream records.
    {
        let q = dev.queue(QueueId::Control);
        assert_eq!((q.descs()[0].addr, q.descs()[0].len, q.descs()[0].flags.bits), (0x1_0000, 16, 1));
        assert_eq!(
            (q.descs()[1].addr, q.descs()[1].len, q.descs()[1].flags.bits),
            (0x2_0000, 4 + 3 * 32, 2)
        );
    }
    assert_eq!(finish(&mut dev, &mut host, first, &respond), Ok(Reply::Streams(vec![0, 2])));
    assert_eq!(host.requests.len(), 2);
    assert_eq!(
        VirtioSndQueryInfo::from_bytes(&host.requests[0]),
        Some(VirtioSndQueryInfo {
            hdr: VirtioSndHdr { code: 0x0100 },
            start_id: 0,
            count: 3,
            size: 32
        })
    );
    assert_eq!(
        VirtioSndQueryInfo::from_bytes(&host.requests[1]),
        Some(VirtioSndQueryInfo {
            hdr: VirtioSndHdr { code: 0x0200 },
            start_id: 0,
            count: 2,
            size: 24
        })
    );
    assert_eq!(dev.pcm_infos().as_ref().unwrap(), &vec![info(0), info(1), info(0)]);
    assert_eq!(dev.chmap_infos().as_ref().unwrap(), &vec![map, map]);
    // Once set up, queries are answered without the device.
    assert_eq!(dev.input_streams(), Step::Done(Ok(Reply::Streams(vec![1]))));
    assert_eq!(host.requests.len(), 2);
}

#[test]
fn a_failed_set_up_leaves_the_device_not_set_up() {
    let mut dev = new_device(2, 0);
    let mut host = Host::new();
    let fail = |_: &[u8]| VirtioSndHdr { code: VIRTIO_SND_S_IO_ERR }.to_bytes();
    let first = dev.pcm_prepare(0);
    assert_eq!(
        finish(&mut dev, &mut host, first, &fail),
        Err(VirtioDeviceError::IoError(Some(VIRTIO_SND_S_IO_ERR)))
    );
    assert_eq!(host.requests.len(), 1);
    assert!(!dev.is_set_up());
    assert!(!dev.is_busy());
    assert_eq!(dev.pcm_state(0), Some(PCMState::SetParameters));
    let first = dev.pcm_prepare(0);
    assert_eq!(finish(&mut dev, &mut host, first, &agree), Ok(Reply::Done));
    assert!(dev.is_set_up());
    assert_eq!(dev.pcm_state(0), Some(PCMState::Prepare));
}

#[test]
fn a_response_that_does_not_fit_is_a_buffer_overflow() {
    // The response buffer holds 4096 bytes: a header and 127 stream records.
    let mut dev = new_device(200, 0);
    assert_eq!(dev.set_up(), Step::Done(Err(VirtioDeviceError::BufferOverflow)));
    assert_eq!(dev.pcm_prepare(0), Step::Done(Err(VirtioDeviceError::BufferOverflow)));
    assert_eq!(dev.pcm_info(0, 128), Step::Done(Err(VirtioDeviceError::BufferOverflow)));
    assert_eq!(dev.queue(QueueId::Control).avail().idx, 0);
    assert!(matches!(dev.pcm_info(0, 127), Step::Wait(_)));
    assert_eq!(dev.queue(QueueId::Control).descs()[1].len, 4 + 127 * 32);
    let mut many_maps = new_device(1, 171);
    assert_eq!(many_maps.chmap_info(0, 171), Step::Done(Err(VirtioDeviceError::BufferOverflow)));
    assert!(matches!(many_maps.chmap_info(0, 170), Step::Wait(_)));
    assert_eq!(many_maps.queue(QueueId::Control).descs()[1].len, 4 + 170 * 24);
}

#[test]
fn channel_maps_that_do_not_fit_are_left_out_of_set_up() {
    let mut dev = new_device(1, 500);
    let mut host = Host::new();
    let first = dev.set_up();
    assert_eq!(finish(&mut dev, &mut host, first, &agree), Ok(Reply::Done));
    assert_eq!(host.requests.len(), 1);
    assert_eq!(dev.chmap_infos().as_ref().unwrap().len(), 0);
}

#[test]
fn information_is_asked_for_within_what_the_device_has() {
    let mut dev = new_device(2, 1);
    let mut host = Host::new();
    let refused = Step::Done(Err(VirtioDeviceError::InvalidParam));
    assert_eq!(dev.pcm_info(0, 3), refused);
    assert_eq!(dev.pcm_info(2, 1), refused);
    assert_eq!(dev.pcm_info(u32::MAX, 2), refused);
    assert_eq!(dev.chmap_info(0, 2), refused);
    assert_eq!(dev.chmap_info(1, 1), refused);
    let first = dev.pcm_info(1, 1);
    assert_eq!(
        finish(&mut dev, &mut host, first, &agree),
        Ok(Reply::PcmInfos(vec![info(1)]))
    );
    let first = dev.pcm_info(0, 2);
    assert_eq!(
        finish(&mut dev, &mut host, first, &agree),
        Ok(Reply::PcmInfos(vec![info(0), info(1)]))
    );
    let first = dev.pcm_info(2, 0);
    assert_eq!(finish(&mut dev, &mut host, first, &agree), Ok(Reply::PcmInfos(vec![])));
    let first = dev.chmap_info(0, 1);
    assert_eq!(
        finish(&mut dev, &mut host, first, &agree),
        Err(VirtioDeviceError::IoError(Some(VIRTIO_SND_S_NOT_SUPP)))
    );
    // Asking for information does not set the device up.
    assert!(!dev.is_set_up());
    assert!(dev.pcm_infos().is_none());
}

#[test]
fn what_a_stream_supports() {
    let mut dev = new_device(2, 0);
    let mut host = Host::new();
    let respond = |request: &[u8]| {
        let hdr = VirtioSndHdr::from_bytes(request).unwrap();
        if hdr.code == VIRTIO_SND_R_PCM_INFO {
            let mut out = VirtioSndHdr { code: VIRTIO_SND_S_OK }.to_bytes();
            let mut first = info(0);
            first.features = 0xffff_ff15;
            first.formats = 0xf000_0000_0000_0030;
            first.rates = 0x4_00c2;
            first.channels_min = 2;
            first.channels_max = 6;
            out.extend(first.to_bytes());
            out.extend(info(1).to_bytes());
            out
        } else {
            agree(request)
        }
    };
    let first = dev.rates_supported(0);
    assert_eq!(
        finish(&mut dev, &mut host, first, &respond),
        Ok(Reply::Rates(PcmRates { bits: 0xc2 }))
    );
    assert_eq!(
        dev.formats_supported(0),
        Step::Done(Ok(Reply::Formats(PcmFormats { bits: 0x30 })))
    );
    assert_eq!(
        dev.features_supported(0),
        Step::Done(Ok(Reply::Features(PcmFeatures { bits: 0x15 })))
    );
    assert_eq!(dev.channel_range_supported(0), Step::Done(Ok(Reply::ChannelRange(2, 6))));
    assert_eq!(dev.channel_range_supported(1), Step::Done(Ok(Reply::ChannelRange(1, 2))));
    assert_eq!(dev.rates_supported(1), Step::Done(Ok(Reply::Rates(PcmRates { bits: 2 }))));
    assert_eq!(dev.output_streams(), Step::Done(Ok(Reply::Streams(vec![0]))));
    assert_eq!(dev.input_streams(), Step::Done(Ok(Reply::Streams(vec![1]))));
}

#[test]
fn frames_go_out_in_periods_and_the_rest() {
    let mut dev = new_device(2, 0);
    let mut host = Host::new();
    set_good_params(&mut dev, &mut host, 0, 100);
    let frames: Vec<u8> = (0..250u32).map(|i| i as u8).collect();
    let first = dev.pcm_xfer(0, &frames);
    assert_eq!(first, XferStep::Continue { notify: true });
    // The first chunk is with the device: header, payload and status.
    {
        let q = dev.queue(QueueId::Tx);
        assert_eq!((q.descs()[0].addr, q.descs()[0].len, q.descs()[0].flags.bits), (0x6_0000, 4, 1));
        assert_eq!((q.descs()[1].addr, q.descs()[1].len, q.descs()[1].flags.bits), (0x4_0000, 100, 1));
        assert_eq!((q.descs()[2].addr, q.descs()[2].len, q.descs()[2].flags.bits), (0x6_0008, 8, 2));
        assert_eq!(dev.buffer(BufferId::Xfer).read(0, 4), vec![0, 0, 0, 0]);
    }
    let (result, played) = play(&mut dev, &mut host, first, &|_| VIRTIO_SND_S_OK);
    assert_eq!(result, Ok(()));
    assert_eq!(played, 3);
    assert_eq!(host.periods[0], frames[..100].to_vec());
    assert_eq!(host.periods[1], frames[100..200].to_vec());
    assert_eq!(host.periods[2], frames[200..].to_vec());
    assert_eq!(
        dev.pcm_xfer_step(),
        XferStep::Finished(Err(VirtioDeviceError::QueueError(QueueError::NotReady)))
    );
}

#[test]
fn the_stream_header_and_status_stand_in_the_slot_of_the_token() {
    let mut dev = new_device(2, 0);
    let mut host = Host::new();
    set_good_params(&mut dev, &mut host, 1, 10);
    assert_eq!(dev.pcm_xfer_nb(1, &[1; 10]), Ok(Submitted { token: 0, notify: true }));
    assert_eq!(dev.pcm_xfer_nb(1, &[2; 10]), Ok(Submitted { token: 3, notify: true }));
    let q = dev.queue(QueueId::Tx);
    assert_eq!((q.descs()[3].addr, q.descs()[3].len), (0x6_0000 + 16 * 3, 4));
    assert_eq!((q.descs()[4].addr, q.descs()[4].len), (0x4_0000, 10));
    assert_eq!((q.descs()[5].addr, q.descs()[5].len), (0x6_0000 + 16 * 3 + 8, 8));
    assert_eq!(dev.buffer(BufferId::Xfer).read(48, 4), vec![1, 0, 0, 0]);
    assert_eq!(dev.buffer(BufferId::Send).read(0, 10), vec![2; 10]);
}

#[test]
fn nothing_to_play_ends_at_once() {
    let mut dev = new_device(2, 0);
    let mut host = Host::new();
    set_good_params(&mut dev, &mut host, 0, 100);
    assert_eq!(dev.pcm_xfer(0, &[]), XferStep::Finished(Ok(())));
    assert_eq!(dev.queue(QueueId::Tx).avail().idx, 0);
}

#[test]
fn a_playback_needs_parameters_and_a_period_that_fits() {
    let mut dev = new_device(2, 0);
    let mut host = Host::new();
    assert_eq!(
        dev.pcm_xfer(0, &[0; 100]),
        XferStep::Finished(Err(VirtioDeviceError::IoError(None)))
    );
    assert_eq!(dev.pcm_xfer_nb(0, &[0; 100]), Err(VirtioDeviceError::IoError(None)));
    set_good_params(&mut dev, &mut host, 0, 5000);
    assert_eq!(
        dev.pcm_xfer(0, &[0; 100]),
        XferStep::Finished(Err(VirtioDeviceError::BufferOverflow))
    );
    assert_eq!(dev.pcm_xfer_nb(0, &[0; 5000]), Err(VirtioDeviceError::BufferOverflow));
    set_good_params(&mut dev, &mut host, 0, 4096);
    assert_eq!(dev.pcm_xfer(0, &[0; 100]), XferStep::Continue { notify: true });
    assert_eq!(dev.pcm_xfer(0, &[0; 100]), XferStep::Finished(Err(VirtioDeviceError::Busy)));
    assert_eq!(dev.pcm_xfer(1, &[0; 100]), XferStep::Finished(Err(VirtioDeviceError::Busy)));
}

#[test]
fn a_released_stream_has_no_parameters_to_play_with() {
    let mut dev = new_device(2, 0);
    let mut host = Host::new();
    set_good_params(&mut dev, &mut host, 0, 100);
    let first = dev.pcm_prepare(0);
    assert_eq!(finish(&mut dev, &mut host, first, &agree), Ok(Reply::Done));
    let first = dev.pcm_release(0);
    assert_eq!(finish(&mut dev, &mut host, first, &agree), Ok(Reply::Done));
    assert_eq!(
        dev.pcm_xfer(0, &[0; 100]),
        XferStep::Finished(Err(VirtioDeviceError::IoError(None)))
    );
}

#[test]
fn no_more_chunks_are_with_the_device_than_the_queue_can_hold() {
    let mut dev = new_device(2, 0);
    let mut host = Host::new();
    set_good_params(&mut dev, &mut host, 0, 10);
    // The device does not answer: five chains of three descriptors fill
    // the sixteen descriptors of the queue.
    let mut step = dev.pcm_xfer(0, &[0; 1000]);
    for _ in 0..20 {
        assert!(matches!(step, XferStep::Continue { .. }));
        step = dev.pcm_xfer_step();
    }
    assert_eq!(step, XferStep::Continue { notify: false });
    assert_eq!(dev.queue(QueueId::Tx).avail().idx, 5);
    assert_eq!(dev.queue(QueueId::Tx).available_desc(), 1);
}

#[test]
fn a_completion_out_of_order_gives_the_playback_up() {
    let mut dev = new_device(2, 0);
    let mut host = Host::new();
    set_good_params(&mut dev, &mut host, 0, 10);
    let first = dev.pcm_xfer(0, &[0; 100]);
    assert_eq!(first, XferStep::Continue { notify: true });
    assert_eq!(dev.pcm_xfer_step(), XferStep::Continue { notify: true });
    // The device is done with the second chunk before the first.
    host.complete(&mut dev, QueueId::Tx, 3, 8);
    assert_eq!(
        dev.pcm_xfer_step(),
        XferStep::Finished(Err(VirtioDeviceError::QueueError(QueueError::WrongToken)))
    );
    assert_eq!(
        dev.pcm_xfer_step(),
        XferStep::Finished(Err(VirtioDeviceError::QueueError(QueueError::NotReady)))
    );
}

#[test]
fn transfers_without_waiting_are_accounted_for_by_token() {
    let mut dev = new_device(2, 0);
    let mut host = Host::new();
    set_good_params(&mut dev, &mut host, 0, 4);
    assert_eq!(dev.pcm_xfer_nb(0, &[1, 2, 3]), Err(VirtioDeviceError::InvalidParam));
    assert_eq!(dev.pcm_xfer_nb(0, &[1, 2, 3, 4, 5]), Err(VirtioDeviceError::InvalidParam));
    assert_eq!(dev.pcm_xfer_nb(0, &[]), Err(VirtioDeviceError::InvalidParam));
    assert_eq!(dev.queue(QueueId::Tx).avail().idx, 0);
    assert_eq!(dev.pcm_xfer_ok(0), Err(VirtioDeviceError::InvalidParam));

    let first = dev.pcm_xfer_nb(0, &[1, 2, 3, 4]).unwrap();
    let second = dev.pcm_xfer_nb(0, &[5, 6, 7, 8]).unwrap();
    assert_eq!((first.token, second.token), (0, 3));
    assert_eq!(dev.queue(QueueId::Tx).available_desc(), 10);
    assert_eq!(dev.pcm_xfer_ok(1), Err(VirtioDeviceError::InvalidParam));
    assert_eq!(
        dev.pcm_xfer_ok(first.token),
        Err(VirtioDeviceError::QueueError(QueueError::NotReady))
    );
    assert_eq!(host.serve_tx(&mut dev, &|_| VIRTIO_SND_S_OK), 2);
    assert_eq!(host.periods, vec![vec![5, 6, 7, 8], vec![5, 6, 7, 8]]);
    // Completions are taken in the order in which the device gave them.
    assert_eq!(
        dev.pcm_xfer_ok(second.token),
        Err(VirtioDeviceError::QueueError(QueueError::WrongToken))
    );
    let taken = dev.queue(QueueId::Tx).used().idx;
    assert_eq!(dev.pcm_xfer_ok(first.token), Ok(()));
    assert_eq!(dev.queue(QueueId::Tx).available_desc(), 13);
    assert_eq!(dev.pcm_xfer_ok(first.token), Err(VirtioDeviceError::InvalidParam));
    assert_eq!(dev.queue(QueueId::Tx).available_desc(), 13);
    assert_eq!(dev.pcm_xfer_ok(second.token), Ok(()));
    assert_eq!(dev.pcm_xfer_ok(second.token), Err(VirtioDeviceError::InvalidParam));
    assert_eq!(dev.queue(QueueId::Tx).available_desc(), 16);
    assert_eq!(dev.queue(QueueId::Tx).used().idx, taken);
    assert!(!dev.queue(QueueId::Tx).can_pop());
}

#[test]
fn a_full_queue_takes_no_more_transfers() {
    let mut dev = new_device(2, 0);
    let mut host = Host::new();
    set_good_params(&mut dev, &mut host, 0, 4);
    for n in 0..5 {
        assert_eq!(dev.pcm_xfer_nb(0, &[0; 4]).unwrap().token, 3 * n);
    }
    assert_eq!(
        dev.pcm_xfer_nb(0, &[0; 4]),
        Err(VirtioDeviceError::QueueError(QueueError::BufferTooSmall))
    );
    assert_eq!(dev.queue(QueueId::Tx).available_desc(), 1);
}

/// Fills every capture that waits on the rx queue with a running pattern.
fn serve_rx(host: &mut Host, dev: &mut SoundDevice, status: u32, from: &mut u8) -> usize {
    let mut served = 0;
    while let Some((head, bufs)) = host.next_chain(dev, QueueId::Rx) {
        assert_eq!(bufs.len(), 3);
        assert_eq!((bufs[0].1, bufs[0].2), (4, false));
        assert!(bufs[1].2);
        assert_eq!((bufs[2].1, bufs[2].2), (8, true));
        assert_eq!(read_mem(dev, bufs[0].0, 4), vec![1, 0, 0, 0]);
        let data: Vec<u8> = (0..bufs[1].1)
            .map(|_| {
                *from = from.wrapping_add(1);
                *from
            })
            .collect();
        write_mem(dev, bufs[1].0, &data);
        write_mem(dev, bufs[2].0, &VirtioSndPcmStatus { status, latency_bytes: 0 }.to_bytes());
        host.complete(dev, QueueId::Rx, head, bufs[1].1 + 8);
        served += 1;
    }
    served
}

#[test]
fn a_capture_fills_the_recording_from_the_first_input_stream() {
    let mut dev = new_device(2, 0);
    let mut host = Host::new();
    let first = dev.set_up();
    assert_eq!(finish(&mut dev, &mut host, first, &agree), Ok(Reply::Done));
    let mut recording = vec![0xaa];
    let mut pattern = 0u8;
    let mut step = dev.record(6000);
    assert_eq!(step, RecordStep::Wait(Submitted { token: 0, notify: true }));
    assert_eq!(dev.record(10), RecordStep::Failed { filled: 0, error: VirtioDeviceError::Busy });
    assert_eq!(
        dev.record_resume(&mut recording),
        RecordStep::Wait(Submitted { token: 0, notify: false })
    );
    let mut rounds = 0;
    while let RecordStep::Wait(_) = step {
        assert_eq!(serve_rx(&mut host, &mut dev, VIRTIO_SND_S_OK, &mut pattern), 1);
        step = dev.record_resume(&mut recording);
        rounds += 1;
    }
    assert_eq!(step, RecordStep::Finished { filled: 6000 });
    // The receive buffer holds 4096 bytes, so the capture took two rounds.
    assert_eq!(rounds, 2);
    assert_eq!(recording.len(), 6001);
    assert_eq!(recording[0], 0xaa);
    for (i, b) in recording[1..].iter().enumerate() {
        assert_eq!(*b, (i + 1) as u8);
    }
    assert_eq!(dev.queue(QueueId::Rx).available_desc(), 16);
    assert_eq!(
        dev.record_resume(&mut recording),
        RecordStep::Failed {
            filled: 0,
            error: VirtioDeviceError::QueueError(QueueError::NotReady)
        }
    );
}

#[test]
fn nothing_is_recorded_without_set_up_or_input_stream() {
    let mut dev = new_device(2, 0);
    assert_eq!(dev.record(100), RecordStep::Finished { filled: 0 });
    let mut host = Host::new();
    let first = dev.set_up();
    assert_eq!(finish(&mut dev, &mut host, first, &agree), Ok(Reply::Done));
    assert_eq!(dev.record(0), RecordStep::Finished { filled: 0 });
    assert_eq!(dev.queue(QueueId::Rx).avail().idx, 0);
    let mut outputs_only = new_device(1, 0);
    let first = outputs_only.set_up();
    assert_eq!(finish(&mut outputs_only, &mut Host::new(), first, &agree), Ok(Reply::Done));
    assert_eq!(outputs_only.record(100), RecordStep::Finished { filled: 0 });
    assert_eq!(outputs_only.queue(QueueId::Rx).avail().idx, 0);
}

#[test]
fn a_failed_capture_is_given_up() {
    let mut dev = new_device(2, 0);
    let mut host = Host::new();
    let first = dev.set_up();
    assert_eq!(finish(&mut dev, &mut host, first, &agree), Ok(Reply::Done));
    let mut recording = Vec::new();
    let mut pattern = 0u8;
    assert!(matches!(dev.record(5000), RecordStep::Wait(_)));
    serve_rx(&mut host, &mut dev, VIRTIO_SND_S_OK, &mut pattern);
    assert!(matches!(dev.record_resume(&mut recording), RecordStep::Wait(_)));
    serve_rx(&mut host, &mut dev, VIRTIO_SND_S_IO_ERR, &mut pattern);
    assert_eq!(
        dev.record_resume(&mut recording),
        RecordStep::Failed {
            filled: 4096,
            error: VirtioDeviceError::IoError(Some(VIRTIO_SND_S_IO_ERR))
        }
    );
    assert_eq!(recording.len(), 4096);
    // A completion for another chain gives the capture up as well.
    assert!(matches!(dev.record(10), RecordStep::Wait(_)));
    host.complete(&mut dev, QueueId::Rx, 9, 0);
    assert_eq!(
        dev.record_resume(&mut recording),
        RecordStep::Failed {
            filled: 0,
            error: VirtioDeviceError::QueueError(QueueError::WrongToken)
        }
    );
}

#[test]
fn an_event_with_an_unknown_code_reaches_nobody() {
    let mut dev = new_device(2, 0);
    let mut host = Host::new();
    assert_eq!(dev.register_callback(), Some(0));
    let (head, bufs) = host.next_chain(&dev, QueueId::Event).unwrap();
    let event = VirtioSndEvent { header: VirtioSndHdr { code: 0x1200 }, data: 1 };
    write_mem(&mut dev, bufs[0].0, &event.to_bytes());
    host.complete(&mut dev, QueueId::Event, head, 8);
    let delivery = dev.handle_recv_irq().unwrap();
    assert_eq!(delivery.payload, event.to_bytes());
    assert_eq!(delivery.notification, None);
    assert_eq!(delivery.subscribers, 0);
    assert!(delivery.notify);
}

#[test]
fn the_payload_of_an_event_is_what_the_device_wrote() {
    let mut dev = new_device(2, 0);
    let mut host = Host::new();
    assert_eq!(dev.register_callback(), Some(0));
    // Too few bytes for an event.
    let (head, bufs) = host.next_chain(&dev, QueueId::Event).unwrap();
    write_mem(&mut dev, bufs[0].0, &[0x00, 0x11, 0, 0, 7, 0, 0, 0]);
    host.complete(&mut dev, QueueId::Event, head, 4);
    let delivery = dev.handle_recv_irq().unwrap();
    assert_eq!(delivery.payload, vec![0x00, 0x11, 0, 0]);
    assert_eq!(delivery.notification, None);
    assert_eq!(delivery.subscribers, 0);
    // The whole event.
    let (head, _) = host.next_chain(&dev, QueueId::Event).unwrap();
    host.complete(&mut dev, QueueId::Event, head, 8);
    let delivery = dev.handle_recv_irq().unwrap();
    assert_eq!(delivery.payload, vec![0x00, 0x11, 0, 0, 7, 0, 0, 0]);
    let notification = delivery.notification.unwrap();
    assert_eq!(notification.notification_type(), NotificationType::PcmPeriodElapsed);
    assert_eq!(notification.data(), 7);
    assert_eq!(delivery.subscribers, 1);
    // A length beyond the buffer gives no more than the buffer holds.
    let (head, _) = host.next_chain(&dev, QueueId::Event).unwrap();
    host.complete(&mut dev, QueueId::Event, head, 1_000_000);
    let delivery = dev.handle_recv_irq().unwrap();
    assert_eq!(delivery.payload.len(), 4096);
    // A completion that names another chain is left alone.
    host.complete(&mut dev, QueueId::Event, 5, 8);
    assert_eq!(dev.handle_recv_irq(), None);
}

#[test]
fn the_device_does_not_come_up_on_regions_that_are_too_small() {
    let mut small = plan();
    small.request.nbytes = 23;
    assert!(matches!(
        SoundDevice::init(None, false, SoundTransport::Modern, small),
        Err(VirtioDeviceError::InvalidParam)
    ));
    let mut small = plan();
    small.xfer.nbytes = 255;
    assert!(matches!(
        SoundDevice::init(None, false, SoundTransport::Modern, small),
        Err(VirtioDeviceError::InvalidParam)
    ));
    let mut small = plan();
    small.send.nbytes = 0;
    assert!(matches!(
        SoundDevice::init(None, false, SoundTransport::Modern, small),
        Err(VirtioDeviceError::InvalidParam)
    ));
    let mut beyond = plan();
    beyond.receive.daddr = u64::MAX - 100;
    assert!(matches!(
        SoundDevice::init(None, false, SoundTransport::Modern, beyond),
        Err(VirtioDeviceError::InvalidParam)
    ));
    let mut least = plan();
    least.request.nbytes = 24;
    least.response.nbytes = 4;
    least.event.nbytes = 8;
    least.send.nbytes = 1;
    least.receive.nbytes = 1;
    least.xfer.nbytes = 256;
    assert!(SoundDevice::init(None, false, SoundTransport::Modern, least).is_ok());
}

fn legacy(control: u16, event: u16, tx: u16, rx: u16) -> SoundTransport {
    SoundTransport::Legacy { control, event, tx, rx }
}

#[test]
fn a_legacy_device_gives_each_queue_its_size() {
    let refused = Some(VirtioDeviceError::QueueError(QueueError::InvalidArgs));
    for transport in [
        legacy(2, 16, 16, 16),
        legacy(16, 2, 16, 16),
        legacy(16, 16, 24, 16),
        legacy(16, 16, 16, 0),
    ] {
        assert_eq!(SoundDevice::init(None, false, transport, plan()).err(), refused);
    }
    // 512 descriptors need 8192 bytes of transfer slots, on either queue.
    for transport in [legacy(16, 16, 512, 16), legacy(16, 16, 16, 512)] {
        assert_eq!(
            SoundDevice::init(None, false, transport, plan()).err(),
            Some(VirtioDeviceError::InvalidParam)
        );
    }
    // The control and event queues take no transfer slots.
    assert!(SoundDevice::init(None, false, legacy(512, 1024, 16, 16), plan()).is_ok());
    let dev = match SoundDevice::init(None, false, legacy(64, 4, 256, 8), plan()) {
        Ok(dev) => dev,
        Err(e) => panic!("the device did not come up: {:?}", e),
    };
    assert_eq!(dev.queue(QueueId::Control).size(), 64);
    assert_eq!(dev.queue(QueueId::Event).size(), 4);
    assert_eq!(dev.queue(QueueId::Tx).size(), 256);
    assert_eq!(dev.queue(QueueId::Rx).size(), 8);
    assert_eq!(dev.queue(QueueId::Event).available_desc(), 3);
    assert_eq!(dev.queue(QueueId::Tx).notify(), virtio_sound::queue::Notify::Legacy(2));
    assert_eq!(
        legacy(64, 4, 256, 8).queue(QueueId::Rx),
        virtio_sound::queue::QueueTransport::Legacy { max_queue_size: 8 }
    );
    assert_eq!(
        SoundTransport::Modern.queue(QueueId::Rx),
        virtio_sound::queue::QueueTransport::Modern
    );
    // Without a configuration region the device has no streams.
    assert_eq!(dev.config().streams, 0);
    assert_eq!(dev.pcm_state(0), None);
}

#[test]
fn a_fresh_device_has_offered_its_event_buffer() {
    let dev = new_device(2, 0);
    let q = dev.queue(QueueId::Event);
    assert_eq!(q.available_desc(), 15);
    assert_eq!(q.avail().idx, 1);
    assert_eq!((q.descs()[0].addr, q.descs()[0].len, q.descs()[0].flags.bits), (0x3_0000, 8, 2));
    for id in [QueueId::Control, QueueId::Tx, QueueId::Rx] {
        assert_eq!(dev.queue(id).available_desc(), 16);
        assert_eq!(dev.queue(id).avail().idx, 0);
    }
    for id in BUFFERS {
        assert_eq!(dev.buffer(id).nbytes(), 4096);
        assert!(dev.buffer(id).bytes().iter().all(|b| *b == 0));
    }
    assert_eq!(dev.pcm_state(0), Some(PCMState::SetParameters));
    assert_eq!(dev.pcm_state(1), Some(PCMState::SetParameters));
    assert!(!dev.pcm_parameters(0).unwrap().setup);
}

#[test]
fn what_the_device_writes_is_brought_in() {
    let mut dev = new_device(2, 0);
    let mut used = dev.queue(QueueId::Rx).used().clone();
    used.ring.pop();
    assert!(!dev.device_used(QueueId::Rx, used));
    let mut used = dev.queue(QueueId::Rx).used().clone();
    used.flags = 1;
    used.idx = 3;
    assert!(dev.device_used(QueueId::Rx, used));
    assert_eq!(dev.queue(QueueId::Rx).used().idx, 3);
    assert!(!dev.queue(QueueId::Rx).should_notify());
    assert_eq!(dev.queue(QueueId::Tx).used().idx, 0);
    assert_eq!(dev.device_write(BufferId::Response, 4090, &[1; 10]), 6);
    assert_eq!(dev.buffer(BufferId::Response).read(4089, 7), vec![0, 1, 1, 1, 1, 1, 1]);
    assert_eq!(dev.buffer(BufferId::Request).read(4089, 7), vec![0; 7]);
}

#[test]
fn a_device_that_wants_no_notification_is_not_notified() {
    let mut dev = new_device(2, 0);
    let mut used = dev.queue(QueueId::Control).used().clone();
    used.flags = 1;
    assert!(dev.device_used(QueueId::Control, used));
    assert_eq!(dev.set_up(), Step::Wait(Submitted { token: 0, notify: false }));
}

#[test]
fn subscribers_are_numbered_from_zero() {
    let mut dev = new_device(0, 0);
    for n in 0..10 {
        assert_eq!(dev.register_callback(), Some(n));
    }
}

#[test]
fn the_self_test_runs_a_stream_through_its_life() {
    let commands = test_commands();
    assert_eq!(
        commands,
        vec![
            Op::SetParams {
                stream_id: 0,
                buffer_bytes: 80000,
                period_bytes: 100,
                features: PcmFeatures::empty(),
                channels: 1,
                format: PcmFormat::U8,
                rate: PcmRate::Rate8000,
            },
            Op::Prepare { stream_id: 0 },
            Op::Start { stream_id: 0 },
            Op::Stop { stream_id: 0 },
            Op::Release { stream_id: 0 },
        ]
    );
    let mut dev = new_device(2, 0);
    let mut host = Host::new();
    let states = [
        PCMState::SetParameters,
        PCMState::Prepare,
        PCMState::Start,
        PCMState::Stop,
        PCMState::Release,
    ];
    for (command, state) in commands.into_iter().zip(states) {
        assert_eq!(dev.precheck(command), None);
        let first = dev.begin(command);
        assert_eq!(finish(&mut dev, &mut host, first, &agree), Ok(Reply::Done));
        assert_eq!(dev.pcm_state(0), Some(state));
    }
}

#[test]
fn requests_as_they_go_to_the_device() {
    assert_eq!(
        build_request(Op::PcmInfo { start_id: 1, count: 2 }),
        vec![0x00, 0x01, 0, 0, 1, 0, 0, 0, 2, 0, 0, 0, 32, 0, 0, 0]
    );
    assert_eq!(
        build_request(Op::ChmapInfo { start_id: 0, count: 3 }),
        vec![0x00, 0x02, 0, 0, 0, 0, 0, 0, 3, 0, 0, 0, 24, 0, 0, 0]
    );
    assert_eq!(build_request(Op::Prepare { stream_id: 5 }), vec![0x02, 0x01, 0, 0, 5, 0, 0, 0]);
    assert_eq!(build_request(Op::Release { stream_id: 5 }), vec![0x03, 0x01, 0, 0, 5, 0, 0, 0]);
    assert_eq!(build_request(Op::Start { stream_id: 5 }), vec![0x04, 0x01, 0, 0, 5, 0, 0, 0]);
    assert_eq!(build_request(Op::Stop { stream_id: 5 }), vec![0x05, 0x01, 0, 0, 5, 0, 0, 0]);
    assert_eq!(
        build_request(Op::SetParams {
            stream_id: 1,
            buffer_bytes: 0x0100,
            period_bytes: 0x80,
            features: PcmFeatures { bits: 0x10 },
            channels: 2,
            format: PcmFormat::FLOAT,
            rate: PcmRate::Rate48000,
        }),
        vec![
            0x01, 0x01, 0, 0, 1, 0, 0, 0, 0, 1, 0, 0, 0x80, 0, 0, 0, 0x10, 0, 0, 0, 2, 19, 7, 0
        ]
    );
    assert_eq!(build_request(Op::OutputStreams), vec![]);
    assert_eq!(build_request(Op::SetUp), vec![]);
}

#[test]
fn streams_are_listed_by_direction() {
    let infos = vec![info(1), info(0), info(0), info(1), info(7)];
    assert_eq!(list_streams(&infos, 0), vec![1, 2]);
    assert_eq!(list_streams(&infos, 1), vec![0, 3]);
    assert_eq!(list_streams(&infos, 7), vec![4]);
    assert_eq!(list_streams(&infos, 2), vec![]);
    assert_eq!(list_streams(&vec![], 0), vec![]);
}

#[test]
fn what_an_operation_would_be_refused_for() {
    let dev = new_device(2, 1);
    assert_eq!(dev.precheck(Op::SetUp), None);
    assert_eq!(dev.precheck(Op::OutputStreams), None);
    assert_eq!(dev.precheck(Op::Prepare { stream_id: 1 }), None);
    assert_eq!(dev.precheck(Op::Prepare { stream_id: 2 }), Some(VirtioDeviceError::InvalidParam));
    assert_eq!(dev.precheck(Op::Stop { stream_id: 1 }), Some(VirtioDeviceError::IoError(None)));
    assert_eq!(dev.precheck(Op::PcmInfo { start_id: 0, count: 2 }), None);
    assert_eq!(
        dev.precheck(Op::PcmInfo { start_id: 1, count: 2 }),
        Some(VirtioDeviceError::InvalidParam)
    );
    assert_eq!(dev.precheck(Op::ChmapInfo { start_id: 0, count: 1 }), None);
    assert_eq!(
        dev.precheck(Op::ChmapInfo { start_id: 0, count: 2 }),
        Some(VirtioDeviceError::InvalidParam)
    );
}

#[test]
fn memory_is_found_in_its_buffer() {
    let dev = new_device(2, 0);
    assert_eq!(dev.locate(0x1_0000, 24), Some((BufferId::Request, 0)));
    assert_eq!(dev.locate(0x2_0000, 4096), Some((BufferId::Response, 0)));
    assert_eq!(dev.locate(0x2_0001, 4096), None);
    assert_eq!(dev.locate(0x3_0ff8, 8), Some((BufferId::Event, 0xff8)));
    assert_eq!(dev.locate(0x4_0010, 0), Some((BufferId::Send, 0x10)));
    assert_eq!(dev.locate(0x5_1000, 0), Some((BufferId::Receive, 0x1000)));
    assert_eq!(dev.locate(0x5_1000, 1), None);
    assert_eq!(dev.locate(0x6_0038, 8), Some((BufferId::Xfer, 0x38)));
    assert_eq!(dev.locate(0, 1), None);
    assert_eq!(dev.locate(0xffff, 2), None);
    assert_eq!(dev.locate(u64::MAX, u32::MAX), None);
    // The chain of the event buffer names the event buffer.
    let bufs = dev.queue(QueueId::Event).chain(0).unwrap();
    assert_eq!(bufs, vec![(0x3_0000, 8, true)]);
    assert_eq!(dev.locate(bufs[0].0, bufs[0].1), Some((BufferId::Event, 0)));
}

#[test]
fn the_queues_and_buffers_are_set_up() {
    let config = VirtioSoundConfig { jacks: 1, streams: 2, chmaps: 3, controls: 4 };
    let inner =
        match SoundDeviceInner::set(Some(config.to_bytes()), true, SoundTransport::Modern, plan()) {
            Ok(inner) => inner,
            Err(e) => panic!("the queues did not come up: {:?}", e),
        };
    assert_eq!(inner.config(), config);
    for id in [QueueId::Control, QueueId::Event, QueueId::Tx, QueueId::Rx] {
        assert_eq!(inner.queue(id).size(), 16);
    }
    assert_eq!(inner.queue(QueueId::Control).notify(), virtio_sound::queue::Notify::Modern(0));
    assert_eq!(inner.queue(QueueId::Event).notify(), virtio_sound::queue::Notify::Modern(1));
    assert_eq!(inner.queue(QueueId::Tx).notify(), virtio_sound::queue::Notify::Modern(2));
    assert_eq!(inner.queue(QueueId::Rx).notify(), virtio_sound::queue::Notify::Modern(3));
    assert_eq!(inner.queue(QueueId::Event).available_desc(), 15);
    assert_eq!(inner.buffer(BufferId::Request).daddr(), 0x1_0000);
    assert_eq!(inner.buffer(BufferId::Xfer).daddr(), 0x6_0000);
    let mut small = plan();
    small.event.nbytes = 7;
    assert!(matches!(
        SoundDeviceInner::set(None, false, SoundTransport::Modern, small),
        Err(VirtioDeviceError::InvalidParam)
    ));
}

#[test]
fn a_large_queue_holds_no_more_chunks_than_a_small_one() {
    let config = VirtioSoundConfig { jacks: 0, streams: 2, chmaps: 0, controls: 0 };
    let mut dev = match SoundDevice::init(
        Some(config.to_bytes()),
        false,
        legacy(16, 16, 128, 16),
        plan(),
    ) {
        Ok(dev) => dev,
        Err(e) => panic!("the device did not come up: {:?}", e),
    };
    let mut host = Host::new();
    set_good_params(&mut dev, &mut host, 0, 10);
    // The device does not answer: five chunks go out and no more.
    let mut step = dev.pcm_xfer(0, &[0; 1000]);
    for _ in 0..20 {
        assert!(matches!(step, XferStep::Continue { .. }));
        step = dev.pcm_xfer_step();
    }
    assert_eq!(dev.queue(QueueId::Tx).avail().idx, 5);
    assert_eq!(dev.queue(QueueId::Tx).available_desc(), 128 - 15);
    assert_eq!(dev.pcm_xfer_progress(), Some((0, 5, None)));
    // The third chunk fails: seven completions are taken in all.
    let third_fails = |n: usize| if n == 2 { VIRTIO_SND_S_IO_ERR } else { VIRTIO_SND_S_OK };
    let mut taken = 0;
    loop {
        host.serve_tx(&mut dev, &third_fails);
        if let Some((reaped, _, _)) = dev.pcm_xfer_progress() {
            taken = reaped;
        }
        match dev.pcm_xfer_step() {
            XferStep::Continue { .. } => {}
            XferStep::Finished(result) => {
                assert_eq!(result, Err(VirtioDeviceError::IoError(Some(VIRTIO_SND_S_IO_ERR))));
                break;
            }
        }
    }
    assert_eq!(taken, 7);
    assert_eq!(host.periods.len(), 7);
    assert_eq!(dev.pcm_xfer_progress(), None);
    assert_eq!(dev.queue(QueueId::Tx).available_desc(), 128);
}

#[test]
fn the_progress_of_a_playback_is_counted() {
    let mut dev = new_device(2, 0);
    let mut host = Host::new();
    assert_eq!(dev.pcm_xfer_progress(), None);
    set_good_params(&mut dev, &mut host, 0, 10);
    assert_eq!(dev.pcm_xfer(0, &[0; 40]), XferStep::Continue { notify: true });
    assert_eq!(dev.pcm_xfer_progress(), Some((0, 1, None)));
    let second_fails = |n: usize| if n == 1 { VIRTIO_SND_S_BAD_MSG } else { VIRTIO_SND_S_OK };
    host.serve_tx(&mut dev, &second_fails);
    assert_eq!(dev.pcm_xfer_step(), XferStep::Continue { notify: true });
    assert_eq!(dev.pcm_xfer_progress(), Some((1, 1, None)));
    host.serve_tx(&mut dev, &second_fails);
    assert_eq!(dev.pcm_xfer_step(), XferStep::Continue { notify: true });
    assert_eq!(dev.pcm_xfer_progress(), Some((2, 1, Some(2))));
    host.serve_tx(&mut dev, &second_fails);
    assert_eq!(dev.pcm_xfer_step(), XferStep::Continue { notify: false });
    assert_eq!(dev.pcm_xfer_progress(), Some((3, 0, Some(2))));
    assert_eq!(
        dev.pcm_xfer_step(),
        XferStep::Finished(Err(VirtioDeviceError::IoError(Some(VIRTIO_SND_S_BAD_MSG))))
    );
}

#[test]
fn a_completion_of_the_device_is_brought_in() {
    let mut dev = new_device(2, 0);
    let first = dev.set_up();
    assert_eq!(first, Step::Wait(Submitted { token: 0, notify: true }));
    dev.device_complete(QueueId::Control, 0, 4);
    assert!(dev.queue(QueueId::Control).can_pop());
    assert_eq!(dev.queue(QueueId::Control).used().ring[0], UsedElem { id: 0, len: 4 });
    assert!(!dev.queue(QueueId::Tx).can_pop());
    // The response buffer holds no status of success.
    assert_eq!(dev.resume(), Step::Done(Err(VirtioDeviceError::IoError(Some(0)))));
}
