use virtio_sound::codes::NotificationType;
use virtio_sound::codes::VIRTIO_SND_EVT_PCM_XRUN;
use virtio_sound::codes::VIRTIO_SND_R_CHMAP_INFO;
use virtio_sound::codes::VIRTIO_SND_R_PCM_INFO;
use virtio_sound::codes::VIRTIO_SND_S_IO_ERR;
use virtio_sound::codes::VIRTIO_SND_S_NOT_SUPP;
use virtio_sound::codes::VIRTIO_SND_S_OK;
use virtio_sound::config::VirtioSoundConfig;
use virtio_sound::model::BufferId;
use virtio_sound::model::DmaPlan;
use virtio_sound::model::DmaRegion;
use virtio_sound::model::QueueId;
use virtio_sound::model::Reply;
use virtio_sound::device::SoundDevice;
use virtio_sound::model::Step;
use virtio_sound::model::XferStep;
use virtio_sound::error::VirtioDeviceError;
use virtio_sound::flags::PcmFeatures;
use virtio_sound::flags::PcmFormat;
use virtio_sound::flags::PcmRate;
use virtio_sound::pcm::PCMState;
use virtio_sound::model::SoundTransport;
use virtio_sound::queue::UsedElem;
use virtio_sound::queue::DESC_F_NEXT;
use virtio_sound::queue::DESC_F_WRITE;
use virtio_sound::wire::VirtioSndEvent;
use virtio_sound::wire::VirtioSndHdr;
use virtio_sound::wire::VirtioSndInfo;
use virtio_sound::wire::VirtioSndPcmInfo;
use virtio_sound::wire::VirtioSndPcmSetParams;
use virtio_sound::wire::VirtioSndPcmStatus;
use virtio_sound::wire::VirtioSndQueryInfo;

const BUFFERS: [BufferId; 6] = [
    BufferId::Request,
    BufferId::Response,
    BufferId::Event,
    BufferId::Send,
    BufferId::Receive,
    BufferId::Xfer,
];

fn plan() -> DmaPlan {
    DmaPlan {
        request: DmaRegion { daddr: 0x1_0000, nbytes: 4096 },
        response: DmaRegion { daddr: 0x2_0000, nbytes: 4096 },
        event: DmaRegion { daddr: 0x3_0000, nbytes: 4096 },
        send: DmaRegion { daddr: 0x4_0000, nbytes: 4096 },
        receive: DmaRegion { daddr: 0x5_0000, nbytes: 4096 },
        xfer: DmaRegion { daddr: 0x6_0000, nbytes: 4096 },
    }
}

fn new_device(streams: u32, chmaps: u32) -> SoundDevice {
    let config = VirtioSoundConfig { jacks: 0, streams, chmaps, controls: 0 };
    match SoundDevice::init(Some(config.to_bytes()), false, SoundTransport::Modern, plan()) {
        Ok(dev) => dev,
        Err(e) => panic!("the device did not come up: {:?}", e),
    }
}

/// The device's side of the queues: how many chains of each it has taken.
struct Host {
    taken: [u16; 4],
    /// Every control request that the device has seen.
    requests: Vec<Vec<u8>>,
    /// Every PCM payload that the device has seen.
    periods: Vec<Vec<u8>>,
}

fn slot(queue: QueueId) -> usize {
    match queue {
        QueueId::Control => 0,
        QueueId::Event => 1,
        QueueId::Tx => 2,
        QueueId::Rx => 3,
    }
}

fn read_mem(dev: &SoundDevice, addr: u64, len: u32) -> Vec<u8> {
    for id in BUFFERS {
        let b = dev.buffer(id);
        if addr >= b.daddr() && addr + len as u64 <= b.daddr() + b.nbytes() as u64 {
            return b.read((addr - b.daddr()) as usize, len as usize);
        }
    }
    panic!("the chain names memory that is in no buffer");
}

fn write_mem(dev: &mut SoundDevice, addr: u64, data: &[u8]) {
    for id in BUFFERS {
        let (base, nbytes) = {
            let b = dev.buffer(id);
            (b.daddr(), b.nbytes() as u64)
        };
        if addr >= base && addr + data.len() as u64 <= base + nbytes {
            assert_eq!(dev.device_write(id, (addr - base) as usize, data), data.len());
            return;
        }
    }
    panic!("the chain names memory that is in no buffer");
}

impl Host {
    fn new() -> Host {
        Host { taken: [0; 4], requests: Vec::new(), periods: Vec::new() }
    }

    /// The next chain that the driver has offered on a queue: its head and
    /// its buffers, with what the device reads first.
    fn next_chain(&mut self, dev: &SoundDevice, queue: QueueId) -> Option<(u16, Vec<(u64, u32, bool)>)> {
        let q = dev.queue(queue);
        let taken = self.taken[slot(queue)];
        if q.avail().idx == taken {
            return None;
        }
        let head = q.avail().ring[(taken % q.size()) as usize];
        let mut bufs = Vec::new();
        let mut at = head;
        loop {
            let d = q.descs()[at as usize];
            bufs.push((d.addr, d.len, d.flags.bits & DESC_F_WRITE != 0));
            if d.flags.bits & DESC_F_NEXT == 0 {
                break;
            }
            at = d.next;
        }
        self.taken[slot(queue)] = taken.wrapping_add(1);
        Some((head, bufs))
    }

    fn complete(&self, dev: &mut SoundDevice, queue: QueueId, head: u16, len: u32) {
        let mut used = dev.queue(queue).used().clone();
        let size = used.ring.len() as u16;
        used.ring[(used.idx % size) as usize] = UsedElem { id: head as u32, len };
        used.idx = used.idx.wrapping_add(1);
        assert!(dev.device_used(queue, used));
    }

    /// Answers the next control request, if there is one.
    fn serve_control(&mut self, dev: &mut SoundDevice, respond: &dyn Fn(&[u8]) -> Vec<u8>) -> bool {
        let Some((head, bufs)) = self.next_chain(dev, QueueId::Control) else {
            return false;
        };
        assert_eq!(bufs.len(), 2);
        assert!(!bufs[0].2);
        assert!(bufs[1].2);
        let request = read_mem(dev, bufs[0].0, bufs[0].1);
        let response = respond(&request);
        assert!(response.len() <= bufs[1].1 as usize);
        write_mem(dev, bufs[1].0, &response);
        self.requests.push(request);
        self.complete(dev, QueueId::Control, head, response.len() as u32);
        true
    }

    /// Plays every transfer that waits on the tx queue and gives each the
    /// status that `status` has for its number.
    fn serve_tx(&mut self, dev: &mut SoundDevice, status: &dyn Fn(usize) -> u32) -> usize {
        let mut served = 0;
        while let Some((head, bufs)) = self.next_chain(dev, QueueId::Tx) {
            assert_eq!(bufs.len(), 3);
            assert_eq!((bufs[0].1, bufs[0].2), (4, false));
            assert!(!bufs[1].2);
            assert_eq!((bufs[2].1, bufs[2].2), (8, true));
            let payload = read_mem(dev, bufs[1].0, bufs[1].1);
            let record =
                VirtioSndPcmStatus { status: status(self.periods.len()), latency_bytes: 0 };
            write_mem(dev, bufs[2].0, &record.to_bytes());
            self.periods.push(payload);
            self.complete(dev, QueueId::Tx, head, 8);
            served += 1;
        }
        served
    }
}

fn info(direction: u8) -> VirtioSndPcmInfo {
    VirtioSndPcmInfo {
        hdr: VirtioSndInfo { hda_fn_nid: 7 },
        features: 0,
        formats: 0x10,
        rates: 0x2,
        direction,
        channels_min: 1,
        channels_max: 2,
        padding: [0; 5],
    }
}

/// A device with one output and one input stream that agrees to everything
/// and has no channel maps.
fn agree(request: &[u8]) -> Vec<u8> {
    let hdr = VirtioSndHdr::from_bytes(request).unwrap();
    let mut out = VirtioSndHdr { code: VIRTIO_SND_S_OK }.to_bytes();
    if hdr.code == VIRTIO_SND_R_PCM_INFO {
        let query = VirtioSndQueryInfo::from_bytes(request).unwrap();
        for i in query.start_id..query.start_id + query.count {
            out.extend(info((i % 2) as u8).to_bytes());
        }
    } else if hdr.code == VIRTIO_SND_R_CHMAP_INFO {
        return VirtioSndHdr { code: VIRTIO_SND_S_NOT_SUPP }.to_bytes();
    }
    out
}

/// Takes an operation to its end against a device that answers with `respond`.
fn finish(
    dev: &mut SoundDevice,
    host: &mut Host,
    first: Step,
    respond: &dyn Fn(&[u8]) -> Vec<u8>,
) -> Result<Reply, VirtioDeviceError> {
    let mut step = first;
    loop {
        match step {
            Step::Done(r) => return r,
            Step::Wait(_) => {
                assert!(host.serve_control(dev, respond));
                step = dev.resume();
            }
        }
    }
}

/// Takes a playback to its end and counts the completions that were taken.
fn play(
    dev: &mut SoundDevice,
    host: &mut Host,
    first: XferStep,
    status: &dyn Fn(usize) -> u32,
) -> (Result<(), VirtioDeviceError>, usize) {
    let mut step = first;
    let mut rounds = 0;
    loop {
        match step {
            XferStep::Finished(r) => return (r, host.periods.len()),
            XferStep::Continue { .. } => {
                host.serve_tx(dev, status);
                step = dev.pcm_xfer_step();
                rounds += 1;
                assert!(rounds < 100_000);
            }
        }
    }
}

#[test]
fn set_up_fetches_two_streams_and_no_channel_maps() {
    let mut dev = new_device(2, 0);
    let mut host = Host::new();
    assert_eq!(
        dev.config(),
        VirtioSoundConfig { jacks: 0, streams: 2, chmaps: 0, controls: 0 }
    );
    assert!(!dev.is_set_up());
    let first = dev.set_up();
    assert_eq!(finish(&mut dev, &mut host, first, &agree), Ok(Reply::Done));
    assert!(dev.is_set_up());
    assert_eq!(dev.pcm_infos().as_ref().unwrap().len(), 2);
    assert_eq!(dev.pcm_infos().as_ref().unwrap()[0], info(0));
    assert_eq!(dev.pcm_infos().as_ref().unwrap()[1], info(1));
    assert_eq!(dev.chmap_infos().as_ref().unwrap().len(), 0);
    // Set-up asked for the stream records and for the channel maps, once each.
    assert_eq!(host.requests.len(), 2);
    let again = dev.set_up();
    assert_eq!(again, Step::Done(Ok(Reply::Done)));
    assert_eq!(host.requests.len(), 2);
}

#[test]
fn a_stream_plays_through_its_whole_life() {
    let mut dev = new_device(2, 0);
    let mut host = Host::new();
    let first = dev.pcm_set_params(
        0,
        80000,
        100,
        PcmFeatures::empty(),
        1,
        PcmFormat::U8,
        PcmRate::Rate8000,
    );
    assert_eq!(finish(&mut dev, &mut host, first, &agree), Ok(Reply::Done));
    // The first operation has set the device up before its own request.
    assert_eq!(host.requests.len(), 3);
    let sent = VirtioSndPcmSetParams::from_bytes(&host.requests[2]).unwrap();
    assert_eq!(sent.hdr.hdr.code, 0x0101);
    assert_eq!(sent.hdr.stream_id, 0);
    assert_eq!((sent.buffer_bytes, sent.period_bytes, sent.features), (80000, 100, 0));
    assert_eq!((sent.channels, sent.format, sent.rate, sent.padding), (1, 4, 1, 0));
    assert_eq!(dev.pcm_state(0), Some(PCMState::SetParameters));
    assert!(dev.pcm_parameters(0).unwrap().setup);

    let first = dev.pcm_prepare(0);
    assert_eq!(finish(&mut dev, &mut host, first, &agree), Ok(Reply::Done));
    assert_eq!(dev.pcm_state(0), Some(PCMState::Prepare));
    let first = dev.pcm_start(0);
    assert_eq!(finish(&mut dev, &mut host, first, &agree), Ok(Reply::Done));
    assert_eq!(dev.pcm_state(0), Some(PCMState::Start));

    let frames = vec![0u8; 80000];
    let first = dev.pcm_xfer(0, &frames);
    let (result, played) = play(&mut dev, &mut host, first, &|_| VIRTIO_SND_S_OK);
    assert_eq!(result, Ok(()));
    assert_eq!(played, 800);
    assert!(host.periods.iter().all(|p| p.len() == 100 && p.iter().all(|b| *b == 0)));
    assert_eq!(dev.queue(QueueId::Tx).available_desc(), 16);

    let first = dev.pcm_stop(0);
    assert_eq!(finish(&mut dev, &mut host, first, &agree), Ok(Reply::Done));
    assert_eq!(dev.pcm_state(0), Some(PCMState::Stop));
    let first = dev.pcm_release(0);
    assert_eq!(finish(&mut dev, &mut host, first, &agree), Ok(Reply::Done));
    assert_eq!(dev.pcm_state(0), Some(PCMState::Release));
    assert!(!dev.pcm_parameters(0).unwrap().setup);
}

#[test]
fn a_period_of_zero_is_refused_before_the_device_is_asked() {
    let mut dev = new_device(2, 0);
    let step =
        dev.pcm_set_params(0, 100, 0, PcmFeatures::empty(), 1, PcmFormat::U8, PcmRate::Rate8000);
    assert_eq!(step, Step::Done(Err(VirtioDeviceError::InvalidParam)));
    assert_eq!(dev.queue(QueueId::Control).avail().idx, 0);
    assert_eq!(dev.queue(QueueId::Control).available_desc(), 16);
    assert!(!dev.is_busy());
    let mut host = Host::new();
    assert!(host.next_chain(&dev, QueueId::Control).is_none());
}

#[test]
fn a_buffer_that_is_no_multiple_of_the_period_is_refused() {
    let mut dev = new_device(2, 0);
    let step =
        dev.pcm_set_params(0, 100, 30, PcmFeatures::empty(), 1, PcmFormat::U8, PcmRate::Rate8000);
    assert_eq!(step, Step::Done(Err(VirtioDeviceError::InvalidParam)));
    assert_eq!(dev.queue(QueueId::Control).avail().idx, 0);
    // The same holds once the device was set up.
    let mut host = Host::new();
    let first = dev.set_up();
    assert_eq!(finish(&mut dev, &mut host, first, &agree), Ok(Reply::Done));
    let asked = host.requests.len();
    let step =
        dev.pcm_set_params(0, 100, 30, PcmFeatures::empty(), 1, PcmFormat::U8, PcmRate::Rate8000);
    assert_eq!(step, Step::Done(Err(VirtioDeviceError::InvalidParam)));
    let step =
        dev.pcm_set_params(0, 100, 200, PcmFeatures::empty(), 1, PcmFormat::U8, PcmRate::Rate8000);
    assert_eq!(step, Step::Done(Err(VirtioDeviceError::InvalidParam)));
    assert!(host.next_chain(&dev, QueueId::Control).is_none());
    assert_eq!(host.requests.len(), asked);
    assert_eq!(dev.pcm_state(0), Some(PCMState::SetParameters));
}

#[test]
fn a_failed_period_ends_the_playback_with_an_io_error() {
    let mut dev = new_device(2, 0);
    let mut host = Host::new();
    let first = dev.pcm_set_params(
        0,
        80000,
        100,
        PcmFeatures::empty(),
        1,
        PcmFormat::U8,
        PcmRate::Rate8000,
    );
    assert_eq!(finish(&mut dev, &mut host, first, &agree), Ok(Reply::Done));
    let first = dev.pcm_prepare(0);
    assert_eq!(finish(&mut dev, &mut host, first, &agree), Ok(Reply::Done));
    let first = dev.pcm_start(0);
    assert_eq!(finish(&mut dev, &mut host, first, &agree), Ok(Reply::Done));

    let frames = vec![0u8; 80000];
    let first = dev.pcm_xfer(0, &frames);
    let third_fails = |n: usize| if n == 2 { VIRTIO_SND_S_IO_ERR } else { VIRTIO_SND_S_OK };
    let (result, played) = play(&mut dev, &mut host, first, &third_fails);
    assert_eq!(result, Err(VirtioDeviceError::IoError(Some(VIRTIO_SND_S_IO_ERR))));
    // The third period and what was with the device behind it came back,
    // and nothing went to the device after that.
    assert!(played >= 3);
    assert!(played <= 16);
    assert!(played <= 2 + 5);
    assert_eq!(dev.queue(QueueId::Tx).available_desc(), 16);
    assert_eq!(dev.pcm_state(0), Some(PCMState::Start));
}

#[test]
fn an_xrun_event_reaches_every_subscriber_once() {
    let mut dev = new_device(2, 0);
    let mut host = Host::new();
    assert_eq!(dev.register_callback(), Some(0));
    assert_eq!(dev.register_callback(), Some(1));
    assert_eq!(dev.register_callback(), Some(2));
    // Without an event the interrupt brings nothing.
    assert_eq!(dev.handle_recv_irq(), None);

    let (head, bufs) = host.next_chain(&dev, QueueId::Event).unwrap();
    assert_eq!(bufs, vec![(0x3_0000, 8, true)]);
    let event = VirtioSndEvent { header: VirtioSndHdr { code: VIRTIO_SND_EVT_PCM_XRUN }, data: 1 };
    write_mem(&mut dev, bufs[0].0, &event.to_bytes());
    host.complete(&mut dev, QueueId::Event, head, 8);

    let delivery = dev.handle_recv_irq().unwrap();
    assert_eq!(delivery.payload.len(), 8);
    assert_eq!(VirtioSndEvent::from_bytes(&delivery.payload), Some(event));
    let notification = delivery.notification.clone().unwrap();
    assert_eq!(notification.notification_type(), NotificationType::PcmXrun);
    assert_eq!(notification.data(), 1);
    assert_eq!(delivery.subscribers, 3);
    let mut calls = vec![0usize; 3];
    for subscriber in 0..delivery.subscribers {
        calls[subscriber] += 1;
    }
    assert_eq!(calls, vec![1, 1, 1]);

    // The event buffer is with the device again.
    let (_, bufs) = host.next_chain(&dev, QueueId::Event).unwrap();
    assert_eq!(bufs, vec![(0x3_0000, 8, true)]);
    assert_eq!(dev.handle_recv_irq(), None);
}

#[test]
fn a_whole_playback_against_a_device_that_answers() {
    let mut dev = new_device(2, 0);
    let mut host = Host::new();
    let first = dev.pcm_set_params(
        0,
        80000,
        100,
        PcmFeatures::empty(),
        1,
        PcmFormat::U8,
        PcmRate::Rate8000,
    );
    assert_eq!(finish(&mut dev, &mut host, first, &agree), Ok(Reply::Done));
    let first = dev.pcm_prepare(0);
    assert_eq!(finish(&mut dev, &mut host, first, &agree), Ok(Reply::Done));
    let first = dev.pcm_start(0);
    assert_eq!(finish(&mut dev, &mut host, first, &agree), Ok(Reply::Done));

    let frames = vec![0u8; 80000];
    // Every period is played.
    assert_eq!(dev.pcm_xfer_answered(0, &frames, &[]), (Ok(()), 800));
    assert_eq!(dev.pcm_xfer_answered(0, &frames, &[VIRTIO_SND_S_OK; 900]), (Ok(()), 800));
    // The third period fails: it comes back, and with it the one period
    // that went out while it was with the device.
    let statuses = [VIRTIO_SND_S_OK, VIRTIO_SND_S_OK, VIRTIO_SND_S_IO_ERR];
    let (result, taken) = dev.pcm_xfer_answered(0, &frames, &statuses);
    assert_eq!(result, Err(VirtioDeviceError::IoError(Some(VIRTIO_SND_S_IO_ERR))));
    assert_eq!(taken, 4);
    assert!(taken <= 2 + 5);
    assert!(taken <= 16);
    // The first failure is the one that counts.
    let statuses = [VIRTIO_SND_S_OK, VIRTIO_SND_S_NOT_SUPP, VIRTIO_SND_S_IO_ERR];
    let (result, taken) = dev.pcm_xfer_answered(0, &frames, &statuses);
    assert_eq!(result, Err(VirtioDeviceError::IoError(Some(VIRTIO_SND_S_NOT_SUPP))));
    assert_eq!(taken, 3);
    // A failure behind the last period of the frames does not count.
    let mut late = vec![VIRTIO_SND_S_OK; 800];
    late.push(VIRTIO_SND_S_IO_ERR);
    assert_eq!(dev.pcm_xfer_answered(0, &frames, &late), (Ok(()), 800));
    late[799] = VIRTIO_SND_S_IO_ERR;
    assert_eq!(
        dev.pcm_xfer_answered(0, &frames, &late),
        (Err(VirtioDeviceError::IoError(Some(VIRTIO_SND_S_IO_ERR))), 800)
    );
    // What is left of the frames is a chunk of its own.
    assert_eq!(dev.pcm_xfer_answered(0, &frames[..250], &[]), (Ok(()), 3));
    assert_eq!(dev.pcm_xfer_answered(0, &[], &[VIRTIO_SND_S_IO_ERR]), (Ok(()), 0));
    assert_eq!(dev.queue(QueueId::Tx).available_desc(), 16);
    assert!(!dev.queue(QueueId::Tx).can_pop());
    assert_eq!(dev.pcm_state(0), Some(PCMState::Start));
    // It is refused where a playback is refused.
    assert_eq!(
        dev.pcm_xfer_answered(1, &frames, &[]),
        (Err(VirtioDeviceError::IoError(None)), 0)
    );
    assert_eq!(dev.pcm_xfer_answered(2, &frames, &[]), (Err(VirtioDeviceError::InvalidParam), 0));
    // And where the tx queue holds a completion that was not taken.
    host.complete(&mut dev, QueueId::Tx, 0, 8);
    assert_eq!(dev.pcm_xfer_answered(0, &frames, &[]), (Err(VirtioDeviceError::Busy), 0));
}
