use virtio_sound::bytes::get_u16;
use virtio_sound::bytes::get_u32;
use virtio_sound::bytes::get_u64;
use virtio_sound::bytes::put_u16;
use virtio_sound::bytes::put_u32;
use virtio_sound::bytes::put_u64;
use virtio_sound::codes::ChannelPosition;
use virtio_sound::codes::CommandCode;
use virtio_sound::codes::ItemInformationRequestType;
use virtio_sound::codes::NotificationType;
use virtio_sound::codes::RequestStatusCode;
use virtio_sound::codes::VIRTIO_SND_CHMAP_BRC;
use virtio_sound::codes::VIRTIO_SND_CHMAP_FLW;
use virtio_sound::codes::VIRTIO_SND_CHMAP_RLC;
use virtio_sound::codes::VIRTIO_SND_CHMAP_RRC;
use virtio_sound::codes::VIRTIO_SND_CHMAP_TFRC;
use virtio_sound::codes::VIRTIO_SND_CHMAP_TSL;
use virtio_sound::wire::parse_chmap_infos;
use virtio_sound::wire::parse_pcm_infos;
use virtio_sound::wire::ChannelSlot;
use virtio_sound::wire::Notification;
use virtio_sound::wire::VirtioSndChmapInfo;
use virtio_sound::wire::VirtioSndEvent;
use virtio_sound::wire::VirtioSndHdr;
use virtio_sound::wire::VirtioSndInfo;
use virtio_sound::wire::VirtioSndPcmHdr;
use virtio_sound::wire::VirtioSndPcmInfo;
use virtio_sound::wire::VirtioSndPcmSetParams;
use virtio_sound::wire::VirtioSndPcmStatus;
use virtio_sound::wire::VirtioSndPcmXfer;
use virtio_sound::wire::VirtioSndQueryInfo;

#[test]
fn integers_are_little_endian() {
    let mut out = vec![0xaa];
    put_u16(&mut out, 0x1234);
    put_u32(&mut out, 0x1234_5678);
    put_u64(&mut out, 0x0102_0304_0506_0708);
    assert_eq!(
        out,
        vec![0xaa, 0x34, 0x12, 0x78, 0x56, 0x34, 0x12, 8, 7, 6, 5, 4, 3, 2, 1]
    );
    assert_eq!(get_u16(&out, 1), 0x1234);
    assert_eq!(get_u32(&out, 3), 0x1234_5678);
    assert_eq!(get_u64(&out, 7), 0x0102_0304_0506_0708);
    let mut edge = Vec::new();
    put_u32(&mut edge, u32::MAX);
    put_u64(&mut edge, u64::MAX);
    put_u16(&mut edge, u16::MAX);
    assert_eq!(edge, vec![0xff; 14]);
    assert_eq!(get_u32(&edge, 0), u32::MAX);
    assert_eq!(get_u64(&edge, 4), u64::MAX);
    assert_eq!(get_u16(&edge, 12), u16::MAX);
}

#[test]
fn a_header_is_its_code() {
    let hdr = VirtioSndHdr { code: 0x0102 };
    assert_eq!(hdr.to_bytes(), vec![0x02, 0x01, 0, 0]);
    assert_eq!(VirtioSndHdr::from_bytes(&[0x00, 0x80, 0, 0, 9, 9]), Some(VirtioSndHdr { code: 0x8000 }));
    assert_eq!(VirtioSndHdr::from_bytes(&[0x00, 0x80, 0]), None);
    assert_eq!(VirtioSndHdr::from_bytes(&[]), None);
}

#[test]
fn headers_come_from_codes() {
    assert_eq!(VirtioSndHdr::from(RequestStatusCode::SOk), VirtioSndHdr { code: 0x8000 });
    assert_eq!(VirtioSndHdr::from(RequestStatusCode::IoErr), VirtioSndHdr { code: 0x8003 });
    assert_eq!(VirtioSndHdr::from(CommandCode::RPcmSetParams), VirtioSndHdr { code: 0x0101 });
    assert_eq!(VirtioSndHdr::from(CommandCode::RJackRemap), VirtioSndHdr { code: 2 });
    assert_eq!(
        VirtioSndHdr::from(ItemInformationRequestType::RChmapInfo),
        VirtioSndHdr { code: 0x0200 }
    );
    assert_eq!(u32::from(ItemInformationRequestType::RJackInfo), 1);
    assert_eq!(u32::from(ItemInformationRequestType::RPcmInfo), 0x0100);
}

#[test]
fn command_codes_on_the_wire() {
    let table = [
        (CommandCode::RJackInfo, 1),
        (CommandCode::RJackRemap, 2),
        (CommandCode::RPcmInfo, 0x0100),
        (CommandCode::RPcmSetParams, 0x0101),
        (CommandCode::RPcmPrepare, 0x0102),
        (CommandCode::RPcmRelease, 0x0103),
        (CommandCode::RPcmStart, 0x0104),
        (CommandCode::RPcmStop, 0x0105),
        (CommandCode::RChmapInfo, 0x0200),
        (CommandCode::EvtJackConnected, 0x1000),
        (CommandCode::EvtJackDisconnected, 0x1001),
        (CommandCode::EvtPcmPeriodElapsed, 0x1100),
        (CommandCode::EvtPcmXrun, 0x1101),
        (CommandCode::SOk, 0x8000),
        (CommandCode::SBadMsg, 0x8001),
        (CommandCode::SNotSupp, 0x8002),
        (CommandCode::SIoErr, 0x8003),
    ];
    for (code, value) in table {
        assert_eq!(u32::from(code), value);
        assert_eq!(code.code(), value);
    }
}

#[test]
fn an_event_is_a_header_and_data() {
    let ev = VirtioSndEvent { header: VirtioSndHdr { code: 0x1101 }, data: 1 };
    assert_eq!(ev.to_bytes(), vec![0x01, 0x11, 0, 0, 1, 0, 0, 0]);
    assert_eq!(VirtioSndEvent::from_bytes(&ev.to_bytes()), Some(ev));
    assert_eq!(VirtioSndEvent::from_bytes(&[0x01, 0x11, 0, 0, 1, 0, 0]), None);
}

#[test]
fn a_notification_comes_from_a_known_event() {
    let known = VirtioSndEvent { header: VirtioSndHdr { code: 0x1100 }, data: 3 };
    let n = Notification::from_event(known).unwrap();
    assert_eq!(n.notification_type(), NotificationType::PcmPeriodElapsed);
    assert_eq!(n.data(), 3);
    let jack = VirtioSndEvent { header: VirtioSndHdr { code: 0x1001 }, data: 0xffff_ffff };
    let n = Notification::from_event(jack).unwrap();
    assert_eq!(n.notification_type(), NotificationType::JackDisconnected);
    assert_eq!(n.data(), 0xffff_ffff);
    for code in [0u32, 0x0fff, 0x1002, 0x1102, 0x1200, 0x8000] {
        let unknown = VirtioSndEvent { header: VirtioSndHdr { code }, data: 1 };
        assert_eq!(Notification::from_event(unknown), None);
    }
}

#[test]
fn a_query_has_four_words() {
    let q = VirtioSndQueryInfo {
        hdr: VirtioSndHdr { code: 0x0100 },
        start_id: 1,
        count: 2,
        size: 32,
    };
    assert_eq!(
        q.to_bytes(),
        vec![0x00, 0x01, 0, 0, 1, 0, 0, 0, 2, 0, 0, 0, 32, 0, 0, 0]
    );
    assert_eq!(VirtioSndQueryInfo::from_bytes(&q.to_bytes()), Some(q));
    assert_eq!(VirtioSndQueryInfo::from_bytes(&q.to_bytes()[..15]), None);
}

#[test]
fn a_pcm_header_names_the_stream() {
    let h = VirtioSndPcmHdr { hdr: VirtioSndHdr { code: 0x0104 }, stream_id: 0x0a0b_0c0d };
    assert_eq!(h.to_bytes(), vec![0x04, 0x01, 0, 0, 0x0d, 0x0c, 0x0b, 0x0a]);
    assert_eq!(VirtioSndPcmHdr::from_bytes(&h.to_bytes()), Some(h));
    assert_eq!(VirtioSndPcmHdr::from_bytes(&[0; 7]), None);
}

#[test]
fn set_params_is_24_bytes() {
    let p = VirtioSndPcmSetParams {
        hdr: VirtioSndPcmHdr { hdr: VirtioSndHdr { code: 0x0101 }, stream_id: 1 },
        buffer_bytes: 80000,
        period_bytes: 100,
        features: 0x11,
        channels: 2,
        format: 5,
        rate: 7,
        padding: 0,
    };
    assert_eq!(
        p.to_bytes(),
        vec![
            0x01, 0x01, 0, 0, 1, 0, 0, 0, 0x80, 0x38, 0x01, 0, 100, 0, 0, 0, 0x11, 0, 0, 0, 2, 5,
            7, 0
        ]
    );
    assert_eq!(VirtioSndPcmSetParams::from_bytes(&p.to_bytes()), Some(p));
    assert_eq!(VirtioSndPcmSetParams::from_bytes(&p.to_bytes()[..23]), None);
}

fn pcm_info() -> VirtioSndPcmInfo {
    VirtioSndPcmInfo {
        hdr: VirtioSndInfo { hda_fn_nid: 0x0102_0304 },
        features: 0x1f,
        formats: 0x0000_0001_0000_0020,
        rates: 0x00c0,
        direction: 1,
        channels_min: 1,
        channels_max: 8,
        padding: [1, 2, 3, 4, 5],
    }
}

#[test]
fn a_pcm_record_is_32_bytes() {
    let bytes = pcm_info().to_bytes();
    assert_eq!(
        bytes,
        vec![
            4, 3, 2, 1, 0x1f, 0, 0, 0, 0x20, 0, 0, 0, 1, 0, 0, 0, 0xc0, 0, 0, 0, 0, 0, 0, 0, 1,
            1, 8, 1, 2, 3, 4, 5
        ]
    );
    assert_eq!(VirtioSndPcmInfo::from_bytes(&bytes), Some(pcm_info()));
    assert_eq!(VirtioSndPcmInfo::from_bytes(&bytes[..31]), None);
}

fn chmap_info() -> VirtioSndChmapInfo {
    let mut positions = [0u8; 18];
    positions[0] = 3;
    positions[1] = 4;
    positions[2] = 15;
    positions[3] = 36;
    positions[17] = 9;
    VirtioSndChmapInfo { hdr: VirtioSndInfo { hda_fn_nid: 5 }, direction: 0, channels: 4, positions }
}

#[test]
fn a_channel_map_record_is_24_bytes() {
    let bytes = chmap_info().to_bytes();
    assert_eq!(
        bytes,
        vec![5, 0, 0, 0, 0, 4, 3, 4, 15, 36, 0, 0, 0, 0, 0, 0, 0, 0, 0, 0, 0, 0, 0, 9]
    );
    assert_eq!(VirtioSndChmapInfo::from_bytes(&bytes), Some(chmap_info()));
    assert_eq!(VirtioSndChmapInfo::from_bytes(&bytes[..23]), None);
}

#[test]
fn channel_slots_show_positions_by_name() {
    assert_eq!(
        chmap_info().channel_slots(),
        vec![
            ChannelSlot::Known(ChannelPosition::Fl),
            ChannelSlot::Known(ChannelPosition::Fr),
            ChannelSlot::Known(ChannelPosition::Rrc),
            ChannelSlot::Known(ChannelPosition::Brc),
        ]
    );
    let mut unknown = chmap_info();
    unknown.positions[1] = 37;
    unknown.positions[3] = 255;
    assert_eq!(
        unknown.channel_slots(),
        vec![
            ChannelSlot::Known(ChannelPosition::Fl),
            ChannelSlot::Unknown(37),
            ChannelSlot::Known(ChannelPosition::Rrc),
            ChannelSlot::Unknown(255),
        ]
    );
    let mut all = chmap_info();
    all.channels = 200;
    assert_eq!(all.channel_slots().len(), 18);
    assert_eq!(all.channel_slots()[17], ChannelSlot::Known(ChannelPosition::Sl));
    let mut none = chmap_info();
    none.channels = 0;
    assert_eq!(none.channel_slots(), vec![]);
}

const POSITIONS: [ChannelPosition; 37] = [
    ChannelPosition::Undefined,
    ChannelPosition::Na,
    ChannelPosition::Mono,
    ChannelPosition::Fl,
    ChannelPosition::Fr,
    ChannelPosition::Rl,
    ChannelPosition::Rr,
    ChannelPosition::Fc,
    ChannelPosition::Lfe,
    ChannelPosition::Sl,
    ChannelPosition::Sr,
    ChannelPosition::Rc,
    ChannelPosition::Flc,
    ChannelPosition::Frc,
    ChannelPosition::Rlc,
    ChannelPosition::Rrc,
    ChannelPosition::Flw,
    ChannelPosition::Frw,
    ChannelPosition::Flh,
    ChannelPosition::Fch,
    ChannelPosition::Frh,
    ChannelPosition::Tc,
    ChannelPosition::Tfl,
    ChannelPosition::Tfr,
    ChannelPosition::Tfc,
    ChannelPosition::Trl,
    ChannelPosition::Trr,
    ChannelPosition::Trc,
    ChannelPosition::Tflc,
    ChannelPosition::Tfrc,
    ChannelPosition::Tsl,
    ChannelPosition::Tsr,
    ChannelPosition::Llfe,
    ChannelPosition::Rlfe,
    ChannelPosition::Bc,
    ChannelPosition::Blc,
    ChannelPosition::Brc,
];

#[test]
fn channel_positions_from_bytes() {
    for (number, position) in POSITIONS.iter().enumerate() {
        assert_eq!(position.number(), number as u8);
        assert_eq!(ChannelPosition::try_from(number as u8), Ok(*position));
    }
    for value in 37..=255u8 {
        assert_eq!(ChannelPosition::try_from(value), Err(()));
    }
    assert_eq!(ChannelPosition::try_from(VIRTIO_SND_CHMAP_RLC), Ok(ChannelPosition::Rlc));
    assert_eq!(ChannelPosition::try_from(VIRTIO_SND_CHMAP_RRC), Ok(ChannelPosition::Rrc));
    assert_eq!(ChannelPosition::try_from(VIRTIO_SND_CHMAP_FLW), Ok(ChannelPosition::Flw));
    assert_eq!(ChannelPosition::try_from(VIRTIO_SND_CHMAP_TFRC), Ok(ChannelPosition::Tfrc));
    assert_eq!(ChannelPosition::try_from(VIRTIO_SND_CHMAP_TSL), Ok(ChannelPosition::Tsl));
    assert_eq!(ChannelPosition::try_from(VIRTIO_SND_CHMAP_BRC), Ok(ChannelPosition::Brc));
    assert_eq!((VIRTIO_SND_CHMAP_RRC, VIRTIO_SND_CHMAP_FLW), (15, 16));
    assert_eq!((VIRTIO_SND_CHMAP_TSL, VIRTIO_SND_CHMAP_BRC), (30, 36));
}

#[test]
fn a_transfer_header_and_a_status() {
    let x = VirtioSndPcmXfer { stream_id: 0x0100 };
    assert_eq!(x.to_bytes(), vec![0, 1, 0, 0]);
    assert_eq!(VirtioSndPcmXfer::from_bytes(&x.to_bytes()), Some(x));
    assert_eq!(VirtioSndPcmXfer::from_bytes(&[1, 2, 3]), None);
    let st = VirtioSndPcmStatus { status: 0x8003, latency_bytes: 0x400 };
    assert_eq!(st.to_bytes(), vec![0x03, 0x80, 0, 0, 0, 4, 0, 0]);
    assert_eq!(VirtioSndPcmStatus::from_bytes(&st.to_bytes()), Some(st));
    assert_eq!(VirtioSndPcmStatus::from_bytes(&[0; 7]), None);
    assert_eq!(VirtioSndPcmStatus::default(), VirtioSndPcmStatus { status: 0, latency_bytes: 0 });
}

#[test]
fn records_are_read_back_from_a_response_in_order() {
    for count in 1..=5usize {
        let mut infos = Vec::new();
        let mut response = VirtioSndHdr { code: 0x8000 }.to_bytes();
        for i in 0..count {
            let mut info = pcm_info();
            info.hdr.hda_fn_nid = i as u32;
            info.direction = (i % 2) as u8;
            info.padding = [i as u8; 5];
            response.extend(info.to_bytes());
            infos.push(info);
        }
        // What stands behind the records in the buffer does not matter.
        response.extend(vec![0xee; 40]);
        assert_eq!(parse_pcm_infos(&response, count), infos);
        assert_eq!(parse_pcm_infos(&response, count - 1), infos[..count - 1].to_vec());
    }
    assert_eq!(parse_pcm_infos(&[0, 0x80, 0, 0], 0), vec![]);
}

#[test]
fn channel_maps_are_read_back_from_a_response_in_order() {
    let mut second = chmap_info();
    second.direction = 1;
    second.channels = 1;
    let mut response = VirtioSndHdr { code: 0x8000 }.to_bytes();
    response.extend(chmap_info().to_bytes());
    response.extend(second.to_bytes());
    assert_eq!(parse_chmap_infos(&response, 2), vec![chmap_info(), second]);
    assert_eq!(parse_chmap_infos(&response, 1), vec![chmap_info()]);
    assert_eq!(parse_chmap_infos(&response, 0), vec![]);
}
