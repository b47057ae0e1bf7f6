//! The records that driver and device exchange, and their layout in bytes.
//!
//! Every record is packed and little-endian. Its `encoding` is the sequence
//! of bytes that stands for it on the wire; `to_bytes` writes it and
//! `from_bytes` reads a record from the front of a buffer.

use vstd::prelude::*;
use vstd::std_specs::convert::FromSpecImpl;
use crate::bytes::get_u32;
use crate::bytes::get_u64;
use crate::bytes::le_u32;
use crate::bytes::le_u64;
use crate::bytes::lemma_field_u32;
use crate::bytes::lemma_field_u64;
use crate::bytes::lemma_le_injective;
use crate::bytes::put_u32;
use crate::bytes::put_u64;
use crate::bytes::u32_of_le;
use crate::codes::channel_position_of;
use crate::codes::ChannelPosition;
use crate::codes::CommandCode;
use crate::codes::ItemInformationRequestType;
use crate::codes::NotificationType;
use crate::codes::RequestStatusCode;
use crate::codes::VIRTIO_SND_CHMAP_MAX_SIZE;
use crate::codes::VIRTIO_SND_D_INPUT;
use crate::codes::VIRTIO_SND_D_OUTPUT;

verus! {

/// Size of a [`VirtioSndHdr`] in bytes.
pub const SND_HDR_SIZE: usize = 4;

/// Size of a [`VirtioSndInfo`] in bytes.
pub const SND_INFO_SIZE: usize = 4;

/// Size of a [`VirtioSndEvent`] in bytes.
pub const SND_EVENT_SIZE: usize = 8;

/// Size of a [`VirtioSndQueryInfo`] in bytes.
pub const QUERY_INFO_SIZE: usize = 16;

/// Size of a [`VirtioSndPcmHdr`] in bytes.
pub const PCM_HDR_SIZE: usize = 8;

/// Size of a [`VirtioSndPcmSetParams`] in bytes.
pub const PCM_SET_PARAMS_SIZE: usize = 24;

/// Size of a [`VirtioSndPcmInfo`] in bytes.
pub const PCM_INFO_SIZE: usize = 32;

/// Size of a [`VirtioSndPcmXfer`] in bytes.
pub const PCM_XFER_SIZE: usize = 4;

/// Size of a [`VirtioSndPcmStatus`] in bytes.
pub const PCM_STATUS_SIZE: usize = 8;

/// Size of a [`VirtioSndChmapInfo`] in bytes.
pub const CHMAP_INFO_SIZE: usize = 24;

/// The common header of requests and responses.
#[derive(Debug, Clone, Copy, PartialEq, Eq, Structural)]
pub struct VirtioSndHdr {
    /// A request type (`VIRTIO_SND_R_*`) or a response status (`VIRTIO_SND_S_*`).
    pub code: u32,
}

impl VirtioSndHdr {
    /// The bytes that stand for the record on the wire.
    pub open spec fn encoding(self) -> Seq<u8> {
        le_u32(self.code)
    }

    /// The record as it stands on the wire.
    pub fn to_bytes(&self) -> (r: Vec<u8>)
        ensures
            r@ == self.encoding(),
    {
        let mut out: Vec<u8> = Vec::new();
        put_u32(&mut out, self.code);
        assert(out@ =~= self.encoding());
        out
    }

    /// Reads a header from the front of `bytes`, if they are enough.
    pub fn from_bytes(bytes: &[u8]) -> (r: Option<Self>)
        ensures
            bytes@.len() < SND_HDR_SIZE ==> r is None,
            bytes@.len() >= SND_HDR_SIZE ==> r is Some && r->Some_0.encoding() == bytes@.take(
                SND_HDR_SIZE as int,
            ) && r->Some_0.code == u32_of_le(bytes@),
    {
        if bytes.len() < SND_HDR_SIZE {
            return None;
        }
        let hdr = VirtioSndHdr { code: get_u32(bytes, 0) };
        proof {
            assert(bytes@.skip(0) =~= bytes@);
            lemma_field_u32(bytes@, 0);
            assert(bytes@.subrange(0, 4) =~= bytes@.take(4));
        }
        Some(hdr)
    }
}

impl From<RequestStatusCode> for VirtioSndHdr {
    fn from(value: RequestStatusCode) -> (r: Self) {
        VirtioSndHdr { code: value.code() }
    }
}

impl FromSpecImpl<RequestStatusCode> for VirtioSndHdr {
    open spec fn obeys_from_spec() -> bool {
        true
    }

    open spec fn from_spec(value: RequestStatusCode) -> Self {
        VirtioSndHdr { code: value.code_spec() }
    }
}

impl From<CommandCode> for VirtioSndHdr {
    fn from(value: CommandCode) -> (r: Self) {
        VirtioSndHdr { code: value.code() }
    }
}

impl FromSpecImpl<CommandCode> for VirtioSndHdr {
    open spec fn obeys_from_spec() -> bool {
        true
    }

    open spec fn from_spec(value: CommandCode) -> Self {
        VirtioSndHdr { code: value.code_spec() }
    }
}

impl From<ItemInformationRequestType> for VirtioSndHdr {
    fn from(value: ItemInformationRequestType) -> (r: Self) {
        VirtioSndHdr { code: value.code() }
    }
}

impl FromSpecImpl<ItemInformationRequestType> for VirtioSndHdr {
    open spec fn obeys_from_spec() -> bool {
        true
    }

    open spec fn from_spec(value: ItemInformationRequestType) -> Self {
        VirtioSndHdr { code: value.code_spec() }
    }
}

/// An event notification.
#[derive(Debug, Clone, Copy, PartialEq, Eq, Structural)]
pub struct VirtioSndEvent {
    /// The event type (`VIRTIO_SND_EVT_*`).
    pub header: VirtioSndHdr,
    /// Optional event data.
    pub data: u32,
}

impl VirtioSndEvent {
    /// The bytes that stand for the record on the wire.
    pub open spec fn encoding(self) -> Seq<u8> {
        le_u32(self.header.code) + le_u32(self.data)
    }

    /// The record as it stands on the wire.
    pub fn to_bytes(&self) -> (r: Vec<u8>)
        ensures
            r@ == self.encoding(),
    {
        let mut out: Vec<u8> = Vec::new();
        put_u32(&mut out, self.header.code);
        put_u32(&mut out, self.data);
        assert(out@ =~= self.encoding());
        out
    }

    /// Reads an event from the front of `bytes`, if they are enough.
    pub fn from_bytes(bytes: &[u8]) -> (r: Option<Self>)
        ensures
            bytes@.len() < SND_EVENT_SIZE ==> r is None,
            bytes@.len() >= SND_EVENT_SIZE ==> r is Some && r->Some_0.encoding() == bytes@.take(
                SND_EVENT_SIZE as int,
            ),
    {
        if bytes.len() < SND_EVENT_SIZE {
            return None;
        }
        let ev = VirtioSndEvent {
            header: VirtioSndHdr { code: get_u32(bytes, 0) },
            data: get_u32(bytes, 4),
        };
        proof {
            lemma_field_u32(bytes@, 0);
            lemma_field_u32(bytes@, 4);
            assert(bytes@.subrange(0, 4) + bytes@.subrange(4, 8) =~= bytes@.take(8));
        }
        Some(ev)
    }
}

/// Notification from the sound device.
#[derive(Debug, Clone, PartialEq, Eq)]
pub struct Notification {
    notification_type: NotificationType,
    data: u32,
}

impl Notification {
    /// The data of the notification.
    pub closed spec fn spec_data(&self) -> u32 {
        self.data
    }

    /// The type of the notification.
    pub closed spec fn spec_notification_type(&self) -> NotificationType {
        self.notification_type
    }

    /// The notification that an event stands for, unless its code is unknown.
    pub fn from_event(event: VirtioSndEvent) -> (r: Option<Self>)
        ensures
            match NotificationType::n_spec(event.header.code) {
                Some(t) => r is Some && r->Some_0.spec_notification_type() == t
                    && r->Some_0.spec_data() == event.data,
                None => r is None,
            },
    {
        match NotificationType::n(event.header.code) {
            Some(notification_type) => Some(Notification { notification_type, data: event.data }),
            None => None,
        }
    }

    /// Get the resource index.
    pub fn data(&self) -> (r: u32)
        ensures
            r == self.spec_data(),
    {
        self.data
    }

    /// Get the notification type.
    pub fn notification_type(&self) -> (r: NotificationType)
        ensures
            r == self.spec_notification_type(),
    {
        self.notification_type
    }
}

/// A request for information about any kind of configuration item.
#[derive(Debug, Clone, Copy, PartialEq, Eq, Structural)]
pub struct VirtioSndQueryInfo {
    /// The item request type (`VIRTIO_SND_R_*_INFO`).
    pub hdr: VirtioSndHdr,
    /// The first item asked about.
    pub start_id: u32,
    /// The number of items asked about.
    pub count: u32,
    /// The size of the record that describes one item.
    pub size: u32,
}

impl VirtioSndQueryInfo {
    /// The bytes that stand for the record on the wire.
    pub open spec fn encoding(self) -> Seq<u8> {
        le_u32(self.hdr.code) + le_u32(self.start_id) + le_u32(self.count) + le_u32(self.size)
    }

    /// The record as it stands on the wire.
    pub fn to_bytes(&self) -> (r: Vec<u8>)
        ensures
            r@ == self.encoding(),
    {
        let mut out: Vec<u8> = Vec::new();
        put_u32(&mut out, self.hdr.code);
        put_u32(&mut out, self.start_id);
        put_u32(&mut out, self.count);
        put_u32(&mut out, self.size);
        assert(out@ =~= self.encoding());
        out
    }

    /// Reads a query from the front of `bytes`, if they are enough.
    pub fn from_bytes(bytes: &[u8]) -> (r: Option<Self>)
        ensures
            bytes@.len() < QUERY_INFO_SIZE ==> r is None,
            bytes@.len() >= QUERY_INFO_SIZE ==> r is Some && r->Some_0.encoding()
                == bytes@.take(QUERY_INFO_SIZE as int),
    {
        if bytes.len() < QUERY_INFO_SIZE {
            return None;
        }
        let q = VirtioSndQueryInfo {
            hdr: VirtioSndHdr { code: get_u32(bytes, 0) },
            start_id: get_u32(bytes, 4),
            count: get_u32(bytes, 8),
            size: get_u32(bytes, 12),
        };
        proof {
            lemma_field_u32(bytes@, 0);
            lemma_field_u32(bytes@, 4);
            lemma_field_u32(bytes@, 8);
            lemma_field_u32(bytes@, 12);
            assert(bytes@.subrange(0, 4) + bytes@.subrange(4, 8) + bytes@.subrange(8, 12)
                + bytes@.subrange(12, 16) =~= bytes@.take(16));
        }
        Some(q)
    }
}

/// The common head of an information record.
#[derive(Debug, Clone, Copy, PartialEq, Eq, Structural)]
pub struct VirtioSndInfo {
    /// A function group node identifier, which links resources of different kinds.
    pub hda_fn_nid: u32,
}

/// The common header of a PCM control request.
#[derive(Debug, Clone, Copy, PartialEq, Eq, Structural)]
pub struct VirtioSndPcmHdr {
    /// The request type (`VIRTIO_SND_R_PCM_*`).
    pub hdr: VirtioSndHdr,
    /// The stream, from 0 to streams - 1.
    pub stream_id: u32,
}

impl VirtioSndPcmHdr {
    /// The bytes that stand for the record on the wire.
    pub open spec fn encoding(self) -> Seq<u8> {
        le_u32(self.hdr.code) + le_u32(self.stream_id)
    }

    /// The record as it stands on the wire.
    pub fn to_bytes(&self) -> (r: Vec<u8>)
        ensures
            r@ == self.encoding(),
    {
        let mut out: Vec<u8> = Vec::new();
        put_u32(&mut out, self.hdr.code);
        put_u32(&mut out, self.stream_id);
        assert(out@ =~= self.encoding());
        out
    }

    /// Reads a PCM header from the front of `bytes`, if they are enough.
    pub fn from_bytes(bytes: &[u8]) -> (r: Option<Self>)
        ensures
            bytes@.len() < PCM_HDR_SIZE ==> r is None,
            bytes@.len() >= PCM_HDR_SIZE ==> r is Some && r->Some_0.encoding() == bytes@.take(
                PCM_HDR_SIZE as int,
            ),
    {
        if bytes.len() < PCM_HDR_SIZE {
            return None;
        }
        let h = VirtioSndPcmHdr {
            hdr: VirtioSndHdr { code: get_u32(bytes, 0) },
            stream_id: get_u32(bytes, 4),
        };
        proof {
            lemma_field_u32(bytes@, 0);
            lemma_field_u32(bytes@, 4);
            assert(bytes@.subrange(0, 4) + bytes@.subrange(4, 8) =~= bytes@.take(8));
        }
        Some(h)
    }
}

/// What the device reports of one PCM stream.
#[derive(Debug, Clone, Copy, PartialEq, Eq)]
pub struct VirtioSndPcmInfo {
    pub hdr: VirtioSndInfo,
    /// Bit map of the supported features.
    pub features: u32,
    /// Bit map of the supported sample formats.
    pub formats: u64,
    /// Bit map of the supported frame rates.
    pub rates: u64,
    /// The direction of data flow (`VIRTIO_SND_D_*`).
    pub direction: u8,
    /// Smallest number of channels supported.
    pub channels_min: u8,
    /// Largest number of channels supported.
    pub channels_max: u8,
    pub padding: [u8; 5],
}

impl VirtioSndPcmInfo {
    /// The bytes that stand for the record on the wire.
    pub open spec fn encoding(self) -> Seq<u8> {
        le_u32(self.hdr.hda_fn_nid) + le_u32(self.features) + le_u64(self.formats) + le_u64(
            self.rates,
        ) + seq![self.direction, self.channels_min, self.channels_max] + self.padding@
    }

    /// Whether the stream carries data from the device to the driver.
    pub open spec fn is_input(self) -> bool {
        self.direction == VIRTIO_SND_D_INPUT
    }

    /// Whether the stream carries data from the driver to the device.
    pub open spec fn is_output(self) -> bool {
        self.direction == VIRTIO_SND_D_OUTPUT
    }

    /// The record as it stands on the wire.
    pub fn to_bytes(&self) -> (r: Vec<u8>)
        ensures
            r@ == self.encoding(),
    {
        let mut out: Vec<u8> = Vec::new();
        put_u32(&mut out, self.hdr.hda_fn_nid);
        put_u32(&mut out, self.features);
        put_u64(&mut out, self.formats);
        put_u64(&mut out, self.rates);
        out.push(self.direction);
        out.push(self.channels_min);
        out.push(self.channels_max);
        let mut i: usize = 0;
        while i < 5
            invariant
                i <= 5,
                out@ == le_u32(self.hdr.hda_fn_nid) + le_u32(self.features) + le_u64(
                    self.formats,
                ) + le_u64(self.rates) + seq![
                    self.direction,
                    self.channels_min,
                    self.channels_max,
                ] + self.padding@.take(i as int),
            decreases 5 - i,
        {
            out.push(self.padding[i]);
            assert(self.padding@.take(i as int).push(self.padding@[i as int])
                =~= self.padding@.take(i + 1));
            i = i + 1;
        }
        assert(self.padding@.take(5) =~= self.padding@);
        out
    }

    /// Reads a record from the front of `bytes`, if they are enough.
    pub fn from_bytes(bytes: &[u8]) -> (r: Option<Self>)
        ensures
            bytes@.len() < PCM_INFO_SIZE ==> r is None,
            bytes@.len() >= PCM_INFO_SIZE ==> r is Some && r->Some_0.encoding() == bytes@.take(
                PCM_INFO_SIZE as int,
            ) && r->Some_0 == pcm_info_of(bytes@),
    {
        if bytes.len() < PCM_INFO_SIZE {
            return None;
        }
        let info = VirtioSndPcmInfo {
            hdr: VirtioSndInfo { hda_fn_nid: get_u32(bytes, 0) },
            features: get_u32(bytes, 4),
            formats: get_u64(bytes, 8),
            rates: get_u64(bytes, 16),
            direction: bytes[24],
            channels_min: bytes[25],
            channels_max: bytes[26],
            padding: [bytes[27], bytes[28], bytes[29], bytes[30], bytes[31]],
        };
        proof {
            lemma_field_u32(bytes@, 0);
            lemma_field_u32(bytes@, 4);
            lemma_field_u64(bytes@, 8);
            lemma_field_u64(bytes@, 16);
            assert(info.padding@ =~= bytes@.subrange(27, 32));
            assert(seq![info.direction, info.channels_min, info.channels_max] =~= bytes@.subrange(
                24,
                27,
            ));
            assert(bytes@.subrange(0, 4) + bytes@.subrange(4, 8) + bytes@.subrange(8, 16)
                + bytes@.subrange(16, 24) + bytes@.subrange(24, 27) + bytes@.subrange(27, 32)
                =~= bytes@.take(32));
            lemma_pcm_info_encoding(pcm_info_of(bytes@), info);
        }
        Some(info)
    }
}

/// The parameters that a request sets for one stream.
#[derive(Debug, Clone, Copy, PartialEq, Eq, Structural)]
pub struct VirtioSndPcmSetParams {
    pub hdr: VirtioSndPcmHdr,
    /// The size of the hardware buffer used by the driver.
    pub buffer_bytes: u32,
    /// The size of the hardware period used by the driver.
    pub period_bytes: u32,
    /// The selected feature bit map.
    pub features: u32,
    /// The selected number of channels.
    pub channels: u8,
    /// The selector of the sample format.
    pub format: u8,
    /// The selector of the frame rate.
    pub rate: u8,
    pub padding: u8,
}

impl VirtioSndPcmSetParams {
    /// The bytes that stand for the record on the wire.
    pub open spec fn encoding(self) -> Seq<u8> {
        le_u32(self.hdr.hdr.code) + le_u32(self.hdr.stream_id) + le_u32(self.buffer_bytes)
            + le_u32(self.period_bytes) + le_u32(self.features) + seq![
            self.channels,
            self.format,
            self.rate,
            self.padding,
        ]
    }

    /// The record as it stands on the wire.
    pub fn to_bytes(&self) -> (r: Vec<u8>)
        ensures
            r@ == self.encoding(),
    {
        let mut out: Vec<u8> = Vec::new();
        put_u32(&mut out, self.hdr.hdr.code);
        put_u32(&mut out, self.hdr.stream_id);
        put_u32(&mut out, self.buffer_bytes);
        put_u32(&mut out, self.period_bytes);
        put_u32(&mut out, self.features);
        out.push(self.channels);
        out.push(self.format);
        out.push(self.rate);
        out.push(self.padding);
        assert(out@ =~= self.encoding());
        out
    }

    /// Reads a request from the front of `bytes`, if they are enough.
    pub fn from_bytes(bytes: &[u8]) -> (r: Option<Self>)
        ensures
            bytes@.len() < PCM_SET_PARAMS_SIZE ==> r is None,
            bytes@.len() >= PCM_SET_PARAMS_SIZE ==> r is Some && r->Some_0.encoding()
                == bytes@.take(PCM_SET_PARAMS_SIZE as int),
    {
        if bytes.len() < PCM_SET_PARAMS_SIZE {
            return None;
        }
        let p = VirtioSndPcmSetParams {
            hdr: VirtioSndPcmHdr {
                hdr: VirtioSndHdr { code: get_u32(bytes, 0) },
                stream_id: get_u32(bytes, 4),
            },
            buffer_bytes: get_u32(bytes, 8),
            period_bytes: get_u32(bytes, 12),
            features: get_u32(bytes, 16),
            channels: bytes[20],
            format: bytes[21],
            rate: bytes[22],
            padding: bytes[23],
        };
        proof {
            lemma_field_u32(bytes@, 0);
            lemma_field_u32(bytes@, 4);
            lemma_field_u32(bytes@, 8);
            lemma_field_u32(bytes@, 12);
            lemma_field_u32(bytes@, 16);
            assert(seq![p.channels, p.format, p.rate, p.padding] =~= bytes@.subrange(20, 24));
            assert(bytes@.subrange(0, 4) + bytes@.subrange(4, 8) + bytes@.subrange(8, 12)
                + bytes@.subrange(12, 16) + bytes@.subrange(16, 20) + bytes@.subrange(20, 24)
                =~= bytes@.take(24));
        }
        Some(p)
    }
}

/// The header that goes before the frames of one PCM transfer.
#[derive(Debug, Clone, Copy, PartialEq, Eq, Structural)]
pub struct VirtioSndPcmXfer {
    /// The stream, from 0 to streams - 1.
    pub stream_id: u32,
}

impl VirtioSndPcmXfer {
    /// The bytes that stand for the record on the wire.
    pub open spec fn encoding(self) -> Seq<u8> {
        le_u32(self.stream_id)
    }

    /// The record as it stands on the wire.
    pub fn to_bytes(&self) -> (r: Vec<u8>)
        ensures
            r@ == self.encoding(),
    {
        let mut out: Vec<u8> = Vec::new();
        put_u32(&mut out, self.stream_id);
        assert(out@ =~= self.encoding());
        out
    }

    /// Reads a transfer header from the front of `bytes`, if they are enough.
    pub fn from_bytes(bytes: &[u8]) -> (r: Option<Self>)
        ensures
            bytes@.len() < PCM_XFER_SIZE ==> r is None,
            bytes@.len() >= PCM_XFER_SIZE ==> r is Some && r->Some_0.encoding() == bytes@.take(
                PCM_XFER_SIZE as int,
            ),
    {
        if bytes.len() < PCM_XFER_SIZE {
            return None;
        }
        let x = VirtioSndPcmXfer { stream_id: get_u32(bytes, 0) };
        proof {
            lemma_field_u32(bytes@, 0);
            assert(bytes@.subrange(0, 4) =~= bytes@.take(4));
        }
        Some(x)
    }
}

/// The status that the device writes after the frames of one PCM transfer.
#[derive(Debug, Clone, Copy, PartialEq, Eq, Structural)]
pub struct VirtioSndPcmStatus {
    /// `VIRTIO_SND_S_OK` if the transfer went well, `VIRTIO_SND_S_IO_ERR` otherwise.
    pub status: u32,
    /// The current device latency.
    pub latency_bytes: u32,
}

impl VirtioSndPcmStatus {
    /// The bytes that stand for the record on the wire.
    pub open spec fn encoding(self) -> Seq<u8> {
        le_u32(self.status) + le_u32(self.latency_bytes)
    }

    /// The record as it stands on the wire.
    pub fn to_bytes(&self) -> (r: Vec<u8>)
        ensures
            r@ == self.encoding(),
    {
        let mut out: Vec<u8> = Vec::new();
        put_u32(&mut out, self.status);
        put_u32(&mut out, self.latency_bytes);
        assert(out@ =~= self.encoding());
        out
    }

    /// Reads a status from the front of `bytes`, if they are enough.
    pub fn from_bytes(bytes: &[u8]) -> (r: Option<Self>)
        ensures
            bytes@.len() < PCM_STATUS_SIZE ==> r is None,
            bytes@.len() >= PCM_STATUS_SIZE ==> r is Some && r->Some_0.encoding()
                == bytes@.take(PCM_STATUS_SIZE as int) && r->Some_0.status == u32_of_le(bytes@),
    {
        if bytes.len() < PCM_STATUS_SIZE {
            return None;
        }
        let st = VirtioSndPcmStatus { status: get_u32(bytes, 0), latency_bytes: get_u32(bytes, 4) };
        proof {
            assert(bytes@.skip(0) =~= bytes@);
            lemma_field_u32(bytes@, 0);
            lemma_field_u32(bytes@, 4);
            assert(bytes@.subrange(0, 4) + bytes@.subrange(4, 8) =~= bytes@.take(8));
        }
        Some(st)
    }
}

impl Default for VirtioSndPcmStatus {
    fn default() -> (r: Self)
        ensures
            r == (VirtioSndPcmStatus { status: 0, latency_bytes: 0 }),
    {
        VirtioSndPcmStatus { status: 0, latency_bytes: 0 }
    }
}

/// What the device reports of one channel map.
#[derive(Debug, Clone, Copy, PartialEq, Eq)]
pub struct VirtioSndChmapInfo {
    pub hdr: VirtioSndInfo,
    /// The direction of data flow (`VIRTIO_SND_D_*`).
    pub direction: u8,
    /// The number of valid channel position values.
    pub channels: u8,
    /// The channel position values (`VIRTIO_SND_CHMAP_*`).
    pub positions: [u8; 18],
}

/// A byte of a channel map: the position that it is shown as, or the byte
/// itself where it stands for none.
#[derive(Debug, Clone, Copy, PartialEq, Eq)]
pub enum ChannelSlot {
    Known(ChannelPosition),
    Unknown(u8),
}

/// How a byte of a channel map is shown.
pub open spec fn channel_slot_of(value: u8) -> ChannelSlot {
    match channel_position_of(value) {
        Some(p) => ChannelSlot::Known(p),
        None => ChannelSlot::Unknown(value),
    }
}

impl VirtioSndChmapInfo {
    /// The bytes that stand for the record on the wire.
    pub open spec fn encoding(self) -> Seq<u8> {
        le_u32(self.hdr.hda_fn_nid) + seq![self.direction, self.channels] + self.positions@
    }

    /// The number of positions that the record can show: the number of
    /// channels that it gives, and no more than it has room for.
    pub open spec fn valid_channels(self) -> nat {
        if self.channels as nat > VIRTIO_SND_CHMAP_MAX_SIZE as nat {
            VIRTIO_SND_CHMAP_MAX_SIZE as nat
        } else {
            self.channels as nat
        }
    }

    /// The record as it stands on the wire.
    pub fn to_bytes(&self) -> (r: Vec<u8>)
        ensures
            r@ == self.encoding(),
    {
        let mut out: Vec<u8> = Vec::new();
        put_u32(&mut out, self.hdr.hda_fn_nid);
        out.push(self.direction);
        out.push(self.channels);
        let mut i: usize = 0;
        while i < 18
            invariant
                i <= 18,
                out@ == le_u32(self.hdr.hda_fn_nid) + seq![self.direction, self.channels]
                    + self.positions@.take(i as int),
            decreases 18 - i,
        {
            out.push(self.positions[i]);
            assert(self.positions@.take(i as int).push(self.positions@[i as int])
                =~= self.positions@.take(i + 1));
            i = i + 1;
        }
        assert(self.positions@.take(18) =~= self.positions@);
        out
    }

    /// Reads a record from the front of `bytes`, if they are enough.
    pub fn from_bytes(bytes: &[u8]) -> (r: Option<Self>)
        ensures
            bytes@.len() < CHMAP_INFO_SIZE ==> r is None,
            bytes@.len() >= CHMAP_INFO_SIZE ==> r is Some && r->Some_0.encoding()
                == bytes@.take(CHMAP_INFO_SIZE as int) && r->Some_0 == chmap_info_of(bytes@),
    {
        if bytes.len() < CHMAP_INFO_SIZE {
            return None;
        }
        let info = VirtioSndChmapInfo {
            hdr: VirtioSndInfo { hda_fn_nid: get_u32(bytes, 0) },
            direction: bytes[4],
            channels: bytes[5],
            positions: [
                bytes[6],
                bytes[7],
                bytes[8],
                bytes[9],
                bytes[10],
                bytes[11],
                bytes[12],
                bytes[13],
                bytes[14],
                bytes[15],
                bytes[16],
                bytes[17],
                bytes[18],
                bytes[19],
                bytes[20],
                bytes[21],
                bytes[22],
                bytes[23],
            ],
        };
        proof {
            lemma_field_u32(bytes@, 0);
            assert(info.positions@ =~= bytes@.subrange(6, 24));
            assert(seq![info.direction, info.channels] =~= bytes@.subrange(4, 6));
            assert(bytes@.subrange(0, 4) + bytes@.subrange(4, 6) + bytes@.subrange(6, 24)
                =~= bytes@.take(24));
            lemma_chmap_info_encoding(chmap_info_of(bytes@), info);
        }
        Some(info)
    }

    /// The positions of the channels, in order, each shown by name where its
    /// byte stands for a position.
    pub fn channel_slots(&self) -> (r: Vec<ChannelSlot>)
        ensures
            r@.len() == self.valid_channels(),
            forall|i: int|
                0 <= i < r@.len() ==> #[trigger] r@[i] == channel_slot_of(self.positions@[i]),
    {
        let n: usize = if self.channels as usize > VIRTIO_SND_CHMAP_MAX_SIZE {
            VIRTIO_SND_CHMAP_MAX_SIZE
        } else {
            self.channels as usize
        };
        let mut out: Vec<ChannelSlot> = Vec::new();
        let mut i: usize = 0;
        while i < n
            invariant
                i <= n <= 18,
                out@.len() == i,
                forall|j: int|
                    0 <= j < i ==> #[trigger] out@[j] == channel_slot_of(self.positions@[j]),
            decreases n - i,
        {
            let value: u8 = self.positions[i];
            let slot = match ChannelPosition::try_from(value) {
                Ok(position) => ChannelSlot::Known(position),
                Err(_) => ChannelSlot::Unknown(value),
            };
            out.push(slot);
            i = i + 1;
        }
        out
    }
}

/// The PCM record that the first bytes of `bytes` stand for.
pub open spec fn pcm_info_of(bytes: Seq<u8>) -> VirtioSndPcmInfo {
    choose|r: VirtioSndPcmInfo| r.encoding() == bytes.take(PCM_INFO_SIZE as int)
}

/// The channel map record that the first bytes of `bytes` stand for.
pub open spec fn chmap_info_of(bytes: Seq<u8>) -> VirtioSndChmapInfo {
    choose|r: VirtioSndChmapInfo| r.encoding() == bytes.take(CHMAP_INFO_SIZE as int)
}

/// The records that a response holds behind its header: `count` of them,
/// one after the other.
pub open spec fn pcm_infos_of(response: Seq<u8>, count: nat) -> Seq<VirtioSndPcmInfo> {
    Seq::new(
        count,
        |i: int| pcm_info_of(response.skip(SND_HDR_SIZE as int + i * PCM_INFO_SIZE as int)),
    )
}

/// The records that a response holds behind its header: `count` of them,
/// one after the other.
pub open spec fn chmap_infos_of(response: Seq<u8>, count: nat) -> Seq<VirtioSndChmapInfo> {
    Seq::new(
        count,
        |i: int| chmap_info_of(response.skip(SND_HDR_SIZE as int + i * CHMAP_INFO_SIZE as int)),
    )
}

/// Reads the `count` records that stand behind the header of a response.
pub fn parse_pcm_infos(response: &[u8], count: usize) -> (r: Vec<VirtioSndPcmInfo>)
    requires
        SND_HDR_SIZE + count * PCM_INFO_SIZE <= response@.len(),
    ensures
        r@ == pcm_infos_of(response@, count as nat),
{
    let mut out: Vec<VirtioSndPcmInfo> = Vec::new();
    let mut i: usize = 0;
    while i < count
        invariant
            i <= count,
            SND_HDR_SIZE + count * PCM_INFO_SIZE <= response@.len(),
            out@ == pcm_infos_of(response@, i as nat),
        decreases count - i,
    {
        let len: usize = response.len();
        assert(SND_HDR_SIZE + (i + 1) * PCM_INFO_SIZE <= SND_HDR_SIZE + count * PCM_INFO_SIZE) by (nonlinear_arith)
            requires
                i < count,
        ;
        let at: usize = SND_HDR_SIZE + i * PCM_INFO_SIZE;
        let rest = vstd::slice::slice_subrange(response, at, len);
        assert(rest@ =~= response@.skip(at as int));
        out.push(VirtioSndPcmInfo::from_bytes(rest).unwrap());
        assert(out@ =~= pcm_infos_of(response@, (i + 1) as nat));
        i = i + 1;
    }
    out
}

/// Reads the `count` records that stand behind the header of a response.
pub fn parse_chmap_infos(response: &[u8], count: usize) -> (r: Vec<VirtioSndChmapInfo>)
    requires
        SND_HDR_SIZE + count * CHMAP_INFO_SIZE <= response@.len(),
    ensures
        r@ == chmap_infos_of(response@, count as nat),
{
    let mut out: Vec<VirtioSndChmapInfo> = Vec::new();
    let mut i: usize = 0;
    while i < count
        invariant
            i <= count,
            SND_HDR_SIZE + count * CHMAP_INFO_SIZE <= response@.len(),
            out@ == chmap_infos_of(response@, i as nat),
        decreases count - i,
    {
        let len: usize = response.len();
        assert(SND_HDR_SIZE + (i + 1) * CHMAP_INFO_SIZE <= SND_HDR_SIZE + count * CHMAP_INFO_SIZE) by (nonlinear_arith)
            requires
                i < count,
        ;
        let at: usize = SND_HDR_SIZE + i * CHMAP_INFO_SIZE;
        let rest = vstd::slice::slice_subrange(response, at, len);
        assert(rest@ =~= response@.skip(at as int));
        out.push(VirtioSndChmapInfo::from_bytes(rest).unwrap());
        assert(out@ =~= chmap_infos_of(response@, (i + 1) as nat));
        i = i + 1;
    }
    out
}

/// The bytes of a response that holds the given records behind its header.
pub open spec fn pcm_infos_encoding(hdr: VirtioSndHdr, infos: Seq<VirtioSndPcmInfo>) -> Seq<u8>
    decreases infos.len(),
{
    if infos.len() == 0 {
        hdr.encoding()
    } else {
        pcm_infos_encoding(hdr, infos.drop_last()) + infos.last().encoding()
    }
}

/// Reading a record from its own bytes, with anything behind them, gives
/// the record back.
pub proof fn lemma_pcm_info_of_encoding(r: VirtioSndPcmInfo, rest: Seq<u8>)
    ensures
        pcm_info_of(r.encoding() + rest) == r,
{
    lemma_pcm_info_encoding(r, r);
    let bytes = r.encoding() + rest;
    assert(bytes.take(PCM_INFO_SIZE as int) =~= r.encoding());
    let c = pcm_info_of(bytes);
    lemma_pcm_info_encoding(c, r);
}

/// Reading a record from its own bytes, with anything behind them, gives
/// the record back.
pub proof fn lemma_chmap_info_of_encoding(r: VirtioSndChmapInfo, rest: Seq<u8>)
    ensures
        chmap_info_of(r.encoding() + rest) == r,
{
    lemma_chmap_info_encoding(r, r);
    let bytes = r.encoding() + rest;
    assert(bytes.take(CHMAP_INFO_SIZE as int) =~= r.encoding());
    let c = chmap_info_of(bytes);
    lemma_chmap_info_encoding(c, r);
}

/// The bytes of a response with `infos.len()` records have the length that
/// the driver reserves for them.
pub proof fn lemma_pcm_infos_encoding_len(hdr: VirtioSndHdr, infos: Seq<VirtioSndPcmInfo>)
    ensures
        pcm_infos_encoding(hdr, infos).len() == SND_HDR_SIZE + infos.len() * PCM_INFO_SIZE,
    decreases infos.len(),
{
    if infos.len() > 0 {
        lemma_pcm_infos_encoding_len(hdr, infos.drop_last());
        lemma_pcm_info_encoding(infos.last(), infos.last());
    }
}

/// The bytes of a response begin with its header.
pub proof fn lemma_pcm_infos_encoding_head(hdr: VirtioSndHdr, infos: Seq<VirtioSndPcmInfo>)
    ensures
        pcm_infos_encoding(hdr, infos).len() >= SND_HDR_SIZE,
        pcm_infos_encoding(hdr, infos).take(SND_HDR_SIZE as int) == hdr.encoding(),
    decreases infos.len(),
{
    if infos.len() == 0 {
        assert(hdr.encoding().take(SND_HDR_SIZE as int) =~= hdr.encoding());
    } else {
        lemma_pcm_infos_encoding_head(hdr, infos.drop_last());
        assert(pcm_infos_encoding(hdr, infos).take(SND_HDR_SIZE as int) =~= pcm_infos_encoding(
            hdr,
            infos.drop_last(),
        ).take(SND_HDR_SIZE as int));
    }
}

/// The record at place `i` of a response stands at its place in the bytes.
proof fn lemma_pcm_infos_encoding_at(
    hdr: VirtioSndHdr,
    infos: Seq<VirtioSndPcmInfo>,
    i: int,
    rest: Seq<u8>,
)
    requires
        0 <= i < infos.len(),
    ensures
        (pcm_infos_encoding(hdr, infos) + rest).skip(
            SND_HDR_SIZE as int + i * PCM_INFO_SIZE as int,
        ).take(PCM_INFO_SIZE as int) == infos[i].encoding(),
    decreases infos.len(),
{
    let all = pcm_infos_encoding(hdr, infos);
    let front = pcm_infos_encoding(hdr, infos.drop_last());
    let at = SND_HDR_SIZE as int + i * PCM_INFO_SIZE as int;
    lemma_pcm_infos_encoding_len(hdr, infos.drop_last());
    lemma_pcm_info_encoding(infos.last(), infos.last());
    if i == infos.len() - 1 {
        assert((all + rest).skip(at).take(PCM_INFO_SIZE as int) =~= infos.last().encoding());
    } else {
        lemma_pcm_infos_encoding_at(hdr, infos.drop_last(), i, infos.last().encoding() + rest);
        lemma_pcm_info_encoding(infos[i], infos[i]);
        assert(front + (infos.last().encoding() + rest) =~= all + rest);
        assert(infos.drop_last()[i] == infos[i]);
    }
}

/// A response that holds records behind its header, whatever follows them
/// in the buffer, is read back as those records, in order.
pub proof fn lemma_pcm_infos_round_trip(
    hdr: VirtioSndHdr,
    infos: Seq<VirtioSndPcmInfo>,
    rest: Seq<u8>,
)
    ensures
        pcm_infos_of(pcm_infos_encoding(hdr, infos) + rest, infos.len()) == infos,
{
    let bytes = pcm_infos_encoding(hdr, infos) + rest;
    let got = pcm_infos_of(bytes, infos.len());
    assert forall|i: int| 0 <= i < infos.len() implies got[i] == infos[i] by {
        let at = SND_HDR_SIZE as int + i * PCM_INFO_SIZE as int;
        lemma_pcm_infos_encoding_at(hdr, infos, i, rest);
        let c = pcm_info_of(bytes.skip(at));
        lemma_pcm_info_encoding(infos[i], infos[i]);
        lemma_pcm_info_encoding(c, infos[i]);
    }
    assert(got =~= infos);
}

/// Two records of a kind with the same bytes are the same record.
pub proof fn lemma_pcm_info_encoding(a: VirtioSndPcmInfo, b: VirtioSndPcmInfo)
    ensures
        a.encoding().len() == PCM_INFO_SIZE,
        a.encoding() == b.encoding() ==> a == b,
{
    let ea = a.encoding();
    let eb = b.encoding();
    assert(ea.subrange(0, 4) =~= le_u32(a.hdr.hda_fn_nid));
    assert(ea.subrange(4, 8) =~= le_u32(a.features));
    assert(ea.subrange(8, 16) =~= le_u64(a.formats));
    assert(ea.subrange(16, 24) =~= le_u64(a.rates));
    assert(ea.subrange(27, 32) =~= a.padding@);
    assert(eb.subrange(0, 4) =~= le_u32(b.hdr.hda_fn_nid));
    assert(eb.subrange(4, 8) =~= le_u32(b.features));
    assert(eb.subrange(8, 16) =~= le_u64(b.formats));
    assert(eb.subrange(16, 24) =~= le_u64(b.rates));
    assert(eb.subrange(27, 32) =~= b.padding@);
    assert(ea[24] == a.direction && ea[25] == a.channels_min && ea[26] == a.channels_max);
    assert(eb[24] == b.direction && eb[25] == b.channels_min && eb[26] == b.channels_max);
    lemma_le_injective(a.hdr.hda_fn_nid, b.hdr.hda_fn_nid, a.formats, b.formats);
    lemma_le_injective(a.features, b.features, a.rates, b.rates);
    if ea == eb {
        assert(a.padding@ == b.padding@);
        assert(a.padding =~= b.padding);
    }
}

/// Two records of a kind with the same bytes are the same record.
pub proof fn lemma_chmap_info_encoding(a: VirtioSndChmapInfo, b: VirtioSndChmapInfo)
    ensures
        a.encoding().len() == CHMAP_INFO_SIZE,
        a.encoding() == b.encoding() ==> a == b,
{
    let ea = a.encoding();
    let eb = b.encoding();
    assert(ea.subrange(0, 4) =~= le_u32(a.hdr.hda_fn_nid));
    assert(ea.subrange(6, 24) =~= a.positions@);
    assert(eb.subrange(0, 4) =~= le_u32(b.hdr.hda_fn_nid));
    assert(eb.subrange(6, 24) =~= b.positions@);
    assert(ea[4] == a.direction && ea[5] == a.channels);
    assert(eb[4] == b.direction && eb[5] == b.channels);
    lemma_le_injective(a.hdr.hda_fn_nid, b.hdr.hda_fn_nid, 0, 0);
    if ea == eb {
        assert(a.positions@ == b.positions@);
        assert(a.positions =~= b.positions);
    }
}

/// Two requests with the same bytes are the same request.
pub proof fn lemma_request_encodings(
    a: VirtioSndPcmHdr,
    b: VirtioSndPcmHdr,
    c: VirtioSndQueryInfo,
    d: VirtioSndQueryInfo,
    e: VirtioSndPcmSetParams,
    f: VirtioSndPcmSetParams,
)
    ensures
        a.encoding().len() == PCM_HDR_SIZE,
        c.encoding().len() == QUERY_INFO_SIZE,
        e.encoding().len() == PCM_SET_PARAMS_SIZE,
        a.encoding() == b.encoding() ==> a == b,
        c.encoding() == d.encoding() ==> c == d,
        e.encoding() == f.encoding() ==> e == f,
{
    assert(a.encoding().subrange(0, 4) =~= le_u32(a.hdr.code));
    assert(a.encoding().subrange(4, 8) =~= le_u32(a.stream_id));
    assert(b.encoding().subrange(0, 4) =~= le_u32(b.hdr.code));
    assert(b.encoding().subrange(4, 8) =~= le_u32(b.stream_id));
    lemma_le_injective(a.hdr.code, b.hdr.code, 0, 0);
    lemma_le_injective(a.stream_id, b.stream_id, 0, 0);
    assert(c.encoding().subrange(0, 4) =~= le_u32(c.hdr.code));
    assert(c.encoding().subrange(4, 8) =~= le_u32(c.start_id));
    assert(c.encoding().subrange(8, 12) =~= le_u32(c.count));
    assert(c.encoding().subrange(12, 16) =~= le_u32(c.size));
    assert(d.encoding().subrange(0, 4) =~= le_u32(d.hdr.code));
    assert(d.encoding().subrange(4, 8) =~= le_u32(d.start_id));
    assert(d.encoding().subrange(8, 12) =~= le_u32(d.count));
    assert(d.encoding().subrange(12, 16) =~= le_u32(d.size));
    lemma_le_injective(c.hdr.code, d.hdr.code, 0, 0);
    lemma_le_injective(c.start_id, d.start_id, 0, 0);
    lemma_le_injective(c.count, d.count, 0, 0);
    lemma_le_injective(c.size, d.size, 0, 0);
    assert(e.encoding().subrange(0, 4) =~= le_u32(e.hdr.hdr.code));
    assert(e.encoding().subrange(4, 8) =~= le_u32(e.hdr.stream_id));
    assert(e.encoding().subrange(8, 12) =~= le_u32(e.buffer_bytes));
    assert(e.encoding().subrange(12, 16) =~= le_u32(e.period_bytes));
    assert(e.encoding().subrange(16, 20) =~= le_u32(e.features));
    assert(f.encoding().subrange(0, 4) =~= le_u32(f.hdr.hdr.code));
    assert(f.encoding().subrange(4, 8) =~= le_u32(f.hdr.stream_id));
    assert(f.encoding().subrange(8, 12) =~= le_u32(f.buffer_bytes));
    assert(f.encoding().subrange(12, 16) =~= le_u32(f.period_bytes));
    assert(f.encoding().subrange(16, 20) =~= le_u32(f.features));
    lemma_le_injective(e.hdr.hdr.code, f.hdr.hdr.code, 0, 0);
    lemma_le_injective(e.hdr.stream_id, f.hdr.stream_id, 0, 0);
    lemma_le_injective(e.buffer_bytes, f.buffer_bytes, 0, 0);
    lemma_le_injective(e.period_bytes, f.period_bytes, 0, 0);
    lemma_le_injective(e.features, f.features, 0, 0);
    assert(e.encoding()[20] == e.channels && e.encoding()[21] == e.format && e.encoding()[22]
        == e.rate && e.encoding()[23] == e.padding);
    assert(f.encoding()[20] == f.channels && f.encoding()[21] == f.format && f.encoding()[22]
        == f.rate && f.encoding()[23] == f.padding);
}

/// Two events, or two statuses, with the same bytes are the same.
pub proof fn lemma_event_encodings(
    a: VirtioSndEvent,
    b: VirtioSndEvent,
    c: VirtioSndPcmStatus,
    d: VirtioSndPcmStatus,
)
    ensures
        a.encoding().len() == SND_EVENT_SIZE,
        c.encoding().len() == PCM_STATUS_SIZE,
        a.encoding() == b.encoding() ==> a == b,
        c.encoding() == d.encoding() ==> c == d,
{
    assert(a.encoding().subrange(0, 4) =~= le_u32(a.header.code));
    assert(a.encoding().subrange(4, 8) =~= le_u32(a.data));
    assert(b.encoding().subrange(0, 4) =~= le_u32(b.header.code));
    assert(b.encoding().subrange(4, 8) =~= le_u32(b.data));
    lemma_le_injective(a.header.code, b.header.code, 0, 0);
    lemma_le_injective(a.data, b.data, 0, 0);
    assert(c.encoding().subrange(0, 4) =~= le_u32(c.status));
    assert(c.encoding().subrange(4, 8) =~= le_u32(c.latency_bytes));
    assert(d.encoding().subrange(0, 4) =~= le_u32(d.status));
    assert(d.encoding().subrange(4, 8) =~= le_u32(d.latency_bytes));
    lemma_le_injective(c.status, d.status, 0, 0);
    lemma_le_injective(c.latency_bytes, d.latency_bytes, 0, 0);
}

} // verus!
