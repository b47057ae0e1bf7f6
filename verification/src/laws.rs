//! What holds of the sound device whatever is asked of it and whatever the
//! device answers.

use vstd::prelude::*;
use crate::bytes::le_u32;
use crate::bytes::u32_of_le;
use crate::codes::VIRTIO_SND_S_OK;
use crate::dma::written;
use crate::error::VirtioDeviceError;
use crate::flags::PcmFeatures;
use crate::flags::PcmFormat;
use crate::flags::PcmRate;
use crate::model::CHUNK_DESCRIPTORS;
use crate::model::event_slice;
use crate::model::first_failure;
use crate::model::header_offset;
use crate::model::MAX_CHUNKS;
use crate::model::MIN_QUEUE_SIZE;
use crate::model::Op;
use crate::model::PcmXferView;
use crate::model::Pending;
use crate::model::play_ended;
use crate::model::playback_left;
use crate::model::playback_submitted;
use crate::model::QUEUE_CAPACITY;
use crate::model::ReplyView;
use crate::model::run_ended;
use crate::model::SoundDeviceInnerView;
use crate::model::SoundDeviceView;
use crate::model::Stage;
use crate::model::status_at;
use crate::model::status_offset;
use crate::model::StepView;
use crate::model::TEST_BUFFER_BYTES;
use crate::model::TEST_PERIOD_BYTES;
use crate::model::test_script;
use crate::model::TEST_STREAM;
use crate::model::tx_ready;
use crate::model::XferStep;
use crate::pcm::PCMState;
use crate::pcm::sizes_valid;
use crate::queue::added;
use crate::queue::DmaBuf;
use crate::queue::lemma_added_wf;
use crate::queue::lemma_recycled_wf;
use crate::queue::popped;
use crate::queue::VIRTQ_USED_F_NO_NOTIFY;
use crate::queue::VirtQueueView;
use crate::wire::CHMAP_INFO_SIZE;
use crate::wire::PCM_INFO_SIZE;
use crate::wire::PCM_STATUS_SIZE;
use crate::wire::PCM_XFER_SIZE;
use crate::wire::SND_EVENT_SIZE;
use crate::wire::SND_HDR_SIZE;
use crate::wire::VirtioSndChmapInfo;
use crate::wire::VirtioSndHdr;
use crate::wire::VirtioSndPcmInfo;

verus! {

/// The self-test asks nothing that the life cycle does not allow: on a
/// device whose first stream is in its first state, no command of the test
/// is refused before the device is asked, each is allowed in the state that
/// the one before has led to, and the parameters of the test pass
/// validation.
pub proof fn lemma_test_script_is_allowed()
    ensures
        sizes_valid(TEST_BUFFER_BYTES, TEST_PERIOD_BYTES),
        test_script().len() == 5,
        forall|k: int|
            0 <= k < 5 ==> (#[trigger] test_script()[k]).stream() == Some(TEST_STREAM)
                && test_script()[k].target() is Some,
        PCMState::SetParameters.allows(test_script()[0].target()->Some_0),
        forall|k: int|
            1 <= k < 5 ==> (test_script()[k - 1].target()->Some_0).allows(
                (#[trigger] test_script()[k]).target()->Some_0,
            ),
{
    assert(80000u32 % 100u32 == 0);
}

/// Setting parameters on a stream that the device has is refused with
/// `InvalidParam` exactly where the period is zero, is longer than the
/// buffer, or does not divide it; the refusal leaves the device as it was
/// and hands nothing to the control queue.
pub proof fn lemma_set_params_validation(
    v: SoundDeviceView,
    stream_id: u32,
    buffer_bytes: u32,
    period_bytes: u32,
    features: PcmFeatures,
    channels: u8,
    format: PcmFormat,
    rate: PcmRate,
)
    requires
        v.wf(),
        v.pending is None,
        stream_id < v.streams(),
    ensures
        ({
            let op = Op::SetParams {
                stream_id,
                buffer_bytes,
                period_bytes,
                features,
                channels,
                format,
                rate,
            };
            &&& v.begun(op).1 == StepView::Done(Err(VirtioDeviceError::InvalidParam)) <==> (
            period_bytes == 0 || period_bytes > buffer_bytes || buffer_bytes % period_bytes != 0)
            &&& v.begun(op).1 == StepView::Done(Err(VirtioDeviceError::InvalidParam))
                ==> v.begun(op).0 == v
        }),
{
}

/// No answer of the device turns into `InvalidParam`: an operation is
/// refused for its arguments when it is begun or not at all.
pub proof fn lemma_answers_are_never_invalid_param(v: SoundDeviceView)
    requires
        v.wf(),
    ensures
        v.resumed().1 != StepView::Done(Err(VirtioDeviceError::InvalidParam)),
{
    match v.pending {
        Some(p) => {
            assert(v.pending_wf(p));
            assert(v.precheck(p.op) is None);
        },
        None => {},
    }
}

/// A command of the life cycle that the state of its stream does not allow
/// ends at once with an `IoError`, and the device is as it was: nothing
/// goes to the control queue and no state changes. A command that is
/// allowed goes to the device, after set-up where that is still to do, and
/// changes no state before the device has answered; it ends at once only
/// where set-up is to do and the response buffer cannot hold the records of
/// all streams.
pub proof fn lemma_command_follows_table(v: SoundDeviceView, op: Op)
    requires
        v.wf(),
        v.pending is None,
        op.target() is Some,
        op.stream()->Some_0 < v.streams(),
        match op {
            Op::SetParams { buffer_bytes, period_bytes, .. } => sizes_valid(
                buffer_bytes,
                period_bytes,
            ),
            _ => true,
        },
    ensures
        !v.states[op.stream()->Some_0 as int].allows(op.target()->Some_0) ==> v.begun(op) == (
            v,
            StepView::Done(Err::<ReplyView, VirtioDeviceError>(VirtioDeviceError::IoError(None))),
        ),
        v.states[op.stream()->Some_0 as int].allows(op.target()->Some_0) ==> v.begun(op).0.states
            == v.states && (v.begun(op).1 is Wait || (!v.set_up && v.begun(op) == (
            v,
            StepView::Done(Err::<ReplyView, VirtioDeviceError>(VirtioDeviceError::BufferOverflow)),
        ))),
{
}

/// Once the device has answered a command of the life cycle, the stream is
/// in the state that the table gives: that of the command if the device
/// agreed, the one before if it refused, in which case the result is an
/// `IoError` that carries the device's status. No other stream changes.
#[verifier::rlimit(40)]
pub proof fn lemma_answer_follows_table(v: SoundDeviceView)
    requires
        v.wf(),
        v.pending is Some,
        v.pending->Some_0.stage == Stage::Main,
        v.pending->Some_0.op.target() is Some,
        v.inner.control.can_pop(),
        v.inner.control.next_used_token() == v.pending->Some_0.token,
    ensures
        ({
            let op = v.pending->Some_0.op;
            let id = op.stream()->Some_0 as int;
            let code = u32_of_le(v.inner.response.bytes);
            &&& 0 <= id < v.states.len()
            &&& v.states[id].allows(op.target()->Some_0)
            &&& v.resumed().0.states == v.states.update(
                id,
                v.states[id].after(op.target()->Some_0, code == VIRTIO_SND_S_OK),
            )
            &&& v.resumed().0.pending is None
            &&& code == VIRTIO_SND_S_OK ==> v.resumed().1 == StepView::Done(
                Ok::<ReplyView, VirtioDeviceError>(ReplyView::Done),
            )
            &&& code != VIRTIO_SND_S_OK ==> v.resumed().1 == StepView::Done(
                Err::<ReplyView, VirtioDeviceError>(VirtioDeviceError::IoError(Some(code))),
            )
        }),
{
    let op = v.pending->Some_0.op;
    let id = op.stream()->Some_0 as int;
    assert(v.precheck(op) is None);
    let code = u32_of_le(v.inner.response.bytes);
    if code != VIRTIO_SND_S_OK {
        assert(v.resumed().0.states =~= v.states.update(id, v.states[id]));
    }
}

/// What the driver reads from a request for stream records is what the
/// device wrote: where the device answers the request with a header that
/// says `VIRTIO_SND_S_OK` and with as many records as were asked for, the
/// operation gives these records, in their order, whatever stood in the
/// response buffer before.
#[verifier::rlimit(40)]
pub proof fn lemma_pcm_info_round_trip(
    v: SoundDeviceView,
    start_id: u32,
    count: u32,
    infos: Seq<VirtioSndPcmInfo>,
)
    requires
        v.wf(),
        v.pending is None,
        v.precheck(Op::PcmInfo { start_id, count }) is None,
        infos.len() == count,
        !v.inner.control.can_pop(),
    ensures
        ({
            let asked = v.begun(Op::PcmInfo { start_id, count });
            let response = crate::wire::pcm_infos_encoding(
                VirtioSndHdr { code: VIRTIO_SND_S_OK },
                infos,
            );
            &&& asked.1 is Wait
            &&& asked.0.answered(response).resumed().1 == StepView::Done(
                Ok::<ReplyView, VirtioDeviceError>(ReplyView::PcmInfos(infos)),
            )
            &&& asked.0.answered(response).resumed().0.pending is None
        }),
{
    let op = Op::PcmInfo { start_id, count };
    let hdr = VirtioSndHdr { code: VIRTIO_SND_S_OK };
    let response = crate::wire::pcm_infos_encoding(hdr, infos);
    let asked = v.begun(op).0;
    let q = v.inner.control;
    let token = q.free_head;
    let request = DmaBuf {
        daddr: v.inner.request.daddr,
        len: op.request().len() as u32,
    };
    let room = DmaBuf {
        daddr: v.inner.response.daddr,
        len: op.response_len() as u32,
    };
    assert(v.inner.request.slice(0, op.request().len()) == request);
    assert(v.inner.response.slice(0, op.response_len()) == room);
    lemma_control_round(q, request, room);
    assert(asked.pending == Some(Pending { stage: Stage::Main, op, token }));
    let a = asked.inner.control;
    crate::queue::lemma_mask_is_remainder(a.used_idx, a.size);
    let answered = asked.answered(response);
    let b = answered.inner.control;
    crate::wire::lemma_pcm_infos_encoding_len(hdr, infos);
    crate::wire::lemma_pcm_infos_encoding_head(hdr, infos);
    crate::bytes::lemma_le_u32_round_trip(VIRTIO_SND_S_OK);
    assert(b.can_pop());
    assert(b.next_used() == crate::queue::UsedElem {
        id: token as u32,
        len: response.len() as u32,
    });
    assert(b.next_used_token() == token);
    let bytes = answered.inner.response.bytes;
    let rest = v.inner.response.bytes.skip(response.len() as int);
    assert(bytes =~= response + rest);
    assert(u32_of_le(bytes) == VIRTIO_SND_S_OK) by {
        assert(response.take(4) == le_u32(VIRTIO_SND_S_OK));
        assert(bytes[0] == response.take(4)[0]);
        assert(bytes[1] == response.take(4)[1]);
        assert(bytes[2] == response.take(4)[2]);
        assert(bytes[3] == response.take(4)[3]);
    }
    crate::wire::lemma_pcm_infos_round_trip(hdr, infos, rest);
}

/// What holds once the device has answered the request under way with
/// `response`, where no other completion waits in the control queue: the
/// completion of the request is the next to be taken, and the response is
/// what the driver reads.
#[verifier::rlimit(40)]
proof fn lemma_answered(v: SoundDeviceView, response: Seq<u8>)
    requires
        v.wf(),
        v.pending is Some,
        !v.inner.control.can_pop(),
        response.len() <= v.inner.response.bytes.len(),
    ensures
        ({
            let w = v.answered(response);
            &&& w.inner.control.can_pop()
            &&& w.inner.control.next_used_token() == v.pending->Some_0.token
            &&& popped(w.inner.control).wf()
            &&& popped(w.inner.control).size == v.inner.control.size
            &&& popped(w.inner.control).chains.dom() =~= Set::<int>::empty()
            &&& popped(w.inner.control).num_used == 0
            &&& !popped(w.inner.control).can_pop()
            &&& popped(w.inner.control).used_flags == v.inner.control.used_flags
            &&& w.inner.response.bytes == response + v.inner.response.bytes.skip(
                response.len() as int,
            )
            &&& w.inner.response.bytes.len() == v.inner.response.bytes.len()
        }),
{
    let q = v.inner.control;
    let w = v.answered(response);
    let token = v.pending->Some_0.token;
    crate::queue::lemma_mask_is_remainder(q.used_idx, q.size);
    assert(w.inner.control.next_used() == crate::queue::UsedElem {
        id: token as u32,
        len: response.len() as u32,
    });
    assert(w.inner.control.wf());
    lemma_only_chain_popped(w.inner.control, token);
    assert(w.inner.response.bytes =~= response + v.inner.response.bytes.skip(
        response.len() as int,
    ));
}

/// The code of a response that begins with the bytes of a header is the
/// code of the header.
proof fn lemma_code_read(hdr: VirtioSndHdr, tail: Seq<u8>)
    ensures
        u32_of_le(hdr.encoding() + tail) == hdr.code,
{
    crate::bytes::lemma_le_u32_round_trip(hdr.code);
    let bytes = hdr.encoding() + tail;
    assert(bytes[0] == hdr.encoding()[0]);
    assert(bytes[1] == hdr.encoding()[1]);
    assert(bytes[2] == hdr.encoding()[2]);
    assert(bytes[3] == hdr.encoding()[3]);
}

/// Set-up comes to its end against a device that answers: where the device
/// answers the first request of an operation that needs set-up with the
/// records of all its streams, and the second with a status that refuses
/// the channel maps, the device is set up, holds these records and an empty
/// list of channel maps, and takes up the operation that asked for set-up;
/// for set-up itself, that is the end.
#[verifier::rlimit(40)]
pub proof fn lemma_set_up_completes(
    v: SoundDeviceView,
    infos: Seq<VirtioSndPcmInfo>,
    refusal: u32,
)
    requires
        v.wf(),
        v.pending is None,
        !v.set_up,
        !v.inner.control.can_pop(),
        infos.len() == v.streams(),
        SND_HDR_SIZE + v.streams() * PCM_INFO_SIZE <= v.response_capacity(),
        SND_HDR_SIZE + v.chmaps() * CHMAP_INFO_SIZE <= v.response_capacity(),
        refusal != VIRTIO_SND_S_OK,
    ensures
        ({
            let first = v.begun(Op::SetUp);
            let second = first.0.answered(
                crate::wire::pcm_infos_encoding(VirtioSndHdr { code: VIRTIO_SND_S_OK }, infos),
            ).resumed();
            let third = second.0.answered((VirtioSndHdr { code: refusal }).encoding()).resumed();
            &&& first.1 is Wait
            &&& first.0.pending->Some_0.stage == Stage::SetUpPcmInfo
            &&& second.1 is Wait
            &&& second.0.pending->Some_0.stage == Stage::SetUpChmapInfo
            &&& third.1 == StepView::Done(Ok::<ReplyView, VirtioDeviceError>(ReplyView::Done))
            &&& third.0.set_up
            &&& third.0.pcm_infos == Some(infos)
            &&& third.0.chmap_infos == Some(Seq::<VirtioSndChmapInfo>::empty())
            &&& third.0.pending is None
            &&& third.0.states == v.states
            &&& third.0.parameters == v.parameters
        }),
{
    let ok = VirtioSndHdr { code: VIRTIO_SND_S_OK };
    let no = VirtioSndHdr { code: refusal };
    let pcm_query = Op::PcmInfo { start_id: 0, count: v.inner.config.streams };
    let chmap_query = Op::ChmapInfo { start_id: 0, count: v.inner.config.chmaps };
    let response = crate::wire::pcm_infos_encoding(ok, infos);
    crate::wire::lemma_pcm_infos_encoding_len(ok, infos);
    crate::wire::lemma_pcm_infos_encoding_head(ok, infos);

    // The first request: the records of all streams.
    let first = v.begun(Op::SetUp).0;
    let q = v.inner.control;
    lemma_control_round(
        q,
        v.inner.request.slice(0, pcm_query.request().len()),
        v.inner.response.slice(0, pcm_query.response_len()),
    );
    assert(first.pending == Some(
        Pending { stage: Stage::SetUpPcmInfo, op: Op::SetUp, token: q.free_head },
    ));
    assert(first.wf());
    lemma_answered(first, response);
    let heard = first.answered(response);
    let rest = first.inner.response.bytes.skip(response.len() as int);
    assert(response =~= ok.encoding() + response.skip(4));
    assert(heard.inner.response.bytes =~= ok.encoding() + (response.skip(4) + rest));
    lemma_code_read(ok, response.skip(4) + rest);
    crate::wire::lemma_pcm_infos_round_trip(ok, infos, rest);

    // The second request: the records of all channel maps.
    let second = heard.resumed().0;
    let taken = SoundDeviceView {
        inner: SoundDeviceInnerView { control: popped(heard.inner.control), ..heard.inner },
        pending: None,
        pcm_infos: Some(infos),
        ..heard
    };
    lemma_control_round(
        taken.inner.control,
        taken.inner.request.slice(0, chmap_query.request().len()),
        taken.inner.response.slice(0, chmap_query.response_len()),
    );
    assert(second == taken.submit(
        Stage::SetUpChmapInfo,
        Op::SetUp,
        chmap_query.request(),
        chmap_query.response_len(),
    ).0);
    assert(second.wf());
    lemma_answered(second, no.encoding());
    let told = second.answered(no.encoding());
    let tail = second.inner.response.bytes.skip(no.encoding().len() as int);
    lemma_code_read(no, tail);
}

/// The control queue never holds more than one request: it holds the
/// request that is under way and nothing else, and while a request is under
/// way every operation that is begun is refused as `Busy` and changes
/// nothing. An answer is taken only for the request that is under way.
pub proof fn lemma_one_request_at_a_time(v: SoundDeviceView, op: Op)
    requires
        v.wf(),
    ensures
        match v.pending {
            Some(p) => {
                &&& v.inner.control.chains.dom() == set![p.token as int]
                &&& v.begun(op) == (
                    v,
                    StepView::Done(Err::<ReplyView, VirtioDeviceError>(VirtioDeviceError::Busy)),
                )
                &&& v.inner.control.can_pop() && v.inner.control.next_used_token() != p.token
                    ==> v.resumed().0 == v
            },
            None => v.inner.control.chains.dom() == Set::<int>::empty(),
        },
{
}

/// A blocking playback ends well only when every chunk was handed over,
/// nothing is with the device and no chunk has failed. Once a chunk has
/// failed, no further chunk goes to the device, the failure is kept, and
/// the playback cannot end well. At no time are more than
/// [`MAX_CHUNKS`] chunks with the device.
pub proof fn lemma_playback_outcome(v: SoundDeviceView)
    requires
        v.wf(),
        v.xfer is Some,
    ensures
        ({
            let x = v.xfer->Some_0;
            let (w, step) = v.xfer_stepped();
            &&& step == XferStep::Finished(Ok(())) ==> x.bad is None && x.next == x.frames.len()
                && x.window.len() == 0
            &&& x.bad is Some ==> step != XferStep::Finished(Ok(()))
            &&& x.bad is Some && w.xfer is Some ==> w.xfer->Some_0.bad == x.bad
                && w.xfer->Some_0.next == x.next && w.xfer->Some_0.window.len()
                <= x.window.len()
            &&& x.bad is Some && x.window.len() == 0 && v.inner.tx.size - v.inner.tx.num_used >= 3
                ==> step == XferStep::Finished(x.outcome())
            &&& w.xfer is Some ==> w.xfer->Some_0.window.len() <= MAX_CHUNKS
        }),
{
}

/// A blocking playback comes to its end if the device answers: where the
/// device has answered the oldest chunk that is with it and nothing else
/// waits in the tx queue, and the tx queue has room for a chunk when none
/// is with the device, every step either ends the playback or brings it
/// nearer to its end. It ends well if no chunk has failed, and with an
/// `IoError` that carries the status of the first failed chunk otherwise; a
/// chunk fails by a status other than `VIRTIO_SND_S_OK`, and the first such
/// status is the one that is kept.
#[verifier::rlimit(40)]
pub proof fn lemma_playback_progress(v: SoundDeviceView)
    requires
        v.wf(),
        v.xfer is Some,
        v.xfer->Some_0.window.len() > 0 ==> v.inner.tx.can_pop() && v.inner.tx.next_used_token()
            == v.xfer->Some_0.window[0],
        v.xfer->Some_0.window.len() == 0 ==> !v.inner.tx.can_pop() && v.inner.tx.size
            - v.inner.tx.num_used >= 3,
    ensures
        ({
            let x = v.xfer->Some_0;
            let (w, step) = v.xfer_stepped();
            &&& step is Finished ==> step == XferStep::Finished(x.outcome()) && w.xfer is None
                && x.window.len() == 0 && (x.bad is Some || x.next == x.frames.len())
            &&& step is Continue ==> w.xfer is Some && playback_left(w.xfer->Some_0)
                < playback_left(x)
            &&& step is Continue && x.window.len() > 0 ==> w.xfer->Some_0.bad == (if x.bad is None
                && u32_of_le(v.inner.xfer.bytes.skip(status_offset(x.window[0]) as int))
                != VIRTIO_SND_S_OK {
                Some(u32_of_le(v.inner.xfer.bytes.skip(status_offset(x.window[0]) as int)))
            } else {
                x.bad
            })
            &&& step is Continue && x.window.len() == 0 ==> w.xfer->Some_0.bad == x.bad
        }),
{
    let x = v.xfer->Some_0;
    let room = v.inner.tx.size - v.inner.tx.num_used >= 3;
    let more = x.bad is None && x.next < x.frames.len();
    if room && more && x.window.len() < MAX_CHUNKS {
        let token = v.inner.tx.free_head;
        let sent = SoundDeviceView {
            inner: playback_submitted(v.inner, x.stream_id, x.chunk()),
            xfer: Some(
                PcmXferView {
                    next: x.next + x.chunk_len(),
                    window: x.window.push(token),
                    ..x
                },
            ),
            ..v
        };
        let y = sent.xfer->Some_0;
        assert(v.xfer_stepped() == sent.xfer_reaped(
            v.inner.tx.used_flags & VIRTQ_USED_F_NO_NOTIFY == 0,
        ));
        assert(x.chunk_len() >= 1);
        assert(playback_left(y) + 1 <= playback_left(x));
        assert(sent.inner.tx.can_pop() == v.inner.tx.can_pop());
        assert(sent.inner.tx.next_used_token() == v.inner.tx.next_used_token());
        if x.window.len() > 0 {
            assert(y.window[0] == x.window[0]);
            assert(v.inner.tx.in_flight(x.window[0]));
            crate::queue::lemma_free_head_is_free(v.inner.tx);
            lemma_status_kept(v.inner.xfer.bytes, token, x.window[0], le_u32(x.stream_id));
            assert(y.window.skip(1).len() == x.window.len());
        } else {
            assert(sent.xfer_reaped(true).0 == sent);
            assert(sent.xfer_reaped(false).0 == sent);
        }
    } else if room && !more && x.window.len() == 0 {
    } else {
        assert(v.xfer_stepped() == v.xfer_reaped(false));
        assert(x.window.len() > 0);
    }
}

/// A transfer that was submitted without waiting is outstanding under its
/// token and in flight on the tx queue.
#[verifier::rlimit(40)]
pub proof fn lemma_submitted_is_outstanding(v: SoundDeviceView, stream_id: u32, frames: Seq<u8>)
    requires
        v.wf(),
        v.nb_submitted(stream_id, frames).1 is Ok,
    ensures
        ({
            let (w, r) = v.nb_submitted(stream_id, frames);
            &&& !v.outstanding.contains(r->Ok_0.token)
            &&& w.outstanding == v.outstanding.insert(r->Ok_0.token)
            &&& w.inner.tx.in_flight(r->Ok_0.token)
        }),
{
    let token = v.inner.tx.free_head;
    crate::queue::lemma_free_head_is_free(v.inner.tx);
    if v.outstanding.contains(token) {
        assert(v.inner.tx.in_flight(token));
    }
    let w = v.nb_submitted(stream_id, frames).0;
    lemma_added_wf(
        v.inner.tx,
        seq![
            v.inner.xfer.slice(header_offset(token), PCM_XFER_SIZE as nat),
            v.inner.send.slice(0, frames.len()),
        ],
        seq![v.inner.xfer.slice(status_offset(token), PCM_STATUS_SIZE as nat)],
    );
}

/// Acknowledging an outstanding transfer strikes exactly its token from the
/// outstanding ones and takes exactly one completion from the tx queue; to
/// acknowledge the same token again is refused.
pub proof fn lemma_acknowledged_once(v: SoundDeviceView, token: u16)
    requires
        v.wf(),
        v.nb_acknowledged(token).1 is Ok,
    ensures
        ({
            let w = v.nb_acknowledged(token).0;
            &&& v.outstanding.contains(token)
            &&& w.outstanding == v.outstanding.remove(token)
            &&& w.inner.tx.last_used_idx == crate::queue::next_ring_idx(
                v.inner.tx.last_used_idx,
            )
            &&& !w.inner.tx.in_flight(token)
            &&& w.nb_acknowledged(token) == (
                w,
                Err::<(), VirtioDeviceError>(VirtioDeviceError::InvalidParam),
            )
        }),
{
}

/// An interrupt of the event queue that brings a notification names every
/// registered subscriber, and the event buffer is with the device again.
#[verifier::rlimit(40)]
pub proof fn lemma_event_reaches_subscribers(v: SoundDeviceView)
    requires
        v.wf(),
        v.event_handled().1 is Some,
    ensures
        ({
            let (w, d) = v.event_handled();
            &&& d->Some_0.payload.len() <= v.inner.event_buffer.bytes.len()
            &&& d->Some_0.payload.len() <= v.inner.event.next_used().len
            &&& d->Some_0.notification is Some ==> d->Some_0.subscribers == v.inner.callbacks
            &&& d->Some_0.notification is None ==> d->Some_0.subscribers == 0
            &&& w.inner.event_posted()
        }),
{
    let q = v.inner.event;
    assert(q.in_flight(v.inner.event_token));
    lemma_recycled_wf(q, v.inner.event_token);
    assert(q.chains[v.inner.event_token as int].len() == 1) by {
        assert(q.chain_bufs(v.inner.event_token).len() == 1);
    }
    lemma_event_posted(popped(q), v.inner.event_buffer.daddr);
}

/// Offering the event buffer on an empty event queue puts exactly one chain
/// there, of one descriptor that the device writes.
pub proof fn lemma_event_posted(q: VirtQueueView, daddr: u64)
    requires
        q.wf(),
        q.num_used == 0,
        q.chains.dom() =~= Set::<int>::empty(),
        q.size >= 1,
    ensures
        ({
            let a = added(q, Seq::empty(), seq![event_slice(daddr)]);
            &&& a.wf()
            &&& a.chains.dom() =~= set![q.free_head as int]
            &&& a.num_used == 1
            &&& a.chain_bufs(q.free_head) == seq![(daddr, SND_EVENT_SIZE as u32, true)]
        }),
{
    let outputs = seq![event_slice(daddr)];
    lemma_added_wf(q, Seq::empty(), outputs);
    assert(crate::queue::submission(Seq::empty(), outputs) =~= seq![
        (daddr, SND_EVENT_SIZE as u32, true),
    ]);
}

/// A request and a response on an idle control queue make one chain of two
/// descriptors, and taking that chain back leaves the queue idle again.
#[verifier::rlimit(40)]
pub proof fn lemma_control_round(q: VirtQueueView, request: DmaBuf, response: DmaBuf)
    requires
        q.wf(),
        q.size >= MIN_QUEUE_SIZE,
        q.num_used == 0,
        q.chains.dom() =~= Set::<int>::empty(),
    ensures
        ({
            let a = added(q, seq![request], seq![response]);
            &&& a.wf()
            &&& a.size == q.size
            &&& a.chains.dom() =~= set![q.free_head as int]
            &&& a.chains[q.free_head as int].len() == 2
            &&& a.num_used == 2
            &&& a.chain_bufs(q.free_head) == seq![
                (request.daddr, request.len, false),
                (response.daddr, response.len, true),
            ]
            &&& a.used_flags == q.used_flags
            &&& a.used_idx == q.used_idx
            &&& a.used_ring == q.used_ring
            &&& a.last_used_idx == q.last_used_idx
        }),
{
    lemma_added_wf(q, seq![request], seq![response]);
    assert(crate::queue::submission(seq![request], seq![response]) =~= seq![
        (request.daddr, request.len, false),
        (response.daddr, response.len, true),
    ]);
}

/// Taking back the only chain of a queue leaves the queue without chains.
pub proof fn lemma_only_chain_popped(q: VirtQueueView, token: u16)
    requires
        q.wf(),
        q.chains.dom() =~= set![token as int],
        q.chains[token as int].len() == q.num_used,
        q.can_pop(),
        q.next_used_token() == token,
    ensures
        popped(q).wf(),
        popped(q).size == q.size,
        popped(q).chains.dom() =~= Set::<int>::empty(),
        popped(q).num_used == 0,
{
    lemma_recycled_wf(q, token);
}

/// A blocking playback takes few completions once a chunk has failed: at
/// any time, the chunks that were handed to the device behind the first
/// failed one are fewer than [`MAX_CHUNKS`], so that a playback whose
/// chunk number `k` is the first to fail has taken fewer than
/// `k + MAX_CHUNKS` completions when it ends, and no more than
/// [`QUEUE_CAPACITY`] where the third chunk fails. Each step takes at most
/// one completion, and where it takes one whose status is not
/// `VIRTIO_SND_S_OK` and none failed before, that chunk is the first failed
/// one.
pub proof fn lemma_completions_after_failure(v: SoundDeviceView)
    requires
        v.wf(),
        v.xfer is Some,
    ensures
        ({
            let x = v.xfer->Some_0;
            let (w, step) = v.xfer_stepped();
            &&& x.bad is Some <==> x.failed is Some
            &&& x.failed is Some ==> x.reaped + x.window.len() < x.failed->Some_0 + MAX_CHUNKS
            &&& x.failed is Some && x.failed->Some_0 <= 3 ==> x.reaped + x.window.len()
                <= QUEUE_CAPACITY
            &&& step == XferStep::Finished(x.outcome()) && x.failed is Some ==> x.reaped
                < x.failed->Some_0 + MAX_CHUNKS
            &&& w.xfer is Some ==> w.xfer->Some_0.reaped == x.reaped || (w.xfer->Some_0.reaped
                == x.reaped + 1 && w.xfer->Some_0.window.len() < x.window.len() + 1)
            &&& w.xfer is Some && x.failed is Some ==> w.xfer->Some_0.failed == x.failed
            &&& w.xfer is Some && x.failed is None && w.xfer->Some_0.failed is Some
                ==> w.xfer->Some_0.failed == Some(x.reaped + 1) && w.xfer->Some_0.reaped
                == x.reaped + 1
        }),
{
}

/// Writing the stream header into the slot of one token leaves the status
/// record in the slot of another as it was.
proof fn lemma_status_kept(bytes: Seq<u8>, token: u16, other: u16, header: Seq<u8>)
    requires
        other != token,
        header.len() == PCM_XFER_SIZE,
        status_offset(other) + 4 <= bytes.len(),
    ensures
        u32_of_le(
            written(bytes, header_offset(token) as int, header).skip(status_offset(other) as int),
        ) == u32_of_le(bytes.skip(status_offset(other) as int)),
{
    let after = written(bytes, header_offset(token) as int, header);
    let at = status_offset(other) as int;
    assert(after.skip(at)[0] == bytes.skip(at)[0]);
    assert(after.skip(at)[1] == bytes.skip(at)[1]);
    assert(after.skip(at)[2] == bytes.skip(at)[2]);
    assert(after.skip(at)[3] == bytes.skip(at)[3]);
}


/// What holds once the hardware has answered the oldest chunk of a playback
/// with `status`, where the driver had taken every completion before: the
/// completion of that chunk is the next to be taken, the status is the one
/// that the driver reads for it, and nothing else has changed.
#[verifier::rlimit(40)]
pub proof fn lemma_chunk_heard(v: SoundDeviceView, status: u32)
    requires
        v.wf(),
        v.xfer is Some,
        v.xfer->Some_0.window.len() > 0,
        !v.inner.tx.can_pop(),
    ensures
        ({
            let h = v.chunk_answered(status);
            let token = v.xfer->Some_0.window[0];
            &&& h.inner.tx.can_pop()
            &&& h.inner.tx.next_used_token() == token
            &&& !popped(h.inner.tx).can_pop()
            &&& u32_of_le(h.inner.xfer.bytes.skip(status_offset(token) as int)) == status
            &&& h.inner.tx.in_flight(token)
            &&& h.inner.tx.chains == v.inner.tx.chains
            &&& h.inner.tx.num_used == v.inner.tx.num_used
            &&& h.inner.tx.size == v.inner.tx.size
            &&& h.inner.tx.free_head == v.inner.tx.free_head
            &&& h.inner.tx.used_flags == v.inner.tx.used_flags
            &&& h.xfer == v.xfer
        }),
{
    let token = v.xfer->Some_0.window[0];
    let h = v.chunk_answered(status);
    assert(v.inner.tx.in_flight(token));
    crate::queue::lemma_completed_is_next(v.inner.tx, token, PCM_STATUS_SIZE as u32);
    let record = (crate::wire::VirtioSndPcmStatus { status, latency_bytes: 0 }).encoding();
    let at = status_offset(token) as int;
    crate::bytes::lemma_le_u32_round_trip(status);
    let after = h.inner.xfer.bytes;
    assert(after.skip(at)[0] == record[0]);
    assert(after.skip(at)[1] == record[1]);
    assert(after.skip(at)[2] == record[2]);
    assert(after.skip(at)[3] == record[3]);
}

/// One more period from the front of the frames: where `sent` whole periods
/// do not reach the end of the frames, the next chunk brings what was
/// handed over to `sent + 1` periods or to the end of the frames.
proof fn lemma_next_chunk(sent: nat, period: nat, len: nat, next: nat, chunk: nat)
    requires
        period >= 1,
        next == sent * period,
        next < len,
        chunk == (if len - next < period {
            (len - next) as nat
        } else {
            period
        }),
    ensures
        next + chunk == (if (sent + 1) * period <= len {
            (sent + 1) * period
        } else {
            len
        }),
        sent * period < len,
        (sent + 1) * period == sent * period + period,
{
    assert((sent + 1) * period == sent * period + period) by (nonlinear_arith);
}

/// A playback holds its course against a device that answers: where such
/// a device has had its turn, the next step ends the playback, with
/// nothing with the device and the result that the first failure gives if
/// one was kept, or leaves the playback nearer to its end and as it must be
/// between steps.
#[verifier::rlimit(40)]
pub proof fn lemma_played_step(v: SoundDeviceView, statuses: Seq<u32>, base: nat)
    requires
        v.wf(),
        v.playing(statuses, base),
        v.heard(statuses).wf(),
    ensures
        ({
            let x = v.xfer->Some_0;
            let (w, step) = v.heard(statuses).xfer_stepped();
            &&& step is Finished ==> step == XferStep::Finished(x.outcome()) && w.xfer is None
                && x.window.len() == 0 && (x.bad is Some || x.next == x.frames.len())
                && w.inner.tx == v.inner.tx
            &&& step is Continue ==> w.playing(statuses, base) && playback_left(w.xfer->Some_0)
                < playback_left(x)
        }),
{
    let x = v.xfer->Some_0;
    let h = v.heard(statuses);
    let q = v.inner.tx;
    if x.window.len() > 0 {
        lemma_chunk_heard(v, status_at(statuses, x.reaped));
    }
    lemma_playback_progress(h);
    let room = h.inner.tx.size - h.inner.tx.num_used >= 3;
    let more = x.bad is None && x.next < x.frames.len();
    let sent_count = x.reaped + x.window.len();
    if room && more && x.window.len() < MAX_CHUNKS {
        let token = h.inner.tx.free_head;
        let inputs = seq![
            h.inner.xfer.slice(header_offset(token), PCM_XFER_SIZE as nat),
            h.inner.send.slice(0, x.chunk().len()),
        ];
        let outputs = seq![h.inner.xfer.slice(status_offset(token), PCM_STATUS_SIZE as nat)];
        let a = added(h.inner.tx, inputs, outputs);
        let sent = SoundDeviceView {
            inner: playback_submitted(h.inner, x.stream_id, x.chunk()),
            xfer: Some(
                PcmXferView {
                    next: x.next + x.chunk_len(),
                    window: x.window.push(token),
                    ..x
                },
            ),
            ..h
        };
        assert(sent.inner.tx == a);
        lemma_added_wf(h.inner.tx, inputs, outputs);
        crate::queue::lemma_free_head_is_free(h.inner.tx);
        assert(a.chains[token as int].len() == 3);
        assert(a.num_used == h.inner.tx.num_used + 3);
        assert forall|k: int| 0 <= k < x.window.len() implies a.chains[#[trigger] x.window[k] as int]
            == q.chains[x.window[k] as int] && a.in_flight(x.window[k]) && x.window[k]
            != token by {
            assert(h.inner.tx.in_flight(x.window[k]));
            crate::queue::lemma_added_keeps(h.inner.tx, inputs, outputs, x.window[k]);
        }
        lemma_next_chunk(sent_count, x.period, x.frames.len(), x.next, x.chunk_len());
        assert(h.xfer_stepped() == sent.xfer_reaped(
            h.inner.tx.used_flags & VIRTQ_USED_F_NO_NOTIFY == 0,
        ));
        if x.window.len() > 0 {
            let y = sent.xfer->Some_0;
            assert(y.window[0] == x.window[0]);
            assert(a.can_pop());
            assert(a.next_used_token() == x.window[0]);
            lemma_played_reap(v, sent, statuses, base, x.window.len() + 1);
        } else {
            let w = sent;
            assert(h.xfer_stepped().0 == w);
            assert(w.xfer->Some_0.window =~= seq![token]);
            assert(w.playing(statuses, base));
        }
    } else if room && !more && x.window.len() == 0 {
    } else {
        assert(h.xfer_stepped() == h.xfer_reaped(false));
        assert(x.window.len() > 0);
        lemma_played_reap(v, h, statuses, base, x.window.len());
    }
}

/// The second half of a step against a device that answers: the completion
/// of the oldest chunk is taken, and the playback is as it must be between
/// steps.
#[verifier::rlimit(40)]
proof fn lemma_played_reap(
    v: SoundDeviceView,
    s: SoundDeviceView,
    statuses: Seq<u32>,
    base: nat,
    in_window: nat,
)
    requires
        v.wf(),
        v.playing(statuses, base),
        v.xfer->Some_0.window.len() > 0,
        s.xfer is Some,
        s.inner.tx.wf(),
        s.inner.tx.size == v.inner.tx.size,
        s.inner.tx.can_pop(),
        s.inner.tx.next_used_token() == v.xfer->Some_0.window[0],
        !popped(s.inner.tx).can_pop(),
        u32_of_le(s.inner.xfer.bytes.skip(status_offset(v.xfer->Some_0.window[0]) as int))
            == status_at(statuses, v.xfer->Some_0.reaped),
        s.xfer->Some_0.window.len() == in_window,
        in_window == v.xfer->Some_0.window.len() || in_window == v.xfer->Some_0.window.len() + 1,
        s.xfer->Some_0.window[0] == v.xfer->Some_0.window[0],
        s.xfer->Some_0.window.no_duplicates(),
        forall|k: int|
            0 <= k < in_window ==> s.inner.tx.in_flight(#[trigger] s.xfer->Some_0.window[k])
                && s.inner.tx.chains[s.xfer->Some_0.window[k] as int].len() == CHUNK_DESCRIPTORS,
        s.inner.tx.num_used == base + CHUNK_DESCRIPTORS * in_window,
        s.xfer->Some_0.bad == v.xfer->Some_0.bad,
        s.xfer->Some_0.failed == v.xfer->Some_0.failed,
        s.xfer->Some_0.reaped == v.xfer->Some_0.reaped,
        s.xfer->Some_0.period == v.xfer->Some_0.period,
        s.xfer->Some_0.frames == v.xfer->Some_0.frames,
        s.xfer->Some_0.next == (if (v.xfer->Some_0.reaped + in_window) * v.xfer->Some_0.period
            <= v.xfer->Some_0.frames.len() {
            (v.xfer->Some_0.reaped + in_window) * v.xfer->Some_0.period
        } else {
            v.xfer->Some_0.frames.len()
        }),
        (v.xfer->Some_0.reaped + in_window - 1) * v.xfer->Some_0.period
            < v.xfer->Some_0.frames.len(),
    ensures
        s.xfer_reaped(true).0.playing(statuses, base),
        s.xfer_reaped(false).0.playing(statuses, base),
        s.xfer_reaped(true).1 is Continue,
        s.xfer_reaped(false).1 is Continue,
{
    let x = v.xfer->Some_0;
    let y = s.xfer->Some_0;
    let token = x.window[0];
    let w = s.xfer_reaped(false).0;
    assert(s.xfer_reaped(true).0 == w);
    let z = w.xfer->Some_0;
    lemma_recycled_wf(s.inner.tx, token);
    assert(s.inner.tx.in_flight(y.window[0]));
    assert(w.inner.tx == popped(s.inner.tx));
    assert(z.window == y.window.skip(1));
    assert(w.inner.tx.num_used == base + CHUNK_DESCRIPTORS * z.window.len());
    assert forall|k: int| 0 <= k < z.window.len() implies w.inner.tx.chains[#[trigger] z.window[k] as int].len()
        == CHUNK_DESCRIPTORS by {
        assert(z.window[k] == y.window[k + 1]);
        assert(y.window[k + 1] != y.window[0]);
        assert(s.inner.tx.in_flight(y.window[k + 1]));
        crate::queue::lemma_recycled_keeps(s.inner.tx, token, y.window[k + 1]);
    }
    assert(z.reaped == x.reaped + 1);
    assert(z.reaped + z.window.len() == x.reaped + in_window);
}


/// A playback against a device that answers ends as it must: where a step
/// has ended it, the result, the chunks that came back and the state of the
/// tx queue are those that the statuses of the device give.
#[verifier::rlimit(40)]
pub proof fn lemma_run_result(
    last: SoundDeviceView,
    after: SoundDeviceView,
    statuses: Seq<u32>,
    base: nat,
    result: Result<(), VirtioDeviceError>,
)
    requires
        last.wf(),
        last.playing(statuses, base),
        play_ended(last, after, result),
    ensures
        run_ended(
            statuses,
            last.xfer->Some_0.period,
            last.xfer->Some_0.frames.len(),
            result,
            last.xfer->Some_0.reaped,
        ),
        after.xfer is None,
        tx_ready(after),
        after.inner.tx.num_used == base,
{
    let x = last.xfer->Some_0;
    assert(last.xfer_wf(x));
    assert(CHUNK_DESCRIPTORS * x.window.len() == 0);
}


/// The first failure among the first `n` chunks is a failure, is among
/// them, and no chunk before it is one; where there is none, none of the
/// first `n` chunks is a failure.
pub proof fn lemma_first_failure(statuses: Seq<u32>, n: nat)
    ensures
        match first_failure(statuses, n) {
            Some(k) => k < n && status_at(statuses, k) != VIRTIO_SND_S_OK && forall|i: nat|
                i < k ==> status_at(statuses, i) == VIRTIO_SND_S_OK,
            None => forall|i: nat| i < n ==> status_at(statuses, i) == VIRTIO_SND_S_OK,
        },
    decreases n,
{
    if n > 0 {
        lemma_first_failure(statuses, (n - 1) as nat);
    }
}

/// A whole playback against a device that answers: it ends well exactly
/// where the device gives `VIRTIO_SND_S_OK` to every chunk of the frames,
/// and then every chunk has come back. Where the device fails a chunk of
/// the frames, the playback ends with an `IoError` that carries the status
/// of the first chunk that it fails, after that chunk and fewer than
/// [`MAX_CHUNKS`] behind it have come back; so a playback whose third
/// chunk is the first to fail ends after no more than seven completions,
/// which is less than [`QUEUE_CAPACITY`].
#[verifier::rlimit(40)]
pub proof fn lemma_run_outcome(
    statuses: Seq<u32>,
    period: nat,
    len: nat,
    result: Result<(), VirtioDeviceError>,
    taken: nat,
)
    requires
        period >= 1,
        run_ended(statuses, period, len, result, taken),
    ensures
        result is Ok <==> forall|i: nat|
            i * period < len ==> #[trigger] status_at(statuses, i) == VIRTIO_SND_S_OK,
        result is Ok ==> len <= taken * period && (taken > 0 ==> (taken - 1) * period < len),
        forall|k: nat|
            k * period < len && #[trigger] status_at(statuses, k) != VIRTIO_SND_S_OK && (forall|
                i: nat,
            |
                i < k ==> status_at(statuses, i) == VIRTIO_SND_S_OK) ==> result == Err::<
                (),
                VirtioDeviceError,
            >(VirtioDeviceError::IoError(Some(status_at(statuses, k)))) && k < taken && taken
                <= k + MAX_CHUNKS,
        2 * period < len && status_at(statuses, 2) != VIRTIO_SND_S_OK && status_at(statuses, 0)
            == VIRTIO_SND_S_OK && status_at(statuses, 1) == VIRTIO_SND_S_OK ==> result == Err::<
            (),
            VirtioDeviceError,
        >(VirtioDeviceError::IoError(Some(status_at(statuses, 2)))) && taken <= 7 && taken
            <= QUEUE_CAPACITY,
{
    lemma_first_failure(statuses, taken);
    if result is Ok {
        assert forall|i: nat| i * period < len implies #[trigger] status_at(statuses, i)
            == VIRTIO_SND_S_OK by {
            lemma_chunk_came_back(i, taken, period, len);
        }
    } else {
        let k = first_failure(statuses, taken)->Some_0;
        lemma_chunk_of_frames(k, taken, period, len);
    }
    assert forall|k: nat|
        k * period < len && #[trigger] status_at(statuses, k) != VIRTIO_SND_S_OK && (forall|i: nat|
            i < k ==> status_at(statuses, i) == VIRTIO_SND_S_OK) implies result == Err::<
        (),
        VirtioDeviceError,
    >(VirtioDeviceError::IoError(Some(status_at(statuses, k)))) && k < taken && taken <= k
        + MAX_CHUNKS by {
        if result is Ok {
            lemma_chunk_came_back(k, taken, period, len);
        } else {
            let f = first_failure(statuses, taken)->Some_0;
            lemma_chunk_of_frames(f, taken, period, len);
            if f < k {
                assert(status_at(statuses, f) == VIRTIO_SND_S_OK);
            }
            if k < f {
                assert(status_at(statuses, k) == VIRTIO_SND_S_OK);
            }
        }
    }
    if 2 * period < len && status_at(statuses, 2) != VIRTIO_SND_S_OK && status_at(statuses, 0)
        == VIRTIO_SND_S_OK && status_at(statuses, 1) == VIRTIO_SND_S_OK {
        assert forall|i: nat| i < 2 implies #[trigger] status_at(statuses, i)
            == VIRTIO_SND_S_OK by {
            assert(i == 0 || i == 1);
        }
    }
}

/// A chunk that came back is a chunk of the frames.
proof fn lemma_chunk_of_frames(i: nat, taken: nat, period: nat, len: nat)
    requires
        i < taken,
        (taken - 1) * period < len,
        period >= 1,
    ensures
        i * period < len,
{
    assert(i * period <= (taken - 1) * period) by (nonlinear_arith)
        requires
            i <= taken - 1,
            period >= 1,
    ;
}

/// Where the chunks that came back are all the frames, every chunk of the
/// frames came back.
proof fn lemma_chunk_came_back(i: nat, taken: nat, period: nat, len: nat)
    requires
        i * period < len,
        len <= taken * period,
        period >= 1,
    ensures
        i < taken,
{
    if i >= taken {
        assert(i * period >= taken * period) by (nonlinear_arith)
            requires
                i >= taken,
                period >= 1,
        ;
    }
}

} // verus!

