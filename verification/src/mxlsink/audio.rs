//! Writing audio buffers: which samples go where in the flow.
use super::state::anchor_of;
use super::state::tie;
use super::state::AudioState;
use super::state::FlowInfo;
use super::state::InitialTime;
use super::state::State;
use super::state::Target;
use crate::planar::filled;
use crate::planar::interleaved;
use crate::planar::law_fill_takes_the_channel;
use crate::planar::law_interleave_restores_frames;
use crate::planar::sample_start;
use crate::timing::min;
use crate::timing::FlowError;
use crate::timing::Rational;
use crate::timing::CLOCK_RANGE;
use vstd::arithmetic::div_mod::lemma_fundamental_div_mod_converse;
use vstd::prelude::*;

verus! {

/// A part of a buffer that is written at once: where its samples go, how many
/// there are for each channel, and which bytes of the buffer they are.
#[derive(Debug, Clone, Copy, PartialEq, Eq, Structural)]
pub struct Chunk {
    pub write_index: u64,
    pub samples: usize,
    pub byte_start: usize,
    pub byte_len: usize,
}

/// Bytes that one sample of the stream takes.
pub open spec fn sample_bytes(audio: AudioState) -> usize {
    (audio.flow_def.bit_depth / 8) as usize
}

/// Channels of the stream.
pub open spec fn channel_count(audio: AudioState) -> usize {
    audio.flow_def.channel_count as usize
}

/// Whether a buffer can be divided into frames: a frame takes some bytes, and
/// their number can be represented.
pub open spec fn frames_fit(audio: AudioState) -> bool {
    0 < channel_count(audio) * sample_bytes(audio) <= usize::MAX
}

/// The rate and the ring length of the flow that samples are written to.
pub open spec fn sample_flow_of(flow: Option<FlowInfo>) -> Option<(Rational, u32)> {
    match flow {
        Some(FlowInfo { continuous: Some(info), .. }) => Some(
            (info.sample_rate, info.buffer_length),
        ),
        _ => None,
    }
}

/// The position for samples whose turn is `index`: none that lies further ahead
/// of the current sample than the ring is long.
pub open spec fn clamp_samples(index: int, current_index: u64, buffer_length: u32) -> int {
    if index > current_index + buffer_length {
        current_index + buffer_length - 1
    } else {
        index
    }
}

/// Whether a buffer's time can be represented.
pub open spec fn buffer_time_fits(
    state: State,
    current_index: u64,
    running_time: Option<u64>,
    pts: Option<u64>,
) -> bool {
    running_time matches Some(now) ==> (pts matches Some(pts) ==> pts + anchor_of(
        state.initial_time,
        current_index,
        now,
    ).gst_time <= u64::MAX)
}

/// Where a buffer goes. A buffer without a presentation time goes to the
/// current sample.
pub open spec fn audio_target(
    state: State,
    current_index: u64,
    running_time: Option<u64>,
    pts: Option<u64>,
) -> Result<Target, FlowError> {
    match (sample_flow_of(state.flow), running_time) {
        (Some(flow), Some(now)) => Ok(
            match pts {
                Some(pts) => Target::Convert {
                    timestamp: (pts + anchor_of(
                        state.initial_time,
                        current_index,
                        now,
                    ).gst_time) as u64,
                    rate: flow.0,
                },
                None => Target::At { index: current_index },
            },
        ),
        _ => Err(FlowError::Error),
    }
}

/// The sink after it has been decided where a buffer goes.
pub open spec fn after_target(state: State, current_index: u64, running_time: Option<u64>) -> State {
    match (sample_flow_of(state.flow), running_time) {
        (Some(_), Some(now)) => State {
            initial_time: Some(anchor_of(state.initial_time, current_index, now)),
            ..state
        },
        _ => state,
    }
}

/// Whether a buffer's position can be represented.
pub open spec fn samples_fit(state: State, current_index: u64, mapped: Option<u64>) -> bool {
    match (sample_flow_of(state.flow), state.initial_time, mapped) {
        (Some(flow), Some(time), Some(mapped)) => {
            &&& mapped + time.index <= u64::MAX
            &&& current_index + flow.1 <= u64::MAX
            &&& mapped + time.index > current_index + flow.1 ==> current_index + flow.1 > 0
        },
        _ => true,
    }
}

/// The sink after it has taken note of a buffer of `len` bytes.
pub open spec fn after_note(state: State, len: usize) -> State {
    match state.audio {
        Some(audio) => State {
            audio: Some(
                AudioState {
                    batch_size: (len as int / (channel_count(audio) * sample_bytes(
                        audio,
                    ))) as usize,
                    ..audio
                },
            ),
            ..state
        },
        None => state,
    }
}

/// The rate by which the current sample is counted for a stream.
pub open spec fn note_rate(state: State) -> Result<Rational, FlowError> {
    match (state.audio, sample_flow_of(state.flow)) {
        (Some(_), Some(flow)) => Ok(flow.0),
        _ => Err(FlowError::Error),
    }
}

/// Where the samples of a buffer start whose time has been mapped to a position,
/// counted from the anchor.
pub open spec fn start_of(state: State, current_index: u64, mapped: Option<u64>) -> Result<
    u64,
    FlowError,
> {
    match (sample_flow_of(state.flow), state.initial_time, mapped) {
        (Some(flow), Some(time), Some(mapped)) => Ok(
            clamp_samples(mapped + time.index, current_index, flow.1) as u64,
        ),
        _ => Err(FlowError::Error),
    }
}

impl State {
    /// Tells whether [`State::render_audio`] can take a buffer.
    pub fn check_frames(&self) -> (ok: bool)
        ensures
            ok == (self.audio matches Some(audio) ==> frames_fit(audio)),
    {
        match &self.audio {
            Some(audio) => {
                let channels: usize = audio.flow_def.channel_count as usize;
                let bytes: usize = (audio.flow_def.bit_depth / 8) as usize;
                match channels.checked_mul(bytes) {
                    Some(frame) => frame > 0,
                    None => false,
                }
            },
            None => true,
        }
    }

    /// Takes note of how many samples a buffer of `len` bytes holds for each
    /// channel, and gives the rate by which the current sample is counted.
    /// Without an audio stream and a flow of samples nothing can be written.
    pub fn render_audio(&mut self, len: usize) -> (rate: Result<Rational, FlowError>)
        requires
            old(self).audio matches Some(audio) ==> frames_fit(audio),
        ensures
            final(self).flow == old(self).flow,
            final(self).video == old(self).video,
            final(self).initial_time == old(self).initial_time,
            final(self).audio == (match old(self).audio {
                Some(audio) => Some(
                    AudioState {
                        batch_size: (len as int / (channel_count(audio) * sample_bytes(
                            audio,
                        ))) as usize,
                        ..audio
                    },
                ),
                None => None,
            }),
            match rate {
                Ok(rate) => {
                    &&& old(self).audio is Some
                    &&& sample_flow_of(old(self).flow) matches Some(flow)
                    &&& rate == flow.0
                },
                Err(_) => old(self).audio is None || sample_flow_of(old(self).flow) is None,
            },
            rate == note_rate(*old(self)),
            *final(self) == after_note(*old(self), len),
    {
        match &mut self.audio {
            Some(audio) => {
                let channels: usize = audio.flow_def.channel_count as usize;
                let bytes: usize = (audio.flow_def.bit_depth / 8) as usize;
                audio.batch_size = len / (channels * bytes);
            },
            None => {
                return Err(FlowError::Error);
            },
        }
        match self.flow {
            Some(FlowInfo { continuous: Some(info), .. }) => Ok(info.sample_rate),
            _ => Err(FlowError::Error),
        }
    }

    /// Tells whether [`State::target_audio`] can take the buffer.
    pub fn check_buffer_time(
        &self,
        current_index: u64,
        running_time: Option<u64>,
        pts: Option<u64>,
    ) -> (ok: bool)
        ensures
            ok == buffer_time_fits(*self, current_index, running_time, pts),
    {
        match (running_time, pts) {
            (Some(now), Some(pts)) => {
                let gst_time: u64 = match self.initial_time {
                    Some(time) => time.gst_time,
                    None => now,
                };
                pts.checked_add(gst_time).is_some()
            },
            _ => true,
        }
    }

    /// Decides where a buffer goes. The first buffer ties the stream to the
    /// flow. A buffer without a presentation time goes to the current sample.
    pub fn target_audio(
        &mut self,
        current_index: u64,
        running_time: Option<u64>,
        pts: Option<u64>,
    ) -> (target: Result<Target, FlowError>)
        requires
            buffer_time_fits(*old(self), current_index, running_time, pts),
        ensures
            target == audio_target(*old(self), current_index, running_time, pts),
            *final(self) == after_target(*old(self), current_index, running_time),
    {
        let rate: Rational = match self.flow {
            Some(FlowInfo { continuous: Some(info), .. }) => info.sample_rate,
            _ => {
                return Err(FlowError::Error);
            },
        };
        let now: u64 = match running_time {
            Some(now) => now,
            None => {
                return Err(FlowError::Error);
            },
        };
        let time = tie(&mut self.initial_time, current_index, now);
        match pts {
            Some(pts) => Ok(Target::Convert { timestamp: pts + time.gst_time, rate }),
            None => Ok(Target::At { index: current_index }),
        }
    }

    /// Tells whether [`State::place_audio`] can place the buffer.
    pub fn check_samples(&self, current_index: u64, mapped: Option<u64>) -> (ok: bool)
        ensures
            ok == samples_fit(*self, current_index, mapped),
    {
        match (self.flow, self.initial_time, mapped) {
            (
                Some(FlowInfo { continuous: Some(info), .. }),
                Some(time),
                Some(mapped),
            ) => match mapped.checked_add(time.index) {
                Some(index) => match current_index.checked_add(info.buffer_length as u64) {
                    Some(limit) => limit > 0 || index == 0,
                    None => false,
                },
                None => false,
            },
            _ => true,
        }
    }

    /// Decides where the samples of a buffer start whose time has been mapped
    /// to a position, counted from the anchor. A time that cannot be mapped
    /// ends the stream.
    pub fn place_audio(&self, current_index: u64, mapped: Option<u64>) -> (index: Result<
        u64,
        FlowError,
    >)
        requires
            samples_fit(*self, current_index, mapped),
        ensures
            match (sample_flow_of(self.flow), self.initial_time, mapped) {
                (Some(flow), Some(time), Some(mapped)) => {
                    &&& index matches Ok(index)
                    &&& index == clamp_samples(mapped + time.index, current_index, flow.1)
                },
                _ => index == Err::<u64, FlowError>(FlowError::Error),
            },
            index == start_of(*self, current_index, mapped),
    {
        match (self.flow, self.initial_time, mapped) {
            (Some(FlowInfo { continuous: Some(info), .. }), Some(time), Some(mapped)) => {
                let index: u64 = mapped + time.index;
                let limit: u64 = current_index + info.buffer_length as u64;
                if index > limit {
                    Ok(limit - 1)
                } else {
                    Ok(index)
                }
            },
            _ => Err(FlowError::Error),
        }
    }
}

/// How many chunks a buffer is written in.
pub open spec fn chunk_count(samples: int, max_chunk: int) -> int {
    if samples == 0 {
        0
    } else {
        (samples - 1) / max_chunk + 1
    }
}

/// The chunks of a buffer: each of `max_chunk` samples, but for the last, one
/// after the other in the buffer and in the flow. Positions in the flow wrap
/// around at the end of the clock.
pub open spec fn chunk_at(
    i: int,
    write_index: u64,
    samples: int,
    max_chunk: int,
    frame_bytes: int,
) -> Chunk {
    let start = i * max_chunk;
    let count = min(max_chunk, samples - start);
    Chunk {
        write_index: ((write_index + start) % (CLOCK_RANGE as int)) as u64,
        samples: count as usize,
        byte_start: (start * frame_bytes) as usize,
        byte_len: (count * frame_bytes) as usize,
    }
}

/// The chunks that a buffer of `samples` samples is written in, none longer than
/// half the ring.
pub open spec fn planned(
    write_index: u64,
    samples: usize,
    buffer_length: u32,
    frame_bytes: int,
) -> Seq<Chunk> {
    Seq::new(
        chunk_count(samples as int, buffer_length as int / 2) as nat,
        |i: int|
            chunk_at(i, write_index, samples as int, buffer_length as int / 2, frame_bytes),
    )
}

/// Divides the samples of a buffer into chunks, none longer than half the ring,
/// the first of which goes to `write_index`.
pub fn plan_chunks(
    write_index: u64,
    samples: usize,
    buffer_length: u32,
    channels: usize,
    sample_bytes: usize,
) -> (chunks: Vec<Chunk>)
    requires
        samples * (channels * sample_bytes) <= usize::MAX,
        channels * sample_bytes <= usize::MAX,
        samples > 0 ==> buffer_length >= 2,
    ensures
        chunks@.len() == chunk_count(samples as int, buffer_length as int / 2),
        forall|i: int|
            0 <= i < chunks@.len() ==> #[trigger] chunks@[i] == chunk_at(
                i,
                write_index,
                samples as int,
                buffer_length as int / 2,
                channels * sample_bytes,
            ),
        chunks@ == planned(write_index, samples, buffer_length, channels * sample_bytes),
{
    let max_chunk: usize = (buffer_length / 2) as usize;
    let frame_bytes: usize = channels * sample_bytes;
    let ghost m = max_chunk as int;
    let ghost f = frame_bytes as int;
    let mut chunks: Vec<Chunk> = Vec::new();
    let mut index: u64 = write_index;
    let mut offset: usize = 0;
    let mut remaining: usize = samples;
    while remaining > 0
        invariant
            m == max_chunk,
            m == buffer_length as int / 2,
            f == frame_bytes,
            f == channels * sample_bytes,
            samples > 0 ==> m > 0,
            samples * f <= usize::MAX,
            offset + remaining == samples,
            remaining > 0 ==> offset == chunks@.len() * m,
            remaining == 0 ==> chunks@.len() == chunk_count(samples as int, m),
            remaining > 0 ==> index == (write_index + offset) % (CLOCK_RANGE as int),
            forall|i: int|
                0 <= i < chunks@.len() ==> #[trigger] chunks@[i] == chunk_at(
                    i,
                    write_index,
                    samples as int,
                    m,
                    f,
                ),
        decreases remaining,
    {
        let count: usize = if remaining <= max_chunk {
            remaining
        } else {
            max_chunk
        };
        proof {
            assert(offset * f <= samples * f && count * f <= samples * f && 0 <= offset * f && 0
                <= count * f) by (nonlinear_arith)
                requires
                    0 <= offset <= samples,
                    0 <= count <= samples,
                    f >= 0,
            ;
            let k = chunks@.len() as int;
            assert((k + 1) * m == k * m + m) by (nonlinear_arith);
            if remaining <= max_chunk {
                lemma_fundamental_div_mod_converse(
                    samples - 1,
                    m,
                    k,
                    samples - 1 - k * m,
                );
            }
        }
        chunks.push(
            Chunk {
                write_index: index,
                samples: count,
                byte_start: offset * frame_bytes,
                byte_len: count * frame_bytes,
            },
        );
        index = index.wrapping_add(count as u64);
        offset = offset + count;
        remaining = remaining - count;
    }
    assert(chunks@ =~= planned(write_index, samples, buffer_length, channels * sample_bytes));
    chunks
}

/// How a buffer is written: the layout of its samples, and its chunks.
#[derive(Debug)]
pub struct AudioPlan {
    pub channels: usize,
    pub sample_bytes: usize,
    pub chunks: Vec<Chunk>,
}

/// Whether a buffer can be divided into chunks: its bytes can be counted, and
/// the ring is long enough to be written in halves.
pub open spec fn plan_fits(state: State) -> bool {
    match (state.audio, sample_flow_of(state.flow)) {
        (Some(audio), Some(flow)) => {
            let frame_bytes = channel_count(audio) * sample_bytes(audio);
            &&& frame_bytes <= usize::MAX
            &&& audio.batch_size * frame_bytes <= usize::MAX
            &&& audio.batch_size > 0 ==> flow.1 >= 2
        },
        _ => true,
    }
}

/// How a buffer is written that starts at `write_index`: the number of channels,
/// the bytes of a sample, and the chunks.
pub open spec fn plan_of(state: State, write_index: u64) -> Option<(usize, usize, Seq<Chunk>)> {
    match (state.audio, sample_flow_of(state.flow)) {
        (Some(audio), Some(flow)) => Some(
            (
                channel_count(audio),
                sample_bytes(audio),
                planned(
                    write_index,
                    audio.batch_size,
                    flow.1,
                    channel_count(audio) * sample_bytes(audio),
                ),
            ),
        ),
        _ => None,
    }
}

impl State {
    /// Tells whether [`State::plan_audio`] can divide the buffer.
    pub fn check_plan(&self) -> (ok: bool)
        ensures
            ok == plan_fits(*self),
    {
        match (&self.audio, self.flow) {
            (Some(audio), Some(FlowInfo { continuous: Some(info), .. })) => {
                let channels: usize = audio.flow_def.channel_count as usize;
                let bytes: usize = (audio.flow_def.bit_depth / 8) as usize;
                match channels.checked_mul(bytes) {
                    Some(frame) => audio.batch_size.checked_mul(frame).is_some() && (
                    audio.batch_size == 0 || info.buffer_length >= 2),
                    None => false,
                }
            },
            _ => true,
        }
    }

    /// Divides the buffer that [`State::render_audio`] took note of into chunks,
    /// the first of which goes to `write_index`.
    pub fn plan_audio(&self, write_index: u64) -> (plan: Result<AudioPlan, FlowError>)
        requires
            plan_fits(*self),
        ensures
            match (self.audio, sample_flow_of(self.flow)) {
                (Some(audio), Some(flow)) => {
                    let max_chunk = flow.1 as int / 2;
                    &&& plan matches Ok(plan)
                    &&& plan.channels == channel_count(audio)
                    &&& plan.sample_bytes == sample_bytes(audio)
                    &&& plan.chunks@.len() == chunk_count(audio.batch_size as int, max_chunk)
                    &&& forall|i: int|
                        0 <= i < plan.chunks@.len() ==> #[trigger] plan.chunks@[i] == chunk_at(
                            i,
                            write_index,
                            audio.batch_size as int,
                            max_chunk,
                            channel_count(audio) * sample_bytes(audio),
                        )
                },
                _ => plan is Err,
            },
            plan matches Ok(plan) ==> plan_of(*self, write_index) == Some(
                (plan.channels, plan.sample_bytes, plan.chunks@),
            ),
            plan is Err ==> plan_of(*self, write_index) is None,
    {
        match (&self.audio, self.flow) {
            (Some(audio), Some(FlowInfo { continuous: Some(info), .. })) => {
                let channels: usize = audio.flow_def.channel_count as usize;
                let bytes: usize = (audio.flow_def.bit_depth / 8) as usize;
                let chunks = plan_chunks(
                    write_index,
                    audio.batch_size,
                    info.buffer_length,
                    channels,
                    bytes,
                );
                Ok(AudioPlan { channels, sample_bytes: bytes, chunks })
            },
            _ => Err(FlowError::Error),
        }
    }
}

/// No samples are written further ahead of the current one than the ring is
/// long, and samples that are not too far ahead go where their time puts them.
pub proof fn law_samples_stay_in_the_ring(index: int, current_index: u64, buffer_length: u32)
    requires
        index >= 0,
    ensures
        clamp_samples(index, current_index, buffer_length) <= current_index + buffer_length,
        index <= current_index + buffer_length ==> clamp_samples(
            index,
            current_index,
            buffer_length,
        ) == index,
        clamp_samples(index, current_index, buffer_length) <= index,
{
}

/// The chunks of a buffer follow one another without gap or overlap and cover
/// all its samples; none is empty and none is longer than half the ring.
pub proof fn law_chunks_cover_the_buffer(
    write_index: u64,
    samples: int,
    max_chunk: int,
    frame_bytes: int,
    i: int,
)
    requires
        max_chunk > 0,
        frame_bytes >= 0,
        0 <= samples <= usize::MAX,
        samples * frame_bytes <= usize::MAX,
        0 <= i < chunk_count(samples, max_chunk),
    ensures
        ({
            let chunk = chunk_at(i, write_index, samples, max_chunk, frame_bytes);
            let next = chunk_at(i + 1, write_index, samples, max_chunk, frame_bytes);
            &&& 0 < chunk.samples <= max_chunk
            &&& chunk.byte_len == chunk.samples * frame_bytes
            &&& chunk.byte_start == i * max_chunk * frame_bytes
            &&& i == 0 ==> chunk.byte_start == 0 && chunk.write_index == write_index
            &&& i + 1 < chunk_count(samples, max_chunk) ==> {
                &&& next.byte_start == chunk.byte_start + chunk.byte_len
                &&& next.write_index == (chunk.write_index + chunk.samples) % (CLOCK_RANGE as int)
            }
            &&& i + 1 == chunk_count(samples, max_chunk) ==> {
                &&& i * max_chunk + chunk.samples == samples
                &&& chunk.byte_start + chunk.byte_len == samples * frame_bytes
            }
        }),
{
    let m = max_chunk;
    let f = frame_bytes;
    let q = (samples - 1) / m;
    assert(i * m <= samples - 1 && (i < q ==> (i + 1) * m <= samples - 1) && (i == q ==> samples
        - i * m <= m) && i * m >= 0 && (i + 1) * m == i * m + m) by (nonlinear_arith)
        requires
            m > 0,
            samples >= 1,
            q == (samples - 1) / m,
            0 <= i <= q,
    ;
    let start = i * m;
    let count = min(m, samples - start);
    assert(start * f <= samples * f && count * f <= samples * f && 0 <= start * f && 0 <= count * f
        && (start + count) * f == start * f + count * f && (start + count) * f <= samples * f)
        by (nonlinear_arith)
        requires
            0 <= start,
            0 <= count,
            start + count <= samples,
            f >= 0,
    ;
    if i < q {
        let after = (i + 1) * m;
        assert(after == start + count);
    }
}

/// Sample number `s` of every channel of a buffer goes to position
/// `write_index + s` of the flow: sample `t` of chunk `i` is sample `i *
/// max_chunk + t` of the buffer. The planes that the flow hands out for the
/// chunk start on sample boundaries and have room for it.
pub proof fn law_samples_keep_their_order(
    buffer: Seq<u8>,
    write_index: u64,
    samples: int,
    max_chunk: int,
    channels: int,
    sample_bytes: int,
    i: int,
    channel: int,
    planes: (Seq<u8>, Seq<u8>),
)
    requires
        max_chunk > 0,
        0 <= channel < channels,
        sample_bytes > 0,
        0 <= samples <= usize::MAX,
        samples * (channels * sample_bytes) <= buffer.len() <= usize::MAX,
        0 <= i < chunk_count(samples, max_chunk),
        planes.0.len() as int % sample_bytes == 0,
        chunk_at(i, write_index, samples, max_chunk, channels * sample_bytes).samples
            * sample_bytes <= planes.0.len() + planes.1.len(),
    ensures
        ({
            let chunk = chunk_at(i, write_index, samples, max_chunk, channels * sample_bytes);
            let bytes = buffer.subrange(
                chunk.byte_start as int,
                chunk.byte_start + chunk.byte_len,
            );
            let after = filled(
                bytes,
                channel,
                channels,
                sample_bytes,
                chunk.samples as nat,
                planes,
            );
            forall|t: int, k: int|
                0 <= t < chunk.samples && 0 <= k < sample_bytes ==> {
                    &&& #[trigger] (after.0 + after.1)[t * sample_bytes + k]
                        == buffer[sample_start(i * max_chunk + t, channel, channels, sample_bytes)
                        + k]
                    &&& (chunk.write_index + t) % (CLOCK_RANGE as int) == (write_index + (i
                        * max_chunk + t)) % (CLOCK_RANGE as int)
                }
        }),
{
    let f = channels * sample_bytes;
    let chunk = chunk_at(i, write_index, samples, max_chunk, f);
    assert(f > 0) by (nonlinear_arith)
        requires
            channels > 0,
            sample_bytes > 0,
            f == channels * sample_bytes,
    ;
    law_chunks_cover_the_buffer(write_index, samples, max_chunk, f, i);
    assert(chunk.byte_start + chunk.byte_len <= samples * f) by {
        let q = (samples - 1) / max_chunk;
        let start = i * max_chunk;
        assert(start <= samples - 1) by (nonlinear_arith)
            requires
                max_chunk > 0,
                samples >= 1,
                q == (samples - 1) / max_chunk,
                0 <= i <= q,
                start == i * max_chunk,
        ;
        assert(start * f + chunk.samples * f <= samples * f) by (nonlinear_arith)
            requires
                start + chunk.samples <= samples,
                f > 0,
        ;
    }
    let bytes = buffer.subrange(chunk.byte_start as int, chunk.byte_start + chunk.byte_len);
    assert(chunk.samples * channels * sample_bytes == chunk.samples * f) by (nonlinear_arith)
        requires
            f == channels * sample_bytes,
    ;
    law_fill_takes_the_channel(
        bytes,
        channel,
        channels,
        sample_bytes,
        chunk.samples as nat,
        planes,
    );
    let after = filled(bytes, channel, channels, sample_bytes, chunk.samples as nat, planes);
    assert forall|t: int, k: int| 0 <= t < chunk.samples && 0 <= k < sample_bytes implies {
        &&& #[trigger] (after.0 + after.1)[t * sample_bytes + k] == buffer[sample_start(
            i * max_chunk + t,
            channel,
            channels,
            sample_bytes,
        ) + k]
        &&& (chunk.write_index + t) % (CLOCK_RANGE as int) == (write_index + (i * max_chunk + t))
            % (CLOCK_RANGE as int)
    } by {
        let start = sample_start(t, channel, channels, sample_bytes);
        assert(start >= 0 && start + k < chunk.samples * f) by (nonlinear_arith)
            requires
                start == t * channels * sample_bytes + channel * sample_bytes,
                0 <= t < chunk.samples,
                0 <= channel < channels,
                0 <= k < sample_bytes,
                f == channels * sample_bytes,
        ;
        assert(sample_start(i * max_chunk + t, channel, channels, sample_bytes)
            == chunk.byte_start + start) by (nonlinear_arith)
            requires
                chunk.byte_start == i * max_chunk * f,
                f == channels * sample_bytes,
                start == t * channels * sample_bytes + channel * sample_bytes,
                sample_start(i * max_chunk + t, channel, channels, sample_bytes) == (i * max_chunk
                    + t) * channels * sample_bytes + channel * sample_bytes,
        ;
        assert((after.0 + after.1)[t * sample_bytes + k] == bytes[start + k]);
    }
}

/// What the sink writes, the source reads back. Let a flow hold, for every
/// channel, sample number `s` of a buffer at position `write_index + s`, which is
/// where the sink puts it. If the source reads `count` samples of every channel
/// from position `write_index + from` on and interleaves them, it gets frames
/// `from` to `from + count` of the buffer, byte for byte.
pub proof fn law_written_samples_are_read_back(
    buffer: Seq<u8>,
    write_index: u64,
    samples: int,
    flow: spec_fn(int, int) -> Seq<u8>,
    channels: Seq<Seq<u8>>,
    from: nat,
    count: nat,
)
    requires
        channels.len() > 0,
        samples * channels.len() * 4 <= buffer.len(),
        from + count <= samples,
        forall|c: int, s: int, k: int|
            0 <= c < channels.len() && 0 <= s < samples && 0 <= k < 4 ==> #[trigger] flow(
                c,
                (write_index + s) % (CLOCK_RANGE as int),
            )[k] == buffer[sample_start(s, c, channels.len() as int, 4) + k],
        forall|c: int, i: int, k: int|
            0 <= c < channels.len() && 0 <= i < count && 0 <= k < 4
                ==> #[trigger] channels[c][i * 4 + k] == flow(
                c,
                (write_index + (from + i)) % (CLOCK_RANGE as int),
            )[k],
    ensures
        interleaved(channels, count) == buffer.subrange(
            (from * channels.len() * 4) as int,
            ((from + count) * channels.len() * 4) as int,
        ),
{
    let n = channels.len() as int;
    assert((from + count) * n * 4 <= samples * n * 4) by (nonlinear_arith)
        requires
            from + count <= samples,
            n > 0,
    ;
    assert forall|c: int, i: int, k: int|
        0 <= c < n && 0 <= i < count && 0 <= k < 4 implies #[trigger] channels[c][i * 4 + k]
        == buffer[sample_start(from + i, c, n, 4) + k] by {
        let s = from + i;
        assert(flow(c, (write_index + s) % (CLOCK_RANGE as int))[k] == buffer[sample_start(
            s,
            c,
            n,
            4,
        ) + k]);
    }
    law_interleave_restores_frames(buffer, channels, from, count);
}

/// The sink after a run of buffers, each with the current sample and the
/// running time that were read for it.
pub open spec fn after_targets(state: State, calls: Seq<(u64, Option<u64>)>) -> State
    decreases calls.len(),
{
    if calls.len() == 0 {
        state
    } else {
        let before = after_targets(state, calls.drop_last());
        after_target(before, calls.last().0, calls.last().1)
    }
}

/// The first buffer with a running time ties the stream to the current sample
/// and that time, if there is a flow of samples; and a stream that is tied stays
/// tied as it is, however many buffers follow.
pub proof fn law_samples_stay_tied(
    state: State,
    current_index: u64,
    now: u64,
    calls: Seq<(u64, Option<u64>)>,
)
    requires
        sample_flow_of(state.flow) is Some,
    ensures
        after_targets(after_target(state, current_index, Some(now)), calls).initial_time == Some(
            anchor_of(state.initial_time, current_index, now),
        ),
    decreases calls.len(),
{
    if calls.len() > 0 {
        law_samples_stay_tied(state, current_index, now, calls.drop_last());
    }
}

/// A buffer is noted with as many samples for each channel as it holds whole
/// frames; a frame has one sample for each channel, and a sample has one byte for
/// each eight bits of its depth. Nothing else changes. The rate is that of the
/// flow of samples, without which, or without an audio stream, there is none.
pub proof fn law_buffers_are_counted_in_frames(state: State, len: usize)
    ensures
        note_rate(state) is Ok <==> state.audio is Some && state.flow is Some
            && state.flow->0.continuous is Some,
        note_rate(state) matches Ok(rate) ==> rate == state.flow->0.continuous->0.sample_rate,
        state.audio is None ==> after_note(state, len) == state,
        after_note(state, len).flow == state.flow,
        after_note(state, len).video == state.video,
        after_note(state, len).initial_time == state.initial_time,
        state.audio matches Some(audio) ==> {
            let bytes = sample_bytes(audio);
            let frame = channel_count(audio) * bytes;
            &&& 8 * bytes <= audio.flow_def.bit_depth < 8 * bytes + 8
            &&& audio.flow_def.channel_count >= 0 ==> channel_count(audio)
                == audio.flow_def.channel_count
            &&& 0 < frame <= usize::MAX ==> frames_fit(audio)
            &&& after_note(state, len).audio matches Some(noted)
            &&& noted.flow_def == audio.flow_def && noted.bit_depth == audio.bit_depth
            &&& 0 < frame ==> noted.batch_size * frame <= len < (noted.batch_size + 1) * frame
        },
{
    if let Some(audio) = state.audio {
        let frame = channel_count(audio) * sample_bytes(audio);
        let l = len as int;
        assert(0 <= frame) by (nonlinear_arith)
            requires
                frame == channel_count(audio) * sample_bytes(audio),
        ;
        if frame > 0 {
            assert((l / frame) * frame <= l < (l / frame + 1) * frame && 0 <= l / frame <= l)
                by (nonlinear_arith)
                requires
                    frame > 0,
                    l >= 0,
            ;
        }
    }
}

/// A buffer can be placed exactly if there is a flow of samples and a running
/// time. One without a presentation time goes to the current sample. Any other
/// is placed by its presentation time plus the running time that the stream is
/// tied to, at the rate of the flow: a stream that is tied stays tied as it is,
/// and one that is not is tied to the current sample and running time. Nothing
/// else changes.
pub proof fn law_buffers_are_placed_by_the_tie(
    state: State,
    current_index: u64,
    running_time: Option<u64>,
    pts: Option<u64>,
)
    requires
        buffer_time_fits(state, current_index, running_time, pts),
    ensures
        ({
            let possible = state.flow is Some && state.flow->0.continuous is Some && running_time
                is Some;
            let after = after_target(state, current_index, running_time);
            let target = audio_target(state, current_index, running_time, pts);
            &&& target is Ok <==> possible
            &&& !possible ==> after == state
            &&& after.flow == state.flow && after.audio == state.audio && after.video
                == state.video
            &&& state.initial_time is Some ==> after.initial_time == state.initial_time
            &&& possible && state.initial_time is None ==> (after.initial_time matches Some(tie)
                && tie.index == current_index && tie.gst_time == running_time->0)
            &&& possible && pts is None ==> target == Ok::<Target, FlowError>(
                Target::At { index: current_index },
            )
            &&& possible && pts is Some ==> {
                &&& target matches Ok(Target::Convert { timestamp, rate })
                &&& rate == state.flow->0.continuous->0.sample_rate
                &&& timestamp - pts->0 == after.initial_time->0.gst_time
            }
        }),
{
}

/// In a tied stream the time that a buffer is placed by depends on nothing but
/// its presentation time and the tie: for any two buffers, at whatever positions
/// and running times they come, these times are as far apart as the presentation
/// times, and for a presentation time of zero it is the running time of the tie.
pub proof fn law_buffer_times_keep_their_distance(
    state: State,
    tie: InitialTime,
    first_index: u64,
    first_now: u64,
    first_pts: u64,
    second_index: u64,
    second_now: u64,
    second_pts: u64,
)
    requires
        state.initial_time == Some(tie),
        state.flow is Some && state.flow->0.continuous is Some,
        first_pts + tie.gst_time <= u64::MAX,
        second_pts + tie.gst_time <= u64::MAX,
    ensures
        buffer_time_fits(state, first_index, Some(first_now), Some(first_pts)),
        ({
            let first = audio_target(state, first_index, Some(first_now), Some(first_pts));
            let second = audio_target(state, second_index, Some(second_now), Some(second_pts));
            &&& first matches Ok(Target::Convert { timestamp: one, rate: one_rate })
            &&& second matches Ok(Target::Convert { timestamp: two, rate: two_rate })
            &&& two - one == second_pts - first_pts
            &&& one_rate == two_rate
            &&& first_pts == 0 ==> one == tie.gst_time
        }),
{
}

/// A stream is tied by its first buffer and stays tied as it is: the tie that a
/// run of buffers leaves behind is the one that the stream had before, or the
/// position and the running time of the first buffer.
pub proof fn law_ties_are_made_once(state: State, current_index: u64, now: u64, calls: Seq<
    (u64, Option<u64>),
>)
    requires
        state.flow is Some && state.flow->0.continuous is Some,
    ensures
        ({
            let after = after_targets(after_target(state, current_index, Some(now)), calls);
            &&& state.initial_time is Some ==> after.initial_time == state.initial_time
            &&& state.initial_time is None ==> (after.initial_time matches Some(tie) && tie.index
                == current_index && tie.gst_time == now)
        }),
{
    law_samples_stay_tied(state, current_index, now, calls);
}

/// A buffer whose time is mapped to `mapped` starts that many samples after the
/// tie, whether the current sample has already passed that or not, as long as
/// that is no further ahead of the current sample than the ring is long; one that
/// is starts at the last sample of the ring. Without a flow of samples, a tie or
/// a position it starts nowhere.
pub proof fn law_buffers_start_at_their_sample(
    state: State,
    current_index: u64,
    mapped: Option<u64>,
)
    requires
        samples_fit(state, current_index, mapped),
    ensures
        ({
            let possible = state.flow is Some && state.flow->0.continuous is Some
                && state.initial_time is Some && mapped is Some;
            let turn = state.initial_time->0.index + mapped->0;
            let limit = current_index + state.flow->0.continuous->0.buffer_length;
            &&& start_of(state, current_index, mapped) is Ok <==> possible
            &&& possible ==> {
                &&& start_of(state, current_index, mapped) matches Ok(start)
                &&& turn <= limit ==> start == turn
                &&& turn > limit ==> start == limit - 1
            }
        }),
{
}

/// Buffers of a tied stream that are not too far ahead when they are placed
/// start as far apart as the positions that their times are mapped to, whatever
/// the current samples are.
pub proof fn law_buffers_keep_their_distance(
    state: State,
    tie: InitialTime,
    first_index: u64,
    first: u64,
    second_index: u64,
    second: u64,
)
    requires
        state.flow is Some && state.flow->0.continuous is Some,
        state.initial_time == Some(tie),
        tie.index + first <= u64::MAX,
        tie.index + second <= u64::MAX,
        tie.index + first <= first_index + state.flow->0.continuous->0.buffer_length,
        tie.index + second <= second_index + state.flow->0.continuous->0.buffer_length,
    ensures
        start_of(state, first_index, Some(first)) matches Ok(one) && start_of(
            state,
            second_index,
            Some(second),
        ) matches Ok(two) && two - one == second - first,
{
}

/// Buffers are taken whenever their times and positions can be represented.
pub proof fn law_representable_buffers_are_taken(
    state: State,
    current_index: u64,
    now: u64,
    pts: u64,
    mapped: u64,
)
    ensures
        state.initial_time is None && pts + now <= u64::MAX ==> buffer_time_fits(
            state,
            current_index,
            Some(now),
            Some(pts),
        ),
        buffer_time_fits(state, current_index, None, Some(pts)),
        buffer_time_fits(state, current_index, Some(now), None),
        samples_fit(state, current_index, None),
        state.initial_time matches Some(tie) ==> tie.index + mapped <= u64::MAX && (state.flow
            is Some && state.flow->0.continuous is Some ==> 0 < current_index
            + state.flow->0.continuous->0.buffer_length <= u64::MAX) ==> samples_fit(
            state,
            current_index,
            Some(mapped),
        ),
        state.audio is None ==> plan_fits(state),
        state.audio matches Some(audio) ==> {
            let frame = channel_count(audio) * sample_bytes(audio);
            frame <= usize::MAX && audio.batch_size * frame <= usize::MAX && (state.flow is Some
                && state.flow->0.continuous is Some
                ==> state.flow->0.continuous->0.buffer_length >= 2) ==> plan_fits(state)
        },
{
}

/// The plan for a buffer covers every frame that was noted, each once and in
/// order. There is a chunk exactly if there is a sample. The first starts with
/// the buffer and at `write_index`; each of the others starts where the one
/// before it ends, in the buffer and in the flow, whose positions wrap around at
/// 2^64; and the last ends with the last frame. Every chunk has samples, no more
/// than half the ring, and all but the last as many as half the ring has.
pub proof fn law_plans_cover_the_buffer(
    write_index: u64,
    samples: usize,
    buffer_length: u32,
    frame_bytes: int,
    i: int,
)
    requires
        buffer_length >= 2,
        frame_bytes >= 0,
        samples * frame_bytes <= usize::MAX,
        0 <= i < planned(write_index, samples, buffer_length, frame_bytes).len(),
    ensures
        ({
            let chunks = planned(write_index, samples, buffer_length, frame_bytes);
            let chunk = chunks[i];
            let end = chunk.byte_start + chunk.byte_len;
            &&& chunk.samples > 0 && 2 * chunk.samples <= buffer_length
            &&& chunk.byte_len == chunk.samples * frame_bytes
            &&& chunks[0].byte_start == 0 && chunks[0].write_index == write_index
            &&& i + 1 < chunks.len() ==> {
                &&& 2 * (chunk.samples + 1) > buffer_length
                &&& chunks[i + 1].byte_start == end
                &&& chunks[i + 1].write_index == (chunk.write_index + chunk.samples)
                    % 0x1_0000_0000_0000_0000
            }
            &&& i + 1 == chunks.len() ==> end == samples * frame_bytes
        }),
{
    let half = buffer_length as int / 2;
    law_chunks_cover_the_buffer(write_index, samples as int, half, frame_bytes, i);
    law_chunks_cover_the_buffer(write_index, samples as int, half, frame_bytes, 0);
    let q = (samples - 1) / half;
    assert(i < q ==> (i + 1) * half <= samples - 1) by (nonlinear_arith)
        requires
            half > 0,
            q == (samples - 1) / half,
            0 <= i,
    ;
    assert((i + 1) * half == i * half + half) by (nonlinear_arith);
}

/// A buffer is planned exactly if there is an audio stream and a flow of
/// samples. The plan goes by the channels and the depth of the stream, the number
/// of samples that was noted and the ring of the flow; there are chunks exactly
/// if there are samples.
pub proof fn law_plans_go_by_the_stream(state: State, write_index: u64)
    ensures
        plan_of(state, write_index) is Some <==> state.audio is Some && state.flow is Some
            && state.flow->0.continuous is Some,
        plan_of(state, write_index) matches Some(plan) ==> {
            let audio = state.audio->0;
            let ring = state.flow->0.continuous->0.buffer_length;
            &&& audio.flow_def.channel_count >= 0 ==> plan.0 == audio.flow_def.channel_count
            &&& 8 * plan.1 <= audio.flow_def.bit_depth < 8 * plan.1 + 8
            &&& plan.2 == planned(write_index, audio.batch_size, ring, plan.0 * plan.1)
            &&& ring >= 2 ==> (plan.2.len() == 0 <==> audio.batch_size == 0)
        },
{
    if state.audio is Some && state.flow is Some && state.flow->0.continuous is Some {
        let ring = state.flow->0.continuous->0.buffer_length;
        let samples = state.audio->0.batch_size as int;
        if ring >= 2 && samples > 0 {
            let half = ring as int / 2;
            assert((samples - 1) / half >= 0) by (nonlinear_arith)
                requires
                    samples >= 1,
                    half > 0,
            ;
        }
    }
}

} // verus!
