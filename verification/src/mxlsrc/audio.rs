//! Creating audio buffers.
//!
//! One buffer takes a conversation with the flow: its state is asked for,
//! samples are read, clocks are consulted. [`AudioPhase`] says what the source
//! is waiting for; [`AudioPhase::step`] takes the answer and says what to do
//! next. The source follows the writer of the flow one batch at a time. It
//! waits while the next batch is not written yet, and it jumps close behind the
//! writer when the batch it wants is being overwritten.
use super::state::AudioState;
use super::state::InitialTime;
use crate::timing::can_span;
use crate::timing::law_durations_are_unique;
use crate::timing::law_durations_that_can_be_computed;
use crate::timing::check_span;
use crate::timing::max;
use crate::timing::min;
use crate::timing::monus;
use crate::timing::span;
use crate::timing::span_ns;
use crate::timing::to_clock;
use crate::timing::Rational;
use crate::timing::CLOCK_RANGE;
use vstd::prelude::*;

verus! {

/// How many samples a buffer holds at most.
pub const DEFAULT_BATCH_SIZE: u32 = 48;

/// What a flow tells about itself.
#[derive(Debug, Clone, Copy, PartialEq, Eq, Structural)]
pub struct ReaderInfo {
    pub sample_rate: Rational,
    pub buffer_length: u32,
    pub head_index: u64,
}

/// What stays the same while one buffer is created: the flow's sample rate, the
/// length of its ring, the number of samples to read and the running time.
#[derive(Debug, Clone, Copy, PartialEq, Eq, Structural)]
pub struct Pull {
    pub sample_rate: Rational,
    pub ring: u64,
    pub batch: u64,
    pub now: u64,
}

/// What the source is waiting for. `head` is the latest position that the
/// flow's writer is known to have reached.
#[derive(Debug, Clone, Copy, PartialEq, Eq, Structural)]
pub enum AudioPhase {
    /// The flow's description.
    Info,
    /// The running time of the pipeline.
    RunningTime { info: ReaderInfo },
    /// The flow's clock, to tie the stream to it.
    Anchor { pull: Pull, head: u64 },
    /// A newer position of the writer.
    Head { pull: Pull },
    /// The flow's clock, to tie the stream to it after a jump.
    CatchUp { pull: Pull, head: u64 },
    /// The samples.
    Samples { pull: Pull, head: u64 },
    /// The position of the writer, after the samples could not be read.
    RetryInfo { pull: Pull },
    /// The flow's clock, to tie the stream to it after that.
    RetryTime { pull: Pull, head: u64 },
    /// The samples, for the last time.
    RetrySamples { pull: Pull, head: u64 },
    /// The flow times of the batch's end and start.
    Timestamps { pull: Pull },
    /// The flow's clock, to keep pace with it.
    Pace { pull: Pull },
    /// The end of a sleep.
    Sleep { pull: Pull },
    /// A buffer with a presentation time.
    Buffer { pull: Pull },
    /// The buffer, filled.
    Fill { pull: Pull },
    /// Nothing: the buffer is delivered.
    Done,
    /// Nothing: no buffer can be created.
    Failed,
}

/// The flow times at which a batch ends and starts.
#[derive(Debug, Clone, Copy, PartialEq, Eq, Structural)]
pub struct BatchTimes {
    pub end: u64,
    pub start: u64,
}

/// How reading samples went.
#[derive(Debug, Clone, Copy, PartialEq, Eq, Structural)]
pub enum SamplesRead {
    /// The samples are at hand.
    Complete,
    /// The flow did not have them.
    Unavailable,
    /// The flow had them, but not for every channel.
    MissingChannel,
}

/// An answer to an action.
#[derive(Debug, Clone, Copy, PartialEq, Eq, Structural)]
pub enum AudioEvent {
    Info(Option<ReaderInfo>),
    RunningTime(Option<u64>),
    Time(u64),
    Samples(SamplesRead),
    Timestamps(Option<BatchTimes>),
    Slept,
    /// Whether there is a buffer.
    Buffer(bool),
    /// Whether the buffer could be filled.
    Filled(bool),
}

/// What to do next.
#[derive(Debug, Clone, Copy, PartialEq, Eq, Structural)]
pub enum AudioAction {
    /// Ask the flow to describe itself.
    GetInfo,
    /// Ask the pipeline for its running time.
    GetRunningTime,
    /// Ask the flow for its clock.
    GetTime,
    /// Read `count` samples from position `index` on.
    GetSamples { index: u64, count: u64 },
    /// Ask the flow for the times of two positions.
    GetTimestamps { end: u64, start: u64, rate: Rational },
    /// Sleep.
    SleepFor { ns: u64 },
    /// Get a buffer and give it this presentation time.
    Allocate { pts: u64 },
    /// Fill the buffer, and mark it if the stream is broken before it.
    Fill { discont: bool },
    /// Hand the buffer on.
    Deliver,
    /// Report that the stream cannot go on.
    Fail,
}

/// One step: the source afterwards, what it waits for, and what to do.
#[derive(Debug, Clone, Copy, PartialEq, Eq, Structural)]
pub struct AudioTurn {
    pub anchor: InitialTime,
    pub audio: AudioState,
    pub phase: AudioPhase,
    pub action: AudioAction,
}

/// How many samples to read at a time from a ring of `buffer_length`.
pub open spec fn batch_size(buffer_length: u32) -> int {
    min(DEFAULT_BATCH_SIZE as int, buffer_length as int / 2)
}

/// What stays the same while one buffer is created from the flow `info` at
/// running time `now`.
pub open spec fn pull_from(info: ReaderInfo, now: u64) -> Pull {
    Pull {
        sample_rate: info.sample_rate,
        ring: info.buffer_length as u64,
        batch: batch_size(info.buffer_length) as u64,
        now,
    }
}

/// The oldest position that can be read without being overwritten.
pub open spec fn oldest_valid(pull: Pull, head: u64) -> int {
    monus(head as int, monus(pull.ring as int, pull.batch as int))
}

/// Where to jump to catch up with a writer at `head`: two batches behind it.
pub open spec fn catch_up_index(pull: Pull, head: u64) -> int {
    monus(head as int, min(2 * pull.batch, u64::MAX as int))
}

/// The source after it has jumped behind a writer at `head`, at flow time
/// `time`: the stream starts over from the current running time, and the next
/// buffer is marked.
pub open spec fn jumped(audio: AudioState, pull: Pull, head: u64, time: u64) -> (
    InitialTime,
    AudioState,
) {
    (
        InitialTime { mxl_index: time, gst_time: pull.now },
        AudioState {
            batch_counter: 0,
            index: catch_up_index(pull, head) as u64,
            next_discont: true,
            ..audio
        },
    )
}

/// What follows once the writer is known to be at `head`: wait for it, jump, or
/// read.
pub open spec fn seek(index: u64, pull: Pull, head: u64) -> (AudioPhase, AudioAction) {
    if index + pull.batch > head {
        (AudioPhase::Head { pull }, AudioAction::GetInfo)
    } else if index < oldest_valid(pull, head) {
        (AudioPhase::CatchUp { pull, head }, AudioAction::GetTime)
    } else {
        (
            AudioPhase::Samples { pull, head },
            AudioAction::GetSamples { index, count: pull.batch },
        )
    }
}

/// How far the next buffer lies behind the anchor, as the clock holds it.
pub open spec fn batch_offset(audio: AudioState, pull: Pull) -> int {
    (audio.batch_counter * span(pull.batch as int, pull.sample_rate)) % (CLOCK_RANGE as int)
}

/// Whether the time of the next buffer can be represented.
pub open spec fn batch_fits(anchor: InitialTime, audio: AudioState, pull: Pull) -> bool {
    &&& can_span(pull.batch as int, pull.sample_rate)
    &&& audio.batch_counter * span(pull.batch as int, pull.sample_rate) <= u128::MAX
    &&& batch_offset(audio, pull) < u64::MAX
    &&& anchor.gst_time + batch_offset(audio, pull) <= u64::MAX
}

/// The presentation time of the next buffer.
pub open spec fn batch_pts(anchor: InitialTime, audio: AudioState, pull: Pull) -> int {
    max(anchor.gst_time + batch_offset(audio, pull), pull.now as int)
}

/// The anchor that the next buffer leaves behind.
pub open spec fn batch_anchor_after(
    anchor: InitialTime,
    audio: AudioState,
    pull: Pull,
) -> InitialTime {
    InitialTime {
        gst_time: max(anchor.gst_time as int, pull.now - batch_offset(audio, pull)) as u64,
        ..anchor
    }
}

/// The step that gives a buffer its presentation time.
pub open spec fn scheduled(anchor: InitialTime, audio: AudioState, pull: Pull) -> AudioTurn {
    AudioTurn {
        anchor: batch_anchor_after(anchor, audio, pull),
        audio,
        phase: AudioPhase::Buffer { pull },
        action: AudioAction::Allocate { pts: batch_pts(anchor, audio, pull) as u64 },
    }
}

/// The step that asks for the times of a batch that has been read.
pub open spec fn timed(anchor: InitialTime, audio: AudioState, pull: Pull) -> AudioTurn {
    AudioTurn {
        anchor,
        audio,
        phase: AudioPhase::Timestamps { pull },
        action: AudioAction::GetTimestamps {
            end: (audio.index + pull.batch) as u64,
            start: audio.index,
            rate: pull.sample_rate,
        },
    }
}

/// A step that changes nothing but what is waited for.
pub open spec fn ask(
    anchor: InitialTime,
    audio: AudioState,
    phase: AudioPhase,
    action: AudioAction,
) -> AudioTurn {
    AudioTurn { anchor, audio, phase, action }
}

/// The step that follows on an answer. An answer to something else than what
/// was asked for ends the stream.
pub open spec fn turn(
    phase: AudioPhase,
    anchor: InitialTime,
    audio: AudioState,
    event: AudioEvent,
) -> AudioTurn {
    match (phase, event) {
        (AudioPhase::Info, AudioEvent::Info(Some(info))) => ask(
            anchor,
            audio,
            AudioPhase::RunningTime { info },
            AudioAction::GetRunningTime,
        ),
        (AudioPhase::RunningTime { info }, AudioEvent::RunningTime(Some(now))) => {
            let pull = pull_from(info, now);
            if audio.is_initialized {
                let next = seek(audio.index, pull, info.head_index);
                ask(anchor, audio, next.0, next.1)
            } else {
                ask(
                    anchor,
                    audio,
                    AudioPhase::Anchor { pull, head: info.head_index },
                    AudioAction::GetTime,
                )
            }
        },
        (AudioPhase::Anchor { pull, head }, AudioEvent::Time(time)) => {
            let index = monus(head as int, pull.batch as int) as u64;
            let next = seek(index, pull, head);
            AudioTurn {
                anchor: InitialTime { mxl_index: time, gst_time: pull.now },
                audio: AudioState { batch_counter: 0, is_initialized: true, index, ..audio },
                phase: next.0,
                action: next.1,
            }
        },
        (AudioPhase::Head { pull }, AudioEvent::Info(Some(info))) => {
            let next = seek(audio.index, pull, info.head_index);
            ask(anchor, audio, next.0, next.1)
        },
        (AudioPhase::CatchUp { pull, head }, AudioEvent::Time(time)) => {
            let after = jumped(audio, pull, head, time);
            ask(
                after.0,
                after.1,
                AudioPhase::Samples { pull, head },
                AudioAction::GetSamples { index: after.1.index, count: pull.batch },
            )
        },
        (AudioPhase::Samples { pull, head }, AudioEvent::Samples(SamplesRead::Complete)) => timed(
            anchor,
            audio,
            pull,
        ),
        (AudioPhase::Samples { pull, head }, AudioEvent::Samples(SamplesRead::Unavailable)) => ask(
            anchor,
            audio,
            AudioPhase::RetryInfo { pull },
            AudioAction::GetInfo,
        ),
        (AudioPhase::RetryInfo { pull }, AudioEvent::Info(Some(info))) => ask(
            anchor,
            audio,
            AudioPhase::RetryTime { pull, head: info.head_index },
            AudioAction::GetTime,
        ),
        (AudioPhase::RetryTime { pull, head }, AudioEvent::Time(time)) => {
            let after = jumped(audio, pull, head, time);
            ask(
                after.0,
                after.1,
                AudioPhase::RetrySamples { pull, head },
                AudioAction::GetSamples { index: after.1.index, count: pull.batch },
            )
        },
        (
            AudioPhase::RetrySamples { pull, head },
            AudioEvent::Samples(SamplesRead::Complete),
        ) => timed(anchor, audio, pull),
        (AudioPhase::Timestamps { pull }, AudioEvent::Timestamps(Some(times))) => AudioTurn {
            anchor: InitialTime {
                mxl_index: min(anchor.mxl_index + (times.end - times.start), u64::MAX as int) as u64,
                ..anchor
            },
            audio,
            phase: AudioPhase::Pace { pull },
            action: AudioAction::GetTime,
        },
        (AudioPhase::Pace { pull }, AudioEvent::Time(time)) => if anchor.mxl_index > time {
            ask(
                anchor,
                audio,
                AudioPhase::Sleep { pull },
                AudioAction::SleepFor { ns: (anchor.mxl_index - time) as u64 },
            )
        } else {
            scheduled(anchor, audio, pull)
        },
        (AudioPhase::Sleep { pull }, AudioEvent::Slept) => scheduled(anchor, audio, pull),
        (AudioPhase::Buffer { pull }, AudioEvent::Buffer(true)) => AudioTurn {
            anchor,
            audio: AudioState { next_discont: false, ..audio },
            phase: AudioPhase::Fill { pull },
            action: AudioAction::Fill { discont: audio.next_discont },
        },
        (AudioPhase::Fill { pull }, AudioEvent::Filled(true)) => AudioTurn {
            anchor,
            audio: AudioState {
                batch_counter: (audio.batch_counter + 1) as u64,
                index: (audio.index + pull.batch) as u64,
                ..audio
            },
            phase: AudioPhase::Done,
            action: AudioAction::Deliver,
        },
        _ => ask(anchor, audio, AudioPhase::Failed, AudioAction::Fail),
    }
}

/// Whether a step can be taken: the positions and times it computes can be
/// represented, and a batch does not end before it starts.
pub open spec fn turn_fits(
    phase: AudioPhase,
    anchor: InitialTime,
    audio: AudioState,
    event: AudioEvent,
) -> bool {
    match (phase, event) {
        (AudioPhase::RunningTime { info }, AudioEvent::RunningTime(Some(now))) => {
            audio.is_initialized ==> audio.index + batch_size(info.buffer_length) <= u64::MAX
        },
        (AudioPhase::Anchor { pull, head }, AudioEvent::Time(time)) => {
            monus(head as int, pull.batch as int) + pull.batch <= u64::MAX
        },
        (AudioPhase::Head { pull }, AudioEvent::Info(Some(info))) => {
            audio.index + pull.batch <= u64::MAX
        },
        (AudioPhase::Samples { pull, head }, AudioEvent::Samples(SamplesRead::Complete)) => {
            audio.index + pull.batch <= u64::MAX
        },
        (AudioPhase::RetrySamples { pull, head }, AudioEvent::Samples(SamplesRead::Complete)) => {
            audio.index + pull.batch <= u64::MAX
        },
        (AudioPhase::Timestamps { pull }, AudioEvent::Timestamps(Some(times))) => {
            times.end >= times.start
        },
        (AudioPhase::Pace { pull }, AudioEvent::Time(time)) => {
            anchor.mxl_index <= time ==> batch_fits(anchor, audio, pull)
        },
        (AudioPhase::Sleep { pull }, AudioEvent::Slept) => batch_fits(anchor, audio, pull),
        (AudioPhase::Fill { pull }, AudioEvent::Filled(true)) => {
            audio.batch_counter < u64::MAX && audio.index + pull.batch <= u64::MAX
        },
        _ => true,
    }
}

fn seek_to(index: u64, pull: Pull, head: u64) -> (next: (AudioPhase, AudioAction))
    requires
        index + pull.batch <= u64::MAX,
    ensures
        next == seek(index, pull, head),
{
    if index + pull.batch > head {
        return (AudioPhase::Head { pull }, AudioAction::GetInfo);
    }
    let oldest: u64 = head.saturating_sub(pull.ring.saturating_sub(pull.batch));
    if index < oldest {
        (AudioPhase::CatchUp { pull, head }, AudioAction::GetTime)
    } else {
        (
            AudioPhase::Samples { pull, head },
            AudioAction::GetSamples { index, count: pull.batch },
        )
    }
}

fn jump(anchor: &mut InitialTime, audio: &mut AudioState, pull: Pull, head: u64, time: u64)
    ensures
        (*final(anchor), *final(audio)) == jumped(*old(audio), pull, head, time),
{
    let cushion: u64 = pull.batch.saturating_add(pull.batch);
    *anchor = InitialTime { mxl_index: time, gst_time: pull.now };
    audio.index = head.saturating_sub(cushion);
    audio.batch_counter = 0;
    audio.next_discont = true;
}

fn schedule(anchor: &mut InitialTime, audio: &AudioState, pull: Pull) -> (next: (
    AudioPhase,
    AudioAction,
))
    requires
        batch_fits(*old(anchor), *audio, pull),
    ensures
        (AudioTurn { anchor: *final(anchor), audio: *audio, phase: next.0, action: next.1 })
            == scheduled(*old(anchor), *audio, pull),
{
    let duration: u128 = span_ns(pull.batch, pull.sample_rate);
    let offset: u64 = to_clock(audio.batch_counter as u128 * duration);
    let mut pts: u64 = anchor.gst_time + offset;
    if pts < pull.now {
        anchor.gst_time = anchor.gst_time + (pull.now - pts);
        pts = pull.now;
    }
    (AudioPhase::Buffer { pull }, AudioAction::Allocate { pts })
}

fn check_batch(anchor: &InitialTime, audio: &AudioState, pull: Pull) -> (ok: bool)
    ensures
        ok == batch_fits(*anchor, *audio, pull),
{
    if !check_span(pull.batch, pull.sample_rate) {
        return false;
    }
    let duration: u128 = span_ns(pull.batch, pull.sample_rate);
    match (audio.batch_counter as u128).checked_mul(duration) {
        Some(ns) => {
            let offset: u64 = to_clock(ns);
            offset < u64::MAX && anchor.gst_time.checked_add(offset).is_some()
        },
        None => false,
    }
}

impl AudioPhase {
    /// The first thing to ask for when a buffer is to be created.
    pub fn begin() -> (next: (AudioPhase, AudioAction))
        ensures
            next == (AudioPhase::Info, AudioAction::GetInfo),
    {
        (AudioPhase::Info, AudioAction::GetInfo)
    }

    /// Tells whether [`AudioPhase::step`] can be taken.
    pub fn check_step(
        self,
        anchor: &InitialTime,
        audio: &AudioState,
        event: AudioEvent,
    ) -> (ok: bool)
        ensures
            ok == turn_fits(self, *anchor, *audio, event),
    {
        match (self, event) {
            (AudioPhase::RunningTime { info }, AudioEvent::RunningTime(Some(_))) => {
                let half: u32 = info.buffer_length / 2;
                let batch: u32 = if DEFAULT_BATCH_SIZE <= half {
                    DEFAULT_BATCH_SIZE
                } else {
                    half
                };
                !audio.is_initialized || audio.index.checked_add(batch as u64).is_some()
            },
            (AudioPhase::Anchor { pull, head }, AudioEvent::Time(_)) => {
                head.saturating_sub(pull.batch).checked_add(pull.batch).is_some()
            },
            (AudioPhase::Head { pull }, AudioEvent::Info(Some(_))) => {
                audio.index.checked_add(pull.batch).is_some()
            },
            (AudioPhase::Samples { pull, .. }, AudioEvent::Samples(SamplesRead::Complete)) => {
                audio.index.checked_add(pull.batch).is_some()
            },
            (AudioPhase::RetrySamples { pull, .. }, AudioEvent::Samples(SamplesRead::Complete)) => {
                audio.index.checked_add(pull.batch).is_some()
            },
            (AudioPhase::Timestamps { .. }, AudioEvent::Timestamps(Some(times))) => {
                times.end >= times.start
            },
            (AudioPhase::Pace { pull }, AudioEvent::Time(time)) => {
                anchor.mxl_index > time || check_batch(anchor, audio, pull)
            },
            (AudioPhase::Sleep { pull }, AudioEvent::Slept) => check_batch(anchor, audio, pull),
            (AudioPhase::Fill { pull }, AudioEvent::Filled(true)) => {
                audio.batch_counter < u64::MAX && audio.index.checked_add(pull.batch).is_some()
            },
            _ => true,
        }
    }

    /// Takes an answer and says what to do next.
    pub fn step(
        self,
        anchor: &mut InitialTime,
        audio: &mut AudioState,
        event: AudioEvent,
    ) -> (next: (AudioPhase, AudioAction))
        requires
            turn_fits(self, *old(anchor), *old(audio), event),
        ensures
            (AudioTurn {
                anchor: *final(anchor),
                audio: *final(audio),
                phase: next.0,
                action: next.1,
            }) == turn(self, *old(anchor), *old(audio), event),
    {
        match (self, event) {
            (AudioPhase::Info, AudioEvent::Info(Some(info))) => {
                (AudioPhase::RunningTime { info }, AudioAction::GetRunningTime)
            },
            (AudioPhase::RunningTime { info }, AudioEvent::RunningTime(Some(now))) => {
                let half: u32 = info.buffer_length / 2;
                let batch: u32 = if DEFAULT_BATCH_SIZE <= half {
                    DEFAULT_BATCH_SIZE
                } else {
                    half
                };
                let pull = Pull {
                    sample_rate: info.sample_rate,
                    ring: info.buffer_length as u64,
                    batch: batch as u64,
                    now,
                };
                if audio.is_initialized {
                    seek_to(audio.index, pull, info.head_index)
                } else {
                    (AudioPhase::Anchor { pull, head: info.head_index }, AudioAction::GetTime)
                }
            },
            (AudioPhase::Anchor { pull, head }, AudioEvent::Time(time)) => {
                *anchor = InitialTime { mxl_index: time, gst_time: pull.now };
                audio.index = head.saturating_sub(pull.batch);
                audio.is_initialized = true;
                audio.batch_counter = 0;
                seek_to(audio.index, pull, head)
            },
            (AudioPhase::Head { pull }, AudioEvent::Info(Some(info))) => {
                seek_to(audio.index, pull, info.head_index)
            },
            (AudioPhase::CatchUp { pull, head }, AudioEvent::Time(time)) => {
                jump(anchor, audio, pull, head, time);
                (
                    AudioPhase::Samples { pull, head },
                    AudioAction::GetSamples { index: audio.index, count: pull.batch },
                )
            },
            (AudioPhase::Samples { pull, .. }, AudioEvent::Samples(SamplesRead::Complete))
            | (AudioPhase::RetrySamples { pull, .. }, AudioEvent::Samples(SamplesRead::Complete)) => {
                (
                    AudioPhase::Timestamps { pull },
                    AudioAction::GetTimestamps {
                        end: audio.index + pull.batch,
                        start: audio.index,
                        rate: pull.sample_rate,
                    },
                )
            },
            (AudioPhase::Samples { pull, .. }, AudioEvent::Samples(SamplesRead::Unavailable)) => {
                (AudioPhase::RetryInfo { pull }, AudioAction::GetInfo)
            },
            (AudioPhase::RetryInfo { pull }, AudioEvent::Info(Some(info))) => {
                (AudioPhase::RetryTime { pull, head: info.head_index }, AudioAction::GetTime)
            },
            (AudioPhase::RetryTime { pull, head }, AudioEvent::Time(time)) => {
                jump(anchor, audio, pull, head, time);
                (
                    AudioPhase::RetrySamples { pull, head },
                    AudioAction::GetSamples { index: audio.index, count: pull.batch },
                )
            },
            (AudioPhase::Timestamps { pull }, AudioEvent::Timestamps(Some(times))) => {
                anchor.mxl_index = anchor.mxl_index.saturating_add(times.end - times.start);
                (AudioPhase::Pace { pull }, AudioAction::GetTime)
            },
            (AudioPhase::Pace { pull }, AudioEvent::Time(time)) => {
                let ns: u64 = anchor.mxl_index.saturating_sub(time);
                if ns > 0 {
                    (AudioPhase::Sleep { pull }, AudioAction::SleepFor { ns })
                } else {
                    schedule(anchor, audio, pull)
                }
            },
            (AudioPhase::Sleep { pull }, AudioEvent::Slept) => schedule(anchor, audio, pull),
            (AudioPhase::Buffer { pull }, AudioEvent::Buffer(true)) => {
                let discont = audio.next_discont;
                audio.next_discont = false;
                (AudioPhase::Fill { pull }, AudioAction::Fill { discont })
            },
            (AudioPhase::Fill { pull }, AudioEvent::Filled(true)) => {
                audio.batch_counter = audio.batch_counter + 1;
                audio.index = audio.index + pull.batch;
                (AudioPhase::Done, AudioAction::Deliver)
            },
            _ => (AudioPhase::Failed, AudioAction::Fail),
        }
    }
}

/// Whether `count` samples from `index` on lie in the part of a ring that a
/// writer at `head` has written and not yet overwritten.
pub open spec fn in_ring(index: u64, count: u64, ring: u64, head: u64) -> bool {
    index + count <= head <= index + ring
}

/// Whether a batch is one that the source would choose: no larger than half the
/// ring.
pub open spec fn pull_valid(pull: Pull) -> bool {
    pull.batch <= DEFAULT_BATCH_SIZE && 2 * pull.batch <= pull.ring
}

/// What is known while the source waits.
pub open spec fn phase_valid(phase: AudioPhase, audio: AudioState) -> bool {
    match phase {
        AudioPhase::Info | AudioPhase::RunningTime { .. } | AudioPhase::Done | AudioPhase::Failed => {
            true
        },
        AudioPhase::CatchUp { pull, head } => pull_valid(pull) && audio.index + pull.batch <= head,
        AudioPhase::Samples { pull, head } => pull_valid(pull) && in_ring(
            audio.index,
            pull.batch,
            pull.ring,
            head,
        ),
        AudioPhase::RetrySamples { pull, head } => pull_valid(pull) && (pull.batch <= head
            ==> in_ring(audio.index, pull.batch, pull.ring, head)),
        AudioPhase::Anchor { pull, .. }
        | AudioPhase::Head { pull }
        | AudioPhase::RetryInfo { pull }
        | AudioPhase::RetryTime { pull, .. }
        | AudioPhase::Timestamps { pull }
        | AudioPhase::Pace { pull }
        | AudioPhase::Sleep { pull }
        | AudioPhase::Buffer { pull }
        | AudioPhase::Fill { pull } => pull_valid(pull),
    }
}

/// Every step keeps what is known, so it holds throughout the creation of a
/// buffer: it holds at the beginning.
pub proof fn law_steps_keep_phases_valid(
    phase: AudioPhase,
    anchor: InitialTime,
    audio: AudioState,
    event: AudioEvent,
)
    requires
        phase_valid(phase, audio),
        turn_fits(phase, anchor, audio, event),
    ensures
        phase_valid(AudioPhase::Info, audio),
        ({
            let next = turn(phase, anchor, audio, event);
            phase_valid(next.phase, next.audio)
        }),
{
}

/// Samples are only read from the part of the ring that the writer has written
/// and not yet overwritten, going by the last position it reported. A second
/// attempt keeps to this once the writer has written a whole batch.
pub proof fn law_reads_stay_in_the_ring(
    phase: AudioPhase,
    anchor: InitialTime,
    audio: AudioState,
    event: AudioEvent,
)
    requires
        phase_valid(phase, audio),
        turn_fits(phase, anchor, audio, event),
    ensures
        turn(phase, anchor, audio, event).action matches AudioAction::GetSamples { index, count }
            ==> match turn(phase, anchor, audio, event).phase {
            AudioPhase::Samples { pull, head } => in_ring(index, count, pull.ring, head),
            AudioPhase::RetrySamples { pull, head } => count <= head ==> in_ring(
                index,
                count,
                pull.ring,
                head,
            ),
            _ => false,
        },
{
}

/// The stream is contiguous unless it is marked: the position only moves by the
/// batch that has been delivered, when the stream is first tied to the flow, or
/// in a jump; and a jump marks the stream. The mark stays until it is handed to
/// a buffer, and is then taken off.
pub proof fn law_gaps_are_marked(
    phase: AudioPhase,
    anchor: InitialTime,
    audio: AudioState,
    event: AudioEvent,
)
    requires
        turn_fits(phase, anchor, audio, event),
    ensures
        ({
            let next = turn(phase, anchor, audio, event);
            &&& next.audio.index != audio.index ==> {
                ||| phase is Anchor
                ||| next.audio.next_discont
                ||| (phase matches AudioPhase::Fill { pull } && next.action is Deliver
                    && next.audio.index == audio.index + pull.batch)
            }
            &&& phase is CatchUp && event is Time ==> next.audio.next_discont
            &&& phase is RetryTime && event is Time ==> next.audio.next_discont
            &&& audio.next_discont && !next.audio.next_discont ==> next.action
                == AudioAction::Fill { discont: true }
            &&& next.action is Fill ==> next.action == (AudioAction::Fill {
                discont: audio.next_discont,
            }) && !next.audio.next_discont
        }),
{
}

/// Stream time is steady: the running time that the stream is tied to and the
/// number of buffers since then only change when the stream is tied to the flow
/// anew, when a late buffer moves the stream forward, and when a buffer is
/// delivered, which counts one.
pub proof fn law_stream_time_is_steady(
    phase: AudioPhase,
    anchor: InitialTime,
    audio: AudioState,
    event: AudioEvent,
)
    requires
        turn_fits(phase, anchor, audio, event),
        !(phase is Anchor),
        !(phase is CatchUp),
        !(phase is RetryTime),
    ensures
        ({
            let next = turn(phase, anchor, audio, event);
            &&& next.anchor.gst_time >= anchor.gst_time
            &&& next.anchor.gst_time > anchor.gst_time ==> match phase {
                AudioPhase::Pace { pull } | AudioPhase::Sleep { pull } => next.action
                    == AudioAction::Allocate { pts: pull.now },
                _ => false,
            }
            &&& next.audio.batch_counter == (if next.action is Deliver {
                audio.batch_counter + 1
            } else {
                audio.batch_counter as int
            })
        }),
{
    match phase {
        AudioPhase::Pace { pull } | AudioPhase::Sleep { pull } => {
            lemma_batch_offset_in_range(audio, pull);
        },
        _ => {},
    }
}

/// No buffer is shown before the running time at which it is created.
pub proof fn law_batches_are_never_late(
    phase: AudioPhase,
    anchor: InitialTime,
    audio: AudioState,
    event: AudioEvent,
)
    requires
        turn_fits(phase, anchor, audio, event),
    ensures
        turn(phase, anchor, audio, event).action matches AudioAction::Allocate { pts } ==> (match phase {
            AudioPhase::Pace { pull } => pts >= pull.now,
            AudioPhase::Sleep { pull } => pts >= pull.now,
            _ => false,
        }),
{
    match phase {
        AudioPhase::Pace { pull } | AudioPhase::Sleep { pull } => {
            lemma_batch_offset_in_range(audio, pull);
        },
        _ => {},
    }
}

/// An offset is a time of the clock.
pub proof fn lemma_batch_offset_in_range(audio: AudioState, pull: Pull)
    ensures
        0 <= batch_offset(audio, pull) < CLOCK_RANGE,
{
    let x = audio.batch_counter * span(pull.batch as int, pull.sample_rate);
    assert(0 <= x % (CLOCK_RANGE as int) < CLOCK_RANGE as int);
}

/// Whether a step leaves the source as it was.
pub open spec fn keeps(next: AudioTurn, anchor: InitialTime, audio: AudioState) -> bool {
    next.anchor == anchor && next.audio == audio
}

/// Whether a source at its position in the flow does the right thing about a
/// writer at `head`: it waits while its batch is not written whole, it jumps if
/// the writer is so far ahead that less than a batch of the ring is left between
/// the writer's next samples and the batch, and it reads its batch otherwise.
pub open spec fn follows(next: AudioTurn, pull: Pull, head: u64) -> bool {
    let index = next.audio.index;
    &&& index + pull.batch > head ==> next.phase == (AudioPhase::Head { pull }) && next.action
        is GetInfo
    &&& index + pull.batch <= head && head + pull.batch > index + pull.ring ==> next.phase == (
    AudioPhase::CatchUp { pull, head }) && next.action is GetTime
    &&& index + pull.batch <= head && head + pull.batch <= index + pull.ring ==> next.phase == (
    AudioPhase::Samples { pull, head }) && next.action == (AudioAction::GetSamples {
        index,
        count: pull.batch,
    })
}

/// The batch to read is as long as half the ring, rounded down, but no longer
/// than 48 samples; everything else that a buffer goes by is what the flow and
/// the pipeline said. A source that is tied to its flow follows the writer; one
/// that is not asks for the flow's clock first.
pub proof fn law_batches_fit_the_flow(
    anchor: InitialTime,
    audio: AudioState,
    info: ReaderInfo,
    now: u64,
)
    requires
        turn_fits(
            AudioPhase::RunningTime { info },
            anchor,
            audio,
            AudioEvent::RunningTime(Some(now)),
        ),
    ensures
        ({
            let asked = turn(AudioPhase::Info, anchor, audio, AudioEvent::Info(Some(info)));
            let next = turn(
                AudioPhase::RunningTime { info },
                anchor,
                audio,
                AudioEvent::RunningTime(Some(now)),
            );
            let pull = match next.phase {
                AudioPhase::Anchor { pull, .. } => pull,
                AudioPhase::Head { pull } => pull,
                AudioPhase::CatchUp { pull, .. } => pull,
                AudioPhase::Samples { pull, .. } => pull,
                _ => arbitrary(),
            };
            &&& keeps(asked, anchor, audio) && asked.phase == (AudioPhase::RunningTime { info })
                && asked.action is GetRunningTime
            &&& keeps(next, anchor, audio)
            &&& pull.sample_rate == info.sample_rate
            &&& pull.ring == info.buffer_length
            &&& pull.now == now
            &&& pull.batch <= 48 && 2 * pull.batch <= info.buffer_length
            &&& pull.batch == 48 || 2 * (pull.batch + 1) > info.buffer_length
            &&& audio.is_initialized ==> follows(next, pull, info.head_index)
            &&& !audio.is_initialized ==> next.phase == (AudioPhase::Anchor {
                pull,
                head: info.head_index,
            }) && next.action is GetTime
        }),
{
}

/// A stream is tied to the flow's clock and the running time that were read, and
/// starts one batch behind the writer, or at the start of the flow if there is
/// less than a batch. It counts its buffers from there.
pub proof fn law_streams_start_a_batch_behind(
    anchor: InitialTime,
    audio: AudioState,
    pull: Pull,
    head: u64,
    time: u64,
)
    requires
        pull_valid(pull),
        turn_fits(AudioPhase::Anchor { pull, head }, anchor, audio, AudioEvent::Time(time)),
    ensures
        ({
            let next = turn(
                AudioPhase::Anchor { pull, head },
                anchor,
                audio,
                AudioEvent::Time(time),
            );
            &&& next.anchor.mxl_index == time && next.anchor.gst_time == pull.now
            &&& next.audio.is_initialized
            &&& next.audio.batch_counter == 0
            &&& head >= pull.batch ==> next.audio.index + pull.batch == head
            &&& head < pull.batch ==> next.audio.index == 0
            &&& next.audio.next_discont == audio.next_discont
            &&& follows(next, pull, head)
        }),
{
}

/// A source that waits for the writer does the same about every new position of
/// the writer, and stays where it is.
pub proof fn law_sources_wait_for_the_writer(
    anchor: InitialTime,
    audio: AudioState,
    pull: Pull,
    info: ReaderInfo,
)
    requires
        pull_valid(pull),
        turn_fits(AudioPhase::Head { pull }, anchor, audio, AudioEvent::Info(Some(info))),
    ensures
        ({
            let next = turn(
                AudioPhase::Head { pull },
                anchor,
                audio,
                AudioEvent::Info(Some(info)),
            );
            keeps(next, anchor, audio) && follows(next, pull, info.head_index)
        }),
{
}

/// A jump goes two batches behind the writer, or to the start of the flow if
/// there are fewer. The stream is tied anew to the flow's clock and the running
/// time, counts its buffers from there and is marked; and the batch there is
/// read. That is so for a batch that is being overwritten and, once, for one
/// that could not be read.
pub proof fn law_jumps_go_two_batches_behind(
    anchor: InitialTime,
    audio: AudioState,
    pull: Pull,
    head: u64,
    time: u64,
    again: bool,
)
    requires
        pull_valid(pull),
    ensures
        ({
            let phase = if again {
                AudioPhase::RetryTime { pull, head }
            } else {
                AudioPhase::CatchUp { pull, head }
            };
            let next = turn(phase, anchor, audio, AudioEvent::Time(time));
            &&& turn_fits(phase, anchor, audio, AudioEvent::Time(time))
            &&& next.anchor.mxl_index == time && next.anchor.gst_time == pull.now
            &&& next.audio.batch_counter == 0
            &&& next.audio.next_discont
            &&& next.audio.is_initialized == audio.is_initialized
            &&& head >= 2 * pull.batch ==> next.audio.index + 2 * pull.batch == head
            &&& head < 2 * pull.batch ==> next.audio.index == 0
            &&& next.action == (AudioAction::GetSamples {
                index: next.audio.index,
                count: pull.batch,
            })
            &&& again ==> next.phase == (AudioPhase::RetrySamples { pull, head })
            &&& !again ==> next.phase == (AudioPhase::Samples { pull, head })
        }),
{
}

/// Samples that have been read are timed by the two ends of their batch. Samples
/// that could not be read are asked for once more, behind the writer's position
/// at that time; if they cannot be read then either, or not for every channel,
/// the stream ends. None of this changes the source.
pub proof fn law_reads_are_tried_twice(
    anchor: InitialTime,
    audio: AudioState,
    pull: Pull,
    head: u64,
    info: ReaderInfo,
    read: SamplesRead,
)
    requires
        audio.index + pull.batch <= u64::MAX,
    ensures
        ({
            let once = turn(
                AudioPhase::Samples { pull, head },
                anchor,
                audio,
                AudioEvent::Samples(read),
            );
            let twice = turn(
                AudioPhase::RetrySamples { pull, head },
                anchor,
                audio,
                AudioEvent::Samples(read),
            );
            let again = turn(
                AudioPhase::RetryInfo { pull },
                anchor,
                audio,
                AudioEvent::Info(Some(info)),
            );
            &&& keeps(once, anchor, audio) && keeps(twice, anchor, audio) && keeps(
                again,
                anchor,
                audio,
            )
            &&& read is Complete ==> {
                &&& once == twice
                &&& once.phase == (AudioPhase::Timestamps { pull })
                &&& once.action matches AudioAction::GetTimestamps { end, start, rate }
                &&& start == audio.index
                &&& end == audio.index + pull.batch
                &&& rate == pull.sample_rate
            }
            &&& read is Unavailable ==> once.phase == (AudioPhase::RetryInfo { pull })
                && once.action is GetInfo && twice.action is Fail
            &&& read is MissingChannel ==> once.action is Fail && twice.action is Fail
            &&& again.phase == (AudioPhase::RetryTime { pull, head: info.head_index })
                && again.action is GetTime
        }),
{
}

/// Reading a batch moves the flow time that the source paces itself by on by
/// exactly the duration of the batch, the end of its time less the start, as far
/// as the clock goes; nothing else changes.
pub proof fn law_batches_move_the_pace(
    anchor: InitialTime,
    audio: AudioState,
    pull: Pull,
    times: BatchTimes,
)
    requires
        times.end >= times.start,
    ensures
        ({
            let next = turn(
                AudioPhase::Timestamps { pull },
                anchor,
                audio,
                AudioEvent::Timestamps(Some(times)),
            );
            &&& turn_fits(
                AudioPhase::Timestamps { pull },
                anchor,
                audio,
                AudioEvent::Timestamps(Some(times)),
            )
            &&& anchor.mxl_index + times.end - times.start <= u64::MAX ==> next.anchor.mxl_index
                - anchor.mxl_index == times.end - times.start
            &&& anchor.mxl_index + times.end - times.start > u64::MAX ==> next.anchor.mxl_index
                == u64::MAX
            &&& next.anchor.gst_time == anchor.gst_time
            &&& next.audio == audio
            &&& next.phase == (AudioPhase::Pace { pull })
            &&& next.action is GetTime
        }),
{
}

/// The source sleeps exactly until the flow's clock reads the time that it paces
/// itself by, and not at all if the clock is already there.
pub proof fn law_sources_sleep_until_their_time(
    anchor: InitialTime,
    audio: AudioState,
    pull: Pull,
    time: u64,
)
    ensures
        ({
            let next = turn(AudioPhase::Pace { pull }, anchor, audio, AudioEvent::Time(time));
            &&& time < anchor.mxl_index ==> {
                &&& next.action matches AudioAction::SleepFor { ns }
                &&& time + ns == anchor.mxl_index
                &&& next.phase == (AudioPhase::Sleep { pull })
                &&& keeps(next, anchor, audio)
                &&& turn_fits(AudioPhase::Pace { pull }, anchor, audio, AudioEvent::Time(time))
            }
            &&& time >= anchor.mxl_index ==> (turn_fits(
                AudioPhase::Pace { pull },
                anchor,
                audio,
                AudioEvent::Time(time),
            ) <==> turn_fits(AudioPhase::Sleep { pull }, anchor, audio, AudioEvent::Slept))
            &&& time >= anchor.mxl_index ==> next == turn(
                AudioPhase::Sleep { pull },
                anchor,
                audio,
                AudioEvent::Slept,
            )
        }),
{
}

/// Buffer number `n` since the stream was tied is shown as long after the tie as
/// `n` batches last, each for `duration`, which is how long a batch lasts at the
/// flow's rate (as far as a 64-bit clock holds it), or at once if that has
/// already passed; then the running time of the tie is moved to lie just that
/// long before the buffer. Nothing else changes.
pub proof fn law_batches_take_their_turn(
    anchor: InitialTime,
    audio: AudioState,
    pull: Pull,
    duration: int,
)
    requires
        pull.sample_rate.numerator > 0,
        pull.sample_rate.denominator >= 0,
        duration * pull.sample_rate.numerator <= pull.batch * 1_000_000_000
            * pull.sample_rate.denominator < (duration + 1) * pull.sample_rate.numerator,
    ensures
        ({
            let offset = (audio.batch_counter * duration) % 0x1_0000_0000_0000_0000;
            let next = turn(AudioPhase::Sleep { pull }, anchor, audio, AudioEvent::Slept);
            let shown = anchor.gst_time + offset;
            let fits = turn_fits(AudioPhase::Sleep { pull }, anchor, audio, AudioEvent::Slept);
            &&& fits ==> {
                &&& next.action matches AudioAction::Allocate { pts }
                &&& shown >= pull.now ==> pts == shown
                &&& shown < pull.now ==> pts == pull.now
                &&& next.anchor.gst_time + offset == pts
                &&& next.anchor.mxl_index == anchor.mxl_index
                &&& next.audio == audio
                &&& next.phase == (AudioPhase::Buffer { pull })
            }
            &&& pull.batch * 1_000_000_000 * pull.sample_rate.denominator <= u128::MAX
                && audio.batch_counter * duration <= u128::MAX && offset < u64::MAX && shown
                <= u64::MAX ==> fits
        }),
{
    law_durations_are_unique(pull.batch, pull.sample_rate, duration);
    law_durations_that_can_be_computed(pull.batch, pull.sample_rate);
    lemma_batch_offset_in_range(audio, pull);
}

/// A buffer is filled with the mark that the stream carries, which is then taken
/// off; and once it is filled it is delivered, and the source goes on by the
/// samples of one batch and counts one buffer. Nothing else changes.
pub proof fn law_delivered_batches_are_counted(
    anchor: InitialTime,
    audio: AudioState,
    pull: Pull,
)
    ensures
        ({
            let fill = turn(AudioPhase::Buffer { pull }, anchor, audio, AudioEvent::Buffer(true));
            let fits = turn_fits(
                AudioPhase::Fill { pull },
                anchor,
                audio,
                AudioEvent::Filled(true),
            );
            let done = turn(AudioPhase::Fill { pull }, anchor, audio, AudioEvent::Filled(true));
            &&& fill.anchor == anchor && fill.phase == (AudioPhase::Fill { pull })
            &&& fill.action == (AudioAction::Fill { discont: audio.next_discont })
            &&& !fill.audio.next_discont && fill.audio.index == audio.index
            &&& fill.audio.batch_counter == audio.batch_counter && fill.audio.is_initialized
                == audio.is_initialized
            &&& fits <==> audio.batch_counter < u64::MAX && audio.index + pull.batch <= u64::MAX
            &&& fits ==> {
                &&& done.anchor == anchor && done.phase is Done && done.action is Deliver
                &&& done.audio.index - audio.index == pull.batch
                &&& done.audio.batch_counter - audio.batch_counter == 1
                &&& done.audio.is_initialized == audio.is_initialized
                &&& done.audio.next_discont == audio.next_discont
            }
        }),
{
}

/// Anything that is not there, and any answer to something that was not asked
/// for, ends the stream and leaves the source as it was.
pub proof fn law_missing_answers_end_the_stream(
    phase: AudioPhase,
    anchor: InitialTime,
    audio: AudioState,
    event: AudioEvent,
)
    ensures
        ({
            let next = turn(phase, anchor, audio, event);
            let missing = match event {
                AudioEvent::Info(info) => info is None,
                AudioEvent::RunningTime(now) => now is None,
                AudioEvent::Timestamps(times) => times is None,
                AudioEvent::Samples(read) => read is MissingChannel,
                AudioEvent::Buffer(there) => !there,
                AudioEvent::Filled(done) => !done,
                _ => false,
            };
            let asked = match phase {
                AudioPhase::Info | AudioPhase::Head { .. } | AudioPhase::RetryInfo { .. } => event
                    is Info,
                AudioPhase::RunningTime { .. } => event is RunningTime,
                AudioPhase::Anchor { .. }
                | AudioPhase::CatchUp { .. }
                | AudioPhase::RetryTime { .. }
                | AudioPhase::Pace { .. } => event is Time,
                AudioPhase::Samples { .. } | AudioPhase::RetrySamples { .. } => event is Samples,
                AudioPhase::Timestamps { .. } => event is Timestamps,
                AudioPhase::Sleep { .. } => event is Slept,
                AudioPhase::Buffer { .. } => event is Buffer,
                AudioPhase::Fill { .. } => event is Filled,
                AudioPhase::Done | AudioPhase::Failed => false,
            };
            let refused = phase is RetrySamples && event == AudioEvent::Samples(
                SamplesRead::Unavailable,
            );
            &&& next.action is Fail <==> missing || !asked || refused
            &&& next.action is Fail ==> next.phase is Failed && keeps(next, anchor, audio)
        }),
{
}

/// Every step can be taken as long as positions stay a batch below the end of
/// the clock, a batch does not end before it starts, and the buffer's time and
/// number can be represented.
pub proof fn law_representable_steps_are_taken(
    phase: AudioPhase,
    anchor: InitialTime,
    audio: AudioState,
    event: AudioEvent,
)
    requires
        phase_valid(phase, audio),
        audio.index <= u64::MAX - 48,
        audio.batch_counter < u64::MAX,
        event matches AudioEvent::Timestamps(Some(times)) ==> times.end >= times.start,
        !(phase is Pace) && !(phase is Sleep),
    ensures
        turn_fits(phase, anchor, audio, event),
{
}

} // verus!
