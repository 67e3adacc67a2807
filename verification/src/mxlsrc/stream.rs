//! What holds of whole audio buffers, and from one to the next.
//!
//! Creating a buffer is a run of [`AudioPhase::step`]s that ends with
//! [`AudioAction::Deliver`] or [`AudioAction::Fail`].
use super::audio::batch_offset;
use super::audio::batch_size;
use super::audio::lemma_batch_offset_in_range;
use super::audio::turn;
use super::audio::turn_fits;
use super::audio::AudioAction;
use super::audio::AudioEvent;
use super::audio::AudioPhase;
use super::audio::AudioTurn;
use super::audio::Pull;
use super::state::AudioState;
use super::state::InitialTime;
use crate::timing::lemma_span_monotone;
use crate::timing::max;
use crate::timing::span;
use crate::timing::CLOCK_RANGE;
use vstd::arithmetic::div_mod::lemma_fundamental_div_mod_converse;
use vstd::prelude::*;

verus! {

/// The creation of a buffer, at its beginning.
pub open spec fn begun(anchor: InitialTime, audio: AudioState) -> AudioTurn {
    AudioTurn { anchor, audio, phase: AudioPhase::Info, action: AudioAction::GetInfo }
}

/// The creation of a buffer after a run of answers.
pub open spec fn answered(anchor: InitialTime, audio: AudioState, events: Seq<AudioEvent>) -> AudioTurn
    decreases events.len(),
{
    if events.len() == 0 {
        begun(anchor, audio)
    } else {
        let before = answered(anchor, audio, events.drop_last());
        turn(before.phase, before.anchor, before.audio, events.last())
    }
}

/// Whether every step of a run can be taken.
pub open spec fn answers_fit(anchor: InitialTime, audio: AudioState, events: Seq<AudioEvent>) -> bool
    decreases events.len(),
{
    events.len() > 0 ==> {
        let before = answered(anchor, audio, events.drop_last());
        &&& answers_fit(anchor, audio, events.drop_last())
        &&& turn_fits(before.phase, before.anchor, before.audio, events.last())
    }
}

/// What a run has come to: the flow and the running time it goes by, where it
/// read samples last, the time and the mark of its buffer, and whether the
/// stream has jumped.
pub struct Report {
    pub pull: Option<Pull>,
    pub read: Option<u64>,
    pub pts: Option<u64>,
    pub discont: Option<bool>,
    pub jumped: bool,
}

/// The flow and the running time that a phase goes by.
pub open spec fn pull_of(phase: AudioPhase) -> Option<Pull> {
    match phase {
        AudioPhase::Anchor { pull, .. }
        | AudioPhase::Head { pull }
        | AudioPhase::CatchUp { pull, .. }
        | AudioPhase::Samples { pull, .. }
        | AudioPhase::RetryInfo { pull }
        | AudioPhase::RetryTime { pull, .. }
        | AudioPhase::RetrySamples { pull, .. }
        | AudioPhase::Timestamps { pull }
        | AudioPhase::Pace { pull }
        | AudioPhase::Sleep { pull }
        | AudioPhase::Buffer { pull }
        | AudioPhase::Fill { pull } => Some(pull),
        _ => None,
    }
}

/// What a run has come to.
pub open spec fn report(anchor: InitialTime, audio: AudioState, events: Seq<AudioEvent>) -> Report
    decreases events.len(),
{
    if events.len() == 0 {
        Report { pull: None, read: None, pts: None, discont: None, jumped: false }
    } else {
        let earlier = report(anchor, audio, events.drop_last());
        let before = answered(anchor, audio, events.drop_last());
        let next = answered(anchor, audio, events);
        Report {
            pull: if pull_of(next.phase) is Some {
                pull_of(next.phase)
            } else {
                earlier.pull
            },
            read: match next.action {
                AudioAction::GetSamples { index, .. } => Some(index),
                _ => earlier.read,
            },
            pts: match next.action {
                AudioAction::Allocate { pts } => Some(pts),
                _ => earlier.pts,
            },
            discont: match next.action {
                AudioAction::Fill { discont } => Some(discont),
                _ => earlier.discont,
            },
            jumped: earlier.jumped || before.phase is CatchUp || before.phase is RetryTime,
        }
    }
}

/// Whether the flow has been asked for samples of the batch at hand.
spec fn has_read(phase: AudioPhase) -> bool {
    match phase {
        AudioPhase::Samples { .. }
        | AudioPhase::RetryInfo { .. }
        | AudioPhase::RetryTime { .. }
        | AudioPhase::RetrySamples { .. }
        | AudioPhase::Timestamps { .. }
        | AudioPhase::Pace { .. }
        | AudioPhase::Sleep { .. }
        | AudioPhase::Buffer { .. }
        | AudioPhase::Fill { .. } => true,
        _ => false,
    }
}

/// What every run knows, as long as it has not failed.
spec fn told(now: AudioTurn, audio: AudioState, known: Report) -> bool {
    &&& pull_of(now.phase) is Some ==> {
        let pull = pull_of(now.phase)->0;
        &&& known.pull == Some(pull)
        &&& pull.ring <= u32::MAX
        &&& pull.batch == batch_size(pull.ring as u32)
        &&& !(now.phase is Anchor) ==> now.audio.is_initialized
    }
    &&& has_read(now.phase) ==> known.read == Some(now.audio.index)
    &&& now.phase matches AudioPhase::Buffer { pull } ==> known.pts is Some && known.pts->0
        == now.anchor.gst_time + batch_offset(now.audio, pull)
    &&& now.phase matches AudioPhase::Fill { pull } ==> known.pts is Some && known.pts->0
        == now.anchor.gst_time + batch_offset(now.audio, pull)
    &&& now.phase is Done ==> {
        let pull = known.pull->0;
        &&& known.pull is Some && known.read is Some && known.pts is Some
        &&& pull.ring <= u32::MAX
        &&& pull.batch == batch_size(pull.ring as u32)
        &&& now.audio.is_initialized
        &&& now.audio.index == known.read->0 + pull.batch
        &&& now.audio.batch_counter >= 1
        &&& known.pts->0 == now.anchor.gst_time + batch_offset(
            AudioState { batch_counter: (now.audio.batch_counter - 1) as u64, ..now.audio },
            pull,
        )
    }
    &&& (now.phase is Fill || now.phase is Done) ==> known.discont == Some(
        audio.next_discont || known.jumped,
    ) && !now.audio.next_discont
    &&& (pull_of(now.phase) is Some && !(now.phase is Fill)) || now.phase is Info
        || now.phase is RunningTime ==> now.audio.next_discont == (audio.next_discont
        || known.jumped)
}

proof fn lemma_runs_are_told(anchor: InitialTime, audio: AudioState, events: Seq<AudioEvent>)
    requires
        answers_fit(anchor, audio, events),
    ensures
        told(answered(anchor, audio, events), audio, report(anchor, audio, events)),
    decreases events.len(),
{
    if events.len() > 0 {
        lemma_runs_are_told(anchor, audio, events.drop_last());
        let before = answered(anchor, audio, events.drop_last());
        match before.phase {
            AudioPhase::Pace { pull } | AudioPhase::Sleep { pull } => {
                lemma_batch_offset_in_range(before.audio, pull);
            },
            _ => {},
        }
    }
}

/// What a run of a stream that is already tied to its flow knows, as long as it
/// has not failed and not jumped.
spec fn steady(now: AudioTurn, anchor: InitialTime, audio: AudioState, known: Report) -> bool {
    &&& !(now.phase is Anchor)
    &&& !(now.phase is Done) && !(now.phase is Failed) ==> {
        &&& now.audio.index == audio.index
        &&& now.audio.batch_counter == audio.batch_counter
        &&& now.audio.is_initialized
    }
    &&& !(now.phase is Buffer) && !(now.phase is Fill) && !(now.phase is Done) && !(
    now.phase is Failed) ==> now.anchor.gst_time == anchor.gst_time
    &&& now.phase is Buffer || now.phase is Fill || now.phase is Done ==> known.pull is Some
        && known.pts is Some && known.pts->0 == max(
        anchor.gst_time + batch_offset(audio, known.pull->0),
        known.pull->0.now as int,
    )
    &&& now.phase is Done ==> known.read == Some(audio.index)
}

proof fn lemma_runs_are_steady(anchor: InitialTime, audio: AudioState, events: Seq<AudioEvent>)
    requires
        answers_fit(anchor, audio, events),
        audio.is_initialized,
        !report(anchor, audio, events).jumped,
    ensures
        steady(answered(anchor, audio, events), anchor, audio, report(anchor, audio, events)),
    decreases events.len(),
{
    if events.len() > 0 {
        lemma_runs_are_steady(anchor, audio, events.drop_last());
        lemma_runs_are_told(anchor, audio, events.drop_last());
        let before = answered(anchor, audio, events.drop_last());
        match before.phase {
            AudioPhase::Pace { pull } | AudioPhase::Sleep { pull } => {
                lemma_batch_offset_in_range(before.audio, pull);
            },
            _ => {},
        }
    }
}

/// Two buffers delivered one after the other from a flow that keeps its rate
/// and its ring, the second without a jump, follow one another without a gap:
/// the second is read where the first ended. It is shown exactly the duration
/// of a batch after the first, unless that has already passed; then it is shown
/// at once. The time at which it is due has to exist on a 64-bit clock.
pub proof fn law_buffers_follow_one_another(
    anchor: InitialTime,
    audio: AudioState,
    first: Seq<AudioEvent>,
    second: Seq<AudioEvent>,
)
    requires
        ({
            let one = answered(anchor, audio, first);
            let a = report(anchor, audio, first);
            let b = report(one.anchor, one.audio, second);
            &&& answers_fit(anchor, audio, first)
            &&& one.action is Deliver
            &&& answers_fit(one.anchor, one.audio, second)
            &&& answered(one.anchor, one.audio, second).action is Deliver
            &&& !b.jumped
            &&& b.pull->0.ring == a.pull->0.ring
            &&& b.pull->0.sample_rate == a.pull->0.sample_rate
            &&& a.pts->0 + span(a.pull->0.batch as int, a.pull->0.sample_rate) <= u64::MAX
        }),
    ensures
        ({
            let one = answered(anchor, audio, first);
            let a = report(anchor, audio, first);
            let b = report(one.anchor, one.audio, second);
            let duration = span(a.pull->0.batch as int, a.pull->0.sample_rate);
            &&& a.pull is Some && a.read is Some && a.pts is Some
            &&& b.pull is Some && b.read is Some && b.pts is Some
            &&& b.read->0 == a.read->0 + a.pull->0.batch
            &&& b.pull->0.batch == a.pull->0.batch
            &&& b.pts->0 == max(a.pts->0 + duration, b.pull->0.now as int)
            &&& duration >= 0
        }),
{
    let one = answered(anchor, audio, first);
    lemma_runs_are_told(anchor, audio, first);
    lemma_delivered_is_done(anchor, audio, first);
    lemma_runs_are_told(one.anchor, one.audio, second);
    lemma_delivered_is_done(one.anchor, one.audio, second);
    lemma_runs_are_steady(one.anchor, one.audio, second);
    let pull = report(anchor, audio, first).pull->0;
    let d = span(pull.batch as int, pull.sample_rate);
    let k = one.audio.batch_counter - 1;
    let r = CLOCK_RANGE as int;
    lemma_delivered_rate_is_usable(anchor, audio, first);
    lemma_span_monotone(0, pull.batch as int, pull.sample_rate);
    let x = k * d;
    assert((k + 1) * d == x + d) by (nonlinear_arith)
        requires
            x == k * d,
    ;
    assert(x == r * (x / r) + x % r && 0 <= x % r) by (nonlinear_arith)
        requires
            r > 0,
    ;
    assert(x % r + d < r);
    lemma_fundamental_div_mod_converse(x + d, r, x / r, x % r + d);
}

/// Only the last step delivers.
proof fn lemma_delivered_is_done(anchor: InitialTime, audio: AudioState, events: Seq<AudioEvent>)
    requires
        answered(anchor, audio, events).action is Deliver,
    ensures
        answered(anchor, audio, events).phase is Done,
{
}

/// A buffer that is delivered has been given a time, so its rate is not zero.
proof fn lemma_delivered_rate_is_usable(
    anchor: InitialTime,
    audio: AudioState,
    events: Seq<AudioEvent>,
)
    requires
        answers_fit(anchor, audio, events),
    ensures
        ({
            let now = answered(anchor, audio, events);
            now.phase is Buffer || now.phase is Fill || now.phase is Done ==> {
                let known = report(anchor, audio, events);
                known.pull is Some && known.pull->0.sample_rate.numerator != 0
            }
        }),
    decreases events.len(),
{
    if events.len() > 0 {
        lemma_delivered_rate_is_usable(anchor, audio, events.drop_last());
        lemma_runs_are_told(anchor, audio, events.drop_last());
    }
}

/// A delivered buffer is marked exactly if the stream jumped while it was
/// created or if an earlier mark had not been handed out; and then no mark is
/// left.
pub proof fn law_buffers_after_a_jump_are_marked(
    anchor: InitialTime,
    audio: AudioState,
    events: Seq<AudioEvent>,
)
    requires
        answers_fit(anchor, audio, events),
        answered(anchor, audio, events).action is Deliver,
    ensures
        report(anchor, audio, events).discont == Some(
            audio.next_discont || report(anchor, audio, events).jumped,
        ),
        !answered(anchor, audio, events).audio.next_discont,
{
    lemma_runs_are_told(anchor, audio, events);
    lemma_delivered_is_done(anchor, audio, events);
}

/// The flow time by which the samples that have been read are over, after a run
/// of answers: where the stream was tied to the flow's clock last, that time, and
/// since then the duration of every batch that was read. Before the run it was
/// `due`.
pub open spec fn due_after(
    due: int,
    anchor: InitialTime,
    audio: AudioState,
    events: Seq<AudioEvent>,
) -> int
    decreases events.len(),
{
    if events.len() == 0 {
        due
    } else {
        let earlier = due_after(due, anchor, audio, events.drop_last());
        match (answered(anchor, audio, events.drop_last()).phase, events.last()) {
            (AudioPhase::Anchor { .. }, AudioEvent::Time(time)) => time as int,
            (AudioPhase::CatchUp { .. }, AudioEvent::Time(time)) => time as int,
            (AudioPhase::RetryTime { .. }, AudioEvent::Time(time)) => time as int,
            (AudioPhase::Timestamps { .. }, AudioEvent::Timestamps(Some(times))) => earlier + (
            times.end - times.start),
            _ => earlier,
        }
    }
}

/// The source after a run of buffers, each a run of answers, delivered or not.
pub open spec fn played(
    anchor: InitialTime,
    audio: AudioState,
    buffers: Seq<Seq<AudioEvent>>,
) -> (InitialTime, AudioState)
    decreases buffers.len(),
{
    if buffers.len() == 0 {
        (anchor, audio)
    } else {
        let before = played(anchor, audio, buffers.drop_last());
        let after = answered(before.0, before.1, buffers.last());
        (after.anchor, after.audio)
    }
}

/// Whether every step of a run of buffers can be taken.
pub open spec fn played_fits(
    anchor: InitialTime,
    audio: AudioState,
    buffers: Seq<Seq<AudioEvent>>,
) -> bool
    decreases buffers.len(),
{
    buffers.len() > 0 ==> {
        let before = played(anchor, audio, buffers.drop_last());
        &&& played_fits(anchor, audio, buffers.drop_last())
        &&& answers_fit(before.0, before.1, buffers.last())
    }
}

/// The flow time by which the samples that have been read are over, after a run
/// of buffers.
pub open spec fn due_over(
    due: int,
    anchor: InitialTime,
    audio: AudioState,
    buffers: Seq<Seq<AudioEvent>>,
) -> int
    decreases buffers.len(),
{
    if buffers.len() == 0 {
        due
    } else {
        let before = played(anchor, audio, buffers.drop_last());
        due_after(
            due_over(due, anchor, audio, buffers.drop_last()),
            before.0,
            before.1,
            buffers.last(),
        )
    }
}

proof fn lemma_answers_keep_pace(
    due: int,
    anchor: InitialTime,
    audio: AudioState,
    events: Seq<AudioEvent>,
)
    requires
        answers_fit(anchor, audio, events),
        0 <= due,
        anchor.mxl_index == if due <= u64::MAX {
            due
        } else {
            u64::MAX as int
        },
    ensures
        ({
            let later = due_after(due, anchor, audio, events);
            &&& 0 <= later
            &&& answered(anchor, audio, events).anchor.mxl_index == if later <= u64::MAX {
                later
            } else {
                u64::MAX as int
            }
        }),
    decreases events.len(),
{
    if events.len() > 0 {
        lemma_answers_keep_pace(due, anchor, audio, events.drop_last());
    }
}

proof fn lemma_buffers_keep_pace(
    due: int,
    anchor: InitialTime,
    audio: AudioState,
    buffers: Seq<Seq<AudioEvent>>,
)
    requires
        played_fits(anchor, audio, buffers),
        0 <= due,
        anchor.mxl_index == if due <= u64::MAX {
            due
        } else {
            u64::MAX as int
        },
    ensures
        ({
            let later = due_over(due, anchor, audio, buffers);
            &&& 0 <= later
            &&& played(anchor, audio, buffers).0.mxl_index == if later <= u64::MAX {
                later
            } else {
                u64::MAX as int
            }
        }),
    decreases buffers.len(),
{
    if buffers.len() > 0 {
        lemma_buffers_keep_pace(due, anchor, audio, buffers.drop_last());
        let before = played(anchor, audio, buffers.drop_last());
        lemma_answers_keep_pace(
            due_over(due, anchor, audio, buffers.drop_last()),
            before.0,
            before.1,
            buffers.last(),
        );
    }
}

/// The source keeps pace with the flow. After any run of buffers and whatever
/// was read for the next one, when the flow's clock is asked for, the source
/// sleeps exactly until it reads the time at which the stream was tied plus the
/// durations of all batches that have been read since (or the end of the clock,
/// if that comes first), and does not sleep at all if the clock is already there.
pub proof fn law_sources_keep_pace(
    anchor: InitialTime,
    audio: AudioState,
    buffers: Seq<Seq<AudioEvent>>,
    events: Seq<AudioEvent>,
    time: u64,
)
    requires
        played_fits(anchor, audio, buffers),
        ({
            let before = played(anchor, audio, buffers);
            &&& answers_fit(before.0, before.1, events)
            &&& answered(before.0, before.1, events).phase is Pace
        }),
    ensures
        ({
            let before = played(anchor, audio, buffers);
            let now = answered(before.0, before.1, events);
            let due = due_after(
                due_over(anchor.mxl_index as int, anchor, audio, buffers),
                before.0,
                before.1,
                events,
            );
            let until = if due <= u64::MAX {
                due
            } else {
                u64::MAX as int
            };
            let next = turn(now.phase, now.anchor, now.audio, AudioEvent::Time(time));
            &&& time < until ==> next.action == (AudioAction::SleepFor {
                ns: (until - time) as u64,
            })
            &&& time >= until ==> next.action is Allocate
            &&& now.anchor.mxl_index == until
        }),
{
    let before = played(anchor, audio, buffers);
    lemma_buffers_keep_pace(anchor.mxl_index as int, anchor, audio, buffers);
    lemma_answers_keep_pace(
        due_over(anchor.mxl_index as int, anchor, audio, buffers),
        before.0,
        before.1,
        events,
    );
}

} // verus!
