//! Creating video buffers: which grain to read next, and when to show it.
use super::state::InitialTime;
use super::state::State;
use super::state::VideoState;
use crate::timing::can_span;
use crate::timing::check_span;
use crate::timing::law_durations_are_unique;
use crate::timing::law_durations_that_can_be_computed;
use crate::timing::lemma_span_monotone;
use crate::timing::max;
use crate::timing::span;
use crate::timing::span_ns;
use crate::timing::to_clock;
use crate::timing::FlowError;
use crate::timing::Rational;
use crate::timing::CLOCK_RANGE;
use vstd::arithmetic::div_mod::lemma_fundamental_div_mod_converse;
use vstd::prelude::*;

verus! {

/// How long the source waits for a grain.
pub const GET_GRAIN_TIMEOUT_NS: u64 = 5_000_000_000;

/// A grain to read, and the presentation time of the buffer it becomes.
#[derive(Debug, Clone, Copy, PartialEq, Eq, Structural)]
pub struct GrainRequest {
    pub index: u64,
    pub pts: u64,
}

/// The anchor that the next frame is measured from: the one at hand, or, for
/// the first frame, the current grain at the current running time.
pub open spec fn frame_anchor(
    anchor: InitialTime,
    video: VideoState,
    current_index: u64,
    now: u64,
) -> InitialTime {
    if video.is_initialized {
        anchor
    } else {
        InitialTime { mxl_index: current_index, gst_time: now }
    }
}

/// How far the next frame lies behind the anchor, as the clock holds it.
pub open spec fn frame_offset(video: VideoState) -> int {
    span(video.frame_counter as int, video.grain_rate) % (CLOCK_RANGE as int)
}

/// The grain that the next frame is read from: the one that is its turn, or the
/// current one where that is newer.
pub open spec fn frame_index(
    anchor: InitialTime,
    video: VideoState,
    current_index: u64,
    now: u64,
) -> int {
    max(
        frame_anchor(anchor, video, current_index, now).mxl_index + video.frame_counter,
        current_index as int,
    )
}

/// The presentation time of the next frame.
pub open spec fn frame_pts(
    anchor: InitialTime,
    video: VideoState,
    current_index: u64,
    now: u64,
) -> int {
    max(
        frame_offset(video) + frame_anchor(anchor, video, current_index, now).gst_time,
        now as int,
    )
}

/// The anchor that the next frame leaves behind.
pub open spec fn frame_anchor_after(
    anchor: InitialTime,
    video: VideoState,
    current_index: u64,
    now: u64,
) -> InitialTime {
    let start = frame_anchor(anchor, video, current_index, now);
    InitialTime {
        mxl_index: start.mxl_index,
        gst_time: max(start.gst_time as int, now - frame_offset(video)) as u64,
    }
}

/// Whether the position and time of the next frame can be represented.
pub open spec fn frame_fits(
    anchor: InitialTime,
    video: VideoState,
    current_index: u64,
    now: u64,
) -> bool {
    let start = frame_anchor(anchor, video, current_index, now);
    let offset = frame_offset(video);
    &&& start.mxl_index + video.frame_counter <= u64::MAX
    &&& can_span(video.frame_counter as int, video.grain_rate)
    &&& offset < u64::MAX
    &&& offset + start.gst_time <= u64::MAX
    &&& offset + start.gst_time < now ==> start.gst_time + now <= u64::MAX
}

/// What is asked of the flow for the next frame. Without a video stream or a
/// running time there is no next frame.
pub open spec fn request_of(
    state: State,
    current_index: u64,
    running_time: Option<u64>,
) -> Result<GrainRequest, FlowError> {
    match (state.video, running_time) {
        (Some(video), Some(now)) => Ok(
            GrainRequest {
                index: frame_index(state.initial_info, video, current_index, now) as u64,
                pts: frame_pts(state.initial_info, video, current_index, now) as u64,
            },
        ),
        _ => Err(FlowError::Error),
    }
}

/// The source after it has asked for the next frame.
pub open spec fn after_request(
    state: State,
    current_index: u64,
    running_time: Option<u64>,
) -> State {
    match (state.video, running_time) {
        (Some(video), Some(now)) => State {
            initial_info: frame_anchor_after(state.initial_info, video, current_index, now),
            video: Some(VideoState { is_initialized: true, ..video }),
            ..state
        },
        _ => state,
    }
}

/// Whether the position and time of the next frame, if there is one, can be
/// represented.
pub open spec fn request_fits(state: State, current_index: u64, running_time: Option<u64>) -> bool {
    match (state.video, running_time) {
        (Some(video), Some(now)) => frame_fits(state.initial_info, video, current_index, now),
        _ => true,
    }
}

/// The rate by which the current grain is counted.
pub open spec fn rate_of(state: State) -> Result<Rational, FlowError> {
    match state.video {
        Some(video) => Ok(video.grain_rate),
        None => Err(FlowError::Error),
    }
}

/// The rate by which the current grain is counted. Without a video stream there
/// is none.
pub fn video_rate(state: &State) -> (rate: Result<Rational, FlowError>)
    ensures
        rate == (match state.video {
            Some(video) => Ok(video.grain_rate),
            None => Err(FlowError::Error),
        }),
        rate == rate_of(*state),
{
    match state.video {
        Some(video) => Ok(video.grain_rate),
        None => Err(FlowError::Error),
    }
}

/// Tells whether [`create_video`] can be asked for the next frame.
pub fn check_frame(state: &State, current_index: u64, running_time: Option<u64>) -> (ok: bool)
    ensures
        ok == request_fits(*state, current_index, running_time),
{
    let (video, now): (VideoState, u64) = match (state.video, running_time) {
        (Some(video), Some(now)) => (video, now),
        _ => {
            return true;
        },
    };
    let start = if video.is_initialized {
        state.initial_info
    } else {
        InitialTime { mxl_index: current_index, gst_time: now }
    };
    if start.mxl_index.checked_add(video.frame_counter).is_none() || !check_span(
        video.frame_counter,
        video.grain_rate,
    ) {
        return false;
    }
    let offset: u64 = to_clock(span_ns(video.frame_counter, video.grain_rate));
    match offset.checked_add(start.gst_time) {
        Some(pts) => offset < u64::MAX && (pts >= now || start.gst_time.checked_add(now).is_some()),
        None => false,
    }
}

/// Decides which grain to read and when to show it. The first call ties the
/// stream to the flow. A source that lags skips to the current grain; a frame
/// that would be late is shown now, and so are the frames after it moved by
/// the same amount.
pub fn create_video(state: &mut State, current_index: u64, running_time: Option<u64>) -> (request:
    Result<GrainRequest, FlowError>)
    requires
        request_fits(*old(state), current_index, running_time),
    ensures
        request == request_of(*old(state), current_index, running_time),
        *final(state) == after_request(*old(state), current_index, running_time),
{
    let (mut video, now): (VideoState, u64) = match (state.video, running_time) {
        (Some(video), Some(now)) => (video, now),
        _ => {
            return Err(FlowError::Error);
        },
    };
    let mut anchor: InitialTime = state.initial_info;
    if !video.is_initialized {
        anchor = InitialTime { mxl_index: current_index, gst_time: now };
        video.is_initialized = true;
    }
    let mut index: u64 = anchor.mxl_index + video.frame_counter;
    if index < current_index {
        index = current_index;
    }
    let offset: u64 = to_clock(span_ns(video.frame_counter, video.grain_rate));
    let mut pts: u64 = offset + anchor.gst_time;
    if pts < now {
        let late: u64 = pts;
        pts = pts - anchor.gst_time;
        anchor.gst_time = anchor.gst_time + now - late;
        pts = pts + anchor.gst_time;
    }
    state.initial_info = anchor;
    state.video = Some(video);
    Ok(GrainRequest { index, pts })
}

/// The frame number after `counter`: the first delivered frame counts twice.
pub open spec fn next_frame(counter: u64) -> int {
    if counter == 0 {
        2
    } else {
        counter + 1
    }
}

/// Whether a delivered frame can still be counted.
pub open spec fn delivery_fits(state: State, delivered: bool) -> bool {
    delivered ==> (state.video matches Some(video) ==> video.frame_counter < u64::MAX)
}

/// The source after the requested frame has been delivered, or not.
pub open spec fn after_delivery(state: State, delivered: bool) -> State {
    match state.video {
        Some(video) => if delivered {
            State {
                video: Some(
                    VideoState { frame_counter: next_frame(video.frame_counter) as u64, ..video },
                ),
                ..state
            }
        } else {
            state
        },
        None => state,
    }
}

/// Tells whether [`video_delivered`] can count the frame.
pub fn check_delivery(state: &State, delivered: bool) -> (ok: bool)
    ensures
        ok == delivery_fits(*state, delivered),
{
    match state.video {
        Some(video) => !delivered || video.frame_counter < u64::MAX,
        None => true,
    }
}

/// Counts the requested frame if it has been delivered. A frame that could not
/// be delivered, because the grain could not be read or there is no buffer for
/// it, ends the stream and is not counted.
pub fn video_delivered(state: &mut State, delivered: bool) -> (counted: Result<(), FlowError>)
    requires
        delivery_fits(*old(state), delivered),
    ensures
        counted == (if delivered && old(state).video is Some {
            Ok::<(), FlowError>(())
        } else {
            Err::<(), FlowError>(FlowError::Error)
        }),
        *final(state) == after_delivery(*old(state), delivered),
{
    match state.video {
        Some(video) => {
            if !delivered {
                return Err(FlowError::Error);
            }
            let counter: u64 = if video.frame_counter == 0 {
                2
            } else {
                video.frame_counter + 1
            };
            state.video = Some(VideoState { frame_counter: counter, ..video });
            Ok(())
        },
        None => Err(FlowError::Error),
    }
}

/// No frame is shown before the running time at which it is created, and no
/// grain older than the current one is read.
pub proof fn law_frames_are_never_late(
    anchor: InitialTime,
    video: VideoState,
    current_index: u64,
    now: u64,
)
    requires
        frame_fits(anchor, video, current_index, now),
    ensures
        frame_pts(anchor, video, current_index, now) >= now,
        frame_index(anchor, video, current_index, now) >= current_index,
{
}

/// One attempt to create a frame: the current grain and the running time that
/// were read, and whether the frame could be delivered.
pub struct VideoCall {
    pub current_index: u64,
    pub running_time: Option<u64>,
    pub delivered: bool,
}

/// How an attempt ends.
pub open spec fn call_result(state: State, call: VideoCall) -> Result<GrainRequest, FlowError> {
    match request_of(state, call.current_index, call.running_time) {
        Ok(request) => if call.delivered {
            Ok(request)
        } else {
            Err(FlowError::Error)
        },
        Err(error) => Err(error),
    }
}

/// The source after an attempt.
pub open spec fn called(state: State, call: VideoCall) -> State {
    let asked = after_request(state, call.current_index, call.running_time);
    if request_of(state, call.current_index, call.running_time) is Ok {
        after_delivery(asked, call.delivered)
    } else {
        asked
    }
}

/// Whether everything that an attempt computes can be represented.
pub open spec fn call_fits(state: State, call: VideoCall) -> bool {
    &&& request_fits(state, call.current_index, call.running_time)
    &&& delivery_fits(
        after_request(state, call.current_index, call.running_time),
        call.delivered && call.running_time is Some,
    )
}

/// The source after a run of attempts.
pub open spec fn after_calls(state: State, calls: Seq<VideoCall>) -> State
    decreases calls.len(),
{
    if calls.len() == 0 {
        state
    } else {
        called(after_calls(state, calls.drop_last()), calls.last())
    }
}

/// Whether everything that a run of attempts computes can be represented.
pub open spec fn calls_fit(state: State, calls: Seq<VideoCall>) -> bool
    decreases calls.len(),
{
    calls.len() > 0 ==> {
        &&& calls_fit(state, calls.drop_last())
        &&& call_fits(after_calls(state, calls.drop_last()), calls.last())
    }
}

/// How many attempts of a run succeed.
pub open spec fn successes(state: State, calls: Seq<VideoCall>) -> nat
    decreases calls.len(),
{
    if calls.len() == 0 {
        0
    } else {
        let before = successes(state, calls.drop_last());
        if call_result(after_calls(state, calls.drop_last()), calls.last()) is Ok {
            before + 1
        } else {
            before
        }
    }
}

/// An attempt succeeds exactly if there is a video stream and a running time
/// and the frame is delivered; any other ends with an error. A success moves the
/// frame number on, a failure leaves it, and without a stream or a running time
/// nothing at all changes.
pub proof fn law_frames_are_counted(state: State, call: VideoCall)
    requires
        call_fits(state, call),
    ensures
        call_result(state, call) is Ok <==> state.video is Some && call.running_time is Some
            && call.delivered,
        call_result(state, call) matches Err(error) ==> error == FlowError::Error,
        called(state, call).video is Some <==> state.video is Some,
        state.video matches Some(video) ==> called(state, call).video->0.frame_counter == (
        if call_result(state, call) is Err {
            video.frame_counter as int
        } else if video.frame_counter == 0 {
            2
        } else {
            video.frame_counter + 1
        }),
        state.video is None || call.running_time is None ==> called(state, call) == state,
{
}

/// Whatever attempts fail in between, the frames of a fresh stream are numbered
/// 0, 2, 3, 4 and so on: after the first success the number is one more than the
/// successes so far.
pub proof fn law_delivered_frames_are_numbered(state: State, calls: Seq<VideoCall>)
    requires
        state.video matches Some(video) && video.frame_counter == 0,
        calls_fit(state, calls),
    ensures
        after_calls(state, calls).video matches Some(video) && video.frame_counter == (
        if successes(state, calls) == 0 {
            0
        } else {
            successes(state, calls) + 1
        }),
    decreases calls.len(),
{
    if calls.len() > 0 {
        law_delivered_frames_are_numbered(state, calls.drop_last());
        law_frames_are_counted(after_calls(state, calls.drop_last()), calls.last());
    }
}

/// How far the rate puts the frame after the next one behind the next one.
pub open spec fn frames_apart(video: VideoState) -> int {
    span(next_frame(video.frame_counter), video.grain_rate) - span(
        video.frame_counter as int,
        video.grain_rate,
    )
}

/// Two frames delivered one after the other are shown exactly as far apart as
/// the flow's rate puts them, unless that has already passed; then the second
/// one is shown at once. So presentation times never run backwards, whatever
/// the clocks read; and the grains never run backwards while the flow does not.
/// The time at which the second frame is due has to exist on a 64-bit clock.
pub proof fn law_frames_keep_their_distance(state: State, first: VideoCall, second: VideoCall)
    requires
        call_fits(state, first),
        call_fits(called(state, first), second),
        call_result(state, first) is Ok,
        call_result(called(state, first), second) is Ok,
        call_result(state, first)->Ok_0.pts + frames_apart(state.video->0) <= u64::MAX,
    ensures
        ({
            let one = call_result(state, first)->Ok_0;
            let two = call_result(called(state, first), second)->Ok_0;
            &&& two.pts == max(
                one.pts + frames_apart(state.video->0),
                second.running_time->0 as int,
            )
            &&& frames_apart(state.video->0) >= 0
            &&& two.pts >= one.pts
            &&& second.current_index >= first.current_index ==> two.index >= one.index
        }),
{
    let video = state.video->0;
    let k = video.frame_counter as int;
    let r = CLOCK_RANGE as int;
    lemma_span_monotone(k, next_frame(video.frame_counter), video.grain_rate);
    lemma_span_monotone(0, k, video.grain_rate);
    let due = span(k, video.grain_rate);
    let apart = frames_apart(video);
    assert(due == r * (due / r) + due % r && 0 <= due % r) by (nonlinear_arith)
        requires
            r > 0,
    ;
    assert(due % r + apart < r);
    lemma_fundamental_div_mod_converse(due + apart, r, due / r, due % r + apart);
}

/// Every frame takes its turn. A stream is tied to a grain and a running time:
/// those of its first request, or those it was tied to before. Frame number `k`
/// is read from the grain `k` after the tie, or from the current grain if that
/// one has already passed. It is shown as long after the tie as `k` grains last
/// at the flow's rate (`due`, as far as a 64-bit clock holds it), or at once if
/// that has already passed. The tie keeps its grain, and its running time is
/// moved so that it lies just that long before the frame. Nothing else changes.
pub proof fn law_frames_take_their_turn(state: State, current_index: u64, now: u64, due: int)
    requires
        state.video is Some,
        request_fits(state, current_index, Some(now)),
        state.video->0.grain_rate.numerator > 0,
        state.video->0.grain_rate.denominator >= 0,
        due * state.video->0.grain_rate.numerator <= state.video->0.frame_counter * 1_000_000_000
            * state.video->0.grain_rate.denominator < (due + 1)
            * state.video->0.grain_rate.numerator,
    ensures
        ({
            let video = state.video->0;
            let tied = video.is_initialized;
            let grain = if tied {
                state.initial_info.mxl_index
            } else {
                current_index
            };
            let time = if tied {
                state.initial_info.gst_time
            } else {
                now
            };
            let turn = grain + video.frame_counter;
            let shown = time + due % 0x1_0000_0000_0000_0000;
            let after = after_request(state, current_index, Some(now));
            &&& request_of(state, current_index, Some(now)) matches Ok(request)
            &&& turn >= current_index ==> request.index == turn
            &&& turn < current_index ==> request.index == current_index
            &&& shown >= now ==> request.pts == shown
            &&& shown < now ==> request.pts == now
            &&& after.initial_info.mxl_index == grain
            &&& after.initial_info.gst_time + due % 0x1_0000_0000_0000_0000 == request.pts
            &&& after.video matches Some(left)
            &&& left.is_initialized
            &&& left.frame_counter == video.frame_counter
            &&& left.grain_rate == video.grain_rate
            &&& after.audio == state.audio
        }),
{
    let video = state.video->0;
    law_durations_are_unique(video.frame_counter, video.grain_rate, due);
}

/// At whatever rate, a frame is read from its grain or from the current one,
/// whichever comes later, and is not shown before the running time at which it
/// is asked for; and the tie keeps its grain.
pub proof fn law_frames_take_their_grain(state: State, current_index: u64, now: u64)
    requires
        state.video is Some,
        request_fits(state, current_index, Some(now)),
    ensures
        ({
            let video = state.video->0;
            let grain = if video.is_initialized {
                state.initial_info.mxl_index
            } else {
                current_index
            };
            let after = after_request(state, current_index, Some(now));
            &&& request_of(state, current_index, Some(now)) matches Ok(request)
            &&& grain + video.frame_counter >= current_index ==> request.index == grain
                + video.frame_counter
            &&& grain + video.frame_counter < current_index ==> request.index == current_index
            &&& request.pts >= now
            &&& after.initial_info.mxl_index == grain
            &&& after.video == Some(
                VideoState {
                    grain_rate: video.grain_rate,
                    frame_counter: video.frame_counter,
                    is_initialized: true,
                },
            )
        }),
{
}

/// Without a video stream or without a running time there is no frame to ask
/// for, and nothing changes. The rate of the current grain is that of the
/// stream.
pub proof fn law_requests_need_a_stream(
    state: State,
    current_index: u64,
    running_time: Option<u64>,
    delivered: bool,
)
    ensures
        request_of(state, current_index, running_time) is Err <==> state.video is None
            || running_time is None,
        request_of(state, current_index, running_time) is Err ==> after_request(
            state,
            current_index,
            running_time,
        ) == state,
        rate_of(state) matches Ok(rate) ==> state.video is Some && rate
            == state.video->0.grain_rate,
        rate_of(state) is Err <==> state.video is None,
        !delivered || state.video is None ==> after_delivery(state, delivered) == state,
        after_delivery(state, delivered).initial_info == state.initial_info,
        after_delivery(state, delivered).audio == state.audio,
        delivered && state.video is Some && delivery_fits(state, delivered) ==> {
            let left = after_delivery(state, delivered).video->0;
            &&& after_delivery(state, delivered).video is Some
            &&& left.is_initialized == state.video->0.is_initialized
            &&& left.grain_rate == state.video->0.grain_rate
            &&& left.frame_counter == (if state.video->0.frame_counter == 0 {
                2
            } else {
                state.video->0.frame_counter + 1
            })
        },
{
}

/// A request can be made whenever its position and its times can be
/// represented, and a frame can be counted unless the counter is at its end.
pub proof fn law_representable_frames_are_taken(
    state: State,
    current_index: u64,
    now: u64,
    due: int,
)
    requires
        state.video is Some,
        state.video->0.grain_rate.numerator > 0,
        state.video->0.grain_rate.denominator >= 0,
        due * state.video->0.grain_rate.numerator <= state.video->0.frame_counter * 1_000_000_000
            * state.video->0.grain_rate.denominator < (due + 1)
            * state.video->0.grain_rate.numerator,
    ensures
        ({
            let video = state.video->0;
            let grain = if video.is_initialized {
                state.initial_info.mxl_index
            } else {
                current_index
            };
            let time = if video.is_initialized {
                state.initial_info.gst_time
            } else {
                now
            };
            let offset = due % 0x1_0000_0000_0000_0000;
            &&& grain + video.frame_counter <= u64::MAX && offset < u64::MAX && time + offset
                <= u64::MAX && (time + offset < now ==> time + now <= u64::MAX)
                && video.frame_counter * 1_000_000_000 * video.grain_rate.denominator <= u128::MAX
                ==> request_fits(state, current_index, Some(now))
            &&& request_fits(state, current_index, None)
            &&& delivery_fits(state, false)
            &&& delivery_fits(state, true) <==> video.frame_counter < u64::MAX
        }),
{
    let video = state.video->0;
    law_durations_are_unique(video.frame_counter, video.grain_rate, due);
    law_durations_that_can_be_computed(video.frame_counter, video.grain_rate);
}

/// A stream that is tied to a grain stays tied to it, keeps its rate and stays
/// tied, whatever attempts follow and however they end.
pub proof fn law_streams_keep_their_grain(state: State, calls: Seq<VideoCall>)
    requires
        state.video matches Some(video) && video.is_initialized,
    ensures
        after_calls(state, calls).initial_info.mxl_index == state.initial_info.mxl_index,
        after_calls(state, calls).video matches Some(video) && video.is_initialized
            && video.grain_rate == state.video->0.grain_rate,
        after_calls(state, calls).audio == state.audio,
    decreases calls.len(),
{
    if calls.len() > 0 {
        law_streams_keep_their_grain(state, calls.drop_last());
    }
}

/// No grain is repeated. Take a frame that is delivered, any attempts after it,
/// and then another frame that is delivered. If the turn of neither has passed
/// when it is requested, the grains they are read from are as far apart as their
/// frame numbers, and the second comes after the first.
pub proof fn law_grains_are_read_in_turn(
    state: State,
    first: VideoCall,
    between: Seq<VideoCall>,
    second: VideoCall,
)
    requires
        call_fits(state, first),
        call_result(state, first) is Ok,
        calls_fit(called(state, first), between),
        call_fits(after_calls(called(state, first), between), second),
        call_result(after_calls(called(state, first), between), second) is Ok,
        ({
            let middle = called(state, first);
            let later = after_calls(middle, between);
            &&& middle.initial_info.mxl_index + state.video->0.frame_counter
                >= first.current_index
            &&& middle.initial_info.mxl_index + later.video->0.frame_counter
                >= second.current_index
        }),
    ensures
        ({
            let later = after_calls(called(state, first), between);
            let one = call_result(state, first)->Ok_0;
            let two = call_result(later, second)->Ok_0;
            &&& two.index - one.index == later.video->0.frame_counter
                - state.video->0.frame_counter
            &&& two.index > one.index
        }),
{
    let middle = called(state, first);
    law_streams_keep_their_grain(middle, between);
    lemma_numbers_do_not_fall(middle, between);
}

proof fn lemma_numbers_do_not_fall(state: State, calls: Seq<VideoCall>)
    requires
        state.video is Some,
        calls_fit(state, calls),
    ensures
        after_calls(state, calls).video matches Some(video) && video.frame_counter
            >= state.video->0.frame_counter,
    decreases calls.len(),
{
    if calls.len() > 0 {
        lemma_numbers_do_not_fall(state, calls.drop_last());
    }
}

/// The source waits five seconds for a grain.
pub proof fn law_grains_are_awaited_for_five_seconds()
    ensures
        GET_GRAIN_TIMEOUT_NS == 5_000_000_000,
{
}

} // verus!
