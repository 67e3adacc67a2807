//! Writing video buffers: which grain a frame goes to.
use super::state::anchor_of;
use super::state::tie;
use super::state::FlowInfo;
use super::state::InitialTime;
use super::state::State;
use super::state::Target;
use super::state::VideoState;
use crate::timing::min;
use crate::timing::FlowError;
use crate::timing::Rational;
use vstd::prelude::*;

verus! {

/// The rate by which the current grain is counted.
pub open spec fn grain_rate_of(flow: Option<FlowInfo>) -> Option<Rational> {
    match flow {
        Some(FlowInfo { discrete: Some(info), .. }) => Some(info.grain_rate),
        _ => None,
    }
}

/// The grain for a frame whose turn is `index`: none that lies further ahead of
/// the current grain than the ring is long.
pub open spec fn clamp_grain(index: int, current_index: u64, grain_count: u32) -> int {
    if index > current_index + grain_count {
        current_index + grain_count - 1
    } else {
        index
    }
}

/// Whether a frame can be taken: there is a flow of grains, a video stream and
/// a running time.
pub open spec fn can_render(state: State, running_time: Option<u64>) -> bool {
    grain_rate_of(state.flow) is Some && state.video is Some && running_time is Some
}

/// Where a frame goes. A frame without a presentation time goes to the current
/// grain.
pub open spec fn render_target(
    state: State,
    current_index: u64,
    running_time: Option<u64>,
    pts: Option<u64>,
) -> Result<Target, FlowError> {
    if can_render(state, running_time) {
        Ok(
            match pts {
                Some(pts) => Target::Convert {
                    timestamp: (pts + anchor_of(
                        state.initial_time,
                        current_index,
                        running_time->0,
                    ).gst_time) as u64,
                    rate: state.video->0.grain_rate,
                },
                None => Target::At { index: current_index },
            },
        )
    } else {
        Err(FlowError::Error)
    }
}

/// The sink after it has been decided where a frame goes.
pub open spec fn after_render(
    state: State,
    current_index: u64,
    running_time: Option<u64>,
    pts: Option<u64>,
) -> State {
    if can_render(state, running_time) {
        State {
            initial_time: Some(anchor_of(state.initial_time, current_index, running_time->0)),
            video: match pts {
                Some(_) => state.video,
                None => Some(VideoState { grain_index: current_index, ..state.video->0 }),
            },
            ..state
        }
    } else {
        state
    }
}

/// Whether a frame's time can be represented.
pub open spec fn frame_time_fits(
    state: State,
    current_index: u64,
    running_time: Option<u64>,
    pts: Option<u64>,
) -> bool {
    can_render(state, running_time) ==> (pts matches Some(pts) ==> pts + anchor_of(
        state.initial_time,
        current_index,
        running_time->0,
    ).gst_time <= u64::MAX)
}

/// The grain for a frame whose time has been mapped to a position, counted from
/// the anchor.
pub open spec fn grain_of(state: State, current_index: u64, mapped: Option<u64>) -> Result<
    u64,
    FlowError,
> {
    match (state.video, state.initial_time, mapped) {
        (Some(video), Some(time), Some(mapped)) => Ok(
            clamp_grain(mapped + time.index, current_index, video.grain_count) as u64,
        ),
        _ => Err(FlowError::Error),
    }
}

/// The sink after that grain has been chosen.
pub open spec fn after_place(state: State, current_index: u64, mapped: Option<u64>) -> State {
    match grain_of(state, current_index, mapped) {
        Ok(index) => State {
            video: Some(VideoState { grain_index: index, ..state.video->0 }),
            ..state
        },
        Err(_) => state,
    }
}

/// Whether a frame's position can be represented.
pub open spec fn grain_fits(state: State, current_index: u64, mapped: Option<u64>) -> bool {
    match (state.video, state.initial_time, mapped) {
        (Some(video), Some(time), Some(mapped)) => {
            &&& mapped + time.index <= u64::MAX
            &&& mapped + time.index > current_index + video.grain_count ==> current_index
                + video.grain_count > 0
        },
        _ => true,
    }
}

/// The sink after the grain has been committed, or not.
pub open spec fn after_commit(state: State, committed: bool) -> State {
    match state.video {
        Some(video) => if committed {
            State {
                video: Some(VideoState { grain_index: (video.grain_index + 1) as u64, ..video }),
                ..state
            }
        } else {
            state
        },
        None => state,
    }
}

/// Whether a committed grain can still be counted.
pub open spec fn commit_fits(state: State, committed: bool) -> bool {
    committed ==> (state.video matches Some(video) ==> video.grain_index < u64::MAX)
}

impl State {
    /// The rate by which the current grain is counted. Without a flow of grains
    /// no frame can be written.
    pub fn video_rate(&self) -> (rate: Result<Rational, FlowError>)
        ensures
            match rate {
                Ok(rate) => grain_rate_of(self.flow) == Some(rate),
                Err(_) => grain_rate_of(self.flow) is None,
            },
    {
        match self.flow {
            Some(FlowInfo { discrete: Some(info), .. }) => Ok(info.grain_rate),
            _ => Err(FlowError::Error),
        }
    }

    /// Tells whether [`State::render_video`] can take the frame.
    pub fn check_frame_time(
        &self,
        current_index: u64,
        running_time: Option<u64>,
        pts: Option<u64>,
    ) -> (ok: bool)
        ensures
            ok == frame_time_fits(*self, current_index, running_time, pts),
    {
        if self.video.is_none() || self.video_rate().is_err() {
            return true;
        }
        match (running_time, pts) {
            (Some(now), Some(pts)) => {
                let gst_time: u64 = match self.initial_time {
                    Some(time) => time.gst_time,
                    None => now,
                };
                pts.checked_add(gst_time).is_some()
            },
            _ => true,
        }
    }

    /// Decides where a frame goes. The first frame ties the stream to the flow.
    /// A frame without a presentation time goes to the current grain.
    pub fn render_video(
        &mut self,
        current_index: u64,
        running_time: Option<u64>,
        pts: Option<u64>,
    ) -> (target: Result<Target, FlowError>)
        requires
            frame_time_fits(*old(self), current_index, running_time, pts),
        ensures
            target == render_target(*old(self), current_index, running_time, pts),
            *final(self) == after_render(*old(self), current_index, running_time, pts),
    {
        if self.video_rate().is_err() {
            return Err(FlowError::Error);
        }
        let video: VideoState = match self.video {
            Some(video) => video,
            None => {
                return Err(FlowError::Error);
            },
        };
        let now: u64 = match running_time {
            Some(now) => now,
            None => {
                return Err(FlowError::Error);
            },
        };
        let time = tie(&mut self.initial_time, current_index, now);
        match pts {
            Some(pts) => Ok(
                Target::Convert { timestamp: pts + time.gst_time, rate: video.grain_rate },
            ),
            None => {
                self.video = Some(VideoState { grain_index: current_index, ..video });
                Ok(Target::At { index: current_index })
            },
        }
    }

    /// Tells whether [`State::place_video`] can place the frame.
    pub fn check_grain(&self, current_index: u64, mapped: Option<u64>) -> (ok: bool)
        ensures
            ok == grain_fits(*self, current_index, mapped),
    {
        match (self.video, self.initial_time, mapped) {
            (Some(video), Some(time), Some(mapped)) => match mapped.checked_add(time.index) {
                Some(index) => current_index > 0 || video.grain_count > 0 || index == 0,
                None => false,
            },
            _ => true,
        }
    }

    /// Decides which grain a frame goes to whose time has been mapped to a
    /// position, counted from the anchor. A time that cannot be mapped ends the
    /// stream.
    pub fn place_video(&mut self, current_index: u64, mapped: Option<u64>) -> (index: Result<
        u64,
        FlowError,
    >)
        requires
            grain_fits(*old(self), current_index, mapped),
        ensures
            index == grain_of(*old(self), current_index, mapped),
            *final(self) == after_place(*old(self), current_index, mapped),
    {
        match (self.video, self.initial_time, mapped) {
            (Some(video), Some(time), Some(mapped)) => {
                let mut index: u64 = mapped + time.index;
                if index > current_index {
                    if index - current_index > video.grain_count as u64 {
                        index = current_index + video.grain_count as u64 - 1;
                    }
                }
                self.video = Some(VideoState { grain_index: index, ..video });
                Ok(index)
            },
            _ => Err(FlowError::Error),
        }
    }

    /// Tells whether [`State::video_committed`] can count the grain.
    pub fn check_commit(&self, committed: bool) -> (ok: bool)
        ensures
            ok == commit_fits(*self, committed),
    {
        match self.video {
            Some(video) => !committed || video.grain_index < u64::MAX,
            None => true,
        }
    }

    /// Counts the grain if it has been committed. A grain that could not be
    /// opened or committed ends the stream and is not counted.
    pub fn video_committed(&mut self, committed: bool) -> (counted: Result<(), FlowError>)
        requires
            commit_fits(*old(self), committed),
        ensures
            counted == (if committed {
                Ok::<(), FlowError>(())
            } else {
                Err::<(), FlowError>(FlowError::Error)
            }),
            *final(self) == after_commit(*old(self), committed),
    {
        if !committed {
            return Err(FlowError::Error);
        }
        match self.video {
            Some(video) => {
                self.video = Some(VideoState { grain_index: video.grain_index + 1, ..video });
            },
            None => {},
        }
        Ok(())
    }
}

/// A grain after a frame has been copied into it, as far as it fits.
pub open spec fn grain_after(payload: Seq<u8>, data: Seq<u8>) -> Seq<u8> {
    let len = min(payload.len() as int, data.len() as int);
    data.take(len) + payload.skip(len)
}

/// How many bytes of a grain are committed.
pub open spec fn commit_len(payload: Seq<u8>, data: Seq<u8>) -> u32 {
    min(payload.len() as int, data.len() as int) as u32
}

/// Copies a frame into a grain, as far as it fits, and says how many bytes to
/// commit.
pub fn copy_grain(payload: &mut [u8], data: &[u8]) -> (committed: u32)
    ensures
        final(payload)@ == grain_after(old(payload)@, data@),
        committed == min(old(payload)@.len() as int, data@.len() as int) as u32,
        committed == commit_len(old(payload)@, data@),
{
    let len: usize = if payload.len() <= data.len() {
        payload.len()
    } else {
        data.len()
    };
    let ghost before = payload@;
    let mut i: usize = 0;
    while i < len
        invariant
            i <= len,
            len <= before.len(),
            len <= data@.len(),
            payload@ =~= data@.take(i as int) + before.skip(i as int),
        decreases len - i,
    {
        payload[i] = data[i];
        i = i + 1;
    }
    len as u32
}

/// No frame is written further ahead of the current grain than the ring is
/// long, and one that is not too far ahead goes where its time puts it.
pub proof fn law_grains_stay_in_the_ring(index: int, current_index: u64, grain_count: u32)
    requires
        index >= 0,
    ensures
        clamp_grain(index, current_index, grain_count) <= current_index + grain_count,
        index <= current_index + grain_count ==> clamp_grain(index, current_index, grain_count)
            == index,
        clamp_grain(index, current_index, grain_count) <= index,
{
}

/// A frame that has the size of its grain is what the grain holds afterwards; a
/// shorter one leaves the rest of the grain as it was, and of a longer one the
/// grain holds the beginning.
pub proof fn law_grain_holds_the_frame(payload: Seq<u8>, data: Seq<u8>)
    ensures
        grain_after(payload, data).len() == payload.len(),
        payload.len() == data.len() ==> grain_after(payload, data) == data,
        payload.len() >= data.len() ==> grain_after(payload, data) == data + payload.skip(
            data.len() as int,
        ),
        payload.len() <= data.len() ==> grain_after(payload, data) == data.take(
            payload.len() as int,
        ),
{
    if payload.len() >= data.len() {
        assert(data.take(data.len() as int) =~= data);
    }
    if payload.len() <= data.len() {
        assert(grain_after(payload, data) =~= data.take(payload.len() as int));
    }
}

/// One attempt to write a frame: the current grain and the running time that
/// were read, the presentation time of the frame, what the flow made of its time
/// and whether the grain could be committed.
pub struct FrameCall {
    pub current_index: u64,
    pub running_time: Option<u64>,
    pub pts: Option<u64>,
    pub mapped: Option<u64>,
    pub committed: bool,
}

/// The grain that an attempt opens, if it comes to that.
pub open spec fn opened(state: State, call: FrameCall) -> Option<u64> {
    match render_target(state, call.current_index, call.running_time, call.pts) {
        Ok(Target::At { index }) => Some(index),
        Ok(Target::Convert { .. }) => match grain_of(
            after_render(state, call.current_index, call.running_time, call.pts),
            call.current_index,
            call.mapped,
        ) {
            Ok(index) => Some(index),
            Err(_) => None,
        },
        Err(_) => None,
    }
}

/// How an attempt ends.
pub open spec fn frame_result(state: State, call: FrameCall) -> Result<(), FlowError> {
    if opened(state, call) is Some && call.committed {
        Ok(())
    } else {
        Err(FlowError::Error)
    }
}

/// The sink after an attempt.
pub open spec fn after_frame(state: State, call: FrameCall) -> State {
    let rendered = after_render(state, call.current_index, call.running_time, call.pts);
    let placed = match render_target(state, call.current_index, call.running_time, call.pts) {
        Ok(Target::Convert { .. }) => after_place(rendered, call.current_index, call.mapped),
        _ => rendered,
    };
    if opened(state, call) is Some {
        after_commit(placed, call.committed)
    } else {
        placed
    }
}

/// The sink after a run of attempts.
pub open spec fn after_frames(state: State, calls: Seq<FrameCall>) -> State
    decreases calls.len(),
{
    if calls.len() == 0 {
        state
    } else {
        after_frame(after_frames(state, calls.drop_last()), calls.last())
    }
}

/// An attempt ties a stream that is not tied yet to the current grain and the
/// running time if there is a flow of grains, a video stream and a running time.
/// Without one of them it ends with an error, opens no grain and changes
/// nothing.
pub proof fn law_frames_tie_the_stream(state: State, call: FrameCall)
    ensures
        state.initial_time is None && can_render(state, call.running_time) ==> after_frame(
            state,
            call,
        ).initial_time == Some(
            InitialTime { index: call.current_index, gst_time: call.running_time->0 },
        ),
        !can_render(state, call.running_time) ==> {
            &&& frame_result(state, call) == Err::<(), FlowError>(FlowError::Error)
            &&& opened(state, call) is None
            &&& after_frame(state, call) == state
        },
{
}

/// A stream that is tied to its flow stays tied to it as it is, however many
/// frames follow and however writing them ends.
pub proof fn law_streams_stay_tied(state: State, calls: Seq<FrameCall>)
    requires
        state.initial_time is Some,
    ensures
        after_frames(state, calls).initial_time == state.initial_time,
    decreases calls.len(),
{
    if calls.len() > 0 {
        law_streams_stay_tied(state, calls.drop_last());
    }
}

/// A frame can be taken exactly if the flow has grains, there is a video stream
/// and the pipeline has a running time. A frame without a presentation time goes
/// to the current grain. Any other is placed by its presentation time plus the
/// running time that the stream is tied to, at the rate of the stream: a stream
/// that is tied stays tied as it is, and one that is not is tied to the current
/// grain and running time. Nothing else changes.
pub proof fn law_frames_are_placed_by_the_tie(
    state: State,
    current_index: u64,
    running_time: Option<u64>,
    pts: Option<u64>,
)
    requires
        frame_time_fits(state, current_index, running_time, pts),
    ensures
        ({
            let possible = state.flow is Some && state.flow->0.discrete is Some && state.video
                is Some && running_time is Some;
            let after = after_render(state, current_index, running_time, pts);
            let target = render_target(state, current_index, running_time, pts);
            &&& target is Ok <==> possible
            &&& !possible ==> after == state
            &&& after.flow == state.flow && after.audio == state.audio
            &&& state.initial_time is Some ==> after.initial_time == state.initial_time
            &&& possible && state.initial_time is None ==> (after.initial_time matches Some(tie)
                && tie.index == current_index && tie.gst_time == running_time->0)
            &&& possible && pts is None ==> {
                &&& target == Ok::<Target, FlowError>(Target::At { index: current_index })
                &&& after.video matches Some(video)
                &&& video.grain_index == current_index
                &&& video.grain_rate == state.video->0.grain_rate
                &&& video.grain_count == state.video->0.grain_count
            }
            &&& possible && pts is Some ==> {
                &&& target matches Ok(Target::Convert { timestamp, rate })
                &&& rate == state.video->0.grain_rate
                &&& timestamp - pts->0 == after.initial_time->0.gst_time
                &&& after.video == state.video
            }
        }),
{
}

/// In a tied stream the time that a frame is placed by depends on nothing but
/// its presentation time and the tie: for any two frames, at whatever grains and
/// running times they come, these times are as far apart as the presentation
/// times, and for a presentation time of zero it is the running time of the tie.
pub proof fn law_frame_times_keep_their_distance(
    state: State,
    tie: InitialTime,
    first_index: u64,
    first_now: u64,
    first_pts: u64,
    second_index: u64,
    second_now: u64,
    second_pts: u64,
)
    requires
        state.initial_time == Some(tie),
        state.flow is Some && state.flow->0.discrete is Some,
        state.video is Some,
        first_pts + tie.gst_time <= u64::MAX,
        second_pts + tie.gst_time <= u64::MAX,
    ensures
        frame_time_fits(state, first_index, Some(first_now), Some(first_pts)),
        ({
            let first = render_target(state, first_index, Some(first_now), Some(first_pts));
            let second = render_target(state, second_index, Some(second_now), Some(second_pts));
            &&& first matches Ok(Target::Convert { timestamp: one, rate: one_rate })
            &&& second matches Ok(Target::Convert { timestamp: two, rate: two_rate })
            &&& two - one == second_pts - first_pts
            &&& one_rate == two_rate
            &&& first_pts == 0 ==> one == tie.gst_time
        }),
{
}

/// A frame whose time is mapped to `mapped` goes to the grain that many after
/// the tie, whether the current grain has already passed it or not, as long as
/// it is no further ahead of the current grain than the ring is long; one that
/// is goes to the last grain of the ring. The stream takes note of the grain and
/// of nothing else.
pub proof fn law_frames_go_to_their_grain(
    state: State,
    tie: InitialTime,
    current_index: u64,
    mapped: u64,
)
    requires
        state.video is Some,
        state.initial_time == Some(tie),
        grain_fits(state, current_index, Some(mapped)),
    ensures
        ({
            let count = state.video->0.grain_count;
            let after = after_place(state, current_index, Some(mapped));
            &&& grain_of(state, current_index, Some(mapped)) matches Ok(index)
            &&& tie.index + mapped <= current_index + count ==> index == tie.index + mapped
            &&& tie.index + mapped > current_index + count ==> index == current_index + count - 1
            &&& after.flow == state.flow && after.audio == state.audio
            &&& after.initial_time == state.initial_time
            &&& after.video matches Some(video)
            &&& video.grain_index == index
            &&& video.grain_rate == state.video->0.grain_rate
            &&& video.grain_count == count
        }),
{
}

/// Frames of a tied stream that are not too far ahead when they are placed share
/// a grain only if their times are mapped to the same position, whatever the
/// current grains are; and later times go to later grains.
pub proof fn law_frames_do_not_share_grains(
    state: State,
    tie: InitialTime,
    first_index: u64,
    first: u64,
    second_index: u64,
    second: u64,
)
    requires
        state.video is Some,
        state.initial_time == Some(tie),
        tie.index + first <= u64::MAX,
        tie.index + second <= u64::MAX,
        tie.index + first <= first_index + state.video->0.grain_count,
        tie.index + second <= second_index + state.video->0.grain_count,
    ensures
        grain_of(state, first_index, Some(first)) matches Ok(one) && grain_of(
            state,
            second_index,
            Some(second),
        ) matches Ok(two) && two - one == second - first,
{
}

/// Without a video stream, a tie or a position no grain is chosen and nothing
/// changes. The rate of the current grain is that of the flow.
pub proof fn law_placing_needs_a_position(
    state: State,
    current_index: u64,
    mapped: Option<u64>,
    committed: bool,
)
    ensures
        grain_of(state, current_index, mapped) is Err <==> state.video is None
            || state.initial_time is None || mapped is None,
        grain_of(state, current_index, mapped) is Err ==> after_place(state, current_index, mapped)
            == state,
        grain_rate_of(state.flow) is Some <==> state.flow is Some && state.flow->0.discrete is Some,
        grain_rate_of(state.flow) matches Some(rate) ==> rate
            == state.flow->0.discrete->0.grain_rate,
        !committed || state.video is None ==> after_commit(state, committed) == state,
        after_commit(state, committed).flow == state.flow,
        after_commit(state, committed).audio == state.audio,
        after_commit(state, committed).initial_time == state.initial_time,
        committed && state.video is Some && commit_fits(state, committed) ==> {
            &&& after_commit(state, committed).video matches Some(video)
            &&& video.grain_index - state.video->0.grain_index == 1
            &&& video.grain_rate == state.video->0.grain_rate
            &&& video.grain_count == state.video->0.grain_count
        },
{
}

/// A frame is taken whenever its time and its position can be represented, and
/// a grain is counted unless the counter is at its end.
pub proof fn law_representable_frames_are_taken(
    state: State,
    current_index: u64,
    now: u64,
    pts: u64,
    mapped: u64,
)
    ensures
        state.initial_time is None && pts + now <= u64::MAX ==> frame_time_fits(
            state,
            current_index,
            Some(now),
            Some(pts),
        ),
        state.initial_time matches Some(tie) ==> pts + tie.gst_time <= u64::MAX ==> frame_time_fits(
            state,
            current_index,
            Some(now),
            Some(pts),
        ),
        frame_time_fits(state, current_index, None, Some(pts)),
        frame_time_fits(state, current_index, Some(now), None),
        grain_fits(state, current_index, None),
        state.initial_time matches Some(tie) ==> state.video matches Some(video) ==> tie.index
            + mapped <= u64::MAX && (current_index > 0 || video.grain_count > 0 || tie.index
            + mapped == 0) ==> grain_fits(state, current_index, Some(mapped)),
        commit_fits(state, false),
        state.video matches Some(video) ==> (commit_fits(state, true) <==> video.grain_index
            < u64::MAX),
{
}

/// As many bytes are committed as the shorter of grain and frame has.
pub proof fn law_commits_cover_the_frame(payload: Seq<u8>, data: Seq<u8>)
    requires
        payload.len() <= u32::MAX || data.len() <= u32::MAX,
    ensures
        commit_len(payload, data) <= payload.len(),
        commit_len(payload, data) <= data.len(),
        commit_len(payload, data) == payload.len() || commit_len(payload, data) == data.len(),
        grain_after(payload, data).take(commit_len(payload, data) as int) == data.take(
            commit_len(payload, data) as int,
        ),
        grain_after(payload, data).skip(commit_len(payload, data) as int) == payload.skip(
            commit_len(payload, data) as int,
        ),
{
    let len = commit_len(payload, data) as int;
    assert(grain_after(payload, data).take(len) =~= data.take(len));
    assert(grain_after(payload, data).skip(len) =~= payload.skip(len));
}

} // verus!
