//! What the source keeps between buffers.
use crate::timing::FlowError;
use crate::timing::Media;
use crate::timing::Rational;
use vstd::prelude::*;

verus! {

/// The moment the source tied its stream to a flow: a position in the flow and
/// the running time of the pipeline that belongs to it. A video flow counts its
/// position in grains, an audio flow in nanoseconds of the flow's clock.
#[derive(Debug, Clone, Copy, PartialEq, Eq, Structural)]
pub struct InitialTime {
    pub mxl_index: u64,
    pub gst_time: u64,
}

impl Default for InitialTime {
    fn default() -> (time: InitialTime)
        ensures
            time == (InitialTime { mxl_index: 0, gst_time: 0 }),
    {
        InitialTime { mxl_index: 0, gst_time: 0 }
    }
}

/// A video stream in progress.
#[derive(Debug, Clone, Copy, PartialEq, Eq, Structural)]
pub struct VideoState {
    pub grain_rate: Rational,
    pub frame_counter: u64,
    pub is_initialized: bool,
}

/// An audio stream in progress.
#[derive(Debug, Clone, Copy, PartialEq, Eq, Structural)]
pub struct AudioState {
    pub batch_counter: u64,
    pub is_initialized: bool,
    pub index: u64,
    pub next_discont: bool,
}

/// A started source.
#[derive(Debug, Clone, Copy, PartialEq, Eq, Structural)]
pub struct State {
    pub initial_info: InitialTime,
    pub video: Option<VideoState>,
    pub audio: Option<AudioState>,
}

/// The source, started or not.
#[derive(Debug, Clone, Copy, PartialEq, Eq, Structural)]
pub struct Context {
    pub state: Option<State>,
}

impl Default for Context {
    fn default() -> (context: Context)
        ensures
            context.state is None,
    {
        Context { state: None }
    }
}

/// A source that has just opened a video flow.
pub open spec fn fresh_video(grain_rate: Rational) -> State {
    State {
        initial_info: InitialTime { mxl_index: 0, gst_time: 0 },
        video: Some(VideoState { grain_rate, frame_counter: 0, is_initialized: false }),
        audio: None,
    }
}

/// A source that has just opened an audio flow.
pub open spec fn fresh_audio() -> State {
    State {
        initial_info: InitialTime { mxl_index: 0, gst_time: 0 },
        video: None,
        audio: Some(
            AudioState { batch_counter: 0, is_initialized: false, index: 0, next_discont: false },
        ),
    }
}

/// Which kind of buffer a source creates next.
pub open spec fn creates(context: Context) -> Result<Media, FlowError> {
    match context.state {
        Some(state) => if state.video is Some {
            Ok(Media::Video)
        } else if state.audio is Some {
            Ok(Media::Audio)
        } else {
            Err(FlowError::Error)
        },
        None => Err(FlowError::Error),
    }
}

/// The source after it has taken up a state.
pub open spec fn started(context: Context, state: State) -> Context {
    Context { state: Some(state) }
}

/// The source after it has been stopped.
pub open spec fn stopped(context: Context) -> Context {
    Context { state: None }
}

impl State {
    /// A source that has just opened a video flow.
    pub fn for_video(grain_rate: Rational) -> (state: State)
        ensures
            state == fresh_video(grain_rate),
    {
        State {
            initial_info: InitialTime { mxl_index: 0, gst_time: 0 },
            video: Some(VideoState { grain_rate, frame_counter: 0, is_initialized: false }),
            audio: None,
        }
    }

    /// A source that has just opened an audio flow.
    pub fn for_audio() -> (state: State)
        ensures
            state == fresh_audio(),
    {
        State {
            initial_info: InitialTime { mxl_index: 0, gst_time: 0 },
            video: None,
            audio: Some(
                AudioState {
                    batch_counter: 0,
                    is_initialized: false,
                    index: 0,
                    next_discont: false,
                },
            ),
        }
    }
}

impl Context {
    /// Takes up the state of a source that has opened its flow.
    pub fn start(&mut self, state: State)
        ensures
            final(self).state == Some(state),
            *final(self) == started(*old(self), state),
    {
        self.state = Some(state);
    }

    /// Forgets everything about the flow.
    pub fn stop(&mut self)
        ensures
            final(self).state is None,
            *final(self) == stopped(*old(self)),
    {
        self.state = None;
    }

    /// Which kind of buffer the source creates next. A source that is not
    /// started, or that has no flow, cannot create any.
    pub fn create(&self) -> (media: Result<Media, FlowError>)
        ensures
            media == (match self.state {
                Some(state) => if state.video is Some {
                    Ok(Media::Video)
                } else if state.audio is Some {
                    Ok(Media::Audio)
                } else {
                    Err(FlowError::Error)
                },
                None => Err(FlowError::Error),
            }),
            media == creates(*self),
    {
        match self.state {
            Some(state) => if state.video.is_some() {
                Ok(Media::Video)
            } else if state.audio.is_some() {
                Ok(Media::Audio)
            } else {
                Err(FlowError::Error)
            },
            None => Err(FlowError::Error),
        }
    }
}

/// A source creates what it was started with, video if it has both, whatever it
/// was before; and a source that is stopped creates nothing.
pub proof fn law_sources_create_what_they_were_started_with(context: Context, state: State)
    ensures
        started(context, state).state == Some(state),
        creates(started(context, state)) == Ok::<Media, FlowError>(Media::Video) <==> state.video
            is Some,
        creates(started(context, state)) == Ok::<Media, FlowError>(Media::Audio) <==> state.video
            is None && state.audio is Some,
        creates(started(context, state)) is Err <==> state.video is None && state.audio is None,
        creates(stopped(context)) == Err::<Media, FlowError>(FlowError::Error),
        stopped(context).state is None,
{
}

/// A fresh source has delivered nothing and is tied to nothing, and a fresh
/// video source goes by the rate of its flow.
pub proof fn law_fresh_sources(grain_rate: Rational)
    ensures
        fresh_video(grain_rate).audio is None && fresh_audio().video is None,
        fresh_video(grain_rate).video matches Some(video) && video.frame_counter == 0
            && !video.is_initialized && video.grain_rate.numerator == grain_rate.numerator
            && video.grain_rate.denominator == grain_rate.denominator,
        fresh_audio().audio matches Some(audio) && audio.batch_counter == 0
            && !audio.is_initialized && audio.index == 0 && !audio.next_discont,
        fresh_video(grain_rate).initial_info == fresh_audio().initial_info,
        fresh_audio().initial_info.mxl_index == 0 && fresh_audio().initial_info.gst_time == 0,
{
}

} // verus!
