//! What the sink keeps between buffers.
use crate::flowdef::FlowDefAudio;
use crate::timing::FlowError;
use crate::timing::Media;
use crate::timing::Rational;
use vstd::prelude::*;

verus! {

/// A flow of grains: their rate, and how many the ring holds.
#[derive(Debug, Clone, Copy, PartialEq, Eq, Structural)]
pub struct DiscreteFlowInfo {
    pub grain_rate: Rational,
    pub grain_count: u32,
}

/// A flow of samples: their rate, and how many the ring holds.
#[derive(Debug, Clone, Copy, PartialEq, Eq, Structural)]
pub struct ContinuousFlowInfo {
    pub sample_rate: Rational,
    pub buffer_length: u32,
}

/// What a flow tells about itself.
#[derive(Debug, Clone, Copy, PartialEq, Eq, Structural)]
pub struct FlowInfo {
    pub discrete: Option<DiscreteFlowInfo>,
    pub continuous: Option<ContinuousFlowInfo>,
}

/// The moment the sink tied its stream to a flow: a position in the flow and
/// the running time of the pipeline that belongs to it.
#[derive(Debug, Clone, Copy, PartialEq, Eq, Structural)]
pub struct InitialTime {
    pub index: u64,
    pub gst_time: u64,
}

impl Default for InitialTime {
    fn default() -> (time: InitialTime)
        ensures
            time == (InitialTime { index: 0, gst_time: 0 }),
    {
        InitialTime { index: 0, gst_time: 0 }
    }
}

/// A video stream in progress.
#[derive(Debug, Clone, Copy, PartialEq, Eq, Structural)]
pub struct VideoState {
    pub grain_index: u64,
    pub grain_rate: Rational,
    pub grain_count: u32,
}

/// An audio stream in progress.
#[derive(Debug)]
pub struct AudioState {
    pub bit_depth: u8,
    pub batch_size: usize,
    pub flow_def: FlowDefAudio,
}

/// A started sink.
#[derive(Debug)]
pub struct State {
    pub flow: Option<FlowInfo>,
    pub video: Option<VideoState>,
    pub audio: Option<AudioState>,
    pub initial_time: Option<InitialTime>,
}

/// The sink, started or not.
#[derive(Debug)]
pub struct Context {
    pub state: Option<State>,
}

impl Default for Context {
    fn default() -> (context: Context)
        ensures
            context.state is None,
    {
        Context { state: None }
    }
}

/// The sink is not started.
#[derive(Debug, Clone, Copy, PartialEq, Eq, Structural)]
pub struct NotStarted;

/// The sink after it has been started.
pub open spec fn started(context: Context) -> Context {
    Context { state: Some(State { flow: None, video: None, audio: None, initial_time: None }) }
}

/// Whether stopping a sink leaves a flow behind.
pub open spec fn leaves_flow(context: Context) -> Result<bool, NotStarted> {
    match context.state {
        Some(state) => Ok(state.flow is Some),
        None => Err(NotStarted),
    }
}

/// How a sink takes the next buffer.
pub open spec fn takes(context: Context) -> Result<Media, FlowError> {
    match context.state {
        Some(state) => Ok(
            if state.video is Some {
                Media::Video
            } else {
                Media::Audio
            },
        ),
        None => Err(FlowError::Error),
    }
}

impl Context {
    /// Starts the sink: it has no flow yet.
    pub fn start(&mut self)
        ensures
            final(self).state == Some(
                State { flow: None, video: None, audio: None, initial_time: None },
            ),
            *final(self) == started(*old(self)),
    {
        self.state = Some(State { flow: None, video: None, audio: None, initial_time: None });
    }

    /// Whether stopping the sink leaves a flow behind that has to be destroyed.
    pub fn stop(&self) -> (destroy: Result<bool, NotStarted>)
        ensures
            destroy == (match self.state {
                Some(state) => Ok(state.flow is Some),
                None => Err(NotStarted),
            }),
            destroy == leaves_flow(*self),
    {
        match &self.state {
            Some(state) => Ok(state.flow.is_some()),
            None => Err(NotStarted),
        }
    }

    /// How the sink takes the next buffer. A sink that is not started takes
    /// none.
    pub fn render(&self) -> (media: Result<Media, FlowError>)
        ensures
            media == (match self.state {
                Some(state) => Ok(
                    if state.video is Some {
                        Media::Video
                    } else {
                        Media::Audio
                    },
                ),
                None => Err(FlowError::Error),
            }),
            media == takes(*self),
    {
        match &self.state {
            Some(state) => if state.video.is_some() {
                Ok(Media::Video)
            } else {
                Ok(Media::Audio)
            },
            None => Err(FlowError::Error),
        }
    }
}

/// The anchor of a stream: the one at hand, or the current position at the
/// current running time.
pub open spec fn anchor_of(
    initial_time: Option<InitialTime>,
    current_index: u64,
    now: u64,
) -> InitialTime {
    match initial_time {
        Some(time) => time,
        None => InitialTime { index: current_index, gst_time: now },
    }
}

/// Ties the stream to the flow, unless it already is.
pub(crate) fn tie(initial_time: &mut Option<InitialTime>, current_index: u64, now: u64) -> (time:
    InitialTime)
    ensures
        time == anchor_of(*old(initial_time), current_index, now),
        *final(initial_time) == Some(time),
{
    match *initial_time {
        Some(time) => time,
        None => {
            let time = InitialTime { index: current_index, gst_time: now };
            *initial_time = Some(time);
            time
        },
    }
}

/// Where a buffer goes in its flow.
#[derive(Debug, Clone, Copy, PartialEq, Eq, Structural)]
pub enum Target {
    /// To this position.
    At { index: u64 },
    /// To the position that belongs to this time at this rate.
    Convert { timestamp: u64, rate: Rational },
}

/// A sink that is started has no flow and no stream, whatever it was before. A
/// sink takes video if it has a video stream and audio otherwise, and leaves a
/// flow behind if it has one; one that is not started does neither.
pub proof fn law_sinks_start_without_a_flow(context: Context, state: State)
    ensures
        started(context).state matches Some(fresh) && fresh.flow is None && fresh.video is None
            && fresh.audio is None && fresh.initial_time is None,
        leaves_flow(started(context)) == Ok::<bool, NotStarted>(false),
        leaves_flow(Context { state: Some(state) }) == Ok::<bool, NotStarted>(state.flow is Some),
        leaves_flow(Context { state: None }) is Err,
        takes(Context { state: Some(state) }) == Ok::<Media, FlowError>(Media::Video)
            <==> state.video is Some,
        takes(Context { state: Some(state) }) == Ok::<Media, FlowError>(Media::Audio)
            <==> state.video is None,
        takes(Context { state: None }) is Err,
{
}

} // verus!
