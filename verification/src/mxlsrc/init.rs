//! Starting the source: opening the flow that it reads.
//!
//! Opening takes several calls that can fail. [`InitPhase`] says which one is
//! under way; [`InitPhase::step`] takes its outcome and says what to do next.
//! A flow that cannot be opened yet may appear a little later, so the first
//! call is repeated for a while.
use super::state::fresh_audio;
use super::state::fresh_video;
use super::state::State;
use crate::timing::Media;
use crate::timing::Rational;
use vstd::prelude::*;

verus! {

/// How long opening a reader is retried before the source gives up.
pub const OPEN_TIMEOUT_NS: u128 = 5_000_000_000;

/// How long the source waits between two attempts to open a reader.
pub const OPEN_RETRY_MS: u64 = 250;

/// What the source is waiting for.
#[derive(Debug, Clone, Copy, PartialEq, Eq, Structural)]
pub enum InitPhase {
    /// A reader of the flow.
    Reader,
    /// The end of a pause before the next attempt.
    Pause,
    /// An instance of the flow's domain.
    Instance,
    /// The rate of the flow's grains.
    GrainRate,
    /// The reader, as a reader of grains.
    GrainReader { grain_rate: Rational },
    /// A second reader of the flow, for its samples.
    AudioReader,
    /// The second reader, as a reader of samples.
    SamplesReader,
    /// Nothing: the source is started.
    Done,
    /// Nothing: the source cannot be started.
    Failed,
}

/// The outcome of an action.
#[derive(Debug, Clone, Copy, PartialEq, Eq, Structural)]
pub enum InitEvent {
    /// The call succeeded.
    Succeeded,
    /// The call failed, this long after the first one began.
    Failed { elapsed_ns: u128 },
    /// The pause is over.
    Paused,
    /// The rate of the flow's grains.
    GrainRate(Rational),
}

/// What to do next.
#[derive(Debug, Clone, Copy, PartialEq, Eq, Structural)]
pub enum InitAction {
    /// Open a reader of the flow.
    OpenReader,
    /// Pause for this many milliseconds.
    PauseFor { ms: u64 },
    /// Open an instance of the flow's domain.
    OpenInstance,
    /// Ask the flow for the rate of its grains.
    GetGrainRate,
    /// Turn the reader into a reader of grains.
    OpenGrainReader,
    /// Open a second reader of the flow.
    OpenAudioReader,
    /// Turn the second reader into a reader of samples.
    OpenSamplesReader,
    /// Take up this state.
    Start { state: State },
    /// Leave the source as it is.
    Keep,
    /// Report the failure.
    Fail,
}

/// The step that follows on an outcome, for a flow of that kind. Any outcome
/// but the one that is waited for ends the start.
pub open spec fn init_turn(phase: InitPhase, media: Option<Media>, event: InitEvent) -> (
    InitPhase,
    InitAction,
) {
    match (phase, event) {
        (InitPhase::Reader, InitEvent::Succeeded) => (
            InitPhase::Instance,
            InitAction::OpenInstance,
        ),
        (InitPhase::Reader, InitEvent::Failed { elapsed_ns }) => if elapsed_ns < OPEN_TIMEOUT_NS {
            (InitPhase::Pause, InitAction::PauseFor { ms: OPEN_RETRY_MS })
        } else {
            (InitPhase::Failed, InitAction::Fail)
        },
        (InitPhase::Pause, InitEvent::Paused) => (InitPhase::Reader, InitAction::OpenReader),
        (InitPhase::Instance, InitEvent::Succeeded) => match media {
            Some(Media::Video) => (InitPhase::GrainRate, InitAction::GetGrainRate),
            Some(Media::Audio) => (InitPhase::AudioReader, InitAction::OpenAudioReader),
            None => (InitPhase::Done, InitAction::Keep),
        },
        (InitPhase::GrainRate, InitEvent::GrainRate(grain_rate)) => (
            InitPhase::GrainReader { grain_rate },
            InitAction::OpenGrainReader,
        ),
        (InitPhase::GrainReader { grain_rate }, InitEvent::Succeeded) => (
            InitPhase::Done,
            InitAction::Start { state: fresh_video(grain_rate) },
        ),
        (InitPhase::AudioReader, InitEvent::Succeeded) => (
            InitPhase::SamplesReader,
            InitAction::OpenSamplesReader,
        ),
        (InitPhase::SamplesReader, InitEvent::Succeeded) => (
            InitPhase::Done,
            InitAction::Start { state: fresh_audio() },
        ),
        _ => (InitPhase::Failed, InitAction::Fail),
    }
}

impl InitPhase {
    /// The first thing to do when the source is started.
    pub fn begin() -> (next: (InitPhase, InitAction))
        ensures
            next == (InitPhase::Reader, InitAction::OpenReader),
    {
        (InitPhase::Reader, InitAction::OpenReader)
    }

    /// Takes the outcome of an action and says what to do next, for a flow of
    /// that kind.
    pub fn step(self, media: Option<Media>, event: InitEvent) -> (next: (InitPhase, InitAction))
        ensures
            next == init_turn(self, media, event),
    {
        match (self, event) {
            (InitPhase::Reader, InitEvent::Succeeded) => {
                (InitPhase::Instance, InitAction::OpenInstance)
            },
            (InitPhase::Reader, InitEvent::Failed { elapsed_ns }) => {
                if elapsed_ns >= OPEN_TIMEOUT_NS {
                    (InitPhase::Failed, InitAction::Fail)
                } else {
                    (InitPhase::Pause, InitAction::PauseFor { ms: OPEN_RETRY_MS })
                }
            },
            (InitPhase::Pause, InitEvent::Paused) => (InitPhase::Reader, InitAction::OpenReader),
            (InitPhase::Instance, InitEvent::Succeeded) => match media {
                Some(Media::Video) => (InitPhase::GrainRate, InitAction::GetGrainRate),
                Some(Media::Audio) => (InitPhase::AudioReader, InitAction::OpenAudioReader),
                None => (InitPhase::Done, InitAction::Keep),
            },
            (InitPhase::GrainRate, InitEvent::GrainRate(grain_rate)) => {
                (InitPhase::GrainReader { grain_rate }, InitAction::OpenGrainReader)
            },
            (InitPhase::GrainReader { grain_rate }, InitEvent::Succeeded) => {
                (InitPhase::Done, InitAction::Start { state: State::for_video(grain_rate) })
            },
            (InitPhase::AudioReader, InitEvent::Succeeded) => {
                (InitPhase::SamplesReader, InitAction::OpenSamplesReader)
            },
            (InitPhase::SamplesReader, InitEvent::Succeeded) => {
                (InitPhase::Done, InitAction::Start { state: State::for_audio() })
            },
            _ => (InitPhase::Failed, InitAction::Fail),
        }
    }
}

/// Whether a phase is one that the start of a flow of that kind goes through.
pub open spec fn init_valid(phase: InitPhase, media: Option<Media>) -> bool {
    match phase {
        InitPhase::GrainRate | InitPhase::GrainReader { .. } => media == Some(Media::Video),
        InitPhase::AudioReader | InitPhase::SamplesReader => media == Some(Media::Audio),
        _ => true,
    }
}

/// A source that starts does so with the kind of flow that it was told to read
/// and from the beginning: nothing has been delivered and nothing is tied to
/// the flow yet.
pub proof fn law_start_is_fresh(phase: InitPhase, media: Option<Media>, event: InitEvent)
    requires
        init_valid(phase, media),
    ensures
        init_valid(InitPhase::Reader, media),
        init_valid(init_turn(phase, media, event).0, media),
        init_turn(phase, media, event).1 matches InitAction::Start { state } ==> {
            &&& state.video is Some <==> media == Some(Media::Video)
            &&& state.audio is Some <==> media == Some(Media::Audio)
            &&& state.video matches Some(video) ==> video.frame_counter == 0
                && !video.is_initialized
            &&& state.audio matches Some(audio) ==> audio.batch_counter == 0
                && !audio.is_initialized && !audio.next_discont
        },
{
}

/// The source only gives up opening a reader once five seconds have passed, and
/// until then every failed attempt is followed by another one.
pub proof fn law_opening_is_retried(media: Option<Media>, elapsed_ns: u128)
    ensures
        ({
            let next = init_turn(InitPhase::Reader, media, InitEvent::Failed { elapsed_ns });
            &&& next.1 is Fail <==> elapsed_ns >= OPEN_TIMEOUT_NS
            &&& elapsed_ns < OPEN_TIMEOUT_NS ==> init_turn(next.0, media, InitEvent::Paused)
                == (InitPhase::Reader, InitAction::OpenReader)
        }),
{
}

/// The source after a run of outcomes, from the beginning.
pub open spec fn init_run(media: Option<Media>, events: Seq<InitEvent>) -> (InitPhase, InitAction)
    decreases events.len(),
{
    if events.len() == 0 {
        (InitPhase::Reader, InitAction::OpenReader)
    } else {
        init_turn(init_run(media, events.drop_last()).0, media, events.last())
    }
}

/// Starting goes from the reader to the instance and then, for video, to the
/// grain rate and the grain reader, and for audio to a second reader and the
/// samples reader; it ends with the state of a source of that kind, and a video
/// source goes by the rate that the flow gave. Without a flow it ends after the
/// instance and the source is left as it is.
pub proof fn law_flows_are_opened_in_order(rate: Rational)
    ensures
        ({
            let opened = seq![InitEvent::Succeeded, InitEvent::Succeeded];
            let video = Some(Media::Video);
            let audio = Some(Media::Audio);
            let rated = opened.push(InitEvent::GrainRate(rate));
            let grains = rated.push(InitEvent::Succeeded);
            let second = opened.push(InitEvent::Succeeded);
            let samples = second.push(InitEvent::Succeeded);
            &&& forall|media: Option<Media>|
                (#[trigger] init_run(media, seq![InitEvent::Succeeded])).1
                    is OpenInstance
            &&& init_run(None, opened).1 is Keep && init_run(None, opened).0 is Done
            &&& init_run(video, opened).1 is GetGrainRate
            &&& init_run(video, rated).1 is OpenGrainReader
            &&& init_run(audio, opened).1 is OpenAudioReader
            &&& init_run(audio, second).1 is OpenSamplesReader
            &&& init_run(video, grains).0 is Done
            &&& init_run(video, grains).1 matches InitAction::Start { state }
                && state.video matches Some(stream) && stream.grain_rate == rate
                && stream.frame_counter == 0 && !stream.is_initialized && state.audio is None
                && state.initial_info.mxl_index == 0 && state.initial_info.gst_time == 0
            &&& init_run(audio, samples).0 is Done
            &&& init_run(audio, samples).1 matches InitAction::Start { state }
                && state.audio matches Some(stream) && stream.batch_counter == 0 && stream.index
                == 0 && !stream.is_initialized && !stream.next_discont && state.video is None
                && state.initial_info.mxl_index == 0 && state.initial_info.gst_time == 0
        }),
{
    let opened = seq![InitEvent::Succeeded, InitEvent::Succeeded];
    let rated = opened.push(InitEvent::GrainRate(rate));
    let grains = rated.push(InitEvent::Succeeded);
    let second = opened.push(InitEvent::Succeeded);
    let samples = second.push(InitEvent::Succeeded);
    assert(seq![InitEvent::Succeeded].drop_last() =~= Seq::<InitEvent>::empty());
    assert(opened.drop_last() =~= seq![InitEvent::Succeeded]);
    assert(rated.drop_last() =~= opened);
    assert(second.drop_last() =~= opened);
    assert(grains.drop_last() =~= rated);
    assert(samples.drop_last() =~= second);
    assert forall|media: Option<Media>|
        (#[trigger] init_run(media, seq![InitEvent::Succeeded])).1 is OpenInstance by {
        assert(init_run(media, Seq::<InitEvent>::empty()).0 is Reader);
    }
    assert(init_run(Some(Media::Video), seq![InitEvent::Succeeded]).0 is Instance);
    assert(init_run(Some(Media::Audio), seq![InitEvent::Succeeded]).0 is Instance);
    assert(init_run(None, seq![InitEvent::Succeeded]).0 is Instance);
    assert(init_run(Some(Media::Video), opened).0 is GrainRate);
    assert(init_run(Some(Media::Audio), opened).0 is AudioReader);
    assert(init_run(Some(Media::Video), rated).0 is GrainReader);
    assert(init_run(Some(Media::Audio), second).0 is SamplesReader);
}

/// A failed attempt to open the reader is followed by a pause of a quarter of a
/// second and another attempt, for as long as five seconds have not passed since
/// the first; any other failure ends the start, and so does a start that is over.
pub proof fn law_failures_end_the_start(phase: InitPhase, media: Option<Media>, elapsed_ns: u128)
    ensures
        ({
            let next = init_turn(phase, media, InitEvent::Failed { elapsed_ns });
            &&& phase is Reader && elapsed_ns < 5_000_000_000 ==> next.1 == (InitAction::PauseFor {
                ms: 250,
            }) && init_turn(next.0, media, InitEvent::Paused).1 is OpenReader && init_turn(
                next.0,
                media,
                InitEvent::Paused,
            ).0 is Reader
            &&& !(phase is Reader) || elapsed_ns >= 5_000_000_000 ==> next.1 is Fail && next.0
                is Failed
        }),
        phase is Done || phase is Failed ==> forall|event: InitEvent|
            (#[trigger] init_turn(phase, media, event)).1 is Fail,
{
}

} // verus!
