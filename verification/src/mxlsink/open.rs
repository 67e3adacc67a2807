//! Taking up a format: creating the flow for it and opening it for writing.
//!
//! [`OpenPhase`] says which call is under way; [`OpenPhase::step`] takes its
//! outcome and says what to do next. The sink is only changed at the end.
use super::state::FlowInfo;
use crate::timing::Media;
use crate::timing::Rational;
use vstd::prelude::*;

verus! {

/// What the sink is waiting for.
#[derive(Debug, Clone, Copy, PartialEq, Eq, Structural)]
pub enum OpenPhase {
    /// The flow.
    Flow,
    /// A writer of the flow.
    Writer { flow: FlowInfo },
    /// The current grain of the flow.
    Index { flow: FlowInfo },
    /// Nothing: the format is taken up.
    Done,
    /// Nothing: the format cannot be taken up.
    Failed,
}

/// The outcome of an action.
#[derive(Debug, Clone, Copy, PartialEq, Eq, Structural)]
pub enum OpenEvent {
    /// The flow, if it could be created.
    Flow(Option<FlowInfo>),
    /// Whether there is a writer for grains or samples, as the format asks for.
    Writer(bool),
    /// The current grain.
    Index(u64),
}

/// What to do next.
#[derive(Debug, Clone, Copy, PartialEq, Eq, Structural)]
pub enum OpenAction {
    /// Create the flow that the format calls for.
    CreateFlow,
    /// Open a writer of the flow.
    OpenWriter,
    /// Ask for the current grain at that rate.
    GetIndex { rate: Rational },
    /// Take up an audio flow.
    InstallAudio { flow: FlowInfo },
    /// Take up a video flow, with its current grain.
    InstallVideo { flow: FlowInfo, current_index: u64 },
    /// Report the failure.
    Fail,
}

/// The step that follows on an outcome. A video stream takes a flow of grains,
/// and has to know the current one. Any outcome but the one that is waited for
/// ends the attempt.
pub open spec fn open_turn(phase: OpenPhase, media: Media, event: OpenEvent) -> (
    OpenPhase,
    OpenAction,
) {
    match (phase, event) {
        (OpenPhase::Flow, OpenEvent::Flow(Some(flow))) => if media is Video && flow.discrete
            is None {
            (OpenPhase::Failed, OpenAction::Fail)
        } else {
            (OpenPhase::Writer { flow }, OpenAction::OpenWriter)
        },
        (OpenPhase::Writer { flow }, OpenEvent::Writer(true)) => match (media, flow.discrete) {
            (Media::Audio, _) => (OpenPhase::Done, OpenAction::InstallAudio { flow }),
            (Media::Video, Some(info)) => (
                OpenPhase::Index { flow },
                OpenAction::GetIndex { rate: info.grain_rate },
            ),
            (Media::Video, None) => (OpenPhase::Failed, OpenAction::Fail),
        },
        (OpenPhase::Index { flow }, OpenEvent::Index(current_index)) => (
            OpenPhase::Done,
            OpenAction::InstallVideo { flow, current_index },
        ),
        _ => (OpenPhase::Failed, OpenAction::Fail),
    }
}

impl OpenPhase {
    /// The first thing to do when a format is to be taken up.
    pub fn begin() -> (next: (OpenPhase, OpenAction))
        ensures
            next == (OpenPhase::Flow, OpenAction::CreateFlow),
    {
        (OpenPhase::Flow, OpenAction::CreateFlow)
    }

    /// Takes the outcome of an action and says what to do next, for a stream of
    /// that kind.
    pub fn step(self, media: Media, event: OpenEvent) -> (next: (OpenPhase, OpenAction))
        ensures
            next == open_turn(self, media, event),
    {
        match (self, event) {
            (OpenPhase::Flow, OpenEvent::Flow(Some(flow))) => match (media, flow.discrete) {
                (Media::Video, None) => (OpenPhase::Failed, OpenAction::Fail),
                _ => (OpenPhase::Writer { flow }, OpenAction::OpenWriter),
            },
            (OpenPhase::Writer { flow }, OpenEvent::Writer(true)) => match (media, flow.discrete) {
                (Media::Audio, _) => (OpenPhase::Done, OpenAction::InstallAudio { flow }),
                (Media::Video, Some(info)) => {
                    (OpenPhase::Index { flow }, OpenAction::GetIndex { rate: info.grain_rate })
                },
                (Media::Video, None) => (OpenPhase::Failed, OpenAction::Fail),
            },
            (OpenPhase::Index { flow }, OpenEvent::Index(current_index)) => {
                (OpenPhase::Done, OpenAction::InstallVideo { flow, current_index })
            },
            _ => (OpenPhase::Failed, OpenAction::Fail),
        }
    }
}

/// What is known while the sink waits: a video flow that is being opened is a
/// flow of grains.
pub open spec fn open_valid(phase: OpenPhase, media: Media) -> bool {
    match phase {
        OpenPhase::Writer { flow } => media is Video ==> flow.discrete is Some,
        OpenPhase::Index { flow } => media is Video && flow.discrete is Some,
        _ => true,
    }
}

/// A flow is only taken up once it has been created and a writer has been
/// opened, and then it is the flow that was created; a video flow is taken up
/// as the kind of flow that [`super::state::State::install_video`] accepts.
pub proof fn law_only_open_flows_are_taken_up(phase: OpenPhase, media: Media, event: OpenEvent)
    requires
        open_valid(phase, media),
    ensures
        open_valid(OpenPhase::Flow, media),
        ({
            let next = open_turn(phase, media, event);
            &&& open_valid(next.0, media)
            &&& next.0 matches OpenPhase::Writer { flow } ==> event == OpenEvent::Flow(Some(flow))
            &&& next.0 matches OpenPhase::Index { flow } ==> phase == (OpenPhase::Writer { flow })
                && event == OpenEvent::Writer(true)
            &&& next.1 matches OpenAction::InstallAudio { flow } ==> media is Audio && phase == (
            OpenPhase::Writer { flow }) && event == OpenEvent::Writer(true)
            &&& next.1 matches OpenAction::InstallVideo { flow, current_index } ==> media is Video
                && flow.discrete is Some && phase == (OpenPhase::Index { flow }) && event
                == OpenEvent::Index(current_index)
            &&& next.0 is Done <==> (next.1 is InstallAudio || next.1 is InstallVideo)
        }),
{
}

/// The sink after a run of outcomes, from the beginning.
pub open spec fn open_run(media: Media, events: Seq<OpenEvent>) -> (OpenPhase, OpenAction)
    decreases events.len(),
{
    if events.len() == 0 {
        (OpenPhase::Flow, OpenAction::CreateFlow)
    } else {
        open_turn(open_run(media, events.drop_last()).0, media, events.last())
    }
}

/// A format is taken up by creating the flow and then opening a writer; an audio
/// flow is then taken up, and a video flow is once the current grain at its rate
/// is known. A flow without grains is refused for video before a writer is
/// opened.
pub proof fn law_formats_are_taken_up_in_order(flow: FlowInfo, current_index: u64)
    ensures
        ({
            let created = seq![OpenEvent::Flow(Some(flow))];
            let opened = created.push(OpenEvent::Writer(true));
            let found = opened.push(OpenEvent::Index(current_index));
            &&& open_run(Media::Audio, created).1 is OpenWriter
            &&& open_run(Media::Audio, opened).1 == (OpenAction::InstallAudio { flow })
            &&& flow.discrete is None ==> open_run(Media::Video, created).1 is Fail
            &&& flow.discrete matches Some(info) ==> {
                &&& open_run(Media::Video, created).1 is OpenWriter
                &&& open_run(Media::Video, opened).1 == (OpenAction::GetIndex {
                    rate: info.grain_rate,
                })
                &&& open_run(Media::Video, found).1 == (OpenAction::InstallVideo {
                    flow,
                    current_index,
                })
            }
        }),
{
    let created = seq![OpenEvent::Flow(Some(flow))];
    let opened = created.push(OpenEvent::Writer(true));
    let found = opened.push(OpenEvent::Index(current_index));
    assert(created.drop_last() =~= Seq::<OpenEvent>::empty());
    assert(opened.drop_last() =~= created);
    assert(found.drop_last() =~= opened);
    assert(open_run(Media::Audio, Seq::<OpenEvent>::empty()).0 is Flow);
    assert(open_run(Media::Video, Seq::<OpenEvent>::empty()).0 is Flow);
    assert(open_run(Media::Audio, created).0 == (OpenPhase::Writer { flow }));
    assert(open_run(Media::Video, created) == open_turn(
        OpenPhase::Flow,
        Media::Video,
        OpenEvent::Flow(Some(flow)),
    ));
    if flow.discrete is Some {
        assert(open_run(Media::Video, created).0 == (OpenPhase::Writer { flow }));
        assert(open_run(Media::Video, opened).0 == (OpenPhase::Index { flow }));
    }
}

/// A flow that cannot be created and a writer that cannot be opened end the
/// attempt, and nothing is taken up after that.
pub proof fn law_failures_end_the_attempt(phase: OpenPhase, media: Media, event: OpenEvent)
    ensures
        event == OpenEvent::Flow(None) || event == OpenEvent::Writer(false) ==> open_turn(
            phase,
            media,
            event,
        ).1 is Fail,
        phase is Done || phase is Failed ==> open_turn(phase, media, event).1 is Fail,
        open_turn(phase, media, event).1 is Fail <==> open_turn(phase, media, event).0 is Failed,
{
}

} // verus!
