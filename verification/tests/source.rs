use gst_mxl_rs::caps::{Caps, Fraction};
use gst_mxl_rs::flowdef::{FlowDef, FlowDefAudio, FlowDefVideo, GrainRate, SampleRate};
use gst_mxl_rs::json::{flow_media, get_flow_def, read_flow_json, FlowJsonError};
use gst_mxl_rs::mxlsrc::caps::{set_caps, set_json_caps, CapsField, CapsFields, NoCaps, SetCapsError};
use gst_mxl_rs::mxlsrc::init::{InitAction, InitEvent, InitPhase};
use gst_mxl_rs::mxlsrc::settings::{Negotiation, NoFlowId, Settings};
use gst_mxl_rs::mxlsrc::state::{Context, InitialTime, State, VideoState};
use gst_mxl_rs::mxlsrc::video::{
    check_delivery, check_frame, create_video, video_delivered, video_rate, GrainRequest,
};
use gst_mxl_rs::property::PropertyUpdate;
use gst_mxl_rs::text::format_time_of_day;
use gst_mxl_rs::timing::{check_span, span_ns, to_clock, FlowError, Media, Rational};
use std::collections::HashMap;

const PAL: Rational = Rational { numerator: 25, denominator: 1 };
const NTSC: Rational = Rational { numerator: 30000, denominator: 1001 };

fn text(s: &str) -> Option<String> {
    Some(s.to_string())
}

#[test]
fn set_properties() {
    let mut element = Settings::default();
    assert_eq!(element.set_property("video-flow", text("test_flow")), PropertyUpdate::Stored);
    assert_eq!(element.set_property("domain", text("mydomain")), PropertyUpdate::Stored);

    let flow_id: String = element.property("video-flow").value.unwrap();
    let domain: String = element.property("domain").value.unwrap();

    assert_eq!(flow_id, "test_flow");
    assert_eq!(domain, "mydomain");
}

#[test]
fn source_properties_that_are_refused_change_nothing() {
    let mut settings = Settings::default();
    assert_eq!(settings.set_property("flow-id", text("x")), PropertyUpdate::Unknown);
    assert_eq!(settings.set_property("flow-id", None), PropertyUpdate::Unknown);
    assert_eq!(settings.set_property("video-flow", None), PropertyUpdate::WrongType);
    assert_eq!(settings.set_property("audio-flow", None), PropertyUpdate::WrongType);
    assert_eq!(settings.set_property("domain", None), PropertyUpdate::WrongType);
    assert_eq!(settings.video_flow, None);
    assert_eq!(settings.audio_flow, None);
    assert_eq!(settings.domain, "");
    let read = settings.property("flow-id");
    assert!(!read.known);
    assert_eq!(read.value, text(""));
}

#[test]
fn source_properties_read_back() {
    let mut settings = Settings::default();
    assert_eq!(settings.property("video-flow").value, None);
    assert_eq!(settings.property("audio-flow").value, None);
    assert_eq!(settings.property("domain").value, text(""));
    assert_eq!(settings.set_property("audio-flow", text("a")), PropertyUpdate::Stored);
    assert_eq!(settings.audio_flow, text("a"));
    assert_eq!(settings.property("audio-flow").value, text("a"));
    assert!(settings.property("audio-flow").known);
    assert_eq!(settings.property("video-flow").value, None);
    assert_eq!(settings.set_property("video-flow", text("v")), PropertyUpdate::Stored);
    assert_eq!(settings.property("audio-flow").value, text("a"));
    assert_eq!(settings.clone().property("video-flow").value, text("v"));
    assert_eq!(settings.clone().property("audio-flow").value, text("a"));
    assert_eq!(settings.property("domain").value, text(""));
}

#[test]
fn negotiation_needs_one_flow_and_a_domain() {
    let mut settings = Settings::default();
    assert!(matches!(settings.negotiate(), Negotiation::Incomplete));
    assert_eq!(settings.get_flow_type_id(), Err(NoFlowId));
    assert_eq!(settings.flow_media(), None);
    settings.set_property("video-flow", text("9fbec3b1-1b0f-417d-9059-8b94a47197ed"));
    assert!(matches!(settings.negotiate(), Negotiation::Incomplete));
    settings.set_property("domain", text("/mnt/mxl/domain_1"));
    match settings.negotiate() {
        Negotiation::Read { path } => assert_eq!(
            path,
            "/mnt/mxl/domain_1/9fbec3b1-1b0f-417d-9059-8b94a47197ed.mxl-flow/.json"
        ),
        other => panic!("{:?}", other),
    }
    assert_eq!(settings.flow_media(), Some(Media::Video));
    settings.set_property("audio-flow", text("8fbec3b1-1b0f-417d-9059-8b94a47197ed"));
    assert!(matches!(settings.negotiate(), Negotiation::BothFlows));
    assert_eq!(
        settings.get_flow_type_id().unwrap(),
        "9fbec3b1-1b0f-417d-9059-8b94a47197ed"
    );
}

#[test]
fn negotiation_of_an_audio_flow() {
    let mut settings = Settings::default();
    settings.set_property("audio-flow", text("a"));
    settings.set_property("domain", text("d"));
    assert_eq!(settings.flow_media(), Some(Media::Audio));
    match settings.negotiate() {
        Negotiation::Read { path } => assert_eq!(path, "d/a.mxl-flow/.json"),
        other => panic!("{:?}", other),
    }
}

#[test]
fn flow_descriptions_tell_video_from_audio() {
    assert_eq!(flow_media(Some("video/v210")).unwrap(), Media::Video);
    assert_eq!(flow_media(Some("audio/float32")).unwrap(), Media::Audio);

    let (media, json) = read_flow_json("{\"media_type\": \"video/v210\", \"id\": 7}").unwrap();
    assert_eq!(media, Media::Video);
    assert_eq!(json.get("id").and_then(|id| id.as_i64()), Some(7));
    let (media, _) = read_flow_json("{\"media_type\": \"audio/float32\"}").unwrap();
    assert_eq!(media, Media::Audio);
}

#[test]
fn flow_descriptions_that_cannot_be_used() {
    for (data, media_type) in [
        ("{\"media_type\": \"audio/float64\"}", "audio/float64"),
        ("{\"media_type\": 3}", "unknown"),
        ("{}", "unknown"),
        ("[\"media_type\"]", "unknown"),
        ("\"video/v210\"", "unknown"),
    ] {
        match read_flow_json(data) {
            Err(FlowJsonError::UnknownMediaType(text)) => assert_eq!(text, media_type),
            other => panic!("{:?}", other),
        }
    }
    assert!(matches!(read_flow_json("{"), Err(FlowJsonError::Invalid(_))));
    assert!(matches!(read_flow_json(""), Err(FlowJsonError::Invalid(_))));

    for (media_type, text) in [(Some("video/v216"), "video/v216"), (None, "unknown")] {
        match flow_media(media_type) {
            Err(FlowJsonError::UnknownMediaType(unknown)) => assert_eq!(unknown, text),
            other => panic!("{:?}", other),
        }
    }

    let json = serde_json::Value::String("video/v210".to_string());
    assert!(matches!(get_flow_def(&json), Err(FlowJsonError::UnknownMediaType(_))));
}

fn video_def() -> FlowDefVideo {
    FlowDefVideo {
        copyright: String::new(),
        license: String::new(),
        description: String::new(),
        id: "id".to_string(),
        tags: HashMap::new(),
        format: String::new(),
        label: String::new(),
        parents: vec![],
        media_type: "video/v210".to_string(),
        grain_rate: GrainRate { numerator: 30000, denominator: 1001 },
        frame_width: 1280,
        frame_height: 720,
        interlace_mode: "progressive".to_string(),
        colorspace: "BT709".to_string(),
        components: vec![],
    }
}

fn audio_def(channel_count: i32) -> FlowDefAudio {
    FlowDefAudio {
        copyright: String::new(),
        license: String::new(),
        description: String::new(),
        format: String::new(),
        tags: HashMap::new(),
        label: String::new(),
        id: "id".to_string(),
        media_type: "audio/float32".to_string(),
        sample_rate: SampleRate { numerator: 48000 },
        channel_count,
        bit_depth: 32,
        parents: vec![],
    }
}

#[test]
fn described_video_becomes_a_format() {
    let def = FlowDef { video: Some(video_def()), audio: Some(audio_def(2)) };
    match set_json_caps(&def) {
        Ok(Caps::Video(caps)) => {
            assert_eq!(caps.format, "v210");
            assert_eq!(caps.width, 1280);
            assert_eq!(caps.height, 720);
            assert_eq!(caps.framerate, Fraction { numer: 30000, denom: 1001 });
            assert_eq!(caps.interlace_mode, "progressive");
            assert_eq!(caps.colorimetry, "bt709");
        }
        other => panic!("{:?}", other),
    }
}

#[test]
fn described_audio_becomes_a_format() {
    for (channels, mask) in [(2, 3), (1, 1), (0, 0), (63, u64::MAX >> 1), (64, u64::MAX), (-1, u64::MAX)] {
        let def = FlowDef { video: None, audio: Some(audio_def(channels)) };
        match set_json_caps(&def) {
            Ok(Caps::Audio(caps)) => {
                assert_eq!(caps.format, "F32LE");
                assert_eq!(caps.rate, 48000);
                assert_eq!(caps.channels, channels);
                assert_eq!(caps.layout, "interleaved");
                assert_eq!(caps.channel_mask, mask);
            }
            other => panic!("{:?}", other),
        }
    }
    let none = FlowDef { video: None, audio: None };
    assert!(matches!(set_json_caps(&none), Err(NoCaps)));
}

fn fields(format: &str) -> CapsFields {
    CapsFields {
        format: Ok(format.to_string()),
        width: Ok(1920),
        height: Ok(1080),
        framerate: Ok(Fraction { numer: 25, denom: 1 }),
        interlace_mode: Ok("progressive".to_string()),
        colorimetry: Ok("bt709".to_string()),
        rate: Ok(48000),
        channels: Ok(2),
    }
}

#[test]
fn source_accepts_its_formats() {
    assert_eq!(set_caps(Some(&fields("v210"))).unwrap(), Media::Video);
    assert_eq!(set_caps(Some(&fields("F32LE"))).unwrap(), Media::Audio);
    let mut video = fields("v210");
    video.rate = Err("no rate".to_string());
    assert_eq!(set_caps(Some(&video)).unwrap(), Media::Video);
}

#[test]
fn source_refuses_other_formats() {
    let error = set_caps(None).unwrap_err();
    assert!(matches!(error, SetCapsError::NoStructure));
    assert_eq!(error.message("EMPTY"), "No structure in caps EMPTY");

    let error = set_caps(Some(&fields("I420"))).unwrap_err();
    assert!(matches!(error, SetCapsError::NoValidFormat));
    assert_eq!(error.message("x"), "Failed to set caps: No valid format");

    let mut video = fields("v210");
    video.height = Err("no height".to_string());
    video.colorimetry = Err("no colorimetry".to_string());
    match set_caps(Some(&video)).unwrap_err() {
        SetCapsError::Field { field, reason } => {
            assert_eq!(field, CapsField::Height);
            assert_eq!(reason, "no height");
        }
        other => panic!("{:?}", other),
    }
    assert_eq!(
        set_caps(Some(&video)).unwrap_err().message("x"),
        "Failed to set caps no height"
    );

    let mut audio = fields("F32LE");
    audio.channels = Err("no channels".to_string());
    assert_eq!(
        set_caps(Some(&audio)).unwrap_err().message("x"),
        "Failed to get channels from caps: no channels"
    );
    audio.rate = Err("no rate".to_string());
    assert_eq!(
        set_caps(Some(&audio)).unwrap_err().message("x"),
        "Failed to get rate from caps: no rate"
    );
    audio.format = Err("no format".to_string());
    assert_eq!(
        set_caps(Some(&audio)).unwrap_err().message("x"),
        "Failed to set caps no format"
    );
}

#[test]
fn source_retries_opening_for_five_seconds() {
    let (phase, action) = InitPhase::begin();
    assert_eq!(action, InitAction::OpenReader);
    let (phase, action) = phase.step(Some(Media::Video), InitEvent::Failed { elapsed_ns: 4_999_999_999 });
    assert_eq!(action, InitAction::PauseFor { ms: 250 });
    let (phase, action) = phase.step(Some(Media::Video), InitEvent::Paused);
    assert_eq!(action, InitAction::OpenReader);
    let (phase, action) = phase.step(Some(Media::Video), InitEvent::Failed { elapsed_ns: 5_000_000_000 });
    assert_eq!((phase, action), (InitPhase::Failed, InitAction::Fail));
}

#[test]
fn source_starts_a_video_flow() {
    let media = Some(Media::Video);
    let (phase, _) = InitPhase::begin();
    let (phase, action) = phase.step(media, InitEvent::Succeeded);
    assert_eq!(action, InitAction::OpenInstance);
    let (phase, action) = phase.step(media, InitEvent::Succeeded);
    assert_eq!(action, InitAction::GetGrainRate);
    assert_eq!(phase.step(media, InitEvent::Failed { elapsed_ns: 0 }).1, InitAction::Fail);
    let (phase, action) = phase.step(media, InitEvent::GrainRate(PAL));
    assert_eq!(action, InitAction::OpenGrainReader);
    let (phase, action) = phase.step(media, InitEvent::Succeeded);
    assert_eq!(phase, InitPhase::Done);
    assert_eq!(action, InitAction::Start { state: State::for_video(PAL) });
}

#[test]
fn source_starts_an_audio_flow_or_none() {
    let media = Some(Media::Audio);
    let (phase, _) = InitPhase::begin();
    let (instance, _) = phase.step(media, InitEvent::Succeeded);
    let (phase, action) = instance.step(media, InitEvent::Succeeded);
    assert_eq!(action, InitAction::OpenAudioReader);
    assert_eq!(phase.step(media, InitEvent::Failed { elapsed_ns: 0 }).1, InitAction::Fail);
    let (phase, action) = phase.step(media, InitEvent::Succeeded);
    assert_eq!(action, InitAction::OpenSamplesReader);
    let (_, action) = phase.step(media, InitEvent::Succeeded);
    assert_eq!(action, InitAction::Start { state: State::for_audio() });
    assert_eq!(instance.step(None, InitEvent::Succeeded), (InitPhase::Done, InitAction::Keep));
}

#[test]
fn source_creates_what_it_was_started_with() {
    let mut context = Context::default();
    assert_eq!(context.create(), Err(FlowError::Error));
    context.start(State::for_video(PAL));
    assert_eq!(context.create(), Ok(Media::Video));
    context.start(State::for_audio());
    assert_eq!(context.create(), Ok(Media::Audio));
    context.start(State { initial_info: InitialTime::default(), video: None, audio: None });
    assert_eq!(context.create(), Err(FlowError::Error));
    context.stop();
    assert_eq!(context.state, None);
}

#[test]
fn durations_round_down() {
    assert_eq!(span_ns(1, NTSC), 33_366_666);
    assert_eq!(span_ns(48, Rational { numerator: 48000, denominator: 1 }), 1_000_000);
    assert_eq!(span_ns(5, Rational { numerator: -1, denominator: 1 }), 0);
    assert_eq!(span_ns(0, Rational { numerator: 1, denominator: -1 }), 0);
    assert!(!check_span(1, Rational { numerator: 0, denominator: 1 }));
    assert!(!check_span(1, Rational { numerator: 1, denominator: -1 }));
    assert!(check_span(u64::MAX, NTSC));
    let slow = Rational { numerator: 1, denominator: i32::MAX as i64 };
    assert!(check_span(u64::MAX, slow));
    assert!(!check_span(u64::MAX, Rational { numerator: 1, denominator: i64::MAX }));
    assert_eq!(to_clock((1u128 << 64) + 5), 5);
}

fn stream() -> State {
    State::for_video(PAL)
}

fn counter(state: &State) -> u64 {
    state.video.unwrap().frame_counter
}

#[test]
fn first_frames_of_a_video() {
    let mut state = stream();
    assert_eq!(video_rate(&state), Ok(PAL));
    assert!(check_frame(&state, 1000, Some(500)));
    let request = create_video(&mut state, 1000, Some(500));
    assert_eq!(request, Ok(GrainRequest { index: 1000, pts: 500 }));
    assert_eq!(state.initial_info, InitialTime { mxl_index: 1000, gst_time: 500 });
    assert!(state.video.unwrap().is_initialized);
    assert!(check_delivery(&state, true));
    assert_eq!(video_delivered(&mut state, true), Ok(()));
    assert_eq!(counter(&state), 2);

    // Ahead of the flow: the frame keeps its turn.
    let request = create_video(&mut state, 1001, Some(40_000_500));
    assert_eq!(request, Ok(GrainRequest { index: 1002, pts: 80_000_500 }));
    assert_eq!(video_delivered(&mut state, true), Ok(()));
    assert_eq!(counter(&state), 3);
}

#[test]
fn late_frames_are_moved() {
    let mut state = stream();
    create_video(&mut state, 1000, Some(500)).unwrap();
    video_delivered(&mut state, true).unwrap();
    // Lagging: the frame skips to the current grain and is shown now.
    let request = create_video(&mut state, 1010, Some(100_000_000));
    assert_eq!(request, Ok(GrainRequest { index: 1010, pts: 100_000_000 }));
    assert_eq!(state.initial_info, InitialTime { mxl_index: 1000, gst_time: 20_000_000 });
    video_delivered(&mut state, true).unwrap();
    // The next frame keeps its distance.
    let request = create_video(&mut state, 1010, Some(100_000_000)).unwrap();
    assert_eq!(request.pts, 140_000_000);
}

#[test]
fn only_delivered_frames_are_counted() {
    let mut state = stream();
    let mut numbers: Vec<u64> = Vec::new();
    for delivered in [false, true, false, true, true] {
        let before = counter(&state);
        create_video(&mut state, 1000, Some(500)).unwrap();
        assert_eq!(counter(&state), before);
        let counted = video_delivered(&mut state, delivered);
        if delivered {
            assert_eq!(counted, Ok(()));
            numbers.push(before);
        } else {
            assert_eq!(counted, Err(FlowError::Error));
            assert_eq!(counter(&state), before);
        }
    }
    assert_eq!(numbers, [0, 2, 3]);
    assert_eq!(counter(&state), 4);
}

#[test]
fn no_running_time_or_no_video_no_frame() {
    let mut state = stream();
    assert!(check_frame(&state, 7, None));
    assert_eq!(create_video(&mut state, 7, None), Err(FlowError::Error));
    assert_eq!(state, stream());

    let mut state = State::for_audio();
    assert_eq!(video_rate(&state), Err(FlowError::Error));
    assert_eq!(create_video(&mut state, 7, Some(1)), Err(FlowError::Error));
    assert_eq!(video_delivered(&mut state, true), Err(FlowError::Error));
    assert_eq!(state, State::for_audio());
}

#[test]
fn frames_that_cannot_be_timed() {
    let fresh = stream();
    let video = fresh.video.unwrap();
    let still = VideoState { grain_rate: Rational { numerator: 0, denominator: 1 }, ..video };
    assert!(!check_frame(&State { video: Some(still), ..fresh }, 0, Some(0)));
    let running = VideoState { is_initialized: true, frame_counter: 1, ..video };
    for (mxl_index, gst_time) in [(u64::MAX, 0), (0, u64::MAX)] {
        let state = State {
            initial_info: InitialTime { mxl_index, gst_time },
            video: Some(running),
            audio: None,
        };
        assert!(!check_frame(&state, 0, Some(0)));
    }
    let last = VideoState { frame_counter: u64::MAX, ..video };
    let state = State { video: Some(last), ..fresh };
    assert!(!check_delivery(&state, true));
    assert!(check_delivery(&state, false));
}

#[test]
fn times_of_day() {
    assert_eq!(format_time_of_day(0, 0), "00:00:00.000");
    assert_eq!(format_time_of_day(86_399, 999), "23:59:59.999");
    assert_eq!(format_time_of_day(90_061, 45), "01:01:01.045");
}
