use gst_mxl_rs::caps::{generate_channel_mask_from_channels, Caps, Fraction};
use gst_mxl_rs::flowdef::{FlowDef, FlowDefAudio};
use gst_mxl_rs::json::flow_media;
use gst_mxl_rs::lifecycle::ClockWait;
use gst_mxl_rs::mxlsink::audio::{plan_chunks, Chunk};
use gst_mxl_rs::mxlsink::caps::{
    audio_flow_def, check_framerate, pad_templates, stream_media, video_flow_def, video_framerate,
    AudioInfo, NotDiscrete, VideoFields,
};
use gst_mxl_rs::mxlsink::open::{OpenAction, OpenEvent, OpenPhase};
use gst_mxl_rs::mxlsink::settings::Settings;
use gst_mxl_rs::mxlsink::state::{
    Context, ContinuousFlowInfo, DiscreteFlowInfo, FlowInfo, InitialTime, NotStarted, State, Target,
};
use gst_mxl_rs::mxlsink::video::copy_grain;
use gst_mxl_rs::mxlsrc::caps::set_json_caps;
use gst_mxl_rs::planar::{fill_channel, interleave, join_planes};
use gst_mxl_rs::property::PropertyUpdate;
use gst_mxl_rs::timing::{FlowError, Media, Rational};

const PAL: Rational = Rational { numerator: 25, denominator: 1 };
const RATE: Rational = Rational { numerator: 48000, denominator: 1 };

fn text(s: &str) -> Option<String> {
    Some(s.to_string())
}

fn grains() -> FlowInfo {
    FlowInfo {
        discrete: Some(DiscreteFlowInfo { grain_rate: PAL, grain_count: 5 }),
        continuous: None,
    }
}

fn samples(buffer_length: u32) -> FlowInfo {
    FlowInfo {
        discrete: None,
        continuous: Some(ContinuousFlowInfo { sample_rate: RATE, buffer_length }),
    }
}

fn started() -> State {
    let mut context = Context::default();
    context.start();
    context.state.unwrap()
}

fn video_sink() -> State {
    let mut state = started();
    state.install_video(grains(), 90).unwrap();
    state
}

fn audio_def(channels: u32) -> FlowDefAudio {
    audio_flow_def(&AudioInfo { channels, rate: 48000, depth: 32 }, "id")
}

fn audio_sink(channels: u32, buffer_length: u32) -> State {
    let mut state = started();
    state.install_audio(audio_def(channels), samples(buffer_length));
    state
}

#[test]
fn sink_properties_read_back() {
    let mut settings = Settings::default();
    assert_eq!(settings.property("flow-id").value, text(""));
    assert_eq!(settings.set_property("flow-id", text("f")), PropertyUpdate::Stored);
    assert_eq!(settings.set_property("domain", text("d")), PropertyUpdate::Stored);
    assert_eq!(settings.property("flow-id").value, text("f"));
    assert_eq!(settings.property("domain").value, text("d"));
    assert!(settings.property("domain").known);
    assert_eq!(settings.clone().flow_id, "f");
}

#[test]
fn sink_properties_that_are_refused_change_nothing() {
    let mut settings = Settings::default();
    settings.set_property("domain", text("d"));
    assert_eq!(settings.set_property("domain", None), PropertyUpdate::WrongType);
    assert_eq!(settings.set_property("flow-id", None), PropertyUpdate::WrongType);
    assert_eq!(settings.set_property("video-flow", text("x")), PropertyUpdate::Unknown);
    assert_eq!(settings.domain, "d");
    assert_eq!(settings.flow_id, "");
    assert!(!settings.property("video-flow").known);
    assert_eq!(settings.property("video-flow").value, text(""));
}

#[test]
fn waiting_is_interrupted_and_resumed() {
    let mut wait: ClockWait<u8> = ClockWait::default();
    assert!(wait.flushing);
    wait.unlock_stop();
    assert!(!wait.flushing);
    wait.clock_id = Some(7);
    wait.unlock_stop();
    assert_eq!(wait.clock_id, Some(7));
    assert_eq!(wait.unlock(), Some(7));
    assert!(wait.flushing);
    assert_eq!(wait.clock_id, None);
    assert_eq!(wait.unlock(), None);
}

#[test]
fn sink_starts_and_stops() {
    let mut context = Context::default();
    assert_eq!(context.stop(), Err(NotStarted));
    assert_eq!(context.render(), Err(FlowError::Error));
    context.start();
    assert_eq!(context.stop(), Ok(false));
    assert_eq!(context.render(), Ok(Media::Audio));
    context.state = Some(video_sink());
    assert_eq!(context.stop(), Ok(true));
    assert_eq!(context.render(), Ok(Media::Video));
}

#[test]
fn formats_are_told_apart() {
    assert_eq!(stream_media("audio/x-raw"), Media::Audio);
    assert_eq!(stream_media("video/x-raw"), Media::Video);
    assert_eq!(stream_media("audio/mpeg"), Media::Video);
}

#[test]
fn masks_have_a_bit_for_each_channel() {
    assert_eq!(generate_channel_mask_from_channels(0), 0);
    assert_eq!(generate_channel_mask_from_channels(6), 0b11_1111);
    assert_eq!(generate_channel_mask_from_channels(63), u64::MAX / 2);
    assert_eq!(generate_channel_mask_from_channels(64), u64::MAX);
    assert_eq!(generate_channel_mask_from_channels(u32::MAX), u64::MAX);
}

#[test]
fn sink_takes_one_to_sixty_three_channels() {
    let templates = pad_templates();
    assert_eq!(templates.video_format, "v210");
    assert_eq!(templates.audio.len(), 63);
    assert_eq!(templates.audio[0].channels, 1);
    assert_eq!(templates.audio[0].channel_mask, 1);
    assert_eq!(templates.audio[7].channels, 8);
    assert_eq!(templates.audio[7].channel_mask, 0xff);
    assert_eq!(templates.audio[62].channels, 63);
    assert_eq!(templates.audio[62].channel_mask, u64::MAX / 2);
    assert!(templates.audio.iter().all(|a| a.format == "F32LE" && a.layout == "interleaved"));
}

fn no_fields() -> VideoFields {
    VideoFields {
        format: None,
        width: None,
        height: None,
        framerate: None,
        interlace_mode: None,
        colorimetry: None,
    }
}

#[test]
fn video_formats_have_defaults() {
    let fields = no_fields();
    assert_eq!(video_framerate(&fields), Fraction { numer: 30000, denom: 1001 });
    let def = video_flow_def(&fields, "9fbec3b1");
    assert_eq!(
        def.copyright,
        "SPDX-FileCopyrightText: 2025 Contributors to the Media eXchange Layer project."
    );
    assert_eq!(def.license, "SPDX-License-Identifier: Apache-2.0");
    assert_eq!(def.description, "MXL Test Flow, 1080p29");
    assert_eq!(def.label, "MXL Test Flow, 1080p29");
    assert_eq!(def.id, "9fbec3b1");
    assert!(def.tags.is_empty());
    assert_eq!(def.format, "urn:x-nmos:format:video");
    assert!(def.parents.is_empty());
    assert_eq!(def.media_type, "video/v210");
    assert_eq!((def.grain_rate.numerator, def.grain_rate.denominator), (30000, 1001));
    assert_eq!((def.frame_width, def.frame_height), (1920, 1080));
    assert_eq!(def.interlace_mode, "progressive");
    assert_eq!(def.colorspace, "BT709");
    let planes: Vec<(&str, i32, i32, u8)> = def
        .components
        .iter()
        .map(|c| (c.name.as_str(), c.width, c.height, c.bit_depth))
        .collect();
    assert_eq!(planes, [("Y", 1920, 1080, 10), ("Cb", 960, 1080, 10), ("Cr", 960, 1080, 10)]);
}

#[test]
fn video_formats_survive_a_flow() {
    let fields = VideoFields {
        format: text("v210"),
        width: Some(721),
        height: Some(576),
        framerate: Some(Fraction { numer: 50, denom: 1 }),
        interlace_mode: text("interleaved"),
        colorimetry: text("BT601"),
    };
    let def = video_flow_def(&fields, "id");
    assert_eq!(def.label, "MXL Test Flow, 1080p50");
    assert_eq!(def.components[1].width, 360);
    assert_eq!(flow_media(Some(&def.media_type)).unwrap(), Media::Video);
    match set_json_caps(&FlowDef { video: Some(def), audio: None }).unwrap() {
        Caps::Video(caps) => {
            assert_eq!((caps.width, caps.height), (721, 576));
            assert_eq!(caps.framerate, Fraction { numer: 50, denom: 1 });
            assert_eq!(caps.interlace_mode, "interleaved");
            assert_eq!(caps.colorimetry, "bt601");
        }
        other => panic!("{:?}", other),
    }
    let other = VideoFields { format: text("I420"), ..no_fields() };
    assert!(flow_media(Some(&video_flow_def(&other, "id").media_type)).is_err());
}

#[test]
fn frame_rates_that_round_towards_zero() {
    let mut fields = no_fields();
    for (numer, denom, name) in [
        (-30000, 1001, "MXL Test Flow, 1080p-29"),
        (30000, -1001, "MXL Test Flow, 1080p-29"),
        (1, 2, "MXL Test Flow, 1080p0"),
        (i32::MIN, 1, "MXL Test Flow, 1080p-2147483648"),
    ] {
        fields.framerate = Some(Fraction { numer, denom });
        assert!(check_framerate(Fraction { numer, denom }));
        assert_eq!(video_flow_def(&fields, "id").description, name);
    }
    assert!(!check_framerate(Fraction { numer: 25, denom: 0 }));
    assert!(!check_framerate(Fraction { numer: i32::MIN, denom: -1 }));
}

#[test]
fn audio_formats_survive_a_flow() {
    let def = audio_def(2);
    assert_eq!(def.description, "MXL Audio Flow");
    assert_eq!(def.label, "MXL Audio Flow");
    assert_eq!(def.format, "urn:x-nmos:format:audio");
    assert_eq!(def.media_type, "audio/float32");
    assert_eq!(def.license, "SPDX-License-Identifier: Apache-2.0");
    assert_eq!(def.id, "id");
    assert_eq!(def.sample_rate.numerator, 48000);
    assert_eq!(def.channel_count, 2);
    assert_eq!(def.bit_depth, 32);
    assert!(def.tags.is_empty() && def.parents.is_empty());
    assert_eq!(flow_media(Some(&def.media_type)).unwrap(), Media::Audio);
    match set_json_caps(&FlowDef { video: None, audio: Some(def) }).unwrap() {
        Caps::Audio(caps) => {
            assert_eq!((caps.rate, caps.channels, caps.channel_mask), (48000, 2, 3));
            let templates = pad_templates();
            assert_eq!(templates.audio[1].channel_mask, caps.channel_mask);
        }
        other => panic!("{:?}", other),
    }
}

#[test]
fn flows_are_taken_up() {
    let state = audio_sink(2, 9600);
    let audio = state.audio.as_ref().unwrap();
    assert_eq!((audio.bit_depth, audio.batch_size), (32, 480));
    assert_eq!(state.flow, Some(samples(9600)));
    assert!(state.video.is_none());

    let mut state = started();
    assert_eq!(state.install_video(samples(9600), 1), Err(NotDiscrete));
    assert!(state.flow.is_none() && state.video.is_none());
    assert_eq!(state.install_video(grains(), 90), Ok(()));
    let video = state.video.unwrap();
    assert_eq!((video.grain_index, video.grain_rate, video.grain_count), (90, PAL, 5));
}

#[test]
fn frames_go_where_their_time_puts_them() {
    let mut state = video_sink();
    assert_eq!(state.video_rate(), Ok(PAL));
    assert!(state.check_frame_time(100, Some(1000), Some(40_000_000)));
    assert_eq!(
        state.render_video(100, Some(1000), Some(40_000_000)),
        Ok(Target::Convert { timestamp: 40_001_000, rate: PAL })
    );
    assert_eq!(state.initial_time, Some(InitialTime { index: 100, gst_time: 1000 }));
    assert!(state.check_grain(100, Some(1)));
    assert_eq!(state.place_video(100, Some(1)), Ok(101));
    assert_eq!(state.video_committed(false), Err(FlowError::Error));
    assert_eq!(state.video.unwrap().grain_index, 101);
    assert!(state.check_commit(true));
    assert_eq!(state.video_committed(true), Ok(()));
    assert_eq!(state.video.unwrap().grain_index, 102);

    // The stream stays tied to its first frame.
    assert_eq!(
        state.render_video(102, Some(80_000_000), Some(80_000_000)),
        Ok(Target::Convert { timestamp: 80_001_000, rate: PAL })
    );
    // As far ahead as the ring is long, and further.
    assert_eq!(state.place_video(102, Some(7)), Ok(107));
    assert_eq!(state.place_video(102, Some(8)), Ok(106));
    assert_eq!(state.place_video(102, Some(0)), Ok(100));
    assert_eq!(state.place_video(102, None), Err(FlowError::Error));
    assert_eq!(state.video.unwrap().grain_index, 100);
}

#[test]
fn frames_without_a_time_go_to_the_current_grain() {
    let mut state = video_sink();
    assert_eq!(state.render_video(100, Some(1000), None), Ok(Target::At { index: 100 }));
    assert_eq!(state.video.unwrap().grain_index, 100);
}

#[test]
fn frames_that_cannot_be_written() {
    let mut state = video_sink();
    assert_eq!(state.render_video(100, None, Some(0)), Err(FlowError::Error));
    assert_eq!(state.initial_time, None);
    assert!(!state.check_frame_time(100, Some(1), Some(u64::MAX)));
    state.render_video(u64::MAX, Some(0), None).unwrap();
    assert!(!state.check_grain(0, Some(1)));
    let mut state = started();
    assert_eq!(state.video_rate(), Err(FlowError::Error));
    assert_eq!(state.render_video(0, Some(0), None), Err(FlowError::Error));
    assert_eq!(state.place_video(0, Some(0)), Err(FlowError::Error));
    assert_eq!(state.video_committed(true), Ok(()));
    assert!(state.video.is_none());
    assert_eq!(audio_sink(2, 9600).video_rate(), Err(FlowError::Error));
}

#[test]
fn streams_stay_tied_to_their_first_frame() {
    let mut state = video_sink();
    assert_eq!(state.render_video(7, None, Some(3)), Err(FlowError::Error));
    assert_eq!(state.initial_time, None);
    let flow = state.flow.take();
    assert_eq!(state.render_video(7, Some(5), Some(3)), Err(FlowError::Error));
    assert_eq!(state.initial_time, None);
    state.flow = flow;
    state.render_video(7, Some(5), None).unwrap();
    let tied = Some(InitialTime { index: 7, gst_time: 5 });
    assert_eq!(state.initial_time, tied);
    state.video_committed(false).unwrap_err();
    state.render_video(8, Some(6), Some(3)).unwrap();
    state.place_video(8, None).unwrap_err();
    state.render_video(9, None, Some(3)).unwrap_err();
    assert_eq!(state.initial_time, tied);

    let mut state = video_sink();
    state.render_video(u64::MAX, Some(0), None).unwrap();
    assert!(!state.check_commit(true));
    assert!(state.check_commit(false));
}

#[test]
fn grains_hold_their_frames() {
    let mut payload = [0u8; 4];
    assert_eq!(copy_grain(&mut payload, &[1, 2, 3, 4]), 4);
    assert_eq!(payload, [1, 2, 3, 4]);
    assert_eq!(copy_grain(&mut payload, &[9, 8]), 2);
    assert_eq!(payload, [9, 8, 3, 4]);
    assert_eq!(copy_grain(&mut payload, &[1, 2, 3, 4, 5]), 4);
    assert_eq!(payload, [1, 2, 3, 4]);
}

#[test]
fn samples_go_where_their_time_puts_them() {
    let mut state = audio_sink(2, 9600);
    assert!(state.check_frames());
    assert_eq!(state.render_audio(83), Ok(RATE));
    assert_eq!(state.audio.as_ref().unwrap().batch_size, 10);
    assert!(state.check_buffer_time(5000, Some(70), Some(30)));
    assert_eq!(
        state.target_audio(5000, Some(70), Some(30)),
        Ok(Target::Convert { timestamp: 100, rate: RATE })
    );
    assert_eq!(state.initial_time, Some(InitialTime { index: 5000, gst_time: 70 }));
    assert!(state.check_samples(5000, Some(9600)));
    assert_eq!(state.place_audio(5000, Some(9600)), Ok(14600));
    assert_eq!(state.place_audio(5000, Some(9601)), Ok(14599));
    assert_eq!(state.place_audio(6000, Some(0)), Ok(5000));
    assert_eq!(state.place_audio(5000, None), Err(FlowError::Error));
    assert_eq!(state.target_audio(5500, Some(90), None), Ok(Target::At { index: 5500 }));
    assert_eq!(state.initial_time, Some(InitialTime { index: 5000, gst_time: 70 }));
}

#[test]
fn samples_that_cannot_be_written() {
    let mut state = started();
    assert_eq!(state.render_audio(8), Err(FlowError::Error));
    assert_eq!(state.target_audio(0, Some(0), None), Err(FlowError::Error));
    assert_eq!(state.place_audio(0, Some(0)), Err(FlowError::Error));
    assert!(state.plan_audio(0).is_err());

    let mut state = audio_sink(2, 9600);
    state.flow = None;
    assert_eq!(state.render_audio(16), Err(FlowError::Error));
    assert_eq!(state.audio.as_ref().unwrap().batch_size, 2);

    let mut state = audio_sink(2, 9600);
    assert_eq!(state.target_audio(0, None, Some(0)), Err(FlowError::Error));
    assert_eq!(state.initial_time, None);
    assert!(!state.check_buffer_time(0, Some(1), Some(u64::MAX)));
    state.target_audio(u64::MAX, Some(0), None).unwrap();
    assert!(!state.check_samples(0, Some(1)));
    assert!(!audio_sink(0, 9600).check_frames());
    assert!(!audio_sink(2, 1).check_plan());
    assert!(audio_sink(2, 2).check_plan());
}

#[test]
fn buffers_are_divided_into_chunks() {
    assert_eq!(
        plan_chunks(u64::MAX, 10, 9, 2, 4),
        [
            Chunk { write_index: u64::MAX, samples: 4, byte_start: 0, byte_len: 32 },
            Chunk { write_index: 3, samples: 4, byte_start: 32, byte_len: 32 },
            Chunk { write_index: 7, samples: 2, byte_start: 64, byte_len: 16 },
        ]
    );
    assert_eq!(plan_chunks(5, 8, 8, 1, 4).len(), 2);
    assert!(plan_chunks(5, 0, 0, 2, 4).is_empty());
}

#[test]
fn written_samples_are_read_back() {
    let buffer: Vec<u8> = (0..80).collect();
    let mut state = audio_sink(2, 9);
    state.render_audio(buffer.len()).unwrap();
    assert!(state.check_plan());
    let plan = state.plan_audio(5).unwrap();
    assert_eq!((plan.channels, plan.sample_bytes), (2, 4));
    assert_eq!(plan.chunks.len(), 3);
    let mut read: Vec<u8> = Vec::new();
    for chunk in &plan.chunks {
        let bytes = &buffer[chunk.byte_start..chunk.byte_start + chunk.byte_len];
        let mut channels: Vec<Vec<u8>> = Vec::new();
        for channel in 0..plan.channels {
            let mut first = [0u8; 4];
            let mut second = vec![0u8; chunk.samples * plan.sample_bytes - 4];
            fill_channel(
                bytes,
                channel,
                plan.channels,
                plan.sample_bytes,
                chunk.samples,
                &mut first,
                &mut second,
            );
            channels.push(join_planes(&first, &second));
        }
        read.extend(interleave(&channels));
    }
    assert_eq!(read, buffer);
}

#[test]
fn audio_formats_are_taken_up() {
    let (phase, action) = OpenPhase::begin();
    assert_eq!(action, OpenAction::CreateFlow);
    let flow = samples(9600);
    let (phase, action) = phase.step(Media::Audio, OpenEvent::Flow(Some(flow)));
    assert_eq!(action, OpenAction::OpenWriter);
    let (phase, action) = phase.step(Media::Audio, OpenEvent::Writer(true));
    assert_eq!((phase, action), (OpenPhase::Done, OpenAction::InstallAudio { flow }));
}

#[test]
fn video_formats_are_taken_up() {
    let (phase, _) = OpenPhase::begin();
    let flow = grains();
    let (phase, action) = phase.step(Media::Video, OpenEvent::Flow(Some(flow)));
    assert_eq!(action, OpenAction::OpenWriter);
    let (phase, action) = phase.step(Media::Video, OpenEvent::Writer(true));
    assert_eq!(action, OpenAction::GetIndex { rate: PAL });
    let (phase, action) = phase.step(Media::Video, OpenEvent::Index(90));
    assert_eq!(phase, OpenPhase::Done);
    assert_eq!(action, OpenAction::InstallVideo { flow, current_index: 90 });
}

#[test]
fn formats_that_cannot_be_taken_up() {
    let failed = (OpenPhase::Failed, OpenAction::Fail);
    for media in [Media::Video, Media::Audio] {
        let (phase, _) = OpenPhase::begin();
        assert_eq!(phase.step(media, OpenEvent::Flow(None)), failed);
        let (phase, _) = phase.step(media, OpenEvent::Flow(Some(grains())));
        assert_eq!(phase.step(media, OpenEvent::Writer(false)), failed);
    }
    let (phase, _) = OpenPhase::begin();
    assert_eq!(phase.step(Media::Video, OpenEvent::Flow(Some(samples(9600)))), failed);
}
