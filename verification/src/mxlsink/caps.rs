//! The flow that a stream's format calls for.
use super::state::AudioState;
use super::state::FlowInfo;
use super::state::State;
use super::state::VideoState;
use crate::caps::channel_mask;
use crate::caps::generate_channel_mask_from_channels;
use crate::caps::law_mask_has_a_bit_for_each_channel;
use crate::caps::AudioCaps;
use crate::caps::Fraction;
use crate::caps::VideoCaps;
use crate::flowdef::Component;
use crate::flowdef::FlowDefAudio;
use crate::flowdef::FlowDefVideo;
use crate::flowdef::GrainRate;
use crate::flowdef::SampleRate;
use crate::json::media_of;
use crate::mxlsrc::caps::is_audio_caps;
use crate::mxlsrc::caps::is_video_caps;
use crate::text::concat;
use crate::text::decimal;
use crate::text::lowercase;
use crate::text::push_decimal;
use crate::text::same_text;
use crate::timing::Media;
use std::collections::HashMap;
use vstd::prelude::*;

verus! {

/// What an audio format says.
#[derive(Debug, Clone, Copy, PartialEq, Eq, Structural)]
pub struct AudioInfo {
    pub channels: u32,
    pub rate: u32,
    pub depth: u32,
}

/// The fields of a video format, as far as it has them.
#[derive(Debug)]
pub struct VideoFields {
    pub format: Option<String>,
    pub width: Option<i32>,
    pub height: Option<i32>,
    pub framerate: Option<Fraction>,
    pub interlace_mode: Option<String>,
    pub colorimetry: Option<String>,
}

/// A text, or the default for it.
pub open spec fn text_or(text: Option<String>, default: Seq<char>) -> Seq<char> {
    match text {
        Some(text) => text@,
        None => default,
    }
}

/// A value, or the default for it.
pub open spec fn value_or<T>(value: Option<T>, default: T) -> T {
    match value {
        Some(value) => value,
        None => default,
    }
}

/// The frame rate of a format that gives none.
pub open spec fn default_framerate() -> Fraction {
    Fraction { numer: 30000, denom: 1001 }
}

/// The frame rate that a format gives.
pub open spec fn framerate_of(fields: VideoFields) -> Fraction {
    value_or(fields.framerate, default_framerate())
}

/// The quotient, rounded towards zero. Division of a number that is not
/// negative rounds that way, whatever the divisor's sign.
pub open spec fn quotient(a: int, b: int) -> int {
    if a >= 0 {
        a / b
    } else {
        -((-a) / b)
    }
}

proof fn lemma_quotient_bounds(a: int, b: int)
    requires
        a >= 0,
        b != 0,
    ensures
        -a <= a / b <= a,
        b != -1 && a > 0 ==> -a < a / b,
{
    assert(-a <= a / b <= a) by (nonlinear_arith)
        requires
            a >= 0,
            b != 0,
    ;
    assert(b != -1 && a > 0 ==> -a < a / b) by (nonlinear_arith)
        requires
            a >= 0,
            b != 0,
    ;
}

/// Whether a frame rate can be rounded to whole frames.
pub open spec fn can_round(rate: Fraction) -> bool {
    rate.denom != 0 && !(rate.numer == i32::MIN && rate.denom == -1)
}

/// The name of a test flow with that frame rate.
pub open spec fn flow_name(rate: Fraction) -> Seq<char> {
    "MXL Test Flow, 1080p"@ + decimal(quotient(rate.numer as int, rate.denom as int))
}

/// One plane of the picture.
pub open spec fn is_component(
    component: Component,
    name: Seq<char>,
    width: int,
    height: int,
) -> bool {
    &&& component.name@ == name
    &&& component.width == width
    &&& component.height == height
    &&& component.bit_depth == 10
}

/// The description of a video flow for a stream of that format.
pub open spec fn is_video_def(def: FlowDefVideo, fields: VideoFields, flow_id: Seq<char>) -> bool {
    let width = value_or(fields.width, 1920);
    let height = value_or(fields.height, 1080);
    let rate = framerate_of(fields);
    &&& def.copyright@
        == "SPDX-FileCopyrightText: 2025 Contributors to the Media eXchange Layer project."@
    &&& def.license@ == "SPDX-License-Identifier: Apache-2.0"@
    &&& def.description@ == flow_name(rate)
    &&& def.id@ == flow_id
    &&& def.tags@ == Map::<String, Vec<String>>::empty()
    &&& def.format@ == "urn:x-nmos:format:video"@
    &&& def.label@ == flow_name(rate)
    &&& def.parents@.len() == 0
    &&& def.media_type@ == "video/"@ + text_or(fields.format, "v210"@)
    &&& def.grain_rate == GrainRate { numerator: rate.numer, denominator: rate.denom }
    &&& def.frame_width == width
    &&& def.frame_height == height
    &&& def.interlace_mode@ == text_or(fields.interlace_mode, "progressive"@)
    &&& def.colorspace@ == text_or(fields.colorimetry, "BT709"@)
    &&& def.components@.len() == 3
    &&& is_component(def.components@[0], "Y"@, width as int, height as int)
    &&& is_component(def.components@[1], "Cb"@, quotient(width as int, 2), height as int)
    &&& is_component(def.components@[2], "Cr"@, quotient(width as int, 2), height as int)
}

/// The description of an audio flow for a stream of that format.
pub open spec fn is_audio_def(def: FlowDefAudio, info: AudioInfo, flow_id: Seq<char>) -> bool {
    &&& def.copyright@
        == "SPDX-FileCopyrightText: 2025 Contributors to the Media eXchange Layer project."@
    &&& def.license@ == "SPDX-License-Identifier: Apache-2.0"@
    &&& def.description@ == "MXL Audio Flow"@
    &&& def.format@ == "urn:x-nmos:format:audio"@
    &&& def.tags@ == Map::<String, Vec<String>>::empty()
    &&& def.label@ == "MXL Audio Flow"@
    &&& def.id@ == flow_id
    &&& def.media_type@ == "audio/float32"@
    &&& def.sample_rate == SampleRate { numerator: info.rate as i32 }
    &&& def.channel_count == info.channels as i32
    &&& def.bit_depth == info.depth as u8
    &&& def.parents@.len() == 0
}

/// The kind of stream that a format of that name stands for.
pub open spec fn media_named(name: Seq<char>) -> Media {
    if name == "audio/x-raw"@ {
        Media::Audio
    } else {
        Media::Video
    }
}

/// The kind of stream that a format of that name stands for.
pub fn stream_media(name: &str) -> (media: Media)
    ensures
        media == (if name@ == "audio/x-raw"@ {
            Media::Audio
        } else {
            Media::Video
        }),
        media == media_named(name@),
{
    if same_text(name, "audio/x-raw") {
        Media::Audio
    } else {
        Media::Video
    }
}

fn text_or_default(text: &Option<String>, default: &str) -> (value: String)
    ensures
        value@ == text_or(*text, default@),
{
    match text {
        Some(text) => text.clone(),
        None => default.to_owned(),
    }
}

fn value_or_default<T: Copy>(value: Option<T>, default: T) -> (chosen: T)
    ensures
        chosen == value_or(value, default),
{
    match value {
        Some(value) => value,
        None => default,
    }
}

fn named_after(rate: Fraction) -> (name: String)
    requires
        can_round(rate),
    ensures
        name@ == flow_name(rate),
{
    let mut name = "MXL Test Flow, 1080p".to_owned();
    proof {
        lemma_quotient_bounds(
            if rate.numer >= 0 {
                rate.numer as int
            } else {
                -rate.numer
            },
            rate.denom as int,
        );
    }
    let frames: i32 = rate.numer / rate.denom;
    push_decimal(&mut name, frames as i64);
    name
}

/// The frame rate that a format gives.
pub fn video_framerate(fields: &VideoFields) -> (rate: Fraction)
    ensures
        rate == framerate_of(*fields),
{
    value_or_default(fields.framerate, Fraction { numer: 30000, denom: 1001 })
}

/// Tells whether [`video_flow_def`] can describe a flow with that frame rate.
pub fn check_framerate(rate: Fraction) -> (ok: bool)
    ensures
        ok == can_round(rate),
{
    rate.denom != 0 && !(rate.numer == i32::MIN && rate.denom == -1)
}

/// Describes the flow for a video stream.
pub fn video_flow_def(fields: &VideoFields, flow_id: &str) -> (def: FlowDefVideo)
    requires
        can_round(framerate_of(*fields)),
    ensures
        is_video_def(def, *fields, flow_id@),
{
    let width: i32 = value_or_default(fields.width, 1920);
    let height: i32 = value_or_default(fields.height, 1080);
    let rate: Fraction = video_framerate(fields);
    let format = text_or_default(&fields.format, "v210");
    let mut components: Vec<Component> = Vec::new();
    components.push(Component { name: "Y".to_owned(), width, height, bit_depth: 10 });
    components.push(Component { name: "Cb".to_owned(), width: width / 2, height, bit_depth: 10 });
    components.push(Component { name: "Cr".to_owned(), width: width / 2, height, bit_depth: 10 });
    FlowDefVideo {
        copyright:
            "SPDX-FileCopyrightText: 2025 Contributors to the Media eXchange Layer project.".to_owned(),
        license: "SPDX-License-Identifier: Apache-2.0".to_owned(),
        description: named_after(rate),
        id: flow_id.to_owned(),
        tags: HashMap::new(),
        format: "urn:x-nmos:format:video".to_owned(),
        label: named_after(rate),
        parents: Vec::new(),
        media_type: concat("video/", format.as_str()),
        grain_rate: GrainRate { numerator: rate.numer, denominator: rate.denom },
        frame_width: width,
        frame_height: height,
        interlace_mode: text_or_default(&fields.interlace_mode, "progressive"),
        colorspace: text_or_default(&fields.colorimetry, "BT709"),
        components,
    }
}

/// Describes the flow for an audio stream.
pub fn audio_flow_def(info: &AudioInfo, flow_id: &str) -> (def: FlowDefAudio)
    ensures
        is_audio_def(def, *info, flow_id@),
{
    FlowDefAudio {
        copyright:
            "SPDX-FileCopyrightText: 2025 Contributors to the Media eXchange Layer project.".to_owned(),
        license: "SPDX-License-Identifier: Apache-2.0".to_owned(),
        description: "MXL Audio Flow".to_owned(),
        format: "urn:x-nmos:format:audio".to_owned(),
        tags: HashMap::new(),
        label: "MXL Audio Flow".to_owned(),
        id: flow_id.to_owned(),
        media_type: "audio/float32".to_owned(),
        sample_rate: SampleRate { numerator: info.rate as i32 },
        channel_count: info.channels as i32,
        bit_depth: info.depth as u8,
        parents: Vec::new(),
    }
}

/// The flow does not consist of grains.
#[derive(Debug, Clone, Copy, PartialEq, Eq, Structural)]
pub struct NotDiscrete;

/// The sink after it has taken up an audio flow.
pub open spec fn after_install_audio(state: State, flow_def: FlowDefAudio, flow: FlowInfo) -> State {
    State {
        audio: Some(
            AudioState {
                bit_depth: flow_def.bit_depth,
                batch_size: (flow_def.sample_rate.numerator as usize / 100),
                flow_def,
            },
        ),
        flow: Some(flow),
        ..state
    }
}

/// The sink after it has taken up a video flow, if it could.
pub open spec fn after_install_video(state: State, flow: FlowInfo, current_index: u64) -> State {
    match flow.discrete {
        Some(info) => State {
            video: Some(
                VideoState {
                    grain_index: current_index,
                    grain_rate: info.grain_rate,
                    grain_count: info.grain_count,
                },
            ),
            flow: Some(flow),
            ..state
        },
        None => state,
    }
}

impl State {
    /// Takes up an audio flow that has been created and opened for writing.
    pub fn install_audio(&mut self, flow_def: FlowDefAudio, flow: FlowInfo)
        ensures
            final(self).audio == Some(
                AudioState {
                    bit_depth: flow_def.bit_depth,
                    batch_size: (flow_def.sample_rate.numerator as usize / 100),
                    flow_def,
                },
            ),
            final(self).flow == Some(flow),
            final(self).video == old(self).video,
            final(self).initial_time == old(self).initial_time,
            *final(self) == after_install_audio(*old(self), flow_def, flow),
    {
        self.audio = Some(
            AudioState {
                bit_depth: flow_def.bit_depth,
                batch_size: flow_def.sample_rate.numerator as usize / 100,
                flow_def,
            },
        );
        self.flow = Some(flow);
    }

    /// Takes up a video flow that has been created and opened for writing, with
    /// its current grain.
    pub fn install_video(&mut self, flow: FlowInfo, current_index: u64) -> (installed: Result<
        (),
        NotDiscrete,
    >)
        ensures
            final(self).audio == old(self).audio,
            final(self).initial_time == old(self).initial_time,
            match flow.discrete {
                Some(info) => {
                    &&& installed is Ok
                    &&& final(self).video == Some(
                        VideoState {
                            grain_index: current_index,
                            grain_rate: info.grain_rate,
                            grain_count: info.grain_count,
                        },
                    )
                    &&& final(self).flow == Some(flow)
                },
                None => {
                    &&& installed is Err
                    &&& final(self).video == old(self).video
                    &&& final(self).flow == old(self).flow
                },
            },
            *final(self) == after_install_video(*old(self), flow, current_index),
    {
        match flow.discrete {
            Some(info) => {
                self.video = Some(
                    VideoState {
                        grain_index: current_index,
                        grain_rate: info.grain_rate,
                        grain_count: info.grain_count,
                    },
                );
                self.flow = Some(flow);
                Ok(())
            },
            None => Err(NotDiscrete),
        }
    }
}

/// An audio format that the sink takes, at any sample rate.
#[derive(Debug)]
pub struct AudioTemplate {
    pub format: String,
    pub layout: String,
    pub channels: i32,
    pub channel_mask: u64,
}

/// The formats that the sink takes.
#[derive(Debug)]
pub struct SinkTemplates {
    pub video_format: String,
    pub audio: Vec<AudioTemplate>,
}

/// Whether an audio format is one that the sink takes.
pub open spec fn is_audio_template(template: AudioTemplate, channels: int) -> bool {
    &&& template.format@ == "F32LE"@
    &&& template.layout@ == "interleaved"@
    &&& template.channels == channels
    &&& template.channel_mask == channel_mask(channels as u32)
}

/// The formats that the sink takes: one video format, and interleaved audio
/// with any number of channels from one to sixty-three.
pub open spec fn is_sink_templates(templates: SinkTemplates) -> bool {
    &&& templates.video_format@ == "v210"@
    &&& templates.audio@.len() == 63
    &&& forall|i: int| 0 <= i < 63 ==> is_audio_template(#[trigger] templates.audio@[i], i + 1)
}

/// The formats that the sink takes.
pub fn pad_templates() -> (templates: SinkTemplates)
    ensures
        is_sink_templates(templates),
{
    let mut audio: Vec<AudioTemplate> = Vec::new();
    let mut channels: i32 = 1;
    while channels < 64
        invariant
            1 <= channels <= 64,
            audio@.len() == channels - 1,
            forall|i: int| 0 <= i < channels - 1 ==> is_audio_template(#[trigger] audio@[i], i + 1),
        decreases 64 - channels,
    {
        audio.push(
            AudioTemplate {
                format: "F32LE".to_owned(),
                layout: "interleaved".to_owned(),
                channels,
                channel_mask: generate_channel_mask_from_channels(channels as u32),
            },
        );
        channels = channels + 1;
    }
    SinkTemplates { video_format: "v210".to_owned(), audio }
}

/// The sink takes every stream that the source makes: video, and audio with one
/// to sixty-three channels.
pub proof fn law_sink_takes_what_the_source_makes(
    templates: SinkTemplates,
    video_def: FlowDefVideo,
    video: VideoCaps,
    audio_def: FlowDefAudio,
    audio: AudioCaps,
)
    requires
        is_sink_templates(templates),
        is_video_caps(video, video_def, lowercase(video_def.colorspace@)),
        is_audio_caps(audio, audio_def),
        1 <= audio_def.channel_count < 64,
    ensures
        video.format@ == templates.video_format@,
        exists|i: int|
            #![trigger templates.audio@[i]]
            0 <= i < templates.audio@.len() && templates.audio@[i].format@ == audio.format@
                && templates.audio@[i].layout@ == audio.layout@ && templates.audio@[i].channels
                == audio.channels && templates.audio@[i].channel_mask == audio.channel_mask,
{
    let i = audio_def.channel_count - 1;
    assert(is_audio_template(templates.audio@[i], i + 1));
}

/// A video format survives the way through a flow: the description that the
/// sink writes is recognised as video exactly if the format is `v210`, and the
/// stream that the source makes of it has the size, frame rate and interlacing
/// that the sink was given, and the colorimetry in lower case.
pub proof fn law_video_format_survives(
    fields: VideoFields,
    flow_id: Seq<char>,
    def: FlowDefVideo,
    caps: VideoCaps,
)
    requires
        is_video_def(def, fields, flow_id),
        is_video_caps(caps, def, lowercase(def.colorspace@)),
    ensures
        (media_of(def.media_type@) == Some(Media::Video)) == (text_or(fields.format, "v210"@)
            == "v210"@),
        !(media_of(def.media_type@) == Some(Media::Audio)),
        caps.width == value_or(fields.width, 1920),
        caps.height == value_or(fields.height, 1080),
        caps.framerate == framerate_of(fields),
        caps.interlace_mode@ == text_or(fields.interlace_mode, "progressive"@),
        caps.colorimetry@ == lowercase(text_or(fields.colorimetry, "BT709"@)),
{
    let format = text_or(fields.format, "v210"@);
    reveal_strlit("video/");
    reveal_strlit("v210");
    reveal_strlit("video/v210");
    reveal_strlit("audio/float32");
    assert("video/"@ + "v210"@ =~= "video/v210"@);
    if def.media_type@ == "video/v210"@ {
        assert(format =~= def.media_type@.skip(6));
        assert("v210"@ =~= "video/v210"@.skip(6));
    }
    assert(def.media_type@[0] == 'v');
    assert("audio/float32"@[0] == 'a');
}

/// An audio format survives the way through a flow: the description that the
/// sink writes is recognised as audio, and the stream that the source makes of
/// it has the sample rate and the channels that the sink was given.
pub proof fn law_audio_format_survives(
    info: AudioInfo,
    flow_id: Seq<char>,
    def: FlowDefAudio,
    caps: AudioCaps,
)
    requires
        is_audio_def(def, info, flow_id),
        is_audio_caps(caps, def),
        info.rate <= i32::MAX,
        info.channels <= i32::MAX,
    ensures
        media_of(def.media_type@) == Some(Media::Audio),
        caps.rate == info.rate,
        caps.channels == info.channels,
        caps.channel_mask == channel_mask(info.channels),
{
    reveal_strlit("video/v210");
    reveal_strlit("audio/float32");
    assert("video/v210"@[0] != "audio/float32"@[0]);
}

/// The planes of a described picture fit its frame: the first has the width and
/// the height of the frame, the other two its height and half its width, rounded
/// towards zero. So for an even width the three planes together hold two samples
/// for each pixel. All have ten bits.
pub proof fn law_planes_fit_the_frame(def: FlowDefVideo, fields: VideoFields, flow_id: Seq<char>)
    requires
        is_video_def(def, fields, flow_id),
    ensures
        ({
            let y = def.components@[0];
            let cb = def.components@[1];
            let cr = def.components@[2];
            let w = def.frame_width;
            let h = def.frame_height;
            &&& def.components@.len() == 3
            &&& y.name@ == "Y"@ && cb.name@ == "Cb"@ && cr.name@ == "Cr"@
            &&& y.bit_depth == 10 && cb.bit_depth == 10 && cr.bit_depth == 10
            &&& y.width == w && y.height == h && cb.height == h && cr.height == h
            &&& cb.width == cr.width
            &&& w >= 0 ==> 0 <= w - 2 * cb.width <= 1
            &&& w < 0 ==> -1 <= w - 2 * cb.width <= 0
            &&& w % 2 == 0 ==> y.width * y.height + cb.width * cb.height + cr.width * cr.height
                == 2 * (w * h)
        }),
{
    let w = def.frame_width as int;
    let h = def.frame_height as int;
    let c = def.components@[1].width as int;
    if w % 2 == 0 {
        assert(w == 2 * c);
        assert(w * h + c * h + c * h == 2 * (w * h)) by (nonlinear_arith)
            requires
                w == 2 * c,
        ;
    }
}

/// A video flow is described as its stream's format says: with the id of the
/// flow, the size, the frame rate, the interlacing and the colorimetry of the
/// format, and the format as its media type. What the format does not say is
/// taken to be v210 at 1920 by 1080, 30000/1001 frames per second, progressive
/// and BT709.
pub proof fn law_video_is_described_as_given(
    def: FlowDefVideo,
    fields: VideoFields,
    flow_id: Seq<char>,
)
    requires
        is_video_def(def, fields, flow_id),
    ensures
        def.id@ == flow_id,
        def.frame_width == (match fields.width {
            Some(width) => width,
            None => 1920,
        }),
        def.frame_height == (match fields.height {
            Some(height) => height,
            None => 1080,
        }),
        fields.framerate matches Some(rate) ==> def.grain_rate.numerator == rate.numer
            && def.grain_rate.denominator == rate.denom,
        fields.framerate is None ==> def.grain_rate.numerator == 30000
            && def.grain_rate.denominator == 1001,
        fields.interlace_mode matches Some(mode) ==> def.interlace_mode@ == mode@,
        fields.interlace_mode is None ==> def.interlace_mode@ == "progressive"@,
        fields.colorimetry matches Some(color) ==> def.colorspace@ == color@,
        fields.colorimetry is None ==> def.colorspace@ == "BT709"@,
        fields.format matches Some(format) ==> def.media_type@ == "video/"@ + format@,
        fields.format is None ==> def.media_type@ == "video/"@ + "v210"@,
        def.format@ == "urn:x-nmos:format:video"@,
        def.copyright@
            == "SPDX-FileCopyrightText: 2025 Contributors to the Media eXchange Layer project."@,
        def.license@ == "SPDX-License-Identifier: Apache-2.0"@,
        def.tags@.dom() =~= Set::<String>::empty(),
        def.parents@.len() == 0,
{
}

/// A video flow is named after its frame rate, rounded towards zero to whole
/// frames: its label and its description are both the name of a test flow
/// followed by that number in decimal.
pub proof fn law_video_is_named_after_its_rate(
    def: FlowDefVideo,
    fields: VideoFields,
    flow_id: Seq<char>,
    frames: int,
    rest: int,
)
    requires
        is_video_def(def, fields, flow_id),
        def.grain_rate.denominator != 0,
        def.grain_rate.numerator == frames * def.grain_rate.denominator + rest,
        def.grain_rate.numerator >= 0 ==> 0 <= rest,
        def.grain_rate.numerator <= 0 ==> rest <= 0,
        -rest < def.grain_rate.denominator || -rest < -def.grain_rate.denominator,
        rest < def.grain_rate.denominator || rest < -def.grain_rate.denominator,
    ensures
        def.label@ == "MXL Test Flow, 1080p"@ + decimal(frames),
        def.description@ == def.label@,
{
    let a = def.grain_rate.numerator as int;
    let b = def.grain_rate.denominator as int;
    assert(quotient(a, b) == frames) by {
        if a >= 0 {
            lemma_division(a, b, frames, rest);
        } else {
            assert((-a) == (-frames) * b + (-rest)) by (nonlinear_arith)
                requires
                    a == frames * b + rest,
            ;
            lemma_division(-a, b, -frames, -rest);
        }
    }
}

proof fn lemma_division(a: int, b: int, q: int, r: int)
    requires
        b != 0,
        a == q * b + r,
        0 <= r,
        r < b || r < -b,
    ensures
        a / b == q,
{
    assert(a / b == q) by (nonlinear_arith)
        requires
            b != 0,
            a == q * b + r,
            0 <= r,
            r < b || r < -b,
    ;
}

/// An audio flow is described as its stream's format says: with the id of the
/// flow and the sample rate, the channels and the depth of the format, each as
/// far as its field holds it, and as 32-bit float audio.
pub proof fn law_audio_is_described_as_given(
    def: FlowDefAudio,
    info: AudioInfo,
    flow_id: Seq<char>,
)
    requires
        is_audio_def(def, info, flow_id),
    ensures
        def.id@ == flow_id,
        info.rate <= i32::MAX ==> def.sample_rate.numerator == info.rate,
        info.rate > i32::MAX ==> def.sample_rate.numerator == info.rate - 0x1_0000_0000,
        info.channels <= i32::MAX ==> def.channel_count == info.channels,
        info.channels > i32::MAX ==> def.channel_count == info.channels - 0x1_0000_0000,
        def.bit_depth == info.depth % 256,
        def.media_type@ == "audio/float32"@,
        def.format@ == "urn:x-nmos:format:audio"@,
        def.label@ == "MXL Audio Flow"@,
        def.description@ == def.label@,
        def.copyright@
            == "SPDX-FileCopyrightText: 2025 Contributors to the Media eXchange Layer project."@,
        def.license@ == "SPDX-License-Identifier: Apache-2.0"@,
        def.tags@.dom() =~= Set::<String>::empty(),
        def.parents@.len() == 0,
{
    let rate = info.rate;
    let channels = info.channels;
    let depth = info.depth;
    assert(rate > 0x7fff_ffff ==> (rate as i32) == rate - 0x1_0000_0000) by (bit_vector);
    assert(channels > 0x7fff_ffff ==> (channels as i32) == channels - 0x1_0000_0000)
        by (bit_vector);
    assert((depth as u8) == depth % 256) by (bit_vector);
}

/// Formats named `audio/x-raw` are audio, and all others are taken for video.
pub proof fn law_formats_are_told_by_name(name: Seq<char>)
    ensures
        media_named(name) == Media::Audio <==> name == "audio/x-raw"@,
        media_named(name) == Media::Video <==> name != "audio/x-raw"@,
{
}

/// Taking up a flow makes it the sink's flow and starts a stream of its kind. An
/// audio stream goes by its description and expects a hundredth of a second of
/// samples; a video stream goes by the rate and the number of the flow's grains
/// and starts at the current one. A flow without grains is not taken up for
/// video. The other stream and the tie are left as they are.
pub proof fn law_flows_are_taken_up(
    state: State,
    flow_def: FlowDefAudio,
    flow: FlowInfo,
    current_index: u64,
)
    ensures
        ({
            let audio = after_install_audio(state, flow_def, flow);
            let video = after_install_video(state, flow, current_index);
            &&& audio.flow == Some(flow) && audio.video == state.video && audio.initial_time
                == state.initial_time
            &&& audio.audio matches Some(stream)
            &&& stream.flow_def == flow_def && stream.bit_depth == flow_def.bit_depth
            &&& flow_def.sample_rate.numerator >= 0 ==> stream.batch_size * 100
                <= flow_def.sample_rate.numerator < (stream.batch_size + 1) * 100
            &&& video.audio == state.audio && video.initial_time == state.initial_time
            &&& flow.discrete is None ==> video == state
            &&& flow.discrete matches Some(info) ==> {
                &&& video.flow == Some(flow)
                &&& video.video matches Some(stream)
                &&& stream.grain_index == current_index
                &&& stream.grain_rate == info.grain_rate
                &&& stream.grain_count == info.grain_count
            }
        }),
{
}

/// The sink takes v210 video and interleaved 32-bit float audio with each number
/// of channels from one to sixty-three once, with a mask that has a bit for each
/// channel and no other.
pub proof fn law_templates_have_each_number_of_channels(templates: SinkTemplates, i: int, bit: u64)
    requires
        is_sink_templates(templates),
        0 <= i < templates.audio@.len(),
        bit < 64,
    ensures
        templates.video_format@ == "v210"@,
        templates.audio@.len() == 63,
        templates.audio@[i].channels == i + 1,
        templates.audio@[i].format@ == "F32LE"@,
        templates.audio@[i].layout@ == "interleaved"@,
        ((templates.audio@[i].channel_mask >> bit) & 1 == 1) == (bit <= i),
{
    assert(is_audio_template(templates.audio@[i], i + 1));
    law_mask_has_a_bit_for_each_channel((i + 1) as u32, bit);
}

/// A frame rate can be rounded to whole frames unless its denominator is zero or
/// the result is one too large.
pub proof fn law_rates_can_be_rounded(rate: Fraction)
    ensures
        can_round(rate) <==> rate.denom != 0 && (rate.numer != -0x8000_0000 || rate.denom != -1),
{
}

} // verus!
