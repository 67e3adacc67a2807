//! The format of the stream that the source produces.
use crate::caps::channel_mask;
use crate::caps::generate_channel_mask_from_channels;
use crate::caps::law_mask_has_a_bit_for_each_channel;
use crate::caps::AudioCaps;
use crate::caps::Caps;
use crate::caps::Fraction;
use crate::caps::VideoCaps;
use crate::flowdef::FlowDef;
use crate::flowdef::FlowDefAudio;
use crate::flowdef::FlowDefVideo;
use crate::text::concat;
use crate::text::lowercase;
use crate::text::same_text;
use crate::text::to_lowercase;
use crate::timing::Media;
use vstd::prelude::*;

verus! {

/// There is neither a video nor an audio format.
#[derive(Debug, Clone, Copy, PartialEq, Eq, Structural)]
pub struct NoCaps;

/// The format of a video flow, with the colorimetry given.
pub open spec fn is_video_caps(
    caps: VideoCaps,
    video: FlowDefVideo,
    colorimetry: Seq<char>,
) -> bool {
    &&& caps.format@ == "v210"@
    &&& caps.width == video.frame_width
    &&& caps.height == video.frame_height
    &&& caps.framerate == Fraction {
        numer: video.grain_rate.numerator,
        denom: video.grain_rate.denominator,
    }
    &&& caps.interlace_mode@ == video.interlace_mode@
    &&& caps.colorimetry@ == colorimetry
}

/// A channel count as it is used for a mask: a negative count is more than
/// there is room for.
pub open spec fn mask_channels(channel_count: i32) -> u32 {
    if channel_count >= 0 {
        channel_count as u32
    } else {
        u32::MAX
    }
}

/// The format of an audio flow.
pub open spec fn is_audio_caps(caps: AudioCaps, audio: FlowDefAudio) -> bool {
    &&& caps.format@ == "F32LE"@
    &&& caps.rate == audio.sample_rate.numerator
    &&& caps.channels == audio.channel_count
    &&& caps.layout@ == "interleaved"@
    &&& caps.channel_mask == channel_mask(mask_channels(audio.channel_count))
}

/// The format of a video flow, with the colorimetry given.
pub fn video_caps(video: &FlowDefVideo, colorimetry: String) -> (caps: VideoCaps)
    ensures
        is_video_caps(caps, *video, colorimetry@),
{
    VideoCaps {
        format: "v210".to_owned(),
        width: video.frame_width,
        height: video.frame_height,
        framerate: Fraction {
            numer: video.grain_rate.numerator,
            denom: video.grain_rate.denominator,
        },
        interlace_mode: video.interlace_mode.clone(),
        colorimetry,
    }
}

/// The format of an audio flow.
pub fn audio_caps(audio: &FlowDefAudio) -> (caps: AudioCaps)
    ensures
        is_audio_caps(caps, *audio),
{
    let count: i32 = audio.channel_count;
    proof {
        assert(count < 0 ==> (count as u32) >= 64) by (bit_vector);
        assert(count >= 0 ==> (count as u32) == count) by (bit_vector);
    }
    AudioCaps {
        format: "F32LE".to_owned(),
        rate: audio.sample_rate.numerator,
        channels: count,
        layout: "interleaved".to_owned(),
        channel_mask: generate_channel_mask_from_channels(count as u32),
    }
}

/// The format of the stream that a described flow becomes: that of its video
/// where it has one, else that of its audio.
pub open spec fn is_caps_of(caps: Result<Caps, NoCaps>, def: FlowDef) -> bool {
    match def.video {
        Some(video) => caps matches Ok(Caps::Video(caps)) && is_video_caps(
            caps,
            video,
            lowercase(video.colorspace@),
        ),
        None => match def.audio {
            Some(audio) => caps matches Ok(Caps::Audio(caps)) && is_audio_caps(caps, audio),
            None => caps == Err::<Caps, NoCaps>(NoCaps),
        },
    }
}

/// The format of the stream that a described flow becomes: that of its video
/// where it has one, else that of its audio.
pub fn set_json_caps(def: &FlowDef) -> (caps: Result<Caps, NoCaps>)
    ensures
        match def.video {
            Some(video) => caps matches Ok(Caps::Video(caps)) && is_video_caps(
                caps,
                video,
                lowercase(video.colorspace@),
            ),
            None => match def.audio {
                Some(audio) => caps matches Ok(Caps::Audio(caps)) && is_audio_caps(caps, audio),
                None => caps == Err::<Caps, NoCaps>(NoCaps),
            },
        },
        is_caps_of(caps, *def),
{
    match &def.video {
        Some(video) => Ok(
            Caps::Video(video_caps(video, to_lowercase(video.colorspace.as_str()))),
        ),
        None => match &def.audio {
            Some(audio) => Ok(Caps::Audio(audio_caps(audio))),
            None => Err(NoCaps),
        },
    }
}

/// The fields of a proposed format, each with its value or the reason why it
/// cannot be read.
#[derive(Debug)]
pub struct CapsFields {
    pub format: Result<String, String>,
    pub width: Result<i32, String>,
    pub height: Result<i32, String>,
    pub framerate: Result<Fraction, String>,
    pub interlace_mode: Result<String, String>,
    pub colorimetry: Result<String, String>,
    pub rate: Result<i32, String>,
    pub channels: Result<i32, String>,
}

/// A field of a format.
#[derive(Debug, Clone, Copy, PartialEq, Eq, Structural)]
pub enum CapsField {
    Format,
    Width,
    Height,
    Framerate,
    InterlaceMode,
    Colorimetry,
    Rate,
    Channels,
}

/// Why a proposed format is refused.
#[derive(Debug)]
pub enum SetCapsError {
    /// The format is empty.
    NoStructure,
    /// A field cannot be read, for this reason.
    Field { field: CapsField, reason: String },
    /// The format is none that the source produces.
    NoValidFormat,
}

/// The text behind a [`SetCapsError`].
pub enum Refusal {
    NoStructure,
    Field(CapsField, Seq<char>),
    NoValidFormat,
}

impl View for SetCapsError {
    type V = Refusal;

    open spec fn view(&self) -> Refusal {
        match *self {
            SetCapsError::NoStructure => Refusal::NoStructure,
            SetCapsError::Field { field, reason } => Refusal::Field(field, reason@),
            SetCapsError::NoValidFormat => Refusal::NoValidFormat,
        }
    }
}

/// The reason why a field is refused, if it is.
pub open spec fn field_refusal<T>(field: CapsField, value: Result<T, String>) -> Option<Refusal> {
    match value {
        Ok(_) => None,
        Err(reason) => Some(Refusal::Field(field, reason@)),
    }
}

/// The first of two reasons.
pub open spec fn first_refusal(a: Option<Refusal>, b: Option<Refusal>) -> Option<Refusal> {
    if a is Some {
        a
    } else {
        b
    }
}

/// Why a video format is refused, if it is: the first field that it lacks.
pub open spec fn video_refusal(fields: CapsFields) -> Option<Refusal> {
    first_refusal(
        field_refusal(CapsField::Width, fields.width),
        first_refusal(
            field_refusal(CapsField::Height, fields.height),
            first_refusal(
                field_refusal(CapsField::Framerate, fields.framerate),
                first_refusal(
                    field_refusal(CapsField::InterlaceMode, fields.interlace_mode),
                    field_refusal(CapsField::Colorimetry, fields.colorimetry),
                ),
            ),
        ),
    )
}

/// Why an audio format is refused, if it is: the first field that it lacks.
pub open spec fn audio_refusal(fields: CapsFields) -> Option<Refusal> {
    first_refusal(
        field_refusal(CapsField::Rate, fields.rate),
        field_refusal(CapsField::Channels, fields.channels),
    )
}

/// Why a proposed format is refused, if it is.
pub open spec fn caps_refusal(fields: Option<CapsFields>) -> Option<Refusal> {
    match fields {
        None => Some(Refusal::NoStructure),
        Some(fields) => match fields.format {
            Err(reason) => Some(Refusal::Field(CapsField::Format, reason@)),
            Ok(format) => if format@ == "v210"@ {
                video_refusal(fields)
            } else if format@ == "F32LE"@ {
                audio_refusal(fields)
            } else {
                Some(Refusal::NoValidFormat)
            },
        },
    }
}

/// What is made of a proposed format: the kind of stream that it is a format of,
/// or the reason why it is refused.
pub open spec fn judged(fields: Option<CapsFields>) -> Result<Media, Refusal> {
    match caps_refusal(fields) {
        Some(refusal) => Err(refusal),
        None => if fields->0.format->Ok_0@ == "v210"@ {
            Ok(Media::Video)
        } else {
            Ok(Media::Audio)
        },
    }
}

fn require_field<T>(field: CapsField, value: &Result<T, String>) -> (checked: Result<
    (),
    SetCapsError,
>)
    ensures
        match checked {
            Ok(_) => field_refusal(field, *value) is None,
            Err(error) => field_refusal(field, *value) == Some(error@),
        },
{
    match value {
        Ok(_) => Ok(()),
        Err(reason) => Err(SetCapsError::Field { field, reason: reason.clone() }),
    }
}

fn require_video_fields(fields: &CapsFields) -> (checked: Result<(), SetCapsError>)
    ensures
        match checked {
            Ok(_) => video_refusal(*fields) is None,
            Err(error) => video_refusal(*fields) == Some(error@),
        },
{
    require_field(CapsField::Width, &fields.width)?;
    require_field(CapsField::Height, &fields.height)?;
    require_field(CapsField::Framerate, &fields.framerate)?;
    require_field(CapsField::InterlaceMode, &fields.interlace_mode)?;
    require_field(CapsField::Colorimetry, &fields.colorimetry)
}

/// Accepts or refuses a proposed format, and says what it is a format of.
pub fn set_caps(fields: Option<&CapsFields>) -> (accepted: Result<Media, SetCapsError>)
    ensures
        ({
            let proposal = match fields {
                Some(fields) => Some(*fields),
                None => None,
            };
            match accepted {
                Ok(media) => {
                    &&& caps_refusal(proposal) is None
                    &&& (media is Video <==> fields->0.format->Ok_0@ == "v210"@)
                },
                Err(error) => caps_refusal(proposal) == Some(error@),
            }
        }),
        ({
            let proposal = match fields {
                Some(fields) => Some(*fields),
                None => None,
            };
            match accepted {
                Ok(media) => judged(proposal) == Ok::<Media, Refusal>(media),
                Err(error) => judged(proposal) == Err::<Media, Refusal>(error@),
            }
        }),
{
    let fields: &CapsFields = match fields {
        Some(fields) => fields,
        None => {
            return Err(SetCapsError::NoStructure);
        },
    };
    let format: &String = match &fields.format {
        Ok(format) => format,
        Err(reason) => {
            return Err(
                SetCapsError::Field { field: CapsField::Format, reason: reason.clone() },
            );
        },
    };
    if same_text(format.as_str(), "v210") {
        require_video_fields(fields)?;
        Ok(Media::Video)
    } else if same_text(format.as_str(), "F32LE") {
        require_field(CapsField::Rate, &fields.rate)?;
        require_field(CapsField::Channels, &fields.channels)?;
        Ok(Media::Audio)
    } else {
        Err(SetCapsError::NoValidFormat)
    }
}

/// The source accepts the formats that it makes itself, and tells video from
/// audio: a format with the fields of a described flow is not refused.
pub proof fn law_source_accepts_its_own_formats(
    fields: CapsFields,
    video_def: FlowDefVideo,
    video: VideoCaps,
    audio_def: FlowDefAudio,
    audio: AudioCaps,
)
    requires
        is_video_caps(video, video_def, lowercase(video_def.colorspace@)),
        is_audio_caps(audio, audio_def),
        fields.format is Ok,
    ensures
        fields.format->Ok_0@ == video.format@ && fields.width is Ok && fields.height is Ok
            && fields.framerate is Ok && fields.interlace_mode is Ok && fields.colorimetry is Ok
            ==> caps_refusal(Some(fields)) is None,
        fields.format->Ok_0@ == audio.format@ && fields.rate is Ok && fields.channels is Ok
            ==> caps_refusal(Some(fields)) is None,
        video.format@ != audio.format@,
{
    reveal_strlit("v210");
    reveal_strlit("F32LE");
    assert("v210"@.len() != "F32LE"@.len());
}

/// What the log says about a refused format that reads `caps`.
pub open spec fn refusal_message(refusal: Refusal, caps: Seq<char>) -> Seq<char> {
    match refusal {
        Refusal::NoStructure => "No structure in caps "@ + caps,
        Refusal::Field(field, reason) => match field {
            CapsField::Rate => "Failed to get rate from caps: "@ + reason,
            CapsField::Channels => "Failed to get channels from caps: "@ + reason,
            _ => "Failed to set caps "@ + reason,
        },
        Refusal::NoValidFormat => "Failed to set caps: No valid format"@,
    }
}

impl SetCapsError {
    /// What the log says about the refused format, which reads `caps`.
    pub fn message(&self, caps: &str) -> (message: String)
        ensures
            message@ == refusal_message(self@, caps@),
    {
        match self {
            SetCapsError::NoStructure => concat("No structure in caps ", caps),
            SetCapsError::Field { field, reason } => match field {
                CapsField::Rate => concat("Failed to get rate from caps: ", reason.as_str()),
                CapsField::Channels => {
                    concat("Failed to get channels from caps: ", reason.as_str())
                },
                _ => concat("Failed to set caps ", reason.as_str()),
            },
            SetCapsError::NoValidFormat => "Failed to set caps: No valid format".to_owned(),
        }
    }
}

/// The format of a described flow says of the stream what the description says
/// of the flow: of video the size, the frame rate, the interlacing and, in lower
/// case, the colour space; of audio the sample rate, the number of channels and
/// a mask with one bit for each, all of the first sixty-four if the number is
/// larger than that or negative. Video comes first; a flow of neither has none.
pub proof fn law_formats_say_what_descriptions_say(def: FlowDef, caps: Result<Caps, NoCaps>)
    requires
        is_caps_of(caps, def),
    ensures
        caps is Err <==> def.video is None && def.audio is None,
        def.video matches Some(video) ==> {
            &&& caps matches Ok(Caps::Video(format))
            &&& format.format@ == "v210"@
            &&& format.width == video.frame_width && format.height == video.frame_height
            &&& format.framerate.numer == video.grain_rate.numerator
            &&& format.framerate.denom == video.grain_rate.denominator
            &&& format.interlace_mode@ == video.interlace_mode@
            &&& format.colorimetry@ == lowercase(video.colorspace@)
        },
        def.video is None ==> (def.audio matches Some(audio) ==> {
            &&& caps matches Ok(Caps::Audio(format))
            &&& format.format@ == "F32LE"@ && format.layout@ == "interleaved"@
            &&& format.rate == audio.sample_rate.numerator
            &&& format.channels == audio.channel_count
            &&& forall|i: u64|
                i < 64 ==> #[trigger] (format.channel_mask >> i) & 1 == (if 0
                    <= audio.channel_count <= i {
                    0u64
                } else {
                    1u64
                })
        }),
{
    if def.video is None && def.audio is Some {
        let audio = def.audio->0;
        let mask = caps->Ok_0->Audio_0.channel_mask;
        assert forall|i: u64| i < 64 implies #[trigger] (mask >> i) & 1 == (if 0
            <= audio.channel_count <= i {
            0u64
        } else {
            1u64
        }) by {
            law_mask_has_a_bit_for_each_channel(mask_channels(audio.channel_count), i);
            assert((mask >> i) & 1 == 0 || (mask >> i) & 1 == 1) by (bit_vector);
        }
    }
}

/// A proposed format is taken as video exactly if it is `v210` and its size,
/// frame rate, interlacing and colorimetry can be read, and as audio exactly if
/// it is `F32LE` and its sample rate and channels can be read. Fields that a
/// format does not need do not matter.
pub proof fn law_complete_formats_are_taken(fields: CapsFields)
    ensures
        judged(Some(fields)) == Ok::<Media, Refusal>(Media::Video) <==> (
        fields.format matches Ok(format) && format@ == "v210"@ && fields.width is Ok
            && fields.height is Ok && fields.framerate is Ok && fields.interlace_mode is Ok
            && fields.colorimetry is Ok),
        judged(Some(fields)) == Ok::<Media, Refusal>(Media::Audio) <==> (
        fields.format matches Ok(format) && format@ == "F32LE"@ && fields.rate is Ok
            && fields.channels is Ok),
        judged(None) == Err::<Media, Refusal>(Refusal::NoStructure),
        judged(Some(fields)) != Err::<Media, Refusal>(Refusal::NoStructure),
        judged(Some(fields)) == Err::<Media, Refusal>(Refusal::NoValidFormat)
            <==> (fields.format matches Ok(format) && format@ != "v210"@ && format@ != "F32LE"@),
{
    reveal_strlit("v210");
    reveal_strlit("F32LE");
    assert("v210"@.len() != "F32LE"@.len());
}

/// A format is refused for the first field that it needs and that cannot be
/// read, and with the reason that belongs to it. The format itself comes first;
/// then, for video, width, height, frame rate, interlacing and colorimetry, and
/// for audio, rate and channels.
pub proof fn law_refusals_name_the_first_missing_field(fields: CapsFields)
    ensures
        fields.format matches Err(reason) ==> judged(Some(fields)) == Err::<Media, Refusal>(
            Refusal::Field(CapsField::Format, reason@),
        ),
        fields.format matches Ok(format) && format@ == "v210"@ ==> {
            &&& fields.width matches Err(reason) ==> judged(Some(fields)) == Err::<Media, Refusal>(
                Refusal::Field(CapsField::Width, reason@),
            )
            &&& fields.width is Ok ==> (fields.height matches Err(reason) ==> judged(Some(fields))
                == Err::<Media, Refusal>(Refusal::Field(CapsField::Height, reason@)))
            &&& fields.width is Ok && fields.height is Ok ==> (fields.framerate matches Err(reason)
                ==> judged(Some(fields)) == Err::<Media, Refusal>(
                Refusal::Field(CapsField::Framerate, reason@),
            ))
            &&& fields.width is Ok && fields.height is Ok && fields.framerate is Ok ==> (
            fields.interlace_mode matches Err(reason) ==> judged(Some(fields)) == Err::<
                Media,
                Refusal,
            >(Refusal::Field(CapsField::InterlaceMode, reason@)))
            &&& fields.width is Ok && fields.height is Ok && fields.framerate is Ok
                && fields.interlace_mode is Ok ==> (fields.colorimetry matches Err(reason)
                ==> judged(Some(fields)) == Err::<Media, Refusal>(
                Refusal::Field(CapsField::Colorimetry, reason@),
            ))
        },
        fields.format matches Ok(format) && format@ == "F32LE"@ ==> {
            &&& fields.rate matches Err(reason) ==> judged(Some(fields)) == Err::<Media, Refusal>(
                Refusal::Field(CapsField::Rate, reason@),
            )
            &&& fields.rate is Ok ==> (fields.channels matches Err(reason) ==> judged(Some(fields))
                == Err::<Media, Refusal>(Refusal::Field(CapsField::Channels, reason@)))
        },
{
    reveal_strlit("v210");
    reveal_strlit("F32LE");
    assert("v210"@.len() != "F32LE"@.len());
}

/// What the log says about a refused format: that it is empty, with the format;
/// that a field cannot be read, with the reason, which rate and channels
/// announce by name; or that it is no valid one.
pub proof fn law_refusals_are_logged(refusal: Refusal, caps: Seq<char>)
    ensures
        refusal is NoStructure ==> refusal_message(refusal, caps) == "No structure in caps "@
            + caps,
        refusal is NoValidFormat ==> refusal_message(refusal, caps)
            == "Failed to set caps: No valid format"@,
        refusal matches Refusal::Field(field, reason) ==> {
            let message = refusal_message(refusal, caps);
            &&& field is Rate ==> message == "Failed to get rate from caps: "@ + reason
            &&& field is Channels ==> message == "Failed to get channels from caps: "@ + reason
            &&& !(field is Rate) && !(field is Channels) ==> message == "Failed to set caps "@
                + reason
        },
{
}

} // verus!
