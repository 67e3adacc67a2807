//! Finding out from a flow's description what the flow carries.
use crate::text::same_text;
use crate::timing::Media;
use vstd::prelude::*;

verus! {

/// A JSON document, `serde_json::Value`.
#[verifier::external_type_specification]
#[verifier::external_body]
pub struct ExValue(serde_json::Value);

/// What is wrong with a text that is no JSON document, `serde_json::Error`.
#[verifier::external_type_specification]
#[verifier::external_body]
pub struct ExError(serde_json::Error);

/// The text that a JSON document is, if it is a string.
pub uninterp spec fn json_text(value: serde_json::Value) -> Option<Seq<char>>;

/// The members of a JSON document that is an object, each with the text it is
/// if it is a string. Any other document has no members.
pub uninterp spec fn json_members(value: serde_json::Value) -> Map<Seq<char>, Option<Seq<char>>>;

/// The members of the JSON document that a text spells out, if it does.
pub uninterp spec fn parsed_members(text: Seq<char>) -> Option<Map<Seq<char>, Option<Seq<char>>>>;

/// `serde_json::from_str`: the document that a text spells out. The claim is
/// that the text alone decides whether there is one and what its members are;
/// which texts are documents is left unsaid.
#[verifier::external_body]
fn parse_json(text: &str) -> (parsed: Result<serde_json::Value, serde_json::Error>)
    ensures
        match parsed {
            Ok(value) => parsed_members(text@) == Some(json_members(value)),
            Err(_) => parsed_members(text@) is None,
        },
{
    serde_json::from_str(text)
}

/// `serde_json::Value::get` with a text as the index: the member of that name,
/// and nothing where the document is no object or has no such member.
#[verifier::external_body]
fn json_member<'a>(value: &'a serde_json::Value, name: &str) -> (member: Option<
    &'a serde_json::Value,
>)
    ensures
        match member {
            Some(found) => json_members(*value).contains_key(name@) && json_text(*found)
                == json_members(*value)[name@],
            None => !json_members(*value).contains_key(name@),
        },
{
    value.get(name)
}

/// `serde_json::Value::as_str`: the text of a document that is a string, and
/// nothing for any other.
#[verifier::external_body]
fn json_str(value: &serde_json::Value) -> (text: Option<&str>)
    ensures
        match text {
            Some(text) => json_text(*value) == Some(text@),
            None => json_text(*value) is None,
        },
{
    value.as_str()
}

/// Why a flow's description cannot be used.
#[derive(Debug)]
pub enum FlowJsonError {
    /// It is no JSON document.
    Invalid(serde_json::Error),
    /// It describes a flow of this unknown kind.
    UnknownMediaType(String),
}

/// What flows of a media type carry.
pub open spec fn media_of(media_type: Seq<char>) -> Option<Media> {
    if media_type == "video/v210"@ {
        Some(Media::Video)
    } else if media_type == "audio/float32"@ {
        Some(Media::Audio)
    } else {
        None
    }
}

/// The media type that a description gives, or `unknown`.
pub open spec fn media_type_of(members: Map<Seq<char>, Option<Seq<char>>>) -> Seq<char> {
    if members.contains_key("media_type"@) {
        match members["media_type"@] {
            Some(text) => text,
            None => "unknown"@,
        }
    } else {
        "unknown"@
    }
}

/// What a flow carries whose description gives that media type, or none; or the
/// media type that is not known.
pub open spec fn recognised(media_type: Option<Seq<char>>) -> Result<Media, Seq<char>> {
    let text = match media_type {
        Some(text) => text,
        None => "unknown"@,
    };
    match media_of(text) {
        Some(media) => Ok(media),
        None => Err(text),
    }
}

/// The media type that a description gives, if it gives one as a text.
pub open spec fn given_type(members: Map<Seq<char>, Option<Seq<char>>>) -> Option<Seq<char>> {
    if members.contains_key("media_type"@) {
        members["media_type"@]
    } else {
        None
    }
}

/// What a description with those members, if there is one, is found to be of: a
/// medium, or a media type that is not known.
pub open spec fn described(members: Option<Map<Seq<char>, Option<Seq<char>>>>) -> Option<
    Result<Media, Seq<char>>,
> {
    match members {
        Some(members) => Some(recognised(given_type(members))),
        None => None,
    }
}

/// What an outcome says, as a text.
pub open spec fn outcome(media: Result<Media, FlowJsonError>) -> Option<Result<Media, Seq<char>>> {
    match media {
        Ok(media) => Some(Ok(media)),
        Err(FlowJsonError::UnknownMediaType(text)) => Some(Err(text@)),
        Err(FlowJsonError::Invalid(_)) => None,
    }
}

/// What a flow carries whose description gives that media type, or none.
pub fn flow_media(media_type: Option<&str>) -> (media: Result<Media, FlowJsonError>)
    ensures
        ({
            let text = match media_type {
                Some(text) => text@,
                None => "unknown"@,
            };
            match media {
                Ok(media) => media_of(text) == Some(media),
                Err(FlowJsonError::UnknownMediaType(unknown)) => {
                    &&& media_of(text) is None
                    &&& unknown@ == text
                },
                Err(FlowJsonError::Invalid(_)) => false,
            }
        }),
        outcome(media) == Some(
            recognised(
                match media_type {
                    Some(text) => Some(text@),
                    None => None,
                },
            ),
        ),
{
    let text: &str = match media_type {
        Some(text) => text,
        None => "unknown",
    };
    if same_text(text, "video/v210") {
        Ok(Media::Video)
    } else if same_text(text, "audio/float32") {
        Ok(Media::Audio)
    } else {
        Err(FlowJsonError::UnknownMediaType(text.to_owned()))
    }
}

/// What the described flow carries.
pub fn get_flow_def(json: &serde_json::Value) -> (media: Result<Media, FlowJsonError>)
    ensures
        match media {
            Ok(media) => media_of(media_type_of(json_members(*json))) == Some(media),
            Err(FlowJsonError::UnknownMediaType(text)) => {
                &&& media_of(media_type_of(json_members(*json))) is None
                &&& text@ == media_type_of(json_members(*json))
            },
            Err(FlowJsonError::Invalid(_)) => false,
        },
        outcome(media) == described(Some(json_members(*json))),
{
    match json_member(json, "media_type") {
        Some(member) => flow_media(json_str(member)),
        None => flow_media(None),
    }
}

/// Reads a flow's description: what the flow carries, and the document, for the
/// rest of the description.
pub fn read_flow_json(data: &str) -> (description: Result<
    (Media, serde_json::Value),
    FlowJsonError,
>)
    ensures
        match description {
            Ok((media, json)) => {
                &&& parsed_members(data@) == Some(json_members(json))
                &&& media_of(media_type_of(json_members(json))) == Some(media)
            },
            Err(FlowJsonError::Invalid(_)) => parsed_members(data@) is None,
            Err(FlowJsonError::UnknownMediaType(text)) => {
                &&& parsed_members(data@) matches Some(members)
                &&& media_of(media_type_of(members)) is None
                &&& text@ == media_type_of(members)
            },
        },
        match description {
            Ok((media, _)) => described(parsed_members(data@)) == Some(
                Ok::<Media, Seq<char>>(media),
            ),
            Err(error) => described(parsed_members(data@)) == outcome(Err(error)),
        },
{
    match parse_json(data) {
        Ok(json) => match get_flow_def(&json) {
            Ok(media) => Ok((media, json)),
            Err(error) => Err(error),
        },
        Err(error) => Err(FlowJsonError::Invalid(error)),
    }
}

/// A description is one of video if its media type is `video/v210`, one of audio
/// if it is `audio/float32`, and of nothing known otherwise; a description whose
/// media type is missing or no text is of nothing known. The media type alone
/// decides.
pub proof fn law_media_types_decide(
    members: Map<Seq<char>, Option<Seq<char>>>,
    other: Map<Seq<char>, Option<Seq<char>>>,
    text: Seq<char>,
)
    ensures
        media_of(text) == Some(Media::Video) <==> text == "video/v210"@,
        media_of(text) == Some(Media::Audio) <==> text == "audio/float32"@,
        members.contains_key("media_type"@) && members["media_type"@] == Some(text)
            ==> media_type_of(members) == text,
        !members.contains_key("media_type"@) || members["media_type"@] is None ==> media_type_of(
            members,
        ) == "unknown"@ && media_of(media_type_of(members)) is None,
        members.contains_key("media_type"@) == other.contains_key("media_type"@)
            && members["media_type"@] == other["media_type"@] ==> media_type_of(members)
            == media_type_of(other),
{
    reveal_strlit("video/v210");
    reveal_strlit("audio/float32");
    reveal_strlit("unknown");
    assert("video/v210"@.len() == 10 && "audio/float32"@.len() == 13 && "unknown"@.len() == 7);
}

/// A text that is no document has no description. A description is recognised by
/// its media type: as video, as audio, or not at all, and then with the media type
/// that it gives, or `unknown` if it gives none. No other member matters.
pub proof fn law_descriptions_are_recognised(
    members: Map<Seq<char>, Option<Seq<char>>>,
    text: Seq<char>,
    name: Seq<char>,
    value: Option<Seq<char>>,
)
    ensures
        described(None) is None,
        recognised(Some("video/v210"@)) == Ok::<Media, Seq<char>>(Media::Video),
        recognised(Some("audio/float32"@)) == Ok::<Media, Seq<char>>(Media::Audio),
        text != "video/v210"@ && text != "audio/float32"@ ==> recognised(Some(text)) == Err::<
            Media,
            Seq<char>,
        >(text),
        recognised(None) == Err::<Media, Seq<char>>("unknown"@),
        described(Some(members.insert("media_type"@, Some(text)))) == Some(recognised(Some(text))),
        described(Some(members.insert("media_type"@, None))) == Some(recognised(None)),
        described(Some(members.remove("media_type"@))) == Some(recognised(None)),
        name != "media_type"@ ==> described(Some(members.insert(name, value))) == described(
            Some(members),
        ),
{
    reveal_strlit("video/v210");
    reveal_strlit("audio/float32");
    reveal_strlit("unknown");
    assert("video/v210"@.len() == 10 && "audio/float32"@.len() == 13 && "unknown"@.len() == 7);
}

} // verus!
