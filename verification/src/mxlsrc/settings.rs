//! What the user tells the source: which flow to read, and where it is.
use crate::property::PropertyRead;
use crate::property::PropertyUpdate;
use crate::text::concat;
use crate::text::copy_text;
use crate::text::same_text;
use crate::text::text_of;
use crate::timing::Media;
use vstd::prelude::*;

verus! {

/// The flow to read, by kind, and the domain it lives in.
#[derive(Debug)]
pub struct Settings {
    pub video_flow: Option<String>,
    pub audio_flow: Option<String>,
    pub domain: String,
}

/// The texts of the settings.
pub struct SettingsView {
    pub video_flow: Option<Seq<char>>,
    pub audio_flow: Option<Seq<char>>,
    pub domain: Seq<char>,
}

impl View for Settings {
    type V = SettingsView;

    open spec fn view(&self) -> SettingsView {
        SettingsView {
            video_flow: text_of(self.video_flow),
            audio_flow: text_of(self.audio_flow),
            domain: self.domain@,
        }
    }
}

impl Default for Settings {
    fn default() -> (settings: Settings)
        ensures
            settings@ == (SettingsView {
                video_flow: None,
                audio_flow: None,
                domain: Seq::<char>::empty(),
            }),
    {
        Settings { video_flow: None, audio_flow: None, domain: String::new() }
    }
}

impl Clone for Settings {
    fn clone(&self) -> (copy: Settings)
        ensures
            copy@ == self@,
    {
        Settings {
            video_flow: copy_text(&self.video_flow),
            audio_flow: copy_text(&self.audio_flow),
            domain: self.domain.clone(),
        }
    }
}

/// Whether the source has a property of that name.
pub open spec fn is_property(name: Seq<char>) -> bool {
    name == "video-flow"@ || name == "audio-flow"@ || name == "domain"@
}

/// How setting a property goes.
pub open spec fn update_of(name: Seq<char>, value: Option<Seq<char>>) -> PropertyUpdate {
    if !is_property(name) {
        PropertyUpdate::Unknown
    } else if value is None {
        PropertyUpdate::WrongType
    } else {
        PropertyUpdate::Stored
    }
}

/// The settings after a property has been set.
pub open spec fn with_property(
    settings: SettingsView,
    name: Seq<char>,
    value: Option<Seq<char>>,
) -> SettingsView {
    match value {
        None => settings,
        Some(text) => if name == "video-flow"@ {
            SettingsView { video_flow: Some(text), ..settings }
        } else if name == "audio-flow"@ {
            SettingsView { audio_flow: Some(text), ..settings }
        } else if name == "domain"@ {
            SettingsView { domain: text, ..settings }
        } else {
            settings
        },
    }
}

/// What a property reads.
pub open spec fn property_of(settings: SettingsView, name: Seq<char>) -> Option<Seq<char>> {
    if name == "video-flow"@ {
        settings.video_flow
    } else if name == "audio-flow"@ {
        settings.audio_flow
    } else if name == "domain"@ {
        Some(settings.domain)
    } else {
        Some(Seq::<char>::empty())
    }
}

/// The flow that the source reads: the video flow where there is one, else the
/// audio flow.
pub open spec fn chosen_flow(settings: SettingsView) -> Option<Seq<char>> {
    if settings.video_flow is Some {
        settings.video_flow
    } else {
        settings.audio_flow
    }
}

/// Where the description of a flow is kept.
pub open spec fn description_path(domain: Seq<char>, flow_id: Seq<char>) -> Seq<char> {
    domain + "/"@ + flow_id + ".mxl-flow/.json"@
}

/// What to do about the format of the stream.
#[derive(Debug)]
pub enum Negotiation {
    /// Both kinds of flow are set: leave the format to the base class.
    BothFlows,
    /// The flow or its domain is not known yet: leave the format to the base
    /// class.
    Incomplete,
    /// Read the flow's description from this file.
    Read { path: String },
}

/// What to do about the format of the stream, with the path as a text.
pub enum Plan {
    BothFlows,
    Incomplete,
    Read(Seq<char>),
}

impl View for Negotiation {
    type V = Plan;

    open spec fn view(&self) -> Plan {
        match *self {
            Negotiation::BothFlows => Plan::BothFlows,
            Negotiation::Incomplete => Plan::Incomplete,
            Negotiation::Read { path } => Plan::Read(path@),
        }
    }
}

/// What to do about the format of the stream.
pub open spec fn plan_of(settings: SettingsView) -> Plan {
    if settings.video_flow is Some && settings.audio_flow is Some {
        Plan::BothFlows
    } else if settings.domain.len() == 0 || chosen_flow(settings) is None {
        Plan::Incomplete
    } else {
        Plan::Read(description_path(settings.domain, chosen_flow(settings)->0))
    }
}

/// The kind of flow that the source opens when it starts, if any.
pub open spec fn media_of_settings(settings: SettingsView) -> Option<Media> {
    if settings.video_flow is Some {
        Some(Media::Video)
    } else if settings.audio_flow is Some {
        Some(Media::Audio)
    } else {
        None
    }
}

/// Neither flow is set.
#[derive(Debug, Clone, Copy, PartialEq, Eq, Structural)]
pub struct NoFlowId;

impl Settings {
    /// Sets a property. A value that is no string comes as `None`.
    pub fn set_property(&mut self, name: &str, value: Option<String>) -> (update: PropertyUpdate)
        ensures
            update == update_of(name@, text_of(value)),
            final(self)@ == with_property(old(self)@, name@, text_of(value)),
    {
        if same_text(name, "video-flow") {
            match value {
                Some(text) => {
                    self.video_flow = Some(text);
                    PropertyUpdate::Stored
                },
                None => PropertyUpdate::WrongType,
            }
        } else if same_text(name, "audio-flow") {
            match value {
                Some(text) => {
                    self.audio_flow = Some(text);
                    PropertyUpdate::Stored
                },
                None => PropertyUpdate::WrongType,
            }
        } else if same_text(name, "domain") {
            match value {
                Some(text) => {
                    self.domain = text;
                    PropertyUpdate::Stored
                },
                None => PropertyUpdate::WrongType,
            }
        } else {
            PropertyUpdate::Unknown
        }
    }

    /// Reads a property.
    pub fn property(&self, name: &str) -> (read: PropertyRead)
        ensures
            text_of(read.value) == property_of(self@, name@),
            read.known == is_property(name@),
    {
        if same_text(name, "video-flow") {
            PropertyRead { value: copy_text(&self.video_flow), known: true }
        } else if same_text(name, "audio-flow") {
            PropertyRead { value: copy_text(&self.audio_flow), known: true }
        } else if same_text(name, "domain") {
            PropertyRead { value: Some(self.domain.clone()), known: true }
        } else {
            PropertyRead { value: Some(String::new()), known: false }
        }
    }

    /// The flow that the source reads.
    pub fn get_flow_type_id(&self) -> (id: Result<&String, NoFlowId>)
        ensures
            match id {
                Ok(id) => chosen_flow(self@) == Some(id@),
                Err(_) => chosen_flow(self@) is None,
            },
    {
        match &self.video_flow {
            Some(id) => Ok(id),
            None => match &self.audio_flow {
                Some(id) => Ok(id),
                None => Err(NoFlowId),
            },
        }
    }

    /// The kind of flow that the source opens when it starts, if any.
    pub fn flow_media(&self) -> (media: Option<Media>)
        ensures
            media == (if self@.video_flow is Some {
                Some(Media::Video)
            } else if self@.audio_flow is Some {
                Some(Media::Audio)
            } else {
                None
            }),
            media == media_of_settings(self@),
    {
        if self.video_flow.is_some() {
            Some(Media::Video)
        } else if self.audio_flow.is_some() {
            Some(Media::Audio)
        } else {
            None
        }
    }

    /// Decides how to find out the format of the stream.
    pub fn negotiate(&self) -> (decision: Negotiation)
        ensures
            match decision {
                Negotiation::BothFlows => self@.video_flow is Some && self@.audio_flow is Some,
                Negotiation::Incomplete => {
                    &&& self@.video_flow is None || self@.audio_flow is None
                    &&& self@.domain.len() == 0 || chosen_flow(self@) is None
                },
                Negotiation::Read { path } => {
                    &&& self@.video_flow is None || self@.audio_flow is None
                    &&& self@.domain.len() > 0
                    &&& chosen_flow(self@) matches Some(id)
                    &&& path@ == description_path(self@.domain, id)
                },
            },
            decision@ == plan_of(self@),
    {
        if self.audio_flow.is_some() && self.video_flow.is_some() {
            return Negotiation::BothFlows;
        }
        if self.domain.as_str().is_empty() {
            return Negotiation::Incomplete;
        }
        match self.get_flow_type_id() {
            Ok(id) => {
                let mut path = concat(self.domain.as_str(), "/");
                path.append(id.as_str());
                path.append(".mxl-flow/.json");
                Negotiation::Read { path }
            },
            Err(_) => Negotiation::Incomplete,
        }
    }
}

/// A string that is set on a property reads back, and every other property
/// reads as before.
pub proof fn law_properties_read_back(
    settings: SettingsView,
    name: Seq<char>,
    text: Seq<char>,
    other: Seq<char>,
)
    requires
        is_property(name),
    ensures
        property_of(with_property(settings, name, Some(text)), name) == Some(text),
        other != name ==> property_of(with_property(settings, name, Some(text)), other)
            == property_of(settings, other),
{
    reveal_strlit("video-flow");
    reveal_strlit("audio-flow");
    reveal_strlit("domain");
    assert("video-flow"@.len() != "domain"@.len());
    assert("audio-flow"@.len() != "domain"@.len());
    assert("video-flow"@[0] != "audio-flow"@[0]);
}

/// A value that is no string, or a property that the source does not have,
/// changes nothing.
pub proof fn law_refused_properties_change_nothing(
    settings: SettingsView,
    name: Seq<char>,
    value: Option<Seq<char>>,
)
    requires
        !(update_of(name, value) is Stored),
    ensures
        with_property(settings, name, value) == settings,
{
}

/// The audio flow that is set is the one that the source reads, as long as
/// no video flow is set.
pub proof fn law_audio_flow_is_read(settings: SettingsView, text: Seq<char>)
    requires
        settings.video_flow is None,
    ensures
        chosen_flow(with_property(settings, "audio-flow"@, Some(text))) == Some(text),
{
    reveal_strlit("video-flow");
    reveal_strlit("audio-flow");
    assert("video-flow"@[0] != "audio-flow"@[0]);
}

/// The properties are `video-flow`, `audio-flow` and `domain`. A string is taken
/// for each of them and for nothing else; anything but a string is of the wrong
/// type. A property that does not exist reads as empty text.
pub proof fn law_properties_are_known_by_name(
    settings: SettingsView,
    name: Seq<char>,
    value: Option<Seq<char>>,
)
    ensures
        is_property(name) <==> name == "video-flow"@ || name == "audio-flow"@ || name == "domain"@,
        update_of(name, value) is Unknown <==> !is_property(name),
        update_of(name, value) is WrongType <==> is_property(name) && value is None,
        update_of(name, value) is Stored <==> is_property(name) && value is Some,
        !is_property(name) ==> property_of(settings, name) == Some(Seq::<char>::empty()),
        property_of(settings, "video-flow"@) == settings.video_flow,
        property_of(settings, "audio-flow"@) == settings.audio_flow,
        property_of(settings, "domain"@) == Some(settings.domain),
{
    reveal_strlit("video-flow");
    reveal_strlit("audio-flow");
    reveal_strlit("domain");
    assert("video-flow"@.len() != "domain"@.len());
    assert("video-flow"@[0] != "audio-flow"@[0]);
}

/// The source reads the video flow whenever one is set, and then it is a video
/// source; it reads the audio flow, and is an audio source, if that is the only
/// one that is set.
pub proof fn law_the_video_flow_comes_first(settings: SettingsView)
    ensures
        settings.video_flow is Some ==> chosen_flow(settings) == settings.video_flow
            && media_of_settings(settings) == Some(Media::Video),
        settings.video_flow is None && settings.audio_flow is Some ==> chosen_flow(settings)
            == settings.audio_flow && media_of_settings(settings) == Some(Media::Audio),
        settings.video_flow is None && settings.audio_flow is None ==> chosen_flow(settings) is None
            && media_of_settings(settings) is None,
{
}

/// A description is read exactly if one flow is set, not both, and the domain is
/// not empty. The file is that of the flow in its domain: its path is the
/// domain, a slash, the flow's id and the name of the description.
pub proof fn law_descriptions_are_read_from_the_flow(settings: SettingsView)
    ensures
        plan_of(settings) is BothFlows <==> settings.video_flow is Some && settings.audio_flow
            is Some,
        plan_of(settings) is Read <==> settings.domain.len() > 0 && (settings.video_flow is Some
            <==> settings.audio_flow is None),
        plan_of(settings) matches Plan::Read(path) ==> {
            let id = if settings.video_flow is Some {
                settings.video_flow->0
            } else {
                settings.audio_flow->0
            };
            let d = settings.domain.len() as int;
            &&& path.len() == d + 1 + id.len() + 15
            &&& path.take(d) == settings.domain
            &&& path[d] == '/'
            &&& path.subrange(d + 1, d + 1 + id.len()) == id
            &&& path.skip(d + 1 + id.len()) == ".mxl-flow/.json"@
        },
{
    reveal_strlit("/");
    reveal_strlit(".mxl-flow/.json");
    if let Plan::Read(path) = plan_of(settings) {
        let id = chosen_flow(settings)->0;
        let d = settings.domain.len() as int;
        assert(path.take(d) =~= settings.domain);
        assert(path.subrange(d + 1, d + 1 + id.len()) =~= id);
        assert(path.skip(d + 1 + id.len()) =~= ".mxl-flow/.json"@);
    }
}

/// Different flows, in one domain or in different ones of the same length, have
/// their descriptions in different files.
pub proof fn law_flows_have_their_own_descriptions(
    domain: Seq<char>,
    id: Seq<char>,
    other_domain: Seq<char>,
    other_id: Seq<char>,
)
    requires
        domain.len() == other_domain.len(),
        description_path(domain, id) == description_path(other_domain, other_id),
    ensures
        domain == other_domain,
        id == other_id,
{
    let path = description_path(domain, id);
    let other = description_path(other_domain, other_id);
    let d = domain.len() as int;
    reveal_strlit("/");
    assert(path.take(d) =~= domain);
    assert(other.take(d) =~= other_domain);
    reveal_strlit(".mxl-flow/.json");
    assert(path.len() == d + 1 + id.len() + 15);
    assert(other.len() == d + 1 + other_id.len() + 15);
    assert(path.subrange(d + 1, d + 1 + id.len()) =~= id);
    assert(other.subrange(d + 1, d + 1 + id.len()) =~= other_id);
}

} // verus!
