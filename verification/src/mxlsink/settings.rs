//! What the user tells the sink: which flow to write, and where.
use crate::property::PropertyRead;
use crate::property::PropertyUpdate;
use crate::text::same_text;
use crate::text::text_of;
use vstd::prelude::*;

verus! {

/// The flow to write and the domain it lives in.
#[derive(Debug)]
pub struct Settings {
    pub flow_id: String,
    pub domain: String,
}

/// The texts of the settings.
pub struct SettingsView {
    pub flow_id: Seq<char>,
    pub domain: Seq<char>,
}

impl View for Settings {
    type V = SettingsView;

    open spec fn view(&self) -> SettingsView {
        SettingsView { flow_id: self.flow_id@, domain: self.domain@ }
    }
}

impl Default for Settings {
    fn default() -> (settings: Settings)
        ensures
            settings@ == (SettingsView {
                flow_id: Seq::<char>::empty(),
                domain: Seq::<char>::empty(),
            }),
    {
        Settings { flow_id: String::new(), domain: String::new() }
    }
}

impl Clone for Settings {
    fn clone(&self) -> (copy: Settings)
        ensures
            copy@ == self@,
    {
        Settings { flow_id: self.flow_id.clone(), domain: self.domain.clone() }
    }
}

/// Whether the sink has a property of that name.
pub open spec fn is_property(name: Seq<char>) -> bool {
    name == "flow-id"@ || name == "domain"@
}

/// How setting a property goes.
pub open spec fn update_of(name: Seq<char>, value: Option<Seq<char>>) -> PropertyUpdate {
    if !is_property(name) {
        PropertyUpdate::Unknown
    } else if value is None {
        PropertyUpdate::WrongType
    } else {
        PropertyUpdate::Stored
    }
}

/// The settings after a property has been set.
pub open spec fn with_property(
    settings: SettingsView,
    name: Seq<char>,
    value: Option<Seq<char>>,
) -> SettingsView {
    match value {
        None => settings,
        Some(text) => if name == "flow-id"@ {
            SettingsView { flow_id: text, ..settings }
        } else if name == "domain"@ {
            SettingsView { domain: text, ..settings }
        } else {
            settings
        },
    }
}

/// What a property reads.
pub open spec fn property_of(settings: SettingsView, name: Seq<char>) -> Seq<char> {
    if name == "flow-id"@ {
        settings.flow_id
    } else if name == "domain"@ {
        settings.domain
    } else {
        Seq::<char>::empty()
    }
}

impl Settings {
    /// Sets a property. A value that is no string comes as `None`.
    pub fn set_property(&mut self, name: &str, value: Option<String>) -> (update: PropertyUpdate)
        ensures
            update == update_of(name@, text_of(value)),
            final(self)@ == with_property(old(self)@, name@, text_of(value)),
    {
        if same_text(name, "flow-id") {
            match value {
                Some(text) => {
                    self.flow_id = text;
                    PropertyUpdate::Stored
                },
                None => PropertyUpdate::WrongType,
            }
        } else if same_text(name, "domain") {
            match value {
                Some(text) => {
                    self.domain = text;
                    PropertyUpdate::Stored
                },
                None => PropertyUpdate::WrongType,
            }
        } else {
            PropertyUpdate::Unknown
        }
    }

    /// Reads a property.
    pub fn property(&self, name: &str) -> (read: PropertyRead)
        ensures
            text_of(read.value) == Some(property_of(self@, name@)),
            read.known == is_property(name@),
    {
        if same_text(name, "flow-id") {
            PropertyRead { value: Some(self.flow_id.clone()), known: true }
        } else if same_text(name, "domain") {
            PropertyRead { value: Some(self.domain.clone()), known: true }
        } else {
            PropertyRead { value: Some(String::new()), known: false }
        }
    }
}

/// A string that is set on a property reads back, and every other property
/// reads as before.
pub proof fn law_properties_read_back(
    settings: SettingsView,
    name: Seq<char>,
    text: Seq<char>,
    other: Seq<char>,
)
    requires
        is_property(name),
    ensures
        property_of(with_property(settings, name, Some(text)), name) == text,
        other != name ==> property_of(with_property(settings, name, Some(text)), other)
            == property_of(settings, other),
{
    reveal_strlit("flow-id");
    reveal_strlit("domain");
    assert("flow-id"@.len() != "domain"@.len());
}

/// A value that is no string, or a property that the sink does not have,
/// changes nothing.
pub proof fn law_refused_properties_change_nothing(
    settings: SettingsView,
    name: Seq<char>,
    value: Option<Seq<char>>,
)
    requires
        !(update_of(name, value) is Stored),
    ensures
        with_property(settings, name, value) == settings,
{
}

/// The properties are `flow-id` and `domain`. A string is taken for each of them
/// and for nothing else; anything but a string is of the wrong type. A property
/// that does not exist reads as empty text.
pub proof fn law_properties_are_known_by_name(
    settings: SettingsView,
    name: Seq<char>,
    value: Option<Seq<char>>,
)
    ensures
        is_property(name) <==> name == "flow-id"@ || name == "domain"@,
        update_of(name, value) is Unknown <==> !is_property(name),
        update_of(name, value) is WrongType <==> is_property(name) && value is None,
        update_of(name, value) is Stored <==> is_property(name) && value is Some,
        !is_property(name) ==> property_of(settings, name) == Seq::<char>::empty(),
        property_of(settings, "flow-id"@) == settings.flow_id,
        property_of(settings, "domain"@) == settings.domain,
{
    reveal_strlit("flow-id");
    reveal_strlit("domain");
    assert("flow-id"@.len() != "domain"@.len());
}

} // verus!
