//! Settings in TOML: texts and flags under names.

use vstd::prelude::*;

verus! {

/// The value of a setting.
#[derive(Debug)]
pub enum Value {
    Text(String),
    Flag(bool),
}

/// The value of a setting.
pub enum Setting {
    Text(Seq<char>),
    Flag(bool),
}

impl View for Value {
    type V = Setting;

    open spec fn view(&self) -> Setting {
        match self {
            Value::Text(text) => Setting::Text(text@),
            Value::Flag(flag) => Setting::Flag(*flag),
        }
    }
}

/// The settings of a document, in order. A value that is neither a text nor a flag
/// is left out of its setting.
pub open spec fn setting_views(settings: Seq<(String, Option<Value>)>) -> Seq<
    (Seq<char>, Option<Setting>),
> {
    settings.map_values(
        |setting: (String, Option<Value>)|
            (
                setting.0@,
                match setting.1 {
                    Some(value) => Some(value@),
                    None => None,
                },
            ),
    )
}

/// The names and values to be written, in order.
pub open spec fn entry_views(entries: Seq<(String, Value)>) -> Seq<(Seq<char>, Setting)> {
    entries.map_values(|entry: (String, Value)| (entry.0@, entry.1@))
}

/// The same names and values as a document would have them.
pub open spec fn as_settings(entries: Seq<(Seq<char>, Setting)>) -> Seq<
    (Seq<char>, Option<Setting>),
> {
    entries.map_values(|entry: (Seq<char>, Setting)| (entry.0, Some(entry.1)))
}

/// Whether no name occurs twice.
pub open spec fn names_differ(entries: Seq<(Seq<char>, Setting)>) -> bool {
    forall|i: int, j: int| 0 <= i < j < entries.len() ==> entries[i].0 != entries[j].0
}

/// The settings that a TOML document holds at its top level, in order, or what is said
/// of a text that is not a TOML document.
pub uninterp spec fn toml_document(text: Seq<char>) -> Result<
    Seq<(Seq<char>, Option<Setting>)>,
    Seq<char>,
>;

/// The settings that a TOML document holds at its top level, in order; nothing where
/// the text is not a TOML document.
pub open spec fn toml_settings(text: Seq<char>) -> Option<Seq<(Seq<char>, Option<Setting>)>> {
    match toml_document(text) {
        Ok(settings) => Some(settings),
        Err(_) => None,
    }
}

/// The TOML document with the given settings.
pub uninterp spec fn toml_text(entries: Seq<(Seq<char>, Setting)>) -> Seq<char>;

/// The error of settings that cannot be written as TOML.
#[verifier::external_type_specification]
#[verifier::external_body]
pub struct ExWriteError(toml::ser::Error);

/// Calls `toml::from_str` for a `toml::Table`. The settings come in the order of
/// the document, and a value that is neither a text nor a flag comes without it; of a text that is not a document, the words of the error.
#[verifier::external_body]
pub(crate) fn read_toml(text: &str) -> (result: Result<Vec<(String, Option<Value>)>, String>)
    ensures
        match toml_document(text@) {
            Ok(settings) => result is Ok && setting_views(result->Ok_0@) == settings,
            Err(words) => result is Err && result->Err_0@ == words,
        },
{
    let table: toml::Table = toml::from_str(text).map_err(|error| error.to_string())?;
    let setting = |(name, value)| match value {
        toml::Value::String(text) => (name, Some(Value::Text(text))),
        toml::Value::Boolean(flag) => (name, Some(Value::Flag(flag))),
        toml::Value::Integer(_) => (name, None),
        toml::Value::Float(_) => (name, None),
        toml::Value::Datetime(_) => (name, None),
        toml::Value::Array(_) => (name, None),
        toml::Value::Table(_) => (name, None),
    };
    Ok(table.into_iter().map(setting).collect())
}

/// Calls `toml::to_string` for a `toml::Table` with the given settings. Texts and flags
/// can always be written, and reading the document gives back the settings, in their
/// order.
#[verifier::external_body]
pub(crate) fn write_toml(entries: Vec<(String, Value)>) -> (result: Result<String, toml::ser::Error>)
    requires
        names_differ(entry_views(entries@)),
    ensures
        result is Ok,
        result->Ok_0@ == toml_text(entry_views(entries@)),
        toml_settings(result->Ok_0@) == Some(as_settings(entry_views(entries@))),
{
    let value = |(name, value)| match value {
        Value::Text(text) => (name, toml::Value::String(text)),
        Value::Flag(flag) => (name, toml::Value::Boolean(flag)),
    };
    toml::to_string(&entries.into_iter().map(value).collect::<toml::Table>())
}

/// The value of the first setting with this name; nothing where there is none, and
/// an empty value where it is neither a text nor a flag.
pub open spec fn setting_named(
    settings: Seq<(Seq<char>, Option<Setting>)>,
    name: Seq<char>,
) -> Option<Option<Setting>>
    decreases settings.len(),
{
    if settings.len() == 0 {
        None
    } else if settings[0].0 == name {
        Some(settings[0].1)
    } else {
        setting_named(settings.drop_first(), name)
    }
}

} // verus!
