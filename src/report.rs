use vstd::prelude::*;
use crate::config::{modpack_version, version_field};
use crate::curseforge::ServerPackInfo;
use crate::manifest::views;
use crate::version::{versions_equal, versions_match};

verus! {

/// Why the local modpack version could not be read.
#[derive(Clone, Copy, PartialEq, Eq, Structural)]
pub enum ConfigError {
    /// The configuration assigns no non-empty modpack version.
    FieldMissing,
}

impl ConfigError {
    /// The message shown for this error.
    pub fn message(&self) -> (r: &'static str)
        ensures
            r@ == "Could not find modpackVersion in bcc-common.toml"@,
    {
        "Could not find modpackVersion in bcc-common.toml"
    }
}

/// Reads the installed modpack version from the configuration text: the
/// first non-empty `modpackVersion` assignment.
pub fn local_modpack_version(config: &str) -> (r: Result<String, ConfigError>)
    ensures
        match version_field(config@, true) {
            Some(v) => r matches Ok(s) && s@ == v,
            None => r == Err::<String, ConfigError>(ConfigError::FieldMissing),
        },
{
    match modpack_version(config, true) {
        Some(v) => Ok(v),
        None => Err(ConfigError::FieldMissing),
    }
}

/// Whether the installed modpack is the latest one.
pub struct UpdateStatus {
    pub local_version: String,
    pub latest_version: String,
    pub up_to_date: bool,
}

/// Compares the installed version with the latest server pack's.
pub fn update_status(local_version: String, latest: ServerPackInfo) -> (r: UpdateStatus)
    ensures
        r.local_version@ == local_version@,
        r.latest_version@ == latest.version@,
        r.up_to_date == versions_match(local_version@, latest.version@),
{
    let up_to_date = versions_equal(local_version.as_str(), latest.version.as_str());
    UpdateStatus { local_version, latest_version: latest.version, up_to_date }
}

/// The lowercase hexadecimal digit for `d < 16`.
pub open spec fn hex_digit(d: int) -> char {
    seq!['0', '1', '2', '3', '4', '5', '6', '7', '8', '9', 'a', 'b', 'c', 'd', 'e', 'f'][d]
}

/// How a character stands inside a JSON string: quote and backslash
/// escaped, the control characters with a short escape where JSON has one
/// and `\u00xx` otherwise, everything else as it is.
pub open spec fn json_escape(c: char) -> Seq<char> {
    if c == '"' {
        seq!['\\', '"']
    } else if c == '\\' {
        seq!['\\', '\\']
    } else if c == '\u{8}' {
        seq!['\\', 'b']
    } else if c == '\t' {
        seq!['\\', 't']
    } else if c == '\n' {
        seq!['\\', 'n']
    } else if c == '\u{c}' {
        seq!['\\', 'f']
    } else if c == '\r' {
        seq!['\\', 'r']
    } else if (c as u32) < 0x20 {
        seq!['\\', 'u', '0', '0', hex_digit((c as u32) as int / 16), hex_digit((c as u32) as int % 16)]
    } else {
        seq![c]
    }
}

/// The escaped characters of a JSON string, without its quotes.
pub open spec fn json_string_body(s: Seq<char>) -> Seq<char>
    decreases s.len(),
{
    if s.len() == 0 {
        Seq::empty()
    } else {
        json_string_body(s.drop_last()) + json_escape(s.last())
    }
}

/// A text as a JSON string.
pub open spec fn json_string(s: Seq<char>) -> Seq<char> {
    seq!['"'] + json_string_body(s) + seq!['"']
}

/// The JSON strings of a list, separated by commas.
pub open spec fn json_items(items: Seq<Seq<char>>) -> Seq<char>
    decreases items.len(),
{
    if items.len() == 0 {
        Seq::empty()
    } else if items.len() == 1 {
        json_string(items[0])
    } else {
        json_items(items.drop_last()) + seq![','] + json_string(items.last())
    }
}

/// A list of texts as a compact JSON array of strings.
pub open spec fn json_string_array(items: Seq<Seq<char>>) -> Seq<char> {
    seq!['['] + json_items(items) + seq![']']
}

/// Relies on `serde_json::to_string`: the compact JSON text of a list of
/// strings, escaped by its table of escapes (`ESCAPE` in its `ser.rs`).
/// It fails only for a `Serialize` impl that fails or a map with keys that
/// are not strings, neither of which a list of strings has.
#[verifier::external_body]
fn to_json_array(items: &Vec<String>) -> (r: Option<String>)
    ensures
        r is Some,
        r matches Some(j) ==> j@ == json_string_array(views(items@)),
{
    serde_json::to_string(items).ok()
}

/// Why the listing of staged mods could not be produced.
#[derive(Clone, Copy, PartialEq, Eq, Structural)]
pub enum ListingError {
    /// The names could not be written as JSON.
    SerializeFailed,
}

impl ListingError {
    /// The message shown for this error.
    pub fn message(&self) -> (r: &'static str)
        ensures
            r@ == "Failed to serialize mod list."@,
    {
        "Failed to serialize mod list."
    }
}

/// The listing of staged mods: the JSON array of their file names, in order.
pub fn extra_mods_json(names: &Vec<String>) -> (r: Result<String, ListingError>)
    ensures
        r matches Ok(j) && j@ == json_string_array(views(names@)),
{
    match to_json_array(names) {
        Some(j) => Ok(j),
        None => Err(ListingError::SerializeFailed),
    }
}

} // verus!
