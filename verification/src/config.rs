//! The persisted configuration as a TOML document with one string entry.

use crate::prompt::{prompt_of, text_of, trim_prompt_input, trim_trailing, Config};
use vstd::prelude::*;

verus! {

/// The TOML document that holds one string entry; `None` where the TOML
/// serializer reports an error.
pub uninterp spec fn toml_entry_document(key: Seq<char>, value: Seq<char>) -> Option<Seq<char>>;

/// The string stored under a key at the top of a TOML document; `None` where
/// the text is no TOML document, has no such key, or holds another kind of
/// value under it.
pub uninterp spec fn toml_string_entry(document: Seq<char>, key: Seq<char>) -> Option<Seq<char>>;

/// Calls `toml::to_string` on a `toml::Table` that holds the one entry
/// `key = value`, the value as a TOML string. Trusted: the document returned
/// is a function of the key and the value alone, named
/// `toml_entry_document`, and a serializer error comes back as `None`.
#[verifier::external_body]
fn toml_write_entry(key: &str, value: &str) -> (document: Option<String>)
    ensures
        text_of(document) == toml_entry_document(key@, value@),
{
    let mut table = toml::Table::new();
    table.insert(key.to_string(), toml::Value::String(value.to_string()));
    toml::to_string(&table).ok()
}

/// Calls `toml::from_str` to read a document as a `toml::Table`, then
/// `toml::Table::get` with the key. Trusted: what comes back is a function of
/// the document and the key alone, named `toml_string_entry`; it is the
/// string stored under the key, and `None` for a parse error, a missing key
/// or a value that is no string.
#[verifier::external_body]
fn toml_read_entry(document: &str, key: &str) -> (value: Option<String>)
    ensures
        text_of(value) == toml_string_entry(document@, key@),
{
    match toml::from_str::<toml::Table>(document) {
        Ok(table) => match table.get(key) {
            Some(toml::Value::String(text)) => Some(text.clone()),
            _ => None,
        },
        Err(_) => None,
    }
}

/// The key under which the parent prompt is stored.
pub open spec fn prompt_key() -> Seq<char> {
    "parent_prompt"@
}

/// The document that persists a prompt.
pub open spec fn config_document(prompt: Seq<char>) -> Option<Seq<char>> {
    toml_entry_document(prompt_key(), prompt)
}

/// The prompt that a document persists.
pub open spec fn stored_prompt(document: Seq<char>) -> Option<Seq<char>> {
    toml_string_entry(document, prompt_key())
}

/// A persisted document could be read, but holds no parent prompt.
#[derive(Clone, Copy, Debug, PartialEq, Eq, Structural)]
pub struct InvalidConfig;

/// Renders a configuration as the document to persist; `None` where the
/// serializer fails.
pub fn render_config(config: &Config) -> (document: Option<String>)
    ensures
        text_of(document) == config_document(config@),
{
    toml_write_entry("parent_prompt", config.parent_prompt.as_str())
}

/// Makes the configuration out of the entry found in a document.
pub fn config_from_entry(entry: Option<String>) -> (config: Result<Config, InvalidConfig>)
    ensures
        match config {
            Ok(found) => entry.is_some() && found@ == entry.unwrap()@,
            Err(_) => entry.is_none(),
        },
{
    match entry {
        Some(parent_prompt) => Ok(Config { parent_prompt }),
        None => Err(InvalidConfig),
    }
}

/// Reads a persisted document.
pub fn parse_config(document: &str) -> (config: Result<Config, InvalidConfig>)
    ensures
        match config {
            Ok(found) => stored_prompt(document@) == Some(found@),
            Err(_) => stored_prompt(document@).is_none(),
        },
{
    config_from_entry(toml_read_entry(document, "parent_prompt"))
}

/// What loading finds in the configuration file's contents, where `None`
/// stands for a file that does not exist: no configuration for a missing
/// file, the stored prompt for a valid document, and an error otherwise.
pub open spec fn loaded(document: Option<Seq<char>>) -> Result<Option<Seq<char>>, InvalidConfig> {
    match document {
        None => Ok(None),
        Some(text) => match stored_prompt(text) {
            Some(prompt) => Ok(Some(prompt)),
            None => Err(InvalidConfig),
        },
    }
}

/// Loads the configuration from the contents of its file, if the file
/// exists.
pub fn load_config(document: Option<&str>) -> (config: Result<Option<Config>, InvalidConfig>)
    ensures
        match config {
            Ok(found) => loaded(
                match document {
                    Some(text) => Some(text@),
                    None => None,
                },
            ) == Ok::<Option<Seq<char>>, InvalidConfig>(prompt_of(found)),
            Err(_) => document.is_some() && stored_prompt(document.unwrap()@).is_none(),
        },
{
    match document {
        None => Ok(None),
        Some(text) => match parse_config(text) {
            Ok(found) => Ok(Some(found)),
            Err(e) => Err(e),
        },
    }
}

/// Turns the line typed at the setup prompt into the document to persist:
/// the line without its trailing white space, stored as the parent prompt.
/// `None` where the serializer fails.
pub fn setup(line: &str) -> (document: Option<String>)
    ensures
        text_of(document) == config_document(trim_trailing(line@)),
{
    let config = Config { parent_prompt: trim_prompt_input(line) };
    render_config(&config)
}

} // verus!
