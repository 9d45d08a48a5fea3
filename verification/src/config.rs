//! The client's configuration: the server's address and the access token, read
//! from a TOML document.

use vstd::prelude::*;
use vstd::string::*;

verus! {

#[verifier::external_type_specification]
#[verifier::external_body]
#[verifier::reject_recursive_types(K)]
#[verifier::reject_recursive_types(V)]
pub struct ExTomlMap<K, V>(toml::map::Map<K, V>);

#[verifier::external_type_specification]
#[verifier::external_body]
pub struct ExTomlValue(toml::Value);

/// The top-level entries of a TOML table as far as the configuration reads them:
/// each key, with its text where the value is a TOML string and `None` where it is
/// a value of another kind.
pub uninterp spec fn toml_string_fields(table: toml::map::Map<String, toml::Value>) -> Map<Seq<char>, Option<Seq<char>>>;

/// The top-level entries, in the sense of `toml_string_fields`, of the table that
/// the TOML parser reads from `text`; `None` when `text` is no TOML document.
pub uninterp spec fn toml_parse(text: Seq<char>) -> Option<Map<Seq<char>, Option<Seq<char>>>>;

/// Calls `<toml::Table as FromStr>::from_str` on `text`. The contract ties the table
/// to the document that `text` holds, through `toml_parse`; what TOML accepts is left
/// to that name.
#[verifier::external_body]
fn parse_toml_table(text: &str) -> (r: Option<toml::map::Map<String, toml::Value>>)
    ensures
        match r {
            Some(t) => toml_parse(text@) == Some(toml_string_fields(t)),
            None => toml_parse(text@) is None,
        },
{
    text.parse::<toml::Table>().ok()
}

/// How a key of a TOML table reads as a string.
pub enum TomlField {
    Missing,
    NotAString,
    Text(String),
}

/// Calls `toml::map::Map::get` on `table` and tells the entry's kind apart: absent,
/// a string (copied out), or a value of another kind.
#[verifier::external_body]
fn toml_get_string(table: &toml::map::Map<String, toml::Value>, key: &str) -> (r: TomlField)
    ensures
        match r {
            TomlField::Missing => !toml_string_fields(*table).contains_key(key@),
            TomlField::NotAString => toml_string_fields(*table).contains_key(key@)
                && toml_string_fields(*table)[key@] is None,
            TomlField::Text(s) => toml_string_fields(*table).contains_key(key@)
                && toml_string_fields(*table)[key@] == Some(s@),
        },
{
    match table.get(key) {
        None => TomlField::Missing,
        Some(toml::Value::String(s)) => TomlField::Text(s.clone()),
        Some(_) => TomlField::NotAString,
    }
}

/// Where the server is and how to authenticate to it.
#[derive(Clone, Debug)]
pub struct Config {
    pub access_token: String,
    pub url: String,
}

/// Why a configuration document was refused.
#[derive(Clone, Debug)]
pub enum ConfigError {
    /// The text is not a TOML document.
    Parse,
    /// The document has no entry for the key.
    MissingKey(String),
    /// The entry for the key is not a string.
    NotAString(String),
}

/// A configuration or a refusal, by the text of each string.
pub enum ConfigOutcome {
    Config { access_token: Seq<char>, url: Seq<char> },
    Parse,
    MissingKey(Seq<char>),
    NotAString(Seq<char>),
}

pub open spec fn outcome_of(r: Result<Config, ConfigError>) -> ConfigOutcome {
    match r {
        Ok(c) => ConfigOutcome::Config { access_token: c.access_token@, url: c.url@ },
        Err(ConfigError::Parse) => ConfigOutcome::Parse,
        Err(ConfigError::MissingKey(k)) => ConfigOutcome::MissingKey(k@),
        Err(ConfigError::NotAString(k)) => ConfigOutcome::NotAString(k@),
    }
}

/// The configuration that a document's string entries give: the access token is read
/// first and the address second, and the first entry that is missing or not a string
/// is the refusal.
pub open spec fn config_from_fields(fields: Map<Seq<char>, Option<Seq<char>>>) -> ConfigOutcome {
    if !fields.contains_key("access_token"@) {
        ConfigOutcome::MissingKey("access_token"@)
    } else if fields["access_token"@] is None {
        ConfigOutcome::NotAString("access_token"@)
    } else if !fields.contains_key("url"@) {
        ConfigOutcome::MissingKey("url"@)
    } else if fields["url"@] is None {
        ConfigOutcome::NotAString("url"@)
    } else {
        ConfigOutcome::Config { access_token: fields["access_token"@]->0, url: fields["url"@]->0 }
    }
}

/// The configuration that the document `text` gives.
pub open spec fn config_from_toml(text: Seq<char>) -> ConfigOutcome {
    match toml_parse(text) {
        None => ConfigOutcome::Parse,
        Some(fields) => config_from_fields(fields),
    }
}

/// A configuration holds exactly the document's two string entries: when one comes out,
/// its access token is the whole text of the `access_token` entry and its address the
/// whole text of the `url` entry. One comes out exactly when both entries are strings;
/// otherwise the refusal names the first key, in the order `access_token`, `url`, whose
/// entry is missing or not a string.
pub proof fn lemma_config_is_the_entries(text: Seq<char>)
    ensures
        match toml_parse(text) {
            None => config_from_toml(text) is Parse,
            Some(fields) => {
                &&& (config_from_toml(text) matches ConfigOutcome::Config { access_token, url } ==> {
                    &&& fields.contains_key("access_token"@)
                    &&& fields["access_token"@] == Some(access_token)
                    &&& fields.contains_key("url"@)
                    &&& fields["url"@] == Some(url)
                })
                &&& (fields.contains_key("access_token"@) && fields["access_token"@] is Some
                    && fields.contains_key("url"@) && fields["url"@] is Some)
                    <==> config_from_toml(text) is Config
                &&& (config_from_toml(text) matches ConfigOutcome::MissingKey(k) ==> !fields.contains_key(k)
                    && (k == "access_token"@ || (k == "url"@ && fields["access_token"@] is Some)))
                &&& (config_from_toml(text) matches ConfigOutcome::NotAString(k) ==> fields.contains_key(k)
                    && fields[k] is None && (k == "access_token"@ || (k == "url"@ && fields["access_token"@] is Some)))
            },
        },
{
}

/// Reads the string entry `key` of `table`.
fn get(table: &toml::map::Map<String, toml::Value>, key: &str) -> (r: Result<String, ConfigError>)
    ensures
        match r {
            Ok(s) => toml_string_fields(*table).contains_key(key@)
                && toml_string_fields(*table)[key@] == Some(s@),
            Err(ConfigError::MissingKey(k)) => k@ == key@ && !toml_string_fields(*table).contains_key(key@),
            Err(ConfigError::NotAString(k)) => k@ == key@ && toml_string_fields(*table).contains_key(key@)
                && toml_string_fields(*table)[key@] is None,
            Err(ConfigError::Parse) => false,
        },
{
    match toml_get_string(table, key) {
        TomlField::Missing => Err(ConfigError::MissingKey(key.to_owned())),
        TomlField::NotAString => Err(ConfigError::NotAString(key.to_owned())),
        TomlField::Text(s) => Ok(s),
    }
}

impl Config {
    /// The configuration that a TOML document gives: the string entries
    /// `access_token` and `url` of its top-level table.
    pub fn from_toml(text: &str) -> (r: Result<Config, ConfigError>)
        ensures
            outcome_of(r) == config_from_toml(text@),
    {
        match parse_toml_table(text) {
            Some(table) => Self::from_table(&table),
            None => Err(ConfigError::Parse),
        }
    }

    /// The configuration that a parsed TOML table gives: its string entries
    /// `access_token` and `url`, read in that order.
    pub fn from_table(table: &toml::map::Map<String, toml::Value>) -> (r: Result<Config, ConfigError>)
        ensures
            outcome_of(r) == config_from_fields(toml_string_fields(*table)),
    {
        let access_token = match get(table, "access_token") {
            Ok(s) => s,
            Err(e) => return Err(e),
        };
        let url = match get(table, "url") {
            Ok(s) => s,
            Err(e) => return Err(e),
        };
        Ok(Config { access_token, url })
    }

    /// The address of the server's websocket API: the configured address followed by
    /// `/api/websocket`.
    pub fn websocket_url(&self) -> (r: String)
        ensures
            r@ == self.url@ + "/api/websocket"@,
    {
        let mut s = self.url.clone();
        s.append("/api/websocket");
        s
    }
}

} // verus!
