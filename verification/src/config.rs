//! The run's configuration: an API key and the three filesystem paths,
//! loaded once from a JSON object and immutable afterwards.

use vstd::prelude::*;
use crate::error::ApodError;
use crate::json::json_fields;
use crate::json::get_string_field;
use crate::json::parse_json;
use crate::json::parsed_fields;
use crate::json::str_field;

verus! {

/// The four required settings of one run.
pub struct Config {
    pub api_key: String,
    pub storage_dir: String,
    pub favorite_dir: String,
    pub background_path: String,
}

/// Builds the configuration from a parsed JSON object. Succeeds exactly when
/// all four required keys hold strings; any missing or non-string key is a
/// `ConfigError`.
pub fn config_from_json(v: &serde_json::Value) -> (r: Result<Config, ApodError>)
    ensures
        ({
            let f = json_fields(*v);
            match r {
                Ok(c) => {
                    &&& str_field(f, "api_key"@) == Some(c.api_key@)
                    &&& str_field(f, "storage_dir"@) == Some(c.storage_dir@)
                    &&& str_field(f, "favorite_dir"@) == Some(c.favorite_dir@)
                    &&& str_field(f, "background_path"@) == Some(c.background_path@)
                },
                Err(e) => {
                    &&& e == ApodError::ConfigError
                    &&& {
                        ||| str_field(f, "api_key"@) is None
                        ||| str_field(f, "storage_dir"@) is None
                        ||| str_field(f, "favorite_dir"@) is None
                        ||| str_field(f, "background_path"@) is None
                    }
                },
            }
        }),
{
    let api_key = match get_string_field(v, "api_key") {
        Some(s) => s,
        None => {
            return Err(ApodError::ConfigError);
        },
    };
    let storage_dir = match get_string_field(v, "storage_dir") {
        Some(s) => s,
        None => {
            return Err(ApodError::ConfigError);
        },
    };
    let favorite_dir = match get_string_field(v, "favorite_dir") {
        Some(s) => s,
        None => {
            return Err(ApodError::ConfigError);
        },
    };
    let background_path = match get_string_field(v, "background_path") {
        Some(s) => s,
        None => {
            return Err(ApodError::ConfigError);
        },
    };
    Ok(Config { api_key, storage_dir, favorite_dir, background_path })
}

/// The parsed text holds all four required configuration fields as
/// strings.
pub open spec fn config_fields_ok(pf: Option<Map<Seq<char>, Option<Seq<char>>>>) -> bool {
    &&& pf matches Some(f)
    &&& str_field(f, "api_key"@) is Some
    &&& str_field(f, "storage_dir"@) is Some
    &&& str_field(f, "favorite_dir"@) is Some
    &&& str_field(f, "background_path"@) is Some
}

/// The configuration value holds exactly the four fields of the map.
pub open spec fn config_matches(f: Map<Seq<char>, Option<Seq<char>>>, c: Config) -> bool {
    &&& str_field(f, "api_key"@) == Some(c.api_key@)
    &&& str_field(f, "storage_dir"@) == Some(c.storage_dir@)
    &&& str_field(f, "favorite_dir"@) == Some(c.favorite_dir@)
    &&& str_field(f, "background_path"@) == Some(c.background_path@)
}

/// Loads the configuration from the text of the config file. Succeeds
/// exactly when the text parses to a JSON object whose four required keys
/// hold strings, and then the configuration holds exactly those strings;
/// anything else is a `ConfigError`, and nothing else is.
pub fn parse_config(text: &str) -> (r: Result<Config, ApodError>)
    ensures
        ({
            match r {
                Ok(c) => config_fields_ok(parsed_fields(text@)) && (parsed_fields(text@)
                    matches Some(f) && config_matches(f, c)),
                Err(e) => e == ApodError::ConfigError && !config_fields_ok(
                    parsed_fields(text@),
                ),
            }
        }),
{
    match parse_json(text) {
        Some(v) => config_from_json(&v),
        None => Err(ApodError::ConfigError),
    }
}

} // verus!
