//! The day's picture metadata, as fetched from the remote endpoint.

use vstd::prelude::*;
use crate::error::ApodError;
use crate::json::json_fields;
use crate::json::get_string_field;
use crate::json::parse_json;
use crate::json::parsed_fields;
use crate::json::str_field;
use crate::text::str_eq;

verus! {

/// The metadata record of one day's picture, constructed once per run from
/// the fetch response and immutable thereafter. The `date` field is a
/// `YYYY-MM-DD` string, ASCII and lexicographically sortable as a calendar
/// date, which the favorite selector relies on.
pub struct DailyPicture {
    pub copyright: Option<String>,
    pub date: String,
    pub explanation: String,
    pub hdurl: String,
    pub media_type: String,
    pub title: String,
}

/// Builds the record from a parsed JSON object. Succeeds exactly when the
/// five required keys hold strings; `copyright` is optional and is taken
/// only when present as a string. A missing or non-string required key is a
/// `SchemaError`.
pub fn picture_from_json(v: &serde_json::Value) -> (r: Result<DailyPicture, ApodError>)
    ensures
        ({
            let f = json_fields(*v);
            match r {
                Ok(p) => {
                    &&& str_field(f, "date"@) == Some(p.date@)
                    &&& str_field(f, "explanation"@) == Some(p.explanation@)
                    &&& str_field(f, "hdurl"@) == Some(p.hdurl@)
                    &&& str_field(f, "media_type"@) == Some(p.media_type@)
                    &&& str_field(f, "title"@) == Some(p.title@)
                    &&& match p.copyright {
                        Some(c) => str_field(f, "copyright"@) == Some(c@),
                        None => str_field(f, "copyright"@) is None,
                    }
                },
                Err(e) => {
                    &&& e == ApodError::SchemaError
                    &&& {
                        ||| str_field(f, "date"@) is None
                        ||| str_field(f, "explanation"@) is None
                        ||| str_field(f, "hdurl"@) is None
                        ||| str_field(f, "media_type"@) is None
                        ||| str_field(f, "title"@) is None
                    }
                },
            }
        }),
{
    let date = match get_string_field(v, "date") {
        Some(s) => s,
        None => {
            return Err(ApodError::SchemaError);
        },
    };
    let explanation = match get_string_field(v, "explanation") {
        Some(s) => s,
        None => {
            return Err(ApodError::SchemaError);
        },
    };
    let hdurl = match get_string_field(v, "hdurl") {
        Some(s) => s,
        None => {
            return Err(ApodError::SchemaError);
        },
    };
    let media_type = match get_string_field(v, "media_type") {
        Some(s) => s,
        None => {
            return Err(ApodError::SchemaError);
        },
    };
    let title = match get_string_field(v, "title") {
        Some(s) => s,
        None => {
            return Err(ApodError::SchemaError);
        },
    };
    let copyright = get_string_field(v, "copyright");
    Ok(DailyPicture { copyright, date, explanation, hdurl, media_type, title })
}

/// The parsed body holds all five required picture fields as strings.
pub open spec fn picture_fields_ok(pf: Option<Map<Seq<char>, Option<Seq<char>>>>) -> bool {
    &&& pf matches Some(f)
    &&& str_field(f, "date"@) is Some
    &&& str_field(f, "explanation"@) is Some
    &&& str_field(f, "hdurl"@) is Some
    &&& str_field(f, "media_type"@) is Some
    &&& str_field(f, "title"@) is Some
}

/// The picture holds exactly the map's five required fields, and the
/// copyright exactly when the map holds one as a string.
pub open spec fn picture_matches(f: Map<Seq<char>, Option<Seq<char>>>, p: DailyPicture) -> bool {
    &&& str_field(f, "date"@) == Some(p.date@)
    &&& str_field(f, "explanation"@) == Some(p.explanation@)
    &&& str_field(f, "hdurl"@) == Some(p.hdurl@)
    &&& str_field(f, "media_type"@) == Some(p.media_type@)
    &&& str_field(f, "title"@) == Some(p.title@)
    &&& match p.copyright {
        Some(c) => str_field(f, "copyright"@) == Some(c@),
        None => str_field(f, "copyright"@) is None,
    }
}

/// Parses the body of the metadata response. Succeeds exactly when the
/// body parses to a JSON object whose five required keys hold strings, and
/// then the picture holds exactly those strings; anything else is a
/// `SchemaError`, and nothing else is.
pub fn parse_daily_picture(body: &str) -> (r: Result<DailyPicture, ApodError>)
    ensures
        ({
            match r {
                Ok(p) => picture_fields_ok(parsed_fields(body@)) && (parsed_fields(body@)
                    matches Some(f) && picture_matches(f, p)),
                Err(e) => e == ApodError::SchemaError && !picture_fields_ok(
                    parsed_fields(body@),
                ),
            }
        }),
{
    match parse_json(body) {
        Some(v) => picture_from_json(&v),
        None => Err(ApodError::SchemaError),
    }
}

/// The one media check of the pipeline: only an entry whose `media_type` is
/// exactly `image` may be downloaded.
pub fn media_is_image(p: &DailyPicture) -> (r: bool)
    ensures
        r == (p.media_type@ == "image"@),
{
    str_eq(p.media_type.as_str(), "image")
}

} // verus!
