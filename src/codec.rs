//! Reading and writing the metadata and settings files.
//!
//! JSON text is parsed and strings are quoted by `serde_json`; this module
//! decides which members a file must have, fills in defaults, maps the older
//! single-date metadata onto the current shape, and lays out the text that is
//! written.
use vstd::prelude::*;

use crate::model::{AppConfig, DocumentMeta, MetaView, default_status, default_status_text};
use crate::text::{decimal_int, opt_chars, push_decimal_i64};

verus! {

/// The JSON string literal that `serde_json` writes for `s`.
pub uninterp spec fn json_quoted(s: Seq<char>) -> Seq<char>;

/// The string member `key` of the JSON object in `text`, if `text` is one and
/// the member is a string.
pub uninterp spec fn json_str_member(text: Seq<char>, key: Seq<char>) -> Option<Seq<char>>;

/// The member `key` of the JSON object in `text`, if `text` is one and the
/// member is an integer that fits in `i64`.
pub uninterp spec fn json_i64_member(text: Seq<char>, key: Seq<char>) -> Option<i64>;

/// Whether the member `key` of the JSON object in `text` is `null`, if
/// `text` is an object that has that member.
pub uninterp spec fn json_null_member(text: Seq<char>, key: Seq<char>) -> Option<bool>;

/// Whether `text` is a JSON object.
pub uninterp spec fn json_is_object(text: Seq<char>) -> bool;

/// Relies on `serde_json::to_string` on a `str`: the quoted and escaped
/// string. Writing into a `Vec<u8>` cannot fail, so the error arm is never
/// taken.
#[verifier::external_body]
fn quote(s: &str) -> (r: String)
    ensures
        r@ == json_quoted(s@),
{
    match serde_json::to_string(s) {
        Ok(q) => q,
        Err(_) => String::new(),
    }
}

/// Relies on `serde_json::from_str` into a `Value`, then `Value::get` and
/// `Value::as_str`: a string member of an object.
#[verifier::external_body]
fn str_member(text: &str, key: &str) -> (r: Option<String>)
    ensures
        opt_chars(r) == json_str_member(text@, key@),
{
    match serde_json::from_str::<serde_json::Value>(text) {
        Ok(v) => match v.get(key) {
            Some(m) => m.as_str().map(String::from),
            None => None,
        },
        Err(_) => None,
    }
}

/// Relies on `serde_json::from_str` into a `Value`, then `Value::get` and
/// `Value::as_i64`: an integer member of an object.
#[verifier::external_body]
fn i64_member(text: &str, key: &str) -> (r: Option<i64>)
    ensures
        r == json_i64_member(text@, key@),
{
    match serde_json::from_str::<serde_json::Value>(text) {
        Ok(v) => match v.get(key) {
            Some(m) => m.as_i64(),
            None => None,
        },
        Err(_) => None,
    }
}

/// Relies on `serde_json::from_str` into a `Value`, then `Value::get` and
/// `Value::is_null`: whether a member is there, and whether it is `null`.
#[verifier::external_body]
fn null_member(text: &str, key: &str) -> (r: Option<bool>)
    ensures
        r == json_null_member(text@, key@),
{
    match serde_json::from_str::<serde_json::Value>(text) {
        Ok(v) => v.get(key).map(serde_json::Value::is_null),
        Err(_) => None,
    }
}

/// Relies on `serde_json::from_str` into a `Value`, then `Value::is_object`.
#[verifier::external_body]
fn is_object(text: &str) -> (r: bool)
    ensures
        r == json_is_object(text@),
{
    match serde_json::from_str::<serde_json::Value>(text) {
        Ok(v) => v.is_object(),
        Err(_) => false,
    }
}

/// Why a metadata or settings file could not be read.
#[derive(Clone, Copy, Debug, PartialEq, Eq)]
pub enum DecodeError {
    /// The metadata matches neither the current nor the older shape.
    Metadata,
    /// The settings file is not a settings object.
    Config,
}

impl DecodeError {
    /// A message for the user.
    pub fn message(&self) -> (r: String)
        ensures
            *self == DecodeError::Metadata ==> r@ == "Failed to parse document meta"@,
            *self == DecodeError::Config ==> r@ == "Failed to parse config"@,
    {
        match self {
            DecodeError::Metadata => String::from_str("Failed to parse document meta"),
            DecodeError::Config => String::from_str("Failed to parse config"),
        }
    }
}

/// The `status` of a metadata text: the string that is there, `"none"` where
/// the member is missing, and nothing (a failed decode) where it is there but
/// not a string.
pub open spec fn status_member(text: Seq<char>) -> Option<Seq<char>> {
    match json_null_member(text, "status"@) {
        None => Some(default_status_text()),
        Some(_) => json_str_member(text, "status"@),
    }
}

/// The metadata in `text` read in the current shape, with a start and an end
/// date.
pub open spec fn decode_current(text: Seq<char>) -> Option<MetaView> {
    match (
        json_str_member(text, "title"@),
        json_i64_member(text, "startDate"@),
        json_i64_member(text, "endDate"@),
        status_member(text),
        json_i64_member(text, "createdAt"@),
        json_i64_member(text, "updatedAt"@),
    ) {
        (Some(title), Some(start_date), Some(end_date), Some(status), Some(created_at), Some(
            updated_at,
        )) => Some(MetaView { title, start_date, end_date, status, created_at, updated_at }),
        _ => None,
    }
}

/// The metadata in `text` read in the older shape, whose one `date` is both
/// the start and the end date.
pub open spec fn decode_legacy(text: Seq<char>) -> Option<MetaView> {
    match (
        json_str_member(text, "title"@),
        json_i64_member(text, "date"@),
        status_member(text),
        json_i64_member(text, "createdAt"@),
        json_i64_member(text, "updatedAt"@),
    ) {
        (Some(title), Some(date), Some(status), Some(created_at), Some(updated_at)) => Some(
            MetaView { title, start_date: date, end_date: date, status, created_at, updated_at },
        ),
        _ => None,
    }
}

/// The metadata in `text`: the current shape where it reads so, else the
/// older one.
pub open spec fn decode_meta(text: Seq<char>) -> Option<MetaView> {
    match decode_current(text) {
        Some(m) => Some(m),
        None => decode_legacy(text),
    }
}

fn read_status(json: &str) -> (r: Option<String>)
    ensures
        r matches Some(s) ==> status_member(json@) == Some(s@),
        r is None ==> status_member(json@) is None,
{
    match null_member(json, "status") {
        None => Some(default_status()),
        Some(_) => str_member(json, "status"),
    }
}

/// Reads the metadata file text `json`, in the current shape or else the
/// older one.
pub fn parse_document_meta(json: &str) -> (r: Result<DocumentMeta, DecodeError>)
    ensures
        r matches Ok(m) ==> decode_meta(json@) == Some(m@),
        r is Err ==> decode_meta(json@) is None,
        r matches Err(e) ==> e == DecodeError::Metadata,
{
    let title = str_member(json, "title");
    let status = read_status(json);
    let created_at = i64_member(json, "createdAt");
    let updated_at = i64_member(json, "updatedAt");
    let start_date = i64_member(json, "startDate");
    let end_date = i64_member(json, "endDate");
    match (title, start_date, end_date, status, created_at, updated_at) {
        (Some(title), Some(start_date), Some(end_date), Some(status), Some(created_at), Some(
            updated_at,
        )) => {
            return Ok(DocumentMeta { title, start_date, end_date, status, created_at, updated_at });
        },
        (title, _, _, status, created_at, updated_at) => {
            let date = i64_member(json, "date");
            match (title, date, status, created_at, updated_at) {
                (Some(title), Some(date), Some(status), Some(created_at), Some(updated_at)) => {
                    Ok(
                        DocumentMeta {
                            title,
                            start_date: date,
                            end_date: date,
                            status,
                            created_at,
                            updated_at,
                        },
                    )
                },
                _ => Err(DecodeError::Metadata),
            }
        },
    }
}

/// The text written to a metadata file: a pretty-printed JSON object with the
/// members in a fixed order.
pub open spec fn meta_json(m: MetaView) -> Seq<char> {
    "{\n  \"title\": "@ + json_quoted(m.title) + ",\n  \"startDate\": "@ + decimal_int(
        m.start_date as int,
    ) + ",\n  \"endDate\": "@ + decimal_int(m.end_date as int) + ",\n  \"status\": "@
        + json_quoted(m.status) + ",\n  \"createdAt\": "@ + decimal_int(m.created_at as int)
        + ",\n  \"updatedAt\": "@ + decimal_int(m.updated_at as int) + "\n}"@
}

/// Writes `meta` as the text of a metadata file, always in the current shape.
pub fn encode_document_meta(meta: &DocumentMeta) -> (r: String)
    ensures
        r@ == meta_json(meta@),
{
    let mut r = String::from_str("{\n  \"title\": ");
    r.append(quote(meta.title.as_str()).as_str());
    r.append(",\n  \"startDate\": ");
    push_decimal_i64(&mut r, meta.start_date);
    r.append(",\n  \"endDate\": ");
    push_decimal_i64(&mut r, meta.end_date);
    r.append(",\n  \"status\": ");
    r.append(quote(meta.status.as_str()).as_str());
    r.append(",\n  \"createdAt\": ");
    push_decimal_i64(&mut r, meta.created_at);
    r.append(",\n  \"updatedAt\": ");
    push_decimal_i64(&mut r, meta.updated_at);
    r.append("\n}");
    assert(r@ =~= meta_json(meta@));
    r
}

/// The settings in `text`: a JSON object whose `documentsFolder` is a string,
/// `null`, or missing.
pub open spec fn decode_config(text: Seq<char>) -> Option<Option<Seq<char>>> {
    if !json_is_object(text) {
        None
    } else {
        match json_null_member(text, "documentsFolder"@) {
            None => Some(None),
            Some(true) => Some(None),
            Some(false) => match json_str_member(text, "documentsFolder"@) {
                Some(f) => Some(Some(f)),
                None => None,
            },
        }
    }
}

/// Reads the settings file text `json`.
pub fn parse_app_config(json: &str) -> (r: Result<AppConfig, DecodeError>)
    ensures
        r matches Ok(c) ==> decode_config(json@) == Some(c@),
        r is Err ==> decode_config(json@) is None,
        r matches Err(e) ==> e == DecodeError::Config,
{
    if !is_object(json) {
        return Err(DecodeError::Config);
    }
    match null_member(json, "documentsFolder") {
        None => Ok(AppConfig { documents_folder: None }),
        Some(true) => Ok(AppConfig { documents_folder: None }),
        Some(false) => match str_member(json, "documentsFolder") {
            Some(f) => Ok(AppConfig { documents_folder: Some(f) }),
            None => Err(DecodeError::Config),
        },
    }
}

/// The text written to the settings file.
pub open spec fn config_json(c: Option<Seq<char>>) -> Seq<char> {
    match c {
        Some(f) => "{\n  \"documentsFolder\": "@ + json_quoted(f) + "\n}"@,
        None => "{\n  \"documentsFolder\": null\n}"@,
    }
}

/// Writes `config` as the text of the settings file.
pub fn encode_app_config(config: &AppConfig) -> (r: String)
    ensures
        r@ == config_json(config@),
{
    match &config.documents_folder {
        Some(f) => {
            let mut r = String::from_str("{\n  \"documentsFolder\": ");
            r.append(quote(f.as_str()).as_str());
            r.append("\n}");
            assert(r@ =~= config_json(config@));
            r
        },
        None => String::from_str("{\n  \"documentsFolder\": null\n}"),
    }
}

} // verus!
