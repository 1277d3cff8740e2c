//! The adapter specialized to three embedded text formats. Each
//! specialization hands a string token's contents to the format's own
//! parser and returns the parsed document whole, as that parser's
//! document type; the adapter adds no interpretation of its own.

use vstd::prelude::*;
use crate::adapter::EmbedError;
use crate::adapter::ErrorModel;
use crate::adapter::Token;
use crate::adapter::TokenModel;
use crate::adapter::integrate;
use crate::adapter::take_string_token;

verus! {

/// serde_json's document value, declared so that it can stand in
/// signatures; its contents stay opaque to this crate.
#[verifier::external_type_specification]
#[verifier::external_body]
pub struct ExJsonValue(serde_json::Value);

/// serde_yaml's document value, declared so that it can stand in
/// signatures; its contents stay opaque to this crate.
#[verifier::external_type_specification]
#[verifier::external_body]
pub struct ExYamlValue(serde_yaml::Value);

/// toml's document value, declared so that it can stand in signatures;
/// its contents stay opaque to this crate.
#[verifier::external_type_specification]
#[verifier::external_body]
pub struct ExTomlValue(toml::Value);

/// The verdict of serde_json's parser on a text: `None` when the text is
/// a valid JSON document, otherwise the error's diagnostic text.
pub uninterp spec fn json_parse_err(text: Seq<char>) -> Option<Seq<char>>;

/// The verdict of serde_yaml's parser on a text: `None` when the text is
/// a valid YAML document, otherwise the error's diagnostic text.
pub uninterp spec fn yaml_parse_err(text: Seq<char>) -> Option<Seq<char>>;

/// The verdict of toml's parser on a text: `None` when the text is a
/// valid TOML document, otherwise the error's diagnostic text.
pub uninterp spec fn toml_parse_err(text: Seq<char>) -> Option<Seq<char>>;

/// Relies on serde_json::from_str: whether a text parses as a JSON
/// document, and the diagnostic of the error when it does not, are
/// functions of the text alone.
#[verifier::external_body]
fn parse_json_value(text: &String) -> (r: Result<serde_json::Value, String>)
    ensures
        r is Ok <==> json_parse_err(text@) is None,
        r matches Err(m) ==> json_parse_err(text@) == Some(m@),
{
    serde_json::from_str::<serde_json::Value>(text).map_err(|e| e.to_string())
}

/// Relies on serde_yaml::from_str: whether a text parses as a YAML
/// document, and the diagnostic of the error when it does not, are
/// functions of the text alone.
#[verifier::external_body]
fn parse_yaml_value(text: &String) -> (r: Result<serde_yaml::Value, String>)
    ensures
        r is Ok <==> yaml_parse_err(text@) is None,
        r matches Err(m) ==> yaml_parse_err(text@) == Some(m@),
{
    serde_yaml::from_str::<serde_yaml::Value>(text).map_err(|e| e.to_string())
}

/// Relies on toml::from_str: whether a text parses as a TOML document,
/// and the diagnostic of the error when it does not, are functions of
/// the text alone.
#[verifier::external_body]
fn parse_toml_value(text: &String) -> (r: Result<toml::Value, String>)
    ensures
        r is Ok <==> toml_parse_err(text@) is None,
        r matches Err(m) ==> toml_parse_err(text@) == Some(m@),
{
    toml::from_str::<toml::Value>(text).map_err(|e| e.to_string())
}

/// The adapter specialized to an embedded JSON document: a string token's
/// contents go to serde_json's parser, and the parsed document is
/// returned whole.
pub fn deser_embedded_json(token: Token, expected: String) -> (r: Result<
    serde_json::Value,
    EmbedError,
>)
    ensures
        token@ !is Text ==> (r matches Err(e) && e@ == (ErrorModel::TypeMismatch {
            expected: expected@,
        })),
        token@ matches TokenModel::Text(s) ==> {
            &&& json_parse_err(s) is None ==> r is Ok
            &&& json_parse_err(s) matches Some(m) ==> (r matches Err(e) && e@
                == (ErrorModel::EmbeddedParseFailure { message: m }))
        },
{
    match take_string_token(token, expected) {
        Ok(text) => integrate(parse_json_value(&text)),
        Err(e) => Err(e),
    }
}

/// The adapter specialized to an embedded YAML document: a string token's
/// contents go to serde_yaml's parser, and the parsed document is
/// returned whole.
pub fn deser_embedded_yaml(token: Token, expected: String) -> (r: Result<
    serde_yaml::Value,
    EmbedError,
>)
    ensures
        token@ !is Text ==> (r matches Err(e) && e@ == (ErrorModel::TypeMismatch {
            expected: expected@,
        })),
        token@ matches TokenModel::Text(s) ==> {
            &&& yaml_parse_err(s) is None ==> r is Ok
            &&& yaml_parse_err(s) matches Some(m) ==> (r matches Err(e) && e@
                == (ErrorModel::EmbeddedParseFailure { message: m }))
        },
{
    match take_string_token(token, expected) {
        Ok(text) => integrate(parse_yaml_value(&text)),
        Err(e) => Err(e),
    }
}

/// The adapter specialized to an embedded TOML document: a string token's
/// contents go to toml's parser, and the parsed document is returned
/// whole.
pub fn deser_embedded_toml(token: Token, expected: String) -> (r: Result<toml::Value, EmbedError>)
    ensures
        token@ !is Text ==> (r matches Err(e) && e@ == (ErrorModel::TypeMismatch {
            expected: expected@,
        })),
        token@ matches TokenModel::Text(s) ==> {
            &&& toml_parse_err(s) is None ==> r is Ok
            &&& toml_parse_err(s) matches Some(m) ==> (r matches Err(e) && e@
                == (ErrorModel::EmbeddedParseFailure { message: m }))
        },
{
    match take_string_token(token, expected) {
        Ok(text) => integrate(parse_toml_value(&text)),
        Err(e) => Err(e),
    }
}

} // verus!
