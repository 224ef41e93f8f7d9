//! Positional request parameters: coercion to strings, the three parameter
//! records and their wire form.

use crate::decimal::{decimal, to_decimal};
use crate::json::Json;
use vstd::prelude::*;
use vstd::string::StringExecFns;

verus! {

/// Why a parameter list could not be turned into a record.
#[derive(Debug)]
pub enum ParseError {
    NoParamsArray,
    MissingParam(usize),
    InvalidType(usize),
    Other(String),
}

/// A text that names an index: `before`, the index in decimal, `after`.
pub open spec fn names_index(before: Seq<char>, n: usize, after: Seq<char>) -> Seq<char> {
    before + decimal(n as nat) + after
}

fn with_index(before: &str, n: usize, after: &str) -> (text: String)
    ensures
        text@ == names_index(before@, n, after@),
{
    let digits = to_decimal(n as u64);
    let mut text = before.to_owned();
    text.append(digits.as_str());
    text.append(after);
    text
}

impl ParseError {
    /// The error in words.
    pub open spec fn text(self) -> Seq<char> {
        match self {
            ParseError::NoParamsArray => "expected object with `params` array"@,
            ParseError::MissingParam(i) => names_index("missing param at index "@, i, ""@),
            ParseError::InvalidType(i) => names_index(
                "invalid type for param "@,
                i,
                ": expected string-like"@,
            ),
            ParseError::Other(msg) => "other: "@ + msg@,
        }
    }

    /// The error in words.
    pub fn message(&self) -> (text: String)
        ensures
            text@ == self.text(),
    {
        match self {
            ParseError::NoParamsArray => "expected object with `params` array".to_owned(),
            ParseError::MissingParam(i) => with_index("missing param at index ", *i, ""),
            ParseError::InvalidType(i) => with_index(
                "invalid type for param ",
                *i,
                ": expected string-like",
            ),
            ParseError::Other(msg) => {
                let mut text = "other: ".to_owned();
                text.append(msg.as_str());
                text
            },
        }
    }
}

/// The string that stands for a scalar parameter: a string as it is, a number
/// by its decimal text, a boolean in lower case. Nothing else has one.
pub open spec fn coerced(j: Json) -> Option<Seq<char>> {
    match j {
        Json::Text(s) => Some(s@),
        Json::Number(n) => Some(n@),
        Json::Bool(b) => Some(if b { "true"@ } else { "false"@ }),
        _ => None,
    }
}

/// A parameter that must be present and string-like.
pub open spec fn required(params: Seq<Json>, idx: int) -> Result<Seq<char>, ParseError> {
    if idx < 0 || idx >= params.len() {
        Err(ParseError::MissingParam(idx as usize))
    } else {
        match coerced(params[idx]) {
            Some(s) => Ok(s),
            None => Err(ParseError::InvalidType(idx as usize)),
        }
    }
}

/// A parameter that may be absent or null, and is string-like otherwise.
pub open spec fn optional(params: Seq<Json>, idx: int) -> Result<Option<Seq<char>>, ParseError> {
    if idx < 0 || idx >= params.len() || params[idx] is Null {
        Ok(None)
    } else {
        match coerced(params[idx]) {
            Some(s) => Ok(Some(s)),
            None => Err(ParseError::InvalidType(idx as usize)),
        }
    }
}

/// The view of an optional string.
pub open spec fn opt_view(o: Option<String>) -> Option<Seq<char>> {
    match o {
        Some(s) => Some(s@),
        None => None,
    }
}

fn scalar_string(value: &Json) -> (r: Option<String>)
    ensures
        opt_view(r) == coerced(*value),
{
    match value {
        Json::Text(s) => Some(s.clone()),
        Json::Number(n) => Some(n.clone()),
        Json::Bool(b) => Some(if *b { "true".to_owned() } else { "false".to_owned() }),
        _ => None,
    }
}

/// The parameter at `idx` as a string; an error names the index and says
/// whether the parameter is missing or of a kind that has no string form.
pub fn get_param_as_string(params: &[Json], idx: usize) -> (r: Result<String, ParseError>)
    ensures
        match r {
            Ok(s) => required(params@, idx as int) == Ok::<Seq<char>, ParseError>(s@),
            Err(e) => required(params@, idx as int) == Err::<Seq<char>, ParseError>(e),
        },
{
    if idx >= params.len() {
        return Err(ParseError::MissingParam(idx));
    }
    match scalar_string(&params[idx]) {
        Some(s) => Ok(s),
        None => Err(ParseError::InvalidType(idx)),
    }
}

/// The parameter at `idx` as a string where there is one; an absent or null
/// parameter is `None`, any other kind without a string form is an error.
pub fn opt_param_as_string(params: &[Json], idx: usize) -> (r: Result<Option<String>, ParseError>)
    ensures
        match r {
            Ok(s) => optional(params@, idx as int) == Ok::<Option<Seq<char>>, ParseError>(
                opt_view(s),
            ),
            Err(e) => optional(params@, idx as int) == Err::<Option<Seq<char>>, ParseError>(e),
        },
{
    if idx >= params.len() {
        return Ok(None);
    }
    match &params[idx] {
        Json::Null => Ok(None),
        other => match scalar_string(other) {
            Some(s) => Ok(Some(s)),
            None => Err(ParseError::InvalidType(idx)),
        },
    }
}

/// The `params` member of a request where it is an array.
pub open spec fn params_of(v: Json) -> Option<Seq<Json>> {
    match v.member("params"@) {
        Some(p) => p.items(),
        None => None,
    }
}

/// The `params` array of a request; `NoParamsArray` where the request has no
/// such member or the member is no array.
pub fn parse_params_array(v: &Json) -> (r: Result<&Vec<Json>, ParseError>)
    ensures
        match r {
            Ok(items) => params_of(*v) == Some(items@),
            Err(e) => params_of(*v) is None && e is NoParamsArray,
        },
{
    match v.get("params") {
        Some(p) => match p.as_array() {
            Some(items) => Ok(items),
            None => Err(ParseError::NoParamsArray),
        },
        None => Err(ParseError::NoParamsArray),
    }
}

/// The text that stands for a missing or ill-typed `params` member.
pub open spec fn missing_params_text() -> Seq<char> {
    "Missing or invalid 'params' field"@
}

/// The `params` array of a request, with the failure as a message.
pub fn extract_params_array(v: &Json) -> (r: Result<&Vec<Json>, String>)
    ensures
        match r {
            Ok(items) => params_of(*v) == Some(items@),
            Err(e) => params_of(*v) is None && e@ == missing_params_text(),
        },
{
    match parse_params_array(v) {
        Ok(items) => Ok(items),
        Err(_) => Err("Missing or invalid 'params' field".to_owned()),
    }
}

} // verus!
