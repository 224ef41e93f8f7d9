//! Shape checks on a decoded request, before its parameters are read.

use crate::decimal::{decimal, to_decimal};
use crate::json::Json;
use crate::params::params_of;
use vstd::prelude::*;
use vstd::string::StringExecFns;

verus! {

/// Why a request was refused. Each variant but the last carries the method's
/// name; the last carries the number of parameters found, in decimal.
#[derive(Debug)]
pub enum ValidationError {
    NotFoundBaseFields(String),
    ParamsIsNotArray(String),
    ParamsIsEmpty(String),
    IncorrectNumberOfParameters(String),
}

impl ValidationError {
    /// The error in words.
    pub open spec fn text(self) -> Seq<char> {
        match self {
            ValidationError::NotFoundBaseFields(s) => "Base fields not found: "@ + s@,
            ValidationError::ParamsIsNotArray(s) => "Params in "@ + s@ + " is not array"@,
            ValidationError::ParamsIsEmpty(s) => "Array with params is empty: "@ + s@,
            ValidationError::IncorrectNumberOfParameters(s) => "Incorrect number of parameters: "@
                + s@,
        }
    }

    /// The error in words.
    pub fn message(&self) -> (r: String)
        ensures
            r@ == self.text(),
    {
        match self {
            ValidationError::NotFoundBaseFields(s) => {
                let mut r = "Base fields not found: ".to_owned();
                r.append(s.as_str());
                r
            },
            ValidationError::ParamsIsNotArray(s) => {
                let mut r = "Params in ".to_owned();
                r.append(s.as_str());
                r.append(" is not array");
                r
            },
            ValidationError::ParamsIsEmpty(s) => {
                let mut r = "Array with params is empty: ".to_owned();
                r.append(s.as_str());
                r
            },
            ValidationError::IncorrectNumberOfParameters(s) => {
                let mut r = "Incorrect number of parameters: ".to_owned();
                r.append(s.as_str());
                r
            },
        }
    }
}

/// The outcome of the shape check, as a plain value.
pub enum Verdict {
    Valid,
    NoBaseFields,
    NotArray,
    Empty,
    BadCount(nat),
}

/// Whether the request has all of `id`, `method` and `params`.
pub open spec fn has_base_fields(m: Json) -> bool {
    m.member("id"@) is Some && m.member("method"@) is Some && m.member("params"@) is Some
}

/// The shape check: the three base fields, then `params` an array, not empty,
/// with between `lo` and `hi` items. The first failure decides.
pub open spec fn verdict(m: Json, lo: nat, hi: nat) -> Verdict {
    if !has_base_fields(m) {
        Verdict::NoBaseFields
    } else {
        match params_of(m) {
            None => Verdict::NotArray,
            Some(items) => if items.len() == 0 {
                Verdict::Empty
            } else if items.len() < lo || items.len() > hi {
                Verdict::BadCount(items.len())
            } else {
                Verdict::Valid
            },
        }
    }
}

/// What a result of a validation says, read back as a verdict on `method`.
pub open spec fn reports(r: Result<(), ValidationError>, v: Verdict, method: Seq<char>) -> bool {
    match r {
        Ok(_) => v is Valid,
        Err(ValidationError::NotFoundBaseFields(s)) => v is NoBaseFields && s@ == method,
        Err(ValidationError::ParamsIsNotArray(s)) => v is NotArray && s@ == method,
        Err(ValidationError::ParamsIsEmpty(s)) => v is Empty && s@ == method,
        Err(ValidationError::IncorrectNumberOfParameters(s)) => v matches Verdict::BadCount(n)
            && s@ == decimal(n),
    }
}

/// Whether the request has an `id`.
pub fn check_id(obj: &Json) -> (r: bool)
    ensures
        r == obj.member("id"@) is Some,
{
    obj.get("id").is_some()
}

/// Whether the request has a `method`.
pub fn check_method(obj: &Json) -> (r: bool)
    ensures
        r == obj.member("method"@) is Some,
{
    obj.get("method").is_some()
}

/// Whether the request has a `params`.
pub fn check_params(obj: &Json) -> (r: bool)
    ensures
        r == obj.member("params"@) is Some,
{
    obj.get("params").is_some()
}

/// Whether the request has all three base fields.
pub fn check_obj_on_base_fields(message: &Json) -> (r: bool)
    ensures
        r == has_base_fields(*message),
{
    let is_id = check_id(message);
    let is_method = check_method(message);
    let is_params = check_params(message);
    is_id && is_method && is_params
}

fn validate(message: &Json, method: &str, lo: usize, hi: usize) -> (r: Result<(), ValidationError>)
    ensures
        reports(r, verdict(*message, lo as nat, hi as nat), method@),
{
    if !check_obj_on_base_fields(message) {
        return Err(ValidationError::NotFoundBaseFields(method.to_owned()));
    }
    let items = match message.get("params") {
        Some(p) => match p.as_array() {
            Some(items) => items,
            None => {
                return Err(ValidationError::ParamsIsNotArray(method.to_owned()));
            },
        },
        None => {
            return Err(ValidationError::ParamsIsNotArray(method.to_owned()));
        },
    };
    if items.len() == 0 {
        return Err(ValidationError::ParamsIsEmpty(method.to_owned()));
    }
    let params_len = items.len();
    if params_len < lo || params_len > hi {
        return Err(ValidationError::IncorrectNumberOfParameters(to_decimal(params_len as u64)));
    }
    Ok(())
}

/// Checks the shape of a `mining.authorize`: one or two parameters.
pub fn validation_authorize(message: &Json) -> (r: Result<(), ValidationError>)
    ensures
        reports(r, verdict(*message, 1, 2), "mining.authorize"@),
{
    validate(message, "mining.authorize", 1, 2)
}

/// Checks the shape of a `mining.submit`: five or six parameters.
pub fn submit_validation(message: &Json) -> (r: Result<(), ValidationError>)
    ensures
        reports(r, verdict(*message, 5, 6), "mining.submit"@),
{
    validate(message, "mining.submit", 5, 6)
}

/// Checks the shape of a `mining.subscribe`: one or two parameters.
pub fn validation_subscribe(message: &Json) -> (r: Result<(), ValidationError>)
    ensures
        reports(r, verdict(*message, 1, 2), "mining.subscribe"@),
{
    validate(message, "mining.subscribe", 1, 2)
}

} // verus!
