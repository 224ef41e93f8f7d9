//! The three parameter records of the mining methods, and the jobs that carry
//! them to the scheduler.

use crate::json::{json_quoted, quote_json, Json};
use crate::message::CommandView;
use crate::params::{
    extract_params_array, get_param_as_string, opt_param_as_string, opt_view, optional, params_of,
    parse_params_array, required, ParseError,
};
use vstd::prelude::*;
use vstd::string::StringExecFns;

verus! {

/// Parameters of `mining.submit`.
#[derive(Debug)]
pub struct SubmitParams {
    pub workername: String,
    pub job_id: String,
    pub extranonce2: String,
    pub n_time: String,
    pub nonce: String,
    pub n_bits: Option<String>,
}

/// Parameters of `mining.authorize`.
#[derive(Debug)]
pub struct AuthorizeParams {
    username: String,
    password: Option<String>,
}

/// Parameters of `mining.subscribe`.
#[derive(Debug)]
pub struct SubscribeParams {
    agent_version: String,
    extranonce1: Option<String>,
}

/// A submit as plain texts.
pub struct SubmitView {
    pub workername: Seq<char>,
    pub job_id: Seq<char>,
    pub extranonce2: Seq<char>,
    pub n_time: Seq<char>,
    pub nonce: Seq<char>,
    pub n_bits: Option<Seq<char>>,
}

/// An authorize as plain texts.
pub struct AuthorizeView {
    pub username: Seq<char>,
    pub password: Option<Seq<char>>,
}

/// A subscribe as plain texts.
pub struct SubscribeView {
    pub agent_version: Seq<char>,
    pub extranonce1: Option<Seq<char>>,
}

impl View for SubmitParams {
    type V = SubmitView;

    open spec fn view(&self) -> SubmitView {
        SubmitView {
            workername: self.workername@,
            job_id: self.job_id@,
            extranonce2: self.extranonce2@,
            n_time: self.n_time@,
            nonce: self.nonce@,
            n_bits: opt_view(self.n_bits),
        }
    }
}

impl View for AuthorizeParams {
    type V = AuthorizeView;

    closed spec fn view(&self) -> AuthorizeView {
        AuthorizeView { username: self.username@, password: opt_view(self.password) }
    }
}

impl View for SubscribeParams {
    type V = SubscribeView;

    closed spec fn view(&self) -> SubscribeView {
        SubscribeView { agent_version: self.agent_version@, extranonce1: opt_view(self.extranonce1) }
    }
}

/// The `n_bits` of a submit that names none.
pub open spec fn default_n_bits() -> Seq<char> {
    "000000"@
}

/// The agent of a subscribe that names none.
pub open spec fn default_agent() -> Seq<char> {
    "Unknown"@
}

/// What a parameter list means as a submit: five required strings, then an
/// optional `n_bits` that defaults to `"000000"`. The first parameter that
/// fails decides the error.
pub open spec fn submit_from(params: Seq<Json>) -> Result<SubmitView, ParseError> {
    match required(params, 0) {
        Err(e) => Err(e),
        Ok(workername) => match required(params, 1) {
            Err(e) => Err(e),
            Ok(job_id) => match required(params, 2) {
                Err(e) => Err(e),
                Ok(extranonce2) => match required(params, 3) {
                    Err(e) => Err(e),
                    Ok(n_time) => match required(params, 4) {
                        Err(e) => Err(e),
                        Ok(nonce) => match optional(params, 5) {
                            Err(e) => Err(e),
                            Ok(n_bits) => Ok(
                                SubmitView {
                                    workername,
                                    job_id,
                                    extranonce2,
                                    n_time,
                                    nonce,
                                    n_bits: Some(
                                        match n_bits {
                                            Some(b) => b,
                                            None => default_n_bits(),
                                        },
                                    ),
                                },
                            ),
                        },
                    },
                },
            },
        },
    }
}

/// What a parameter list means as an authorize: a required user name and an
/// optional password.
pub open spec fn authorize_from(params: Seq<Json>) -> Result<AuthorizeView, ParseError> {
    match required(params, 0) {
        Err(e) => Err(e),
        Ok(username) => match optional(params, 1) {
            Err(e) => Err(e),
            Ok(password) => Ok(AuthorizeView { username, password }),
        },
    }
}

/// What a parameter list means as a subscribe: an agent that defaults to
/// `"Unknown"` and an optional `extranonce1`.
pub open spec fn subscribe_from(params: Seq<Json>) -> Result<SubscribeView, ParseError> {
    match optional(params, 0) {
        Err(e) => Err(e),
        Ok(agent) => match optional(params, 1) {
            Err(e) => Err(e),
            Ok(extranonce1) => Ok(
                SubscribeView {
                    agent_version: match agent {
                        Some(a) => a,
                        None => default_agent(),
                    },
                    extranonce1,
                },
            ),
        },
    }
}

/// The error of a request without a `params` array: `Other`, with the message
/// of that failure.
pub open spec fn other_error(e: ParseError) -> bool {
    e matches ParseError::Other(msg) && msg@ == crate::params::missing_params_text()
}

/// A record that is built from the positional parameters of a request.
pub trait FromParams: Sized {
    /// Whether a parameter list can be read as this record.
    spec fn readable(params: Seq<Json>) -> bool;

    /// Builds the record from a parameter list.
    fn from_params(params: &[Json]) -> (r: Result<Self, ParseError>)
        ensures
            r is Ok == Self::readable(params@),
    ;

    /// Builds the record from a whole request; one without a `params` array
    /// is refused with `NoParamsArray`.
    fn from_value(v: &Json) -> (r: Result<Self, ParseError>)
        ensures
            r is Ok == (params_of(*v) matches Some(items) && Self::readable(items)),
            params_of(*v) is None ==> r matches Err(ParseError::NoParamsArray),
    {
        match parse_params_array(v) {
            Ok(items) => Self::from_params(items.as_slice()),
            Err(e) => Err(e),
        }
    }
}

impl FromParams for SubmitParams {
    open spec fn readable(params: Seq<Json>) -> bool {
        submit_from(params) is Ok
    }

    /// Builds a submit from a parameter list.
    fn from_params(params: &[Json]) -> (r: Result<SubmitParams, ParseError>)
        ensures
            match r {
                Ok(p) => submit_from(params@) == Ok::<SubmitView, ParseError>(p@),
                Err(e) => submit_from(params@) == Err::<SubmitView, ParseError>(e),
            },
    {
        let workername = get_param_as_string(params, 0)?;
        let job_id = get_param_as_string(params, 1)?;
        let extranonce2 = get_param_as_string(params, 2)?;
        let n_time = get_param_as_string(params, 3)?;
        let nonce = get_param_as_string(params, 4)?;
        let n_bits = match opt_param_as_string(params, 5)? {
            Some(b) => b,
            None => "000000".to_owned(),
        };
        Ok(SubmitParams { workername, job_id, extranonce2, n_time, nonce, n_bits: Some(n_bits) })
    }
}

impl SubmitParams {

    /// The positional form of a submit. What it writes, `from_params` reads
    /// back as the same submit, with `n_bits` at its default where it was
    /// absent.
    pub fn to_params(&self) -> (r: Vec<Json>)
        ensures
            submit_from(r@) == Ok::<SubmitView, ParseError>(
                SubmitView {
                    n_bits: Some(
                        match self@.n_bits {
                            Some(b) => b,
                            None => default_n_bits(),
                        },
                    ),
                    ..self@
                },
            ),
    {
        let mut r: Vec<Json> = Vec::new();
        r.push(Json::Text(self.workername.clone()));
        r.push(Json::Text(self.job_id.clone()));
        r.push(Json::Text(self.extranonce2.clone()));
        r.push(Json::Text(self.n_time.clone()));
        r.push(Json::Text(self.nonce.clone()));
        match &self.n_bits {
            Some(b) => {
                r.push(Json::Text(b.clone()));
            },
            None => {},
        }
        r
    }

    /// Builds a submit from a whole request.
    pub fn from_value(v: &Json) -> (r: Result<SubmitParams, ParseError>)
        ensures
            match r {
                Ok(p) => params_of(*v) matches Some(items) && submit_from(items) == Ok::<
                    SubmitView,
                    ParseError,
                >(p@),
                Err(e) => match params_of(*v) {
                    Some(items) => submit_from(items) == Err::<SubmitView, ParseError>(e),
                    None => other_error(e),
                },
            },
    {
        match extract_params_array(v) {
            Ok(items) => SubmitParams::from_params(items.as_slice()),
            Err(msg) => Err(ParseError::Other(msg)),
        }
    }
}

impl FromParams for AuthorizeParams {
    open spec fn readable(params: Seq<Json>) -> bool {
        authorize_from(params) is Ok
    }

    /// Builds an authorize from a parameter list.
    fn from_params(params: &[Json]) -> (r: Result<AuthorizeParams, ParseError>)
        ensures
            match r {
                Ok(p) => authorize_from(params@) == Ok::<AuthorizeView, ParseError>(p@),
                Err(e) => authorize_from(params@) == Err::<AuthorizeView, ParseError>(e),
            },
    {
        let username = get_param_as_string(params, 0)?;
        let password = opt_param_as_string(params, 1)?;
        Ok(AuthorizeParams { username, password })
    }
}

impl AuthorizeParams {

    /// The positional form of an authorize. What it writes, `from_params`
    /// reads back as the same authorize.
    pub fn to_params(&self) -> (r: Vec<Json>)
        ensures
            authorize_from(r@) == Ok::<AuthorizeView, ParseError>(self@),
    {
        let mut r: Vec<Json> = Vec::new();
        r.push(Json::Text(self.username.clone()));
        match &self.password {
            Some(p) => {
                r.push(Json::Text(p.clone()));
            },
            None => {},
        }
        r
    }

    /// An authorize of a user, with a password or without.
    pub fn new(username: String, password: Option<String>) -> (r: AuthorizeParams)
        ensures
            r@ == (AuthorizeView { username: username@, password: opt_view(password) }),
    {
        AuthorizeParams { username, password }
    }

    /// Builds an authorize from a whole request.
    pub fn form_value(v: &Json) -> (r: Result<AuthorizeParams, ParseError>)
        ensures
            match r {
                Ok(p) => params_of(*v) matches Some(items) && authorize_from(items) == Ok::<
                    AuthorizeView,
                    ParseError,
                >(p@),
                Err(e) => match params_of(*v) {
                    Some(items) => authorize_from(items) == Err::<AuthorizeView, ParseError>(e),
                    None => other_error(e),
                },
            },
    {
        match extract_params_array(v) {
            Ok(items) => AuthorizeParams::from_params(items.as_slice()),
            Err(msg) => Err(ParseError::Other(msg)),
        }
    }

    /// The user name on the pool.
    pub fn username(&self) -> (r: &str)
        ensures
            r@ == self@.username,
    {
        self.username.as_str()
    }

    /// The pool password, or the preferred difficulty, where one was given.
    pub fn password(&self) -> (r: &Option<String>)
        ensures
            opt_view(*r) == self@.password,
    {
        &self.password
    }

    /// The JSON object that carries an authorize to the pool.
    pub open spec fn wire_text(v: AuthorizeView) -> Seq<char> {
        "{\"username\":"@ + json_quoted(v.username) + ",\"password\":"@ + quoted_or_null(
            v.password,
        ) + "}"@
    }

    /// Writes the authorize as one JSON object, members in the order of the
    /// record.
    pub fn to_wire(&self) -> (r: String)
        ensures
            r@ == AuthorizeParams::wire_text(self@),
    {
        let mut out = "{\"username\":".to_owned();
        out.append(quote_json(self.username.as_str()).as_str());
        out.append(",\"password\":");
        out.append(quote_or_null(&self.password).as_str());
        out.append("}");
        out
    }
}

impl FromParams for SubscribeParams {
    open spec fn readable(params: Seq<Json>) -> bool {
        subscribe_from(params) is Ok
    }

    /// Builds a subscribe from a parameter list.
    fn from_params(params: &[Json]) -> (r: Result<SubscribeParams, ParseError>)
        ensures
            match r {
                Ok(p) => subscribe_from(params@) == Ok::<SubscribeView, ParseError>(p@),
                Err(e) => subscribe_from(params@) == Err::<SubscribeView, ParseError>(e),
            },
    {
        let agent_version = match opt_param_as_string(params, 0)? {
            Some(a) => a,
            None => "Unknown".to_owned(),
        };
        let extranonce1 = opt_param_as_string(params, 1)?;
        Ok(SubscribeParams { agent_version, extranonce1 })
    }
}

impl SubscribeParams {

    /// The positional form of a subscribe. What it writes, `from_params`
    /// reads back as the same subscribe.
    pub fn to_params(&self) -> (r: Vec<Json>)
        ensures
            subscribe_from(r@) == Ok::<SubscribeView, ParseError>(self@),
    {
        let mut r: Vec<Json> = Vec::new();
        r.push(Json::Text(self.agent_version.clone()));
        match &self.extranonce1 {
            Some(e) => {
                r.push(Json::Text(e.clone()));
            },
            None => {},
        }
        r
    }

    /// A subscribe of an agent, with an `extranonce1` to resume or without.
    pub fn new(agent_version: String, extranonce1: Option<String>) -> (r: SubscribeParams)
        ensures
            r@ == (SubscribeView {
                agent_version: agent_version@,
                extranonce1: opt_view(extranonce1),
            }),
    {
        SubscribeParams { agent_version, extranonce1 }
    }

    /// Builds a subscribe from a whole request.
    pub fn from_value(v: &Json) -> (r: Result<SubscribeParams, ParseError>)
        ensures
            match r {
                Ok(p) => params_of(*v) matches Some(items) && subscribe_from(items) == Ok::<
                    SubscribeView,
                    ParseError,
                >(p@),
                Err(e) => match params_of(*v) {
                    Some(items) => subscribe_from(items) == Err::<SubscribeView, ParseError>(e),
                    None => other_error(e),
                },
            },
    {
        match extract_params_array(v) {
            Ok(items) => SubscribeParams::from_params(items.as_slice()),
            Err(msg) => Err(ParseError::Other(msg)),
        }
    }

    /// The miner's agent and version.
    pub fn agent_version(&self) -> (r: &str)
        ensures
            r@ == self@.agent_version,
    {
        self.agent_version.as_str()
    }

    /// The `extranonce1` that the miner wants to resume, where it named one.
    pub fn extranonce1(&self) -> (r: &Option<String>)
        ensures
            opt_view(*r) == self@.extranonce1,
    {
        &self.extranonce1
    }

    /// The JSON object that carries a subscribe to the pool.
    pub open spec fn wire_text(v: SubscribeView) -> Seq<char> {
        "{\"agent_version\":"@ + json_quoted(v.agent_version) + ",\"extranonce1\":"@
            + quoted_or_null(v.extranonce1) + "}"@
    }

    /// Writes the subscribe as one JSON object, members in the order of the
    /// record.
    pub fn to_wire(&self) -> (r: String)
        ensures
            r@ == SubscribeParams::wire_text(self@),
    {
        let mut out = "{\"agent_version\":".to_owned();
        out.append(quote_json(self.agent_version.as_str()).as_str());
        out.append(",\"extranonce1\":");
        out.append(quote_or_null(&self.extranonce1).as_str());
        out.append("}");
        out
    }
}

/// The JSON text of an optional string: its literal, or `null`.
pub open spec fn quoted_or_null(o: Option<Seq<char>>) -> Seq<char> {
    match o {
        Some(s) => json_quoted(s),
        None => "null"@,
    }
}

fn quote_or_null(o: &Option<String>) -> (r: String)
    ensures
        r@ == quoted_or_null(opt_view(*o)),
{
    match o {
        Some(s) => quote_json(s.as_str()),
        None => "null".to_owned(),
    }
}

/// The parameters of a submit, as commands name them.
pub type Submit = SubmitParams;

/// The parameters of an authorize, as commands name them.
pub type Authorize = AuthorizeParams;

/// The parameters of a subscribe, as commands name them.
pub type Subscribe = SubscribeParams;

/// A typed reply from a job handler to the task that answers the miner.
/// `Wait` means that the miner is left without an immediate answer.
#[derive(Debug)]
pub enum ProxyMessage {
    Wait,
    Request(String),
    Response(String),
    Error(String),
}

/// A unit of work for the scheduler.
#[derive(Debug)]
pub enum Job {
    MiningSubmit(SubmitParams),
    MiningAuthorize(AuthorizeParams),
    MiningSubscribe(SubscribeParams),
    Ping,
}

impl View for Job {
    type V = CommandView;

    open spec fn view(&self) -> CommandView {
        match self {
            Job::Ping => CommandView::Ping,
            Job::MiningSubmit(p) => CommandView::Submit(p@),
            Job::MiningAuthorize(p) => CommandView::Authorize(p@),
            Job::MiningSubscribe(p) => CommandView::Subscribe(p@),
        }
    }
}

} // verus!
