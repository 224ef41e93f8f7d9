//! The account directory: what is asked of it, how its answers are read, and
//! when a lookup is tried again.

use crate::json::{decode_json, json_of_text, Json};
use vstd::prelude::*;
use vstd::string::StringExecFns;

verus! {

/// The body of a lookup that found no account.
#[derive(Debug)]
pub struct NotFoundSubAccount {
    error: String,
}

/// The account of a worker.
#[derive(Debug)]
pub struct SubAccountInfo {
    pub id: String,
    pub miner_id: String,
    pub pool_target: String,
    pub sub_account_name: String,
    pub active: bool,
    pub metadata: Json,
    pub created_at: String,
}

/// What the directory answers.
#[derive(Debug)]
pub enum ApiResponse {
    Successfully(SubAccountInfo),
    NotFoundSubAccount(NotFoundSubAccount),
}

/// Why a lookup ended without an answer.
#[derive(Debug, Clone, Copy, PartialEq, Eq)]
pub enum LookupError {
    /// The body is no JSON, or lacks a field of the answer it should be.
    BadBody,
    /// A 4xx status whose body names no error.
    ClientError(u16),
    /// Neither success nor a 4xx status, with no attempt left.
    ServerError(u16),
    /// The request itself failed, with no attempt left.
    Transport,
}

/// What to do after one attempt.
#[derive(Debug)]
pub enum LookupStep {
    Done(ApiResponse),
    Fail(LookupError),
    /// Sleep for so many milliseconds, then ask again.
    Retry(u64),
}

impl NotFoundSubAccount {
    /// The reason that the directory gave.
    pub fn error(&self) -> (r: &str)
        ensures
            r@ == self.reason(),
    {
        self.error.as_str()
    }

    /// The reason that the directory gave, as a plain text.
    pub closed spec fn reason(&self) -> Seq<char> {
        self.error@
    }
}

/// The text of the member `key` where it is a string.
pub open spec fn text_member(doc: Json, key: Seq<char>) -> Option<Seq<char>> {
    match doc.member(key) {
        Some(j) => j.text(),
        None => None,
    }
}

/// Whether a document has all the fields of an account: six of them with
/// their types, and `metadata` of any kind.
pub open spec fn is_account(doc: Json) -> bool {
    &&& text_member(doc, "id"@) is Some
    &&& text_member(doc, "minerId"@) is Some
    &&& text_member(doc, "poolTarget"@) is Some
    &&& text_member(doc, "subAccountName"@) is Some
    &&& doc.member("active"@) matches Some(Json::Bool(_))
    &&& doc.member("metadata"@) is Some
    &&& text_member(doc, "createdAt"@) is Some
}

/// Whether an account is the one that a document describes.
pub open spec fn account_of(info: SubAccountInfo, doc: Json) -> bool {
    &&& Some(info.id@) == text_member(doc, "id"@)
    &&& Some(info.miner_id@) == text_member(doc, "minerId"@)
    &&& Some(info.pool_target@) == text_member(doc, "poolTarget"@)
    &&& Some(info.sub_account_name@) == text_member(doc, "subAccountName"@)
    &&& Some(Json::Bool(info.active)) == doc.member("active"@)
    &&& Some(info.metadata) == doc.member("metadata"@)
    &&& Some(info.created_at@) == text_member(doc, "createdAt"@)
}

fn text_field(doc: &Json, key: &str) -> (r: Option<String>)
    ensures
        crate::params::opt_view(r) == text_member(*doc, key@),
{
    match doc.get(key) {
        Some(j) => match j.as_str() {
            Some(s) => Some(s.to_owned()),
            None => None,
        },
        None => None,
    }
}

impl SubAccountInfo {
    /// Reads an account out of a JSON object: `id`, `minerId`, `poolTarget`,
    /// `subAccountName` and `createdAt` as strings, `active` as a boolean and
    /// `metadata` as it is. Other members are ignored.
    pub fn from_json(doc: Json) -> (r: Option<SubAccountInfo>)
        ensures
            r is Some == is_account(doc),
            r matches Some(info) ==> account_of(info, doc),
    {
        let id = text_field(&doc, "id")?;
        let miner_id = text_field(&doc, "minerId")?;
        let pool_target = text_field(&doc, "poolTarget")?;
        let sub_account_name = text_field(&doc, "subAccountName")?;
        let created_at = text_field(&doc, "createdAt")?;
        let active = match doc.get("active") {
            Some(Json::Bool(b)) => *b,
            _ => {
                return None;
            },
        };
        let metadata = doc.into_member("metadata")?;
        Some(
            SubAccountInfo {
                id,
                miner_id,
                pool_target,
                sub_account_name,
                active,
                metadata,
                created_at,
            },
        )
    }
}

/// The answer that a body with an `error` member stands for.
pub open spec fn not_found_of(doc: Json) -> Option<Seq<char>> {
    text_member(doc, "error"@)
}

/// The step after a response with a readable body.
pub open spec fn body_step(success: bool, status: u16, doc: Json, step: LookupStep) -> bool {
    if doc.member("error"@) is Some {
        match not_found_of(doc) {
            Some(reason) => step matches LookupStep::Done(ApiResponse::NotFoundSubAccount(n))
                && n.reason() == reason,
            None => step == LookupStep::Fail(LookupError::BadBody),
        }
    } else if success {
        if is_account(doc) {
            step matches LookupStep::Done(ApiResponse::Successfully(info)) && account_of(info, doc)
        } else {
            step == LookupStep::Fail(LookupError::BadBody)
        }
    } else {
        step == LookupStep::Fail(LookupError::ClientError(status))
    }
}

/// Whether a status is in the 2xx class.
pub open spec fn is_success(status: u16) -> bool {
    200 <= status < 300
}

/// Whether a status is in the 4xx class.
pub open spec fn is_client_error(status: u16) -> bool {
    400 <= status < 500
}

/// The pause before attempt `attempt + 1`, in milliseconds.
pub open spec fn backoff(attempt: nat) -> nat {
    50 * attempt * attempt
}

/// The step after an attempt that brought no usable answer: again after the
/// pause while attempts are left, else the failure.
pub open spec fn retry_step(attempt: nat, max_retries: nat, failure: LookupError) -> LookupStep {
    if attempt > max_retries {
        LookupStep::Fail(failure)
    } else {
        LookupStep::Retry(backoff(attempt) as u64)
    }
}

/// The step after a response, given what its body decodes to.
pub open spec fn response_step(
    attempt: nat,
    max_retries: nat,
    status: u16,
    body: Option<Json>,
    step: LookupStep,
) -> bool {
    if is_success(status) || is_client_error(status) {
        match body {
            Some(doc) => body_step(is_success(status), status, doc, step),
            None => step == LookupStep::Fail(LookupError::BadBody),
        }
    } else {
        step == retry_step(attempt, max_retries, LookupError::ServerError(status))
    }
}

/// The client's settings. The transport itself lives with the caller.
#[derive(Debug)]
pub struct ApiClient {
    base_url: String,
    timeout_ms: u64,
    max_retries: usize,
}

impl ApiClient {
    /// The directory's base address.
    pub closed spec fn base(&self) -> Seq<char> {
        self.base_url@
    }

    /// The attempts that may follow the first.
    pub closed spec fn retries(&self) -> nat {
        self.max_retries as nat
    }

    /// The timeout of one request, in milliseconds.
    pub closed spec fn timeout(&self) -> u64 {
        self.timeout_ms
    }

    /// A client for the directory at `base_url`.
    pub fn new(base_url: String, timeout_ms: u64, max_retries: usize) -> (c: ApiClient)
        ensures
            c.base() == base_url@,
            c.timeout() == timeout_ms,
            c.retries() == max_retries,
    {
        ApiClient { base_url, timeout_ms, max_retries }
    }

    /// The timeout of one request, in milliseconds.
    pub fn timeout_ms(&self) -> (r: u64)
        ensures
            r == self.timeout(),
    {
        self.timeout_ms
    }

    /// The attempts that may follow the first.
    pub fn max_retries(&self) -> (r: usize)
        ensures
            r == self.retries(),
    {
        self.max_retries
    }

    /// The address that is asked for a worker.
    pub fn lookup_url(&self, worker_full_name: &str) -> (r: String)
        ensures
            r@ == self.base() + "/users/get-subAccount-info?workerName="@ + worker_full_name@,
    {
        let mut url = self.base_url.clone();
        url.append("/users/get-subAccount-info?workerName=");
        url.append(worker_full_name);
        url
    }

    /// The pause after attempt `attempt`: fifty milliseconds times its square.
    pub fn backoff_ms(attempt: u64) -> (r: u64)
        requires
            backoff(attempt as nat) <= u64::MAX,
        ensures
            r == backoff(attempt as nat),
    {
        assert(attempt * attempt <= u64::MAX && 50 * (attempt * attempt) == 50 * attempt * attempt)
            by (nonlinear_arith)
            requires
                50 * attempt * attempt <= u64::MAX,
        ;
        50 * (attempt * attempt)
    }

    /// The step after attempt `attempt` failed below the protocol.
    pub fn on_transport_error(&self, attempt: u64) -> (r: LookupStep)
        requires
            backoff(attempt as nat) <= u64::MAX,
        ensures
            r == retry_step(attempt as nat, self.retries(), LookupError::Transport),
    {
        self.retry(attempt, LookupError::Transport)
    }

    fn retry(&self, attempt: u64, failure: LookupError) -> (r: LookupStep)
        requires
            backoff(attempt as nat) <= u64::MAX,
        ensures
            r == retry_step(attempt as nat, self.retries(), failure),
    {
        if attempt > self.max_retries as u64 {
            LookupStep::Fail(failure)
        } else {
            LookupStep::Retry(ApiClient::backoff_ms(attempt))
        }
    }

    /// The step after attempt `attempt` brought a response whose body decoded
    /// to `body`, or to nothing.
    pub fn on_decoded(&self, attempt: u64, status: u16, body: Option<Json>) -> (r: LookupStep)
        requires
            backoff(attempt as nat) <= u64::MAX,
        ensures
            response_step(attempt as nat, self.retries(), status, body, r),
    {
        let success = 200 <= status && status < 300;
        let client_error = 400 <= status && status < 500;
        if !success && !client_error {
            return self.retry(attempt, LookupError::ServerError(status));
        }
        let doc = match body {
            Some(doc) => doc,
            None => {
                return LookupStep::Fail(LookupError::BadBody);
            },
        };
        if doc.get("error").is_some() {
            return match text_field(&doc, "error") {
                Some(error) => LookupStep::Done(
                    ApiResponse::NotFoundSubAccount(NotFoundSubAccount { error }),
                ),
                None => LookupStep::Fail(LookupError::BadBody),
            };
        }
        if success {
            match SubAccountInfo::from_json(doc) {
                Some(info) => LookupStep::Done(ApiResponse::Successfully(info)),
                None => LookupStep::Fail(LookupError::BadBody),
            }
        } else {
            LookupStep::Fail(LookupError::ClientError(status))
        }
    }

    /// The step after attempt `attempt` brought a response with this status
    /// and body.
    pub fn on_response(&self, attempt: u64, status: u16, body: &str) -> (r: LookupStep)
        requires
            backoff(attempt as nat) <= u64::MAX,
        ensures
            response_step(attempt as nat, self.retries(), status, json_of_text(body@), r),
    {
        if (200 <= status && status < 300) || (400 <= status && status < 500) {
            self.on_decoded(attempt, status, decode_json(body))
        } else {
            self.on_decoded(attempt, status, None)
        }
    }
}

} // verus!
